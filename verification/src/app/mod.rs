//! The application control logic.

use crate::app::branches::{audio_source, video_source};
use crate::app::flow::{handling_result, Flow, FlowView, Then};
use crate::error::{AppError, AppErrorView, GStreamerError, PeerError};
use crate::media::plan::{advanced, call_result, started, Plan, Verdict, VerdictView};
use crate::media::step::{
    argument_views, or_abort, or_return, regardless, step_views, Argument, ArgumentView, Call,
    CallView, PadReaction, PropertyValue, Reaction, Step, StepView, Target, TargetView,
};
use crate::media::webrtcbin::{
    announced_candidate, announces_candidate, awaited, connected, created, emitted,
    ice_candidate_added, local_description_set, remote_description_set, session_description,
    IceCandidate, PromiseOutcome, PromiseResult, Sdp, SdpView, SignalValue, WebRtcBin, WebRtcErr,
};
use crate::message::{
    optional_text, PipelineMessage, PipelineMessageView, WsMessage, WsMessageView,
};
use crate::text::{decimal, decimal_text, join3, same_text, starts_with};
use crate::wire::{wire_text, JsonMsg, JsonMsgView};
use rand::Rng;
use std::borrow::Cow;
use std::sync::Arc;
use vstd::prelude::*;

pub mod branches;
pub mod connections;
pub mod flow;
pub mod graph;
pub mod laws;
pub mod outcomes;
pub mod plugins;
pub mod reactions;

verus! {

/// A shared reference to the application state.
#[derive(Debug)]
pub struct App(pub Arc<AppInner>);

/// The application state.
#[derive(Debug)]
pub struct AppInner {
    /// `None` if we wait for a peer to appear.
    pub peer_id: Option<String>,
    pub webrtcbin: WebRtcBin,
    /// Whether lost video packets are sent again.
    pub rtx: bool,
}

/// The contents of an [`App`].
pub struct AppView {
    pub peer_id: Option<Seq<char>>,
    /// The name of the pipeline.
    pub pipeline: Seq<char>,
    /// The name of the webrtcbin element.
    pub webrtcbin: Seq<char>,
    pub rtx: bool,
}

impl Clone for App {
    /// Another reference to the same state.
    fn clone(&self) -> (app: App)
        ensures
            app == *self,
    {
        App(self.0.clone())
    }
}

impl View for App {
    type V = AppView;

    open spec fn view(&self) -> AppView {
        AppView {
            peer_id: optional_text(self.0.peer_id),
            pipeline: self.0.webrtcbin.pipeline@,
            webrtcbin: self.0.webrtcbin.webrtcbin@,
            rtx: self.0.rtx,
        }
    }
}

/// Posting a failure on the bus of the pipeline.
pub open spec fn reported(occasion: Occasion, error: Seq<char>) -> StepView {
    regardless(CallView::PostError { text: occasion.prefix() + error })
}

/// Handing a text message to the WebSocket.
pub open spec fn text_sent(text: Seq<char>) -> StepView {
    or_return(CallView::Send { message: WsMessageView::Text(text) })
}

/// The message by which an offer reaches the peer.
pub open spec fn offer_message(offer: Seq<char>) -> JsonMsgView {
    JsonMsgView::Sdp { type_: "offer"@, sdp: offer }
}

/// The message by which an answer reaches the peer.
pub open spec fn answer_message(answer: Seq<char>) -> JsonMsgView {
    JsonMsgView::Sdp { type_: "answer"@, sdp: answer }
}

/// The failures that are reported on the bus of the pipeline, because they come up where nobody
/// waits for a result.
#[derive(Debug, Clone, Copy, PartialEq, Eq, Structural)]
pub enum Occasion {
    DecodedStream,
    IncomingStream,
    SdpOffer,
    IceCandidate,
    Playing,
}

impl Occasion {
    /// What the report of the failure begins with.
    pub open spec fn prefix(self) -> Seq<char> {
        match self {
            Occasion::DecodedStream => "Failed to handle decoded stream: "@,
            Occasion::IncomingStream => "Failed to handle incoming stream: "@,
            Occasion::SdpOffer => "Failed to send SDP offer: "@,
            Occasion::IceCandidate => "Failed to send ICE candidate: "@,
            Occasion::Playing => "Failed to set pipeline to Playing: "@,
        }
    }
}

/// The steps that finish the pipeline once the peer is there, and actually start it. Negotiation
/// is up to us only if we call the peer; retransmission is for the first transceiver, that of the
/// video.
pub open spec fn pipeline_setup(app: AppView) -> Seq<StepView> {
    (if app.peer_id is Some {
        seq![connected("on-negotiation-needed"@, Reaction::Negotiate)]
    } else {
        Seq::empty()
    }) + seq![
        connected("on-ice-candidate"@, Reaction::SendCandidate),
        regardless(
            CallView::ConnectPadAdded {
                target: TargetView::WebRtcBin,
                pad_reaction: PadReaction::HandleStream,
            },
        ),
    ] + video_source(0) + audio_source(6) + (if app.rtx {
        seq![
            emitted("get-transceiver"@, seq![ArgumentView::Signed(0)]),
            or_abort(
                CallView::SetProperty {
                    target: TargetView::Transceiver,
                    property: "do-nack"@,
                    value: PropertyValue::Bool(true),
                },
            ),
        ]
    } else {
        Seq::empty()
    }) + seq![regardless(CallView::StartPlaying)]
}

/// Where the handling of a message stands whose steps stand like this.
pub open spec fn flow_of(verdict: VerdictView, then: Then) -> FlowView {
    match verdict {
        VerdictView::Continue(left) => FlowView::Perform(left, then),
        VerdictView::Complete => match then {
            Then::Finish => FlowView::Done(Ok(None)),
            Then::CreateAnswer => FlowView::CreateAnswer(
                emitted(
                    "create-answer"@,
                    seq![ArgumentView::NoStructure, ArgumentView::Promise],
                ),
            ),
        },
        VerdictView::Failed(error) => FlowView::Done(Err(error)),
        VerdictView::Abort(text) => FlowView::Abort(text),
    }
}

/// What is said to the server after its greeting: whom we want to talk to, if anybody.
pub open spec fn hello_handled(app: AppView) -> FlowView {
    FlowView::Done(
        Ok(
            match app.peer_id {
                Some(peer_id) => Some(WsMessageView::Text("SESSION "@ + peer_id)),
                None => None,
            },
        ),
    )
}

/// What is done when the session is set up: the pipeline is finished and started.
pub open spec fn session_ok_handled(app: AppView) -> FlowView {
    flow_of(started(pipeline_setup(app)), Then::Finish)
}

/// What is done with a session description of the peer.
pub open spec fn sdp_handled(app: AppView, type_: Seq<char>, sdp: Seq<char>) -> FlowView {
    if type_ == "answer"@ {
        flow_of(started(seq![remote_description_set(SdpView::Answer(sdp))]), Then::Finish)
    } else if type_ == "offer"@ {
        flow_of(
            started(pipeline_setup(app) + seq![remote_description_set(SdpView::Offer(sdp))]),
            Then::CreateAnswer,
        )
    } else {
        FlowView::Done(
            Err(AppErrorView::Peer("Sdp type is not \"answer\" but \""@ + type_ + "\""@)),
        )
    }
}

/// What is done with an ICE candidate of the peer.
pub open spec fn ice_handled(sdp_mline_index: u32, candidate: Seq<char>) -> FlowView {
    flow_of(
        started(seq![or_abort(ice_candidate_added(sdp_mline_index, candidate).call)]),
        Then::Finish,
    )
}

/// What is done with a message of the peer, once it is parsed.
pub open spec fn json_handled(app: AppView, parsed: Result<JsonMsgView, Seq<char>>) -> FlowView {
    match parsed {
        Err(text) => FlowView::Done(Err(AppErrorView::Json(text))),
        Ok(JsonMsgView::Sdp { type_, sdp }) => sdp_handled(app, type_, sdp),
        Ok(JsonMsgView::Ice { candidate, sdp_mline_index }) => ice_handled(
            sdp_mline_index,
            candidate,
        ),
    }
}

/// What is done with an answer that webrtcbin created: it becomes our description of the session
/// and goes to the peer.
pub open spec fn answer_handled(answer: Seq<char>) -> FlowView {
    flow_of(
        started(
            seq![
                local_description_set(SdpView::Answer(answer)),
                regardless(text_sent(wire_text(answer_message(answer))).call),
            ],
        ),
        Then::Finish,
    )
}

/// What is done about a promise for an answer.
pub open spec fn answer_promise_handled(outcome: Option<PromiseOutcome>) -> FlowView {
    match awaited(outcome, "answer"@) {
        Ok(answer) => answer_handled(answer),
        Err(error) => FlowView::Abort(WebRtcErr::description(error)),
    }
}

/// What is done with a text from the server: its own messages are plain words, everything else
/// is JSON from the peer.
pub open spec fn text_handled(app: AppView, text: Seq<char>) -> FlowView {
    if text == "HELLO"@ {
        hello_handled(app)
    } else if text == "SESSION_OK"@ {
        session_ok_handled(app)
    } else if "ERROR"@.is_prefix_of(text) {
        FlowView::Done(Err(AppErrorView::Peer(text)))
    } else {
        FlowView::ParseJson(text)
    }
}

/// What is done with a WebSocket message.
pub open spec fn message_handled(app: AppView, message: WsMessageView) -> FlowView {
    match message {
        WsMessageView::Close(_) => FlowView::Done(Ok(Some(WsMessageView::Close(None)))),
        WsMessageView::Ping(data) => FlowView::Done(Ok(Some(WsMessageView::Pong(data)))),
        WsMessageView::Text(text) => text_handled(app, text),
        WsMessageView::Binary(_) | WsMessageView::Pong(_) => FlowView::Done(Ok(None)),
    }
}

/// A text, or the word for its absence.
pub open spec fn or_none(text: Option<Seq<char>>) -> Seq<char> {
    match text {
        Some(text) => text,
        None => "None"@,
    }
}

/// What is done with a message of the pipeline: only errors matter.
pub open spec fn pipeline_message_handled(message: PipelineMessageView) -> Result<
    Option<WsMessageView>,
    AppErrorView,
> {
    match message {
        PipelineMessageView::Error { src, error, debug } => Err(
            AppErrorView::GStreamer(
                "Error from element "@ + or_none(src) + ": "@ + error + " ("@ + or_none(debug)
                    + ")"@,
            ),
        ),
        _ => Ok(None),
    }
}

/// The text by which we register under a number.
pub open spec fn registration(our_id: nat) -> Seq<char> {
    "HELLO "@ + decimal(our_id)
}

/// What is done about a promise for an offer.
pub open spec fn offer_handled(promise: PromiseOutcome) -> VerdictView {
    if promise.result != PromiseResult::Replied {
        VerdictView::Failed(
            AppErrorView::GStreamer(
                "Offer creation future got no reponse: "@ + promise.result.name(),
            ),
        )
    } else {
        started(
            seq![
                emitted(
                    "set-local-description"@,
                    seq![ArgumentView::CreatedOffer, ArgumentView::NoPromise],
                ),
                text_sent(wire_text(offer_message(created(promise, "offer"@)->Ok_0))),
            ],
        )
    }
}

/// The contents of what parsing gave.
pub open spec fn parse_result(parsed: Result<JsonMsg, String>) -> Result<JsonMsgView, Seq<char>> {
    match parsed {
        Ok(msg) => Ok(msg@),
        Err(text) => Err(text@),
    }
}

/// Calls `rand::thread_rng` and `gen_range` on the generator that it returns.
///
/// Claimed of it: the number that it draws is at least `low` and below `high`. Which one it is
/// is left to chance. Where the operating system has no randomness to seed the generator with,
/// `rand::thread_rng` panics; no condition on the arguments can rule that out.
#[verifier::external_body]
fn random_between(low: u32, high: u32) -> (n: u32)
    requires
        low < high,
    ensures
        low <= n < high,
{
    rand::thread_rng().gen_range(low, high)
}

impl App {
    /// Posts an error message on the bus, for what goes wrong on threads of the media framework.
    pub fn post_error(&self, msg: &str) -> (step: Step)
        ensures
            step@ == regardless(CallView::PostError { text: msg@ }),
    {
        Step::regardless(Call::PostError { text: msg.to_owned() })
    }

    /// Posts the failure of something that nobody waits for.
    pub fn report_failure(&self, occasion: Occasion, error: &str) -> (step: Step)
        ensures
            step@ == reported(occasion, error@),
    {
        let prefix = match occasion {
            Occasion::DecodedStream => "Failed to handle decoded stream: ",
            Occasion::IncomingStream => "Failed to handle incoming stream: ",
            Occasion::SdpOffer => "Failed to send SDP offer: ",
            Occasion::IceCandidate => "Failed to send ICE candidate: ",
            Occasion::Playing => "Failed to set pipeline to Playing: ",
        };
        let text = prefix.to_owned().concat(error);
        self.post_error(text.as_str())
    }

    /// Sends a plain text message over the WebSocket connection. It fails only when the
    /// connection is closed.
    pub fn send_text_msg(&self, msg: String) -> (step: Step)
        ensures
            step@ == text_sent(msg@),
    {
        Step::or_return(Call::Send { message: WsMessage::Text(msg) })
    }

    /// Once webrtcbin has created the offer, makes it our description of the session and sends
    /// it to the peer.
    pub fn on_offer_created(&self, promise: &PromiseOutcome) -> (verdict: Verdict)
        requires
            promise.result == PromiseResult::Replied ==> created(*promise, "offer"@) is Ok,
        ensures
            verdict@ == offer_handled(*promise),
    {
        match promise.result {
            PromiseResult::Replied => {},
            _ => {
                let text = "Offer creation future got no reponse: ".to_owned().concat(
                    promise.result.to_text().as_str(),
                );
                return Verdict::Failed(AppError::GStreamer(GStreamerError(text)));
            },
        }
        let offer = session_description(promise, "offer").unwrap();
        let arguments = vec![Argument::CreatedOffer, Argument::NoPromise];
        assert(argument_views(arguments@) =~= seq![
            ArgumentView::CreatedOffer,
            ArgumentView::NoPromise,
        ]);
        let steps = vec![
            Step::or_abort(
                Call::Emit { signal: "set-local-description".to_owned(), arguments },
            ),
            self.send_sdp_offer(offer),
        ];
        assert(started(step_views(steps@)) == offer_handled(*promise)) by {
            assert(step_views(steps@) =~= seq![steps@[0]@, steps@[1]@]);
        }
        Plan::begin(steps)
    }

    /// Sends our offer to the peer as a JSON message.
    pub fn send_sdp_offer(&self, offer: String) -> (step: Step)
        ensures
            step@ == text_sent(wire_text(offer_message(offer@))),
    {
        let message = JsonMsg::Sdp { type_: "offer".to_owned(), sdp: offer };
        self.send_text_msg(message.to_text())
    }

    /// Sends our answer to the peer as a JSON message.
    pub fn send_sdp_answer(&self, answer: String) -> (step: Step)
        ensures
            step@ == text_sent(wire_text(answer_message(answer@))),
    {
        let message = JsonMsg::Sdp { type_: "answer".to_owned(), sdp: answer };
        self.send_text_msg(message.to_text())
    }

    /// Sends an ICE candidate to the peer as a JSON message.
    pub fn send_ice_candidate_message(&self, mlineindex: u32, candidate: String) -> (step: Step)
        ensures
            step@ == text_sent(
                wire_text(
                    JsonMsgView::Ice { candidate: candidate@, sdp_mline_index: mlineindex },
                ),
            ),
    {
        let message = JsonMsg::Ice { candidate, sdp_mline_index: mlineindex };
        self.send_text_msg(message.to_text())
    }

    /// Sends a candidate of ours, announced by the values of `on-ice-candidate`, to the peer.
    pub fn on_ice_candidate(&self, values: &Vec<SignalValue>) -> (step: Step)
        requires
            announces_candidate(values@),
            values@[0] is Element,
        ensures
            step@ == text_sent(
                wire_text(
                    JsonMsgView::Ice {
                        candidate: values@[2]->Text_0@,
                        sdp_mline_index: values@[1]->Unsigned_0,
                    },
                ),
            ),
    {
        let ice_candidate = announced_candidate(values);
        let candidate = match ice_candidate.candidate {
            Cow::Borrowed(candidate) => candidate.to_owned(),
            Cow::Owned(candidate) => candidate,
        };
        self.send_ice_candidate_message(ice_candidate.sdp_mline_index, candidate)
    }

    /// Asks for an offer that starts a negotiation. What became of the promise goes to
    /// [`App::on_offer_promise`].
    pub fn on_negotiation_needed(&self) -> (step: Step)
        ensures
            step@ == emitted(
                "create-offer"@,
                seq![ArgumentView::NoStructure, ArgumentView::Promise],
            ),
    {
        self.0.webrtcbin.create_offer()
    }

    /// Lists the steps that finish our pipeline and actually start it once the connection with
    /// the peer is there.
    pub fn setup_pipeline(&self) -> (steps: Vec<Step>)
        ensures
            step_views(steps@) == pipeline_setup(self@),
    {
        let mut steps: Vec<Step> = Vec::new();
        if self.0.peer_id.is_some() {
            steps.push(
                Step::or_abort(
                    Call::Connect {
                        signal: "on-negotiation-needed".to_owned(),
                        reaction: Reaction::Negotiate,
                    },
                ),
            );
        }
        steps.push(
            Step::or_abort(
                Call::Connect {
                    signal: "on-ice-candidate".to_owned(),
                    reaction: Reaction::SendCandidate,
                },
            ),
        );
        steps.push(
            Step::regardless(
                Call::ConnectPadAdded {
                    target: Target::WebRtcBin,
                    pad_reaction: PadReaction::HandleStream,
                },
            ),
        );
        let mut video = self.add_video_source(0);
        steps.append(&mut video);
        let mut audio = self.add_audio_source(6);
        steps.append(&mut audio);
        // Retransmission only for video: browsers fail the negotiation otherwise.
        if self.0.rtx {
            steps.push(self.0.webrtcbin.get_transceiver(0));
            steps.push(Step::set(Target::Transceiver, "do-nack", PropertyValue::Bool(true)));
        }
        steps.push(Step::regardless(Call::StartPlaying));
        assert(step_views(steps@) =~= pipeline_setup(self@));
        steps
    }

    /// The message that tells the server whom we want to talk to.
    pub fn setup_call(&self, peer_id: &str) -> (message: WsMessage)
        ensures
            message@ == WsMessageView::Text("SESSION "@ + peer_id@),
    {
        WsMessage::Text("SESSION ".to_owned().concat(peer_id))
    }

    /// Once the server has greeted us, sets up the call, or waits for a peer to appear.
    pub fn handle_hello(&self) -> (flow: Flow)
        ensures
            flow@ == hello_handled(self@),
    {
        match &self.0.peer_id {
            Some(peer_id) => Flow::Done(Ok(Some(self.setup_call(peer_id.as_str())))),
            None => Flow::Done(Ok(None)),
        }
    }

    /// Carries out steps.
    fn perform(&self, verdict: Verdict, then: Then) -> (flow: Flow)
        ensures
            flow@ == flow_of(verdict@, then),
    {
        match verdict {
            Verdict::Continue(plan) => Flow::Perform(plan, then),
            Verdict::Complete => match then {
                Then::Finish => Flow::Done(Ok(None)),
                Then::CreateAnswer => Flow::CreateAnswer(self.0.webrtcbin.create_answer()),
            },
            Verdict::Failed(error) => Flow::Done(Err(error)),
            Verdict::Abort(text) => Flow::Abort(text),
        }
    }

    /// Goes on with the handling of a message after the result of the current step.
    pub fn resume(&self, plan: Plan, then: Then, result: Result<(), String>) -> (flow: Flow)
        ensures
            plan@.len() > 0,
            flow@ == flow_of(advanced(plan@, call_result(result)), then),
    {
        self.perform(plan.advance(result), then)
    }

    /// Once the session is set up, finishes the pipeline and starts it.
    pub fn handle_session_ok(&self) -> (flow: Flow)
        ensures
            flow@ == session_ok_handled(self@),
    {
        self.perform(Plan::begin(self.setup_pipeline()), Then::Finish)
    }

    /// Handles an error that the server or the peer reports.
    pub fn handle_error(&self, msg: &str) -> (flow: Flow)
        ensures
            flow@ == FlowView::Done(Err(AppErrorView::Peer(msg@))),
    {
        Flow::Done(Err(AppError::Peer(PeerError(msg.to_owned()))))
    }

    /// Handles a session description of the peer: an answer to our offer, or an offer that we
    /// answer.
    pub fn handle_sdp(&self, type_: &str, sdp: &str) -> (flow: Flow)
        ensures
            flow@ == sdp_handled(self@, type_@, sdp@),
    {
        if same_text(type_, "answer") {
            let steps = vec![
                self.0.webrtcbin.set_remote_description(Sdp::Answer(sdp.to_owned())),
            ];
            assert(step_views(steps@) =~= seq![remote_description_set(SdpView::Answer(sdp@))]);
            self.perform(Plan::begin(steps), Then::Finish)
        } else if same_text(type_, "offer") {
            let mut steps = self.setup_pipeline();
            steps.push(self.0.webrtcbin.set_remote_description(Sdp::Offer(sdp.to_owned())));
            assert(step_views(steps@) =~= pipeline_setup(self@) + seq![
                remote_description_set(SdpView::Offer(sdp@)),
            ]);
            self.perform(Plan::begin(steps), Then::CreateAnswer)
        } else {
            let text = join3("Sdp type is not \"answer\" but \"", type_, "\"");
            Flow::Done(Err(AppError::Peer(PeerError(text))))
        }
    }

    /// Takes the answer that webrtcbin was asked for; `None` stands for a promise that was
    /// dropped. Without an answer the program cannot go on.
    pub fn on_answer_promise(&self, outcome: Option<PromiseOutcome>) -> (flow: Flow)
        ensures
            flow@ == answer_promise_handled(outcome),
    {
        match self.0.webrtcbin.answer_created(outcome) {
            Ok(answer) => self.on_answer_created(answer),
            Err(error) => Flow::Abort(error.into_text()),
        }
    }

    /// Makes an answer that webrtcbin created our description of the session and sends it to
    /// the peer.
    pub fn on_answer_created(&self, answer: String) -> (flow: Flow)
        ensures
            flow@ == answer_handled(answer@),
    {
        let local = self.0.webrtcbin.set_local_description(Sdp::Answer(answer.clone()));
        let sent = self.send_sdp_answer(answer).ignoring_failure();
        let steps = vec![local, sent];
        assert(step_views(steps@) =~= seq![local@, sent@]);
        self.perform(Plan::begin(steps), Then::Finish)
    }

    /// Handles an ICE candidate of the peer by passing it to webrtcbin.
    pub fn handle_ice(&self, sdp_mline_index: u32, candidate: &str) -> (flow: Flow)
        ensures
            flow@ == ice_handled(sdp_mline_index, candidate@),
    {
        let steps = vec![
            self.0.webrtcbin.add_ice_candidate(
                IceCandidate { sdp_mline_index, candidate: Cow::Borrowed(candidate) },
            ).required(),
        ];
        assert(step_views(steps@) =~= seq![
            or_abort(ice_candidate_added(sdp_mline_index, candidate@).call),
        ]);
        self.perform(Plan::begin(steps), Then::Finish)
    }

    /// Handles a text that came over the WebSocket connection.
    pub fn on_message(&self, msg: &str) -> (flow: Flow)
        ensures
            flow@ == text_handled(self@, msg@),
    {
        if same_text(msg, "HELLO") {
            self.handle_hello()
        } else if same_text(msg, "SESSION_OK") {
            self.handle_session_ok()
        } else if starts_with(msg, "ERROR") {
            self.handle_error(msg)
        } else {
            Flow::ParseJson(msg.to_owned())
        }
    }

    /// Handles a message of the peer, once it is parsed.
    pub fn on_json(&self, parsed: Result<JsonMsg, String>) -> (flow: Flow)
        ensures
            flow@ == json_handled(self@, parse_result(parsed)),
    {
        match parsed {
            Err(text) => Flow::Done(Err(AppError::Json(text))),
            Ok(JsonMsg::Sdp { type_, sdp }) => self.handle_sdp(type_.as_str(), sdp.as_str()),
            Ok(JsonMsg::Ice { candidate, sdp_mline_index }) => self.handle_ice(
                sdp_mline_index,
                candidate.as_str(),
            ),
        }
    }

    /// Handles WebSocket messages, both our own as well as those of the WebSocket protocol.
    pub fn handle_websocket_message(&self, message: WsMessage) -> (flow: Flow)
        ensures
            flow@ == message_handled(self@, message@),
    {
        match message {
            WsMessage::Close(_) => Flow::Done(Ok(Some(WsMessage::Close(None)))),
            WsMessage::Ping(data) => Flow::Done(Ok(Some(WsMessage::Pong(data)))),
            WsMessage::Text(msg) => self.on_message(msg.as_str()),
            WsMessage::Binary(_) | WsMessage::Pong(_) => Flow::Done(Ok(None)),
        }
    }

    /// Handles messages that come from the pipeline.
    pub fn handle_pipeline_message(&self, message: PipelineMessage) -> (result: Result<
        Option<WsMessage>,
        AppError,
    >)
        requires
            message matches PipelineMessage::Warning { debug } ==> debug is Some,
        ensures
            handling_result(result) == pipeline_message_handled(message@),
    {
        match message {
            PipelineMessage::Error { src, error, debug } => {
                let mut text = "Error from element ".to_owned();
                match src {
                    Some(src) => text.append(src.as_str()),
                    None => text.append("None"),
                }
                text.append(": ");
                text.append(error.as_str());
                text.append(" (");
                match debug {
                    Some(debug) => text.append(debug.as_str()),
                    None => text.append("None"),
                }
                text.append(")");
                Err(AppError::GStreamer(GStreamerError(text)))
            },
            PipelineMessage::Warning { .. } => Ok(None),
            PipelineMessage::Other => Ok(None),
        }
    }

    /// Registers with the server under this number.
    pub fn register_as(&self, our_id: u32) -> (step: Step)
        ensures
            step@ == or_abort(text_sent(registration(our_id as nat)).call),
    {
        let text = "HELLO ".to_owned().concat(decimal_text(our_id).as_str());
        self.send_text_msg(text).required()
    }

    /// Registers with the server under a random number, to start everything.
    pub fn register_with_server(&self) -> (step: Step)
        ensures
            exists|our_id: nat|
                10 <= our_id < 10_000 && step@ == or_abort(
                    text_sent(#[trigger] registration(our_id)).call,
                ),
    {
        let our_id: u32 = random_between(10, 10_000);
        let step = self.register_as(our_id);
        assert(10 <= (our_id as nat) < 10_000 && step@ == or_abort(
            text_sent(registration(our_id as nat)).call,
        ));
        step
    }
}

} // verus!
