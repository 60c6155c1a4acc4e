//! The element that speaks WebRTC, and the pipeline that it lives in.

use crate::media::step::{
    argument_views, numbers, or_abort, or_return, regardless, step_views, Argument, ArgumentView,
    Call, CallView, PipelineState, Reaction, SdpType, Step, StepView, Target, TargetView,
};
use crate::text::{join3, same_text, signed_decimal, signed_decimal_text};
use std::borrow::Cow;
use vstd::prelude::*;

verus! {

/// Why a session description could not be created.
#[derive(Debug, PartialEq, Eq)]
pub enum WebRtcErr {
    /// The promise was dropped before it was resolved.
    Canceled,
    Whatever(String),
}

/// The contents of a [`WebRtcErr`].
pub enum WebRtcErrView {
    Canceled,
    Whatever(Seq<char>),
}

impl View for WebRtcErr {
    type V = WebRtcErrView;

    open spec fn view(&self) -> WebRtcErrView {
        match self {
            WebRtcErr::Canceled => WebRtcErrView::Canceled,
            WebRtcErr::Whatever(text) => WebRtcErrView::Whatever(text@),
        }
    }
}

impl WebRtcErr {
    /// The description of the error.
    pub open spec fn description(error: WebRtcErrView) -> Seq<char> {
        match error {
            WebRtcErrView::Canceled => "Canceled"@,
            WebRtcErrView::Whatever(text) => text,
        }
    }

    /// Describes the error.
    pub fn into_text(self) -> (text: String)
        ensures
            text@ == WebRtcErr::description(self@),
    {
        match self {
            WebRtcErr::Canceled => "Canceled".to_owned(),
            WebRtcErr::Whatever(text) => text,
        }
    }
}

/// How the media streams of a session share transports.
#[derive(Debug, Clone, Copy, PartialEq, Eq, Structural)]
pub enum RtcBundlePolicy {
    Balanced,
    MaxCompat,
    MaxBundle,
}

impl RtcBundlePolicy {
    /// The name that the media framework has for the policy.
    pub open spec fn name(self) -> Seq<char> {
        match self {
            RtcBundlePolicy::Balanced => "balanced"@,
            RtcBundlePolicy::MaxCompat => "max-compat"@,
            RtcBundlePolicy::MaxBundle => "max-bundle"@,
        }
    }

    /// The name that the media framework has for the policy.
    pub fn as_ref(&self) -> (name: &'static str)
        ensures
            name@ == self.name(),
    {
        match self {
            RtcBundlePolicy::Balanced => "balanced",
            RtcBundlePolicy::MaxCompat => "max-compat",
            RtcBundlePolicy::MaxBundle => "max-bundle",
        }
    }
}

/// A session description as text.
#[derive(Debug, PartialEq, Eq)]
pub enum Sdp {
    Answer(String),
    Offer(String),
}

/// The contents of an [`Sdp`].
pub enum SdpView {
    Answer(Seq<char>),
    Offer(Seq<char>),
}

impl View for Sdp {
    type V = SdpView;

    open spec fn view(&self) -> SdpView {
        match self {
            Sdp::Answer(sdp) => SdpView::Answer(sdp@),
            Sdp::Offer(sdp) => SdpView::Offer(sdp@),
        }
    }
}

/// The signal argument that a session description becomes.
pub open spec fn description(sdp: SdpView) -> ArgumentView {
    match sdp {
        SdpView::Answer(sdp) => ArgumentView::Description { type_: SdpType::Answer, sdp },
        SdpView::Offer(sdp) => ArgumentView::Description { type_: SdpType::Offer, sdp },
    }
}

impl Sdp {
    /// Turns the session description into an argument of a signal.
    pub fn into_description(self) -> (argument: Argument)
        ensures
            argument@ == description(self@),
    {
        match self {
            Sdp::Answer(sdp) => Argument::Description { type_: SdpType::Answer, sdp },
            Sdp::Offer(sdp) => Argument::Description { type_: SdpType::Offer, sdp },
        }
    }
}

/// An ICE candidate and the index of the media line that it belongs to.
#[derive(Debug)]
pub struct IceCandidate<'a> {
    pub sdp_mline_index: u32,
    pub candidate: Cow<'a, str>,
}

/// What webrtcbin reports.
#[derive(Debug)]
pub enum WebRtcBinEvent<'a, 'b> {
    OnNegotiationNeeded,
    OnIceCandidate(IceCandidate<'a>),
    PadAdded(&'b Pad),
}

/// The contents of a [`WebRtcBinEvent`].
pub enum EventView {
    OnNegotiationNeeded,
    OnIceCandidate { sdp_mline_index: u32, candidate: Seq<char> },
    PadAdded(Pad),
}

impl<'a, 'b> View for WebRtcBinEvent<'a, 'b> {
    type V = EventView;

    open spec fn view(&self) -> EventView {
        match self {
            WebRtcBinEvent::OnNegotiationNeeded => EventView::OnNegotiationNeeded,
            WebRtcBinEvent::OnIceCandidate(ice_candidate) => EventView::OnIceCandidate {
                sdp_mline_index: ice_candidate.sdp_mline_index,
                candidate: ice_candidate.candidate@,
            },
            WebRtcBinEvent::PadAdded(pad) => EventView::PadAdded(**pad),
        }
    }
}

/// The direction in which data passes through a pad.
#[derive(Debug, Clone, Copy, PartialEq, Eq, Structural)]
pub enum PadDirection {
    Unknown,
    Src,
    Sink,
}

/// A pad of an element, with the name of its current capabilities.
#[derive(Debug, PartialEq, Eq)]
pub struct Pad {
    pub direction: PadDirection,
    pub caps_name: Option<String>,
}

/// A value that comes with a signal.
#[derive(Debug, PartialEq, Eq)]
pub enum SignalValue {
    Element,
    Unsigned(u32),
    Text(String),
    Other,
}

/// How a promise was resolved.
#[derive(Debug, Clone, Copy, PartialEq, Eq, Structural)]
pub enum PromiseResult {
    Pending,
    Interrupted,
    Replied,
    Expired,
    Unknown(i32),
}

impl PromiseResult {
    /// The name of the result for diagnostics.
    pub open spec fn name(self) -> Seq<char> {
        match self {
            PromiseResult::Pending => "Pending"@,
            PromiseResult::Interrupted => "Interrupted"@,
            PromiseResult::Replied => "Replied"@,
            PromiseResult::Expired => "Expired"@,
            PromiseResult::Unknown(n) => "__Unknown("@ + signed_decimal(n as int) + ")"@,
        }
    }

    /// Writes the name of the result for diagnostics.
    pub fn to_text(&self) -> (text: String)
        ensures
            text@ == self.name(),
    {
        match self {
            PromiseResult::Pending => "Pending".to_owned(),
            PromiseResult::Interrupted => "Interrupted".to_owned(),
            PromiseResult::Replied => "Replied".to_owned(),
            PromiseResult::Expired => "Expired".to_owned(),
            PromiseResult::Unknown(n) => join3(
                "__Unknown(",
                signed_decimal_text(*n).as_str(),
                ")",
            ),
        }
    }
}

/// A value in the reply to a promise.
#[derive(Debug, PartialEq, Eq)]
pub enum ReplyValue {
    /// A session description, with its text unless it cannot be written as text.
    Description { text: Option<String> },
    /// A value of another type.
    Other,
}

/// A named value in the reply to a promise.
#[derive(Debug, PartialEq, Eq)]
pub struct ReplyField {
    pub name: String,
    pub value: ReplyValue,
}

/// What became of a promise: how it was resolved and with which reply.
#[derive(Debug, PartialEq, Eq)]
pub struct PromiseOutcome {
    pub result: PromiseResult,
    pub reply: Option<Vec<ReplyField>>,
}

/// The value of the first field of this name.
pub open spec fn field_value(fields: Seq<ReplyField>, name: Seq<char>) -> Option<ReplyValue>
    decreases fields.len(),
{
    if fields.len() == 0 {
        None
    } else if fields[0].name@ == name {
        Some(fields[0].value)
    } else {
        field_value(fields.drop_first(), name)
    }
}

/// What a promise for the session description in the field of this name gives.
pub open spec fn created(outcome: PromiseOutcome, field: Seq<char>) -> Result<
    Seq<char>,
    WebRtcErrView,
> {
    if outcome.result != PromiseResult::Replied {
        Err(WebRtcErrView::Whatever("Unresolved promise"@))
    } else {
        match outcome.reply {
            None => Err(WebRtcErrView::Whatever("No reply in reply"@)),
            Some(fields) => match field_value(fields@, field) {
                None => Err(WebRtcErrView::Whatever("No `"@ + field + "` field in reply"@)),
                Some(ReplyValue::Other) => Err(
                    WebRtcErrView::Whatever("Not `WebRTCSessionDescription`"@),
                ),
                Some(ReplyValue::Description { text: None }) => Err(
                    WebRtcErrView::Whatever("SDP is not text"@),
                ),
                Some(ReplyValue::Description { text: Some(text) }) => Ok(text@),
            },
        }
    }
}

/// What waiting for a promise for the session description in the field of this name gives;
/// `None` stands for a promise that was dropped.
pub open spec fn awaited(outcome: Option<PromiseOutcome>, field: Seq<char>) -> Result<
    Seq<char>,
    WebRtcErrView,
> {
    match outcome {
        None => Err(WebRtcErrView::Canceled),
        Some(outcome) => created(outcome, field),
    }
}

/// The result of creating a session description, by its contents.
pub open spec fn creation(result: Result<String, WebRtcErr>) -> Result<Seq<char>, WebRtcErrView> {
    match result {
        Ok(text) => Ok(text@),
        Err(error) => Err(error@),
    }
}

/// Looks up the value of the first field of this name.
fn find_field<'a>(fields: &'a Vec<ReplyField>, name: &str) -> (value: Option<&'a ReplyValue>)
    ensures
        match value {
            Some(value) => field_value(fields@, name@) == Some(*value),
            None => field_value(fields@, name@) is None,
        },
{
    let mut i: usize = 0;
    assert(fields@.skip(0) =~= fields@);
    while i < fields.len()
        invariant
            i <= fields@.len(),
            field_value(fields@, name@) == field_value(fields@.skip(i as int), name@),
        decreases fields@.len() - i,
    {
        if same_text(fields[i].name.as_str(), name) {
            return Some(&fields[i].value);
        }
        assert(fields@.skip(i as int).drop_first() =~= fields@.skip(i + 1));
        i += 1;
    }
    None
}

/// Takes the session description in the field of this name out of a resolved promise.
pub fn session_description(outcome: &PromiseOutcome, field: &str) -> (result: Result<
    String,
    WebRtcErr,
>)
    ensures
        creation(result) == created(*outcome, field@),
{
    match outcome.result {
        PromiseResult::Replied => {},
        _ => return Err(WebRtcErr::Whatever("Unresolved promise".to_owned())),
    }
    let fields = match &outcome.reply {
        None => return Err(WebRtcErr::Whatever("No reply in reply".to_owned())),
        Some(fields) => fields,
    };
    match find_field(fields, field) {
        None => Err(WebRtcErr::Whatever(join3("No `", field, "` field in reply"))),
        Some(ReplyValue::Other) => Err(
            WebRtcErr::Whatever("Not `WebRTCSessionDescription`".to_owned()),
        ),
        Some(ReplyValue::Description { text: None }) => Err(
            WebRtcErr::Whatever("SDP is not text".to_owned()),
        ),
        Some(ReplyValue::Description { text: Some(text) }) => Ok(text.clone()),
    }
}

/// Emitting a signal on webrtcbin.
pub open spec fn emitted(signal: Seq<char>, arguments: Seq<ArgumentView>) -> StepView {
    or_abort(CallView::Emit { signal, arguments })
}

/// Connecting the client to a signal of webrtcbin.
pub open spec fn connected(signal: Seq<char>, reaction: Reaction) -> StepView {
    or_abort(CallView::Connect { signal, reaction })
}

/// The steps by which a subscriber is connected.
pub open spec fn subscription() -> Seq<StepView> {
    seq![
        connected("on-negotiation-needed"@, Reaction::Deliver),
        connected("on-ice-candidate"@, Reaction::Deliver),
    ]
}

/// The event that a subscriber gets for a signal with these values, if any.
pub open spec fn event_of(signal: Seq<char>, values: Seq<SignalValue>) -> Option<EventView> {
    if signal == "on-negotiation-needed"@ {
        Some(EventView::OnNegotiationNeeded)
    } else if signal == "on-ice-candidate"@ {
        Some(
            EventView::OnIceCandidate {
                sdp_mline_index: values[1]->Unsigned_0,
                candidate: values[2]->Text_0@,
            },
        )
    } else {
        None
    }
}

/// What was in the value that a signal returned which is to return a transceiver.
#[derive(Debug, PartialEq, Eq)]
pub enum Returned<T> {
    Transceiver(T),
    /// No transceiver, or a value of another type.
    Nothing,
}

/// Applying a session description to our end of the session.
pub open spec fn local_description_set(sdp: SdpView) -> StepView {
    emitted("set-local-description"@, seq![description(sdp), ArgumentView::Promise])
}

/// Applying a session description to the peer's end of the session.
pub open spec fn remote_description_set(sdp: SdpView) -> StepView {
    emitted("set-remote-description"@, seq![description(sdp), ArgumentView::Promise])
}

/// Adding an ICE candidate of the peer.
pub open spec fn ice_candidate_added(sdp_mline_index: u32, candidate: Seq<char>) -> StepView {
    or_return(
        CallView::Emit {
            signal: "add-ice-candidate"@,
            arguments: seq![
                ArgumentView::Unsigned(sdp_mline_index),
                ArgumentView::Text(candidate),
            ],
        },
    )
}

/// Whether the values that came with `on-ice-candidate` are of the types that it has.
pub open spec fn announces_candidate(values: Seq<SignalValue>) -> bool {
    values.len() > 2 && values[1] is Unsigned && values[2] is Text
}

/// The candidate that the values of `on-ice-candidate` announce: the second value is the index
/// of the media line, the third the candidate.
pub fn announced_candidate(values: &Vec<SignalValue>) -> (ice_candidate: IceCandidate<'static>)
    requires
        announces_candidate(values@),
    ensures
        ice_candidate.sdp_mline_index == values@[1]->Unsigned_0,
        ice_candidate.candidate@ == values@[2]->Text_0@,
{
    match (&values[1], &values[2]) {
        (SignalValue::Unsigned(index), SignalValue::Text(candidate)) => IceCandidate {
            sdp_mline_index: *index,
            candidate: Cow::Owned(candidate.clone()),
        },
        _ => vstd::pervasive::unreached(),
    }
}

/// The pipeline and the webrtcbin element in it, by their names.
#[derive(Debug, PartialEq, Eq)]
pub struct WebRtcBin {
    pub pipeline: String,
    pub webrtcbin: String,
}

/// The steps that create a pipeline with a webrtcbin element in it and make it ready.
pub open spec fn construction(prefix: Seq<char>) -> Seq<StepView> {
    seq![
        regardless(CallView::NewPipeline { pipeline: prefix + "_pipeline"@ }),
        or_abort(
            CallView::Make { factory: "webrtcbin"@, name: Some(prefix + "_webrtcbin"@) },
        ),
        or_abort(CallView::Add { elements: seq![0nat] }),
        or_abort(CallView::SetState { state: PipelineState::Ready }),
    ]
}

impl WebRtcBin {
    /// Names the pipeline and its webrtcbin element, and lists the steps that create them.
    pub fn new(name_prefix: &str) -> (made: (WebRtcBin, Vec<Step>))
        ensures
            made.0.pipeline@ == name_prefix@ + "_pipeline"@,
            made.0.webrtcbin@ == name_prefix@ + "_webrtcbin"@,
            step_views(made.1@) == construction(name_prefix@),
    {
        let pipeline = name_prefix.to_owned().concat("_pipeline");
        let webrtcbin = name_prefix.to_owned().concat("_webrtcbin");
        let elements: Vec<usize> = vec![0usize];
        assert(numbers(elements@) =~= seq![0nat]);
        let steps = vec![
            Step::regardless(Call::NewPipeline { pipeline: pipeline.clone() }),
            Step::or_abort(
                Call::Make { factory: "webrtcbin".to_owned(), name: Some(webrtcbin.clone()) },
            ),
            Step::or_abort(Call::Add { elements }),
            Step::or_abort(Call::SetState { state: PipelineState::Ready }),
        ];
        assert(step_views(steps@) =~= construction(name_prefix@));
        (WebRtcBin { pipeline, webrtcbin }, steps)
    }

    /// Sets the STUN server.
    pub fn set_stun_server(&self, stun_server: &str) -> (step: Step)
        ensures
            step@ == regardless(
                CallView::SetPropertyFromText {
                    target: TargetView::WebRtcBin,
                    property: "stun-server"@,
                    text: stun_server@,
                },
            ),
    {
        Step::set_text(Target::WebRtcBin, "stun-server", stun_server)
    }

    /// Sets the bundle policy.
    pub fn set_bundle_policy(&self, bundle_policy: RtcBundlePolicy) -> (step: Step)
        ensures
            step@ == regardless(
                CallView::SetPropertyFromText {
                    target: TargetView::WebRtcBin,
                    property: "bundle-policy"@,
                    text: bundle_policy.name(),
                },
            ),
    {
        Step::set_text(Target::WebRtcBin, "bundle-policy", bundle_policy.as_ref())
    }

    /// Emits a signal on webrtcbin.
    fn emit(&self, signal: &str, arguments: Vec<Argument>) -> (step: Step)
        ensures
            step@ == emitted(signal@, argument_views(arguments@)),
    {
        Step::or_abort(Call::Emit { signal: signal.to_owned(), arguments })
    }

    /// Asks for an offer. What became of the promise goes to [`WebRtcBin::offer_created`].
    pub fn create_offer(&self) -> (step: Step)
        ensures
            step@ == emitted(
                "create-offer"@,
                seq![ArgumentView::NoStructure, ArgumentView::Promise],
            ),
    {
        let arguments = vec![Argument::NoStructure, Argument::Promise];
        assert(argument_views(arguments@) =~= seq![
            ArgumentView::NoStructure,
            ArgumentView::Promise,
        ]);
        self.emit("create-offer", arguments)
    }

    /// The offer that was asked for; `None` stands for a promise that was dropped.
    pub fn offer_created(&self, outcome: Option<PromiseOutcome>) -> (offer: Result<
        String,
        WebRtcErr,
    >)
        ensures
            creation(offer) == awaited(outcome, "offer"@),
    {
        match outcome {
            None => Err(WebRtcErr::Canceled),
            Some(outcome) => session_description(&outcome, "offer"),
        }
    }

    /// Asks for an answer. What became of the promise goes to [`WebRtcBin::answer_created`].
    pub fn create_answer(&self) -> (step: Step)
        ensures
            step@ == emitted(
                "create-answer"@,
                seq![ArgumentView::NoStructure, ArgumentView::Promise],
            ),
    {
        let arguments = vec![Argument::NoStructure, Argument::Promise];
        assert(argument_views(arguments@) =~= seq![
            ArgumentView::NoStructure,
            ArgumentView::Promise,
        ]);
        self.emit("create-answer", arguments)
    }

    /// The answer that was asked for; `None` stands for a promise that was dropped.
    pub fn answer_created(&self, outcome: Option<PromiseOutcome>) -> (answer: Result<
        String,
        WebRtcErr,
    >)
        ensures
            creation(answer) == awaited(outcome, "answer"@),
    {
        match outcome {
            None => Err(WebRtcErr::Canceled),
            Some(outcome) => session_description(&outcome, "answer"),
        }
    }

    /// Applies a session description to our end of the session and waits until that is done.
    pub fn set_local_description(&self, sdp: Sdp) -> (step: Step)
        ensures
            step@ == local_description_set(sdp@),
    {
        let arguments = vec![sdp.into_description(), Argument::Promise];
        assert(argument_views(arguments@) =~= seq![
            description(sdp@),
            ArgumentView::Promise,
        ]);
        self.emit("set-local-description", arguments)
    }

    /// Adds an ICE candidate of the peer. A failure is the caller's to deal with.
    pub fn add_ice_candidate(&self, ice_candidate: IceCandidate) -> (step: Step)
        ensures
            step@ == ice_candidate_added(
                ice_candidate.sdp_mline_index,
                ice_candidate.candidate@,
            ),
    {
        let candidate: &str = match &ice_candidate.candidate {
            Cow::Borrowed(candidate) => candidate,
            Cow::Owned(candidate) => candidate.as_str(),
        };
        let arguments = vec![
            Argument::Unsigned(ice_candidate.sdp_mline_index),
            Argument::Text(candidate.to_owned()),
        ];
        assert(argument_views(arguments@) =~= seq![
            ArgumentView::Unsigned(ice_candidate.sdp_mline_index),
            ArgumentView::Text(candidate@),
        ]);
        Step::or_return(Call::Emit { signal: "add-ice-candidate".to_owned(), arguments })
    }

    /// Applies a session description to the peer's end of the session and waits until that is
    /// done.
    pub fn set_remote_description(&self, sdp: Sdp) -> (step: Step)
        ensures
            step@ == remote_description_set(sdp@),
    {
        let arguments = vec![sdp.into_description(), Argument::Promise];
        assert(argument_views(arguments@) =~= seq![
            description(sdp@),
            ArgumentView::Promise,
        ]);
        self.emit("set-remote-description", arguments)
    }

    /// Asks for the transceiver of this index. What the signal returned goes to
    /// [`WebRtcBin::transceiver_found`].
    pub fn get_transceiver(&self, idx: i32) -> (step: Step)
        ensures
            step@ == emitted("get-transceiver"@, seq![ArgumentView::Signed(idx)]),
    {
        let arguments = vec![Argument::Signed(idx)];
        assert(argument_views(arguments@) =~= seq![ArgumentView::Signed(idx)]);
        self.emit("get-transceiver", arguments)
    }

    /// The transceiver that was asked for, if there is one of that index.
    pub fn transceiver_found<T>(&self, returned: Returned<T>) -> (transceiver: Option<T>)
        ensures
            transceiver == (match returned {
                Returned::Transceiver(transceiver) => Some(transceiver),
                Returned::Nothing => None,
            }),
    {
        match returned {
            Returned::Transceiver(transceiver) => Some(transceiver),
            Returned::Nothing => None,
        }
    }

    /// Lists the steps that connect a subscriber, which from then on gets the event of each
    /// signal, as [`WebRtcBin::event`] has it.
    pub fn subscribe(&self) -> (steps: Vec<Step>)
        ensures
            step_views(steps@) == subscription(),
    {
        let steps = vec![
            Step::or_abort(
                Call::Connect {
                    signal: "on-negotiation-needed".to_owned(),
                    reaction: Reaction::Deliver,
                },
            ),
            Step::or_abort(
                Call::Connect {
                    signal: "on-ice-candidate".to_owned(),
                    reaction: Reaction::Deliver,
                },
            ),
        ];
        assert(step_views(steps@) =~= subscription());
        steps
    }

    /// The event that a subscriber gets for a signal with these values, if any.
    pub fn event(&self, signal: &str, values: &Vec<SignalValue>) -> (event: Option<
        WebRtcBinEvent<'static, 'static>,
    >)
        requires
            signal@ == "on-ice-candidate"@ ==> announces_candidate(values@),
        ensures
            match event {
                Some(event) => event_of(signal@, values@) == Some(event@),
                None => event_of(signal@, values@) is None,
            },
    {
        if same_text(signal, "on-negotiation-needed") {
            Some(WebRtcBinEvent::OnNegotiationNeeded)
        } else if same_text(signal, "on-ice-candidate") {
            Some(WebRtcBinEvent::OnIceCandidate(announced_candidate(values)))
        } else {
            None
        }
    }

    /// Stops the pipeline when the client is done with it.
    pub fn shut_down(&self) -> (step: Step)
        ensures
            step@ == or_abort(CallView::SetState { state: PipelineState::Null }),
    {
        Step::or_abort(Call::SetState { state: PipelineState::Null })
    }
}

} // verus!
