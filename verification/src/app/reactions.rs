//! What the client does when its pipeline calls, on threads where nobody waits for a result.

use crate::app::branches::{decoded_stream_handled, incoming_stream_handled};
use crate::app::{offer_handled, text_sent, App, Occasion};
use crate::error::{AppError, AppErrorView};
use crate::media::plan::{advanced, call_result, started, Plan, Verdict, VerdictView};
use crate::media::step::{
    or_return, step_views, ArgumentView, Call, CallView, PadReaction, PipelineState, Reaction,
    Step, StepView,
};
use crate::media::webrtcbin::{
    announces_candidate, created, emitted, session_description, Pad, PromiseOutcome, PromiseResult,
    SignalValue, WebRtcErr,
};
use crate::wire::{wire_text, JsonMsgView};
use vstd::prelude::*;

verus! {

/// Where a reaction stands.
#[derive(Debug)]
pub enum Response {
    /// There is nothing left to do.
    Done,
    /// The current step of the plan is to be performed, and its result handed to
    /// [`App::go_on_reacting`].
    Perform(Plan, Occasion),
    /// The step is to be performed, and what became of its promise handed to
    /// [`App::on_offer_promise`].
    CreateOffer(Step),
    /// A step failed: the error is to be reported by [`App::report_failure`] on this occasion.
    Report(Occasion, AppError),
    /// A call failed without which the program cannot go on.
    Abort(String),
}

/// The contents of a [`Response`].
pub enum ResponseView {
    Done,
    Perform(Seq<StepView>, Occasion),
    CreateOffer(StepView),
    Report(Occasion, AppErrorView),
    Abort(Seq<char>),
}

impl View for Response {
    type V = ResponseView;

    open spec fn view(&self) -> ResponseView {
        match self {
            Response::Done => ResponseView::Done,
            Response::Perform(plan, occasion) => ResponseView::Perform(plan@, *occasion),
            Response::CreateOffer(step) => ResponseView::CreateOffer(step@),
            Response::Report(occasion, error) => ResponseView::Report(*occasion, error@),
            Response::Abort(text) => ResponseView::Abort(text@),
        }
    }
}

/// Where a reaction stands whose steps stand like this: a failure is to be reported.
pub open spec fn response_of(verdict: VerdictView, occasion: Occasion) -> ResponseView {
    match verdict {
        VerdictView::Continue(left) => ResponseView::Perform(left, occasion),
        VerdictView::Complete => ResponseView::Done,
        VerdictView::Failed(error) => ResponseView::Report(occasion, error),
        VerdictView::Abort(text) => ResponseView::Abort(text),
    }
}

/// The message by which a candidate that was announced with these values reaches the peer.
pub open spec fn candidate_message(values: Seq<SignalValue>) -> JsonMsgView {
    JsonMsgView::Ice {
        candidate: values[2]->Text_0@,
        sdp_mline_index: values[1]->Unsigned_0,
    }
}

/// Whether a signal came with the values that a reaction to it works with.
pub open spec fn carries(values: Seq<SignalValue>, reaction: Reaction) -> bool {
    match reaction {
        Reaction::Negotiate => values.len() > 0 && values[0] is Element,
        Reaction::SendCandidate => announces_candidate(values) && values[0] is Element,
        Reaction::Deliver => true,
    }
}

/// How the client reacts to a signal with these values. An event is up to its subscriber.
pub open spec fn signal_handled(reaction: Reaction, values: Seq<SignalValue>) -> ResponseView {
    match reaction {
        Reaction::Negotiate => ResponseView::CreateOffer(
            emitted("create-offer"@, seq![ArgumentView::NoStructure, ArgumentView::Promise]),
        ),
        Reaction::SendCandidate => response_of(
            started(seq![text_sent(wire_text(candidate_message(values)))]),
            Occasion::IceCandidate,
        ),
        Reaction::Deliver => ResponseView::Done,
    }
}

/// How the client reacts to a new pad.
pub open spec fn pad_handled(reaction: PadReaction, pad: Pad) -> ResponseView {
    match reaction {
        PadReaction::HandleStream => response_of(
            incoming_stream_handled(pad.direction),
            Occasion::IncomingStream,
        ),
        PadReaction::HandleDecodedStream => response_of(
            decoded_stream_handled(pad.caps_name->0@),
            Occasion::DecodedStream,
        ),
    }
}

/// What is done about a promise for an offer, of which `None` says that it was dropped: nobody
/// hears of that one. After a reply without an offer the program cannot go on.
pub open spec fn offer_promise_handled(outcome: Option<PromiseOutcome>) -> ResponseView {
    match outcome {
        None => ResponseView::Done,
        Some(promise) => if promise.result == PromiseResult::Replied && created(promise, "offer"@)
            is Err {
            ResponseView::Abort(WebRtcErr::description(created(promise, "offer"@)->Err_0))
        } else {
            response_of(offer_handled(promise), Occasion::SdpOffer)
        },
    }
}

/// What is done when it is time for the pipeline to play.
pub open spec fn playing_handled() -> ResponseView {
    response_of(
        started(seq![or_return(CallView::SetState { state: PipelineState::Playing })]),
        Occasion::Playing,
    )
}

/// A response that is left undone once the application is gone.
pub open spec fn if_there(there: bool, response: ResponseView) -> ResponseView {
    if there {
        response
    } else {
        ResponseView::Done
    }
}

/// Reacts to a signal of webrtcbin, if the application is still there.
pub fn signal_response(
    app: Option<&App>,
    reaction: Reaction,
    values: &Vec<SignalValue>,
) -> (response: Response)
    requires
        carries(values@, reaction),
    ensures
        response@ == if_there(app is Some, signal_handled(reaction, values@)),
{
    match app {
        Some(app) => app.on_signal(reaction, values),
        None => Response::Done,
    }
}

/// Reacts to a pad that an element got, if the application is still there.
pub fn pad_response(app: Option<&App>, reaction: PadReaction, pad: &Pad) -> (response: Response)
    requires
        app is Some && reaction == PadReaction::HandleDecodedStream ==> pad.caps_name is Some,
    ensures
        response@ == if_there(app is Some, pad_handled(reaction, *pad)),
{
    match app {
        Some(app) => app.on_pad_added(reaction, pad),
        None => Response::Done,
    }
}

/// Takes what became of the promise for an offer, if the application is still there.
pub fn offer_response(app: Option<&App>, outcome: Option<PromiseOutcome>) -> (response: Response)
    ensures
        response@ == if_there(app is Some, offer_promise_handled(outcome)),
{
    match app {
        Some(app) => app.on_offer_promise(outcome),
        None => Response::Done,
    }
}

/// Has the pipeline play when it is time to, if the application is still there.
pub fn playing_response(app: Option<&App>) -> (response: Response)
    ensures
        response@ == if_there(app is Some, playing_handled()),
{
    match app {
        Some(app) => app.on_time_to_play(),
        None => Response::Done,
    }
}

impl App {
    /// Carries out steps.
    fn react(&self, verdict: Verdict, occasion: Occasion) -> (response: Response)
        ensures
            response@ == response_of(verdict@, occasion),
    {
        match verdict {
            Verdict::Continue(plan) => Response::Perform(plan, occasion),
            Verdict::Complete => Response::Done,
            Verdict::Failed(error) => Response::Report(occasion, error),
            Verdict::Abort(text) => Response::Abort(text),
        }
    }

    /// Goes on with a reaction after the result of the current step.
    pub fn go_on_reacting(
        &self,
        plan: Plan,
        occasion: Occasion,
        result: Result<(), String>,
    ) -> (response: Response)
        ensures
            plan@.len() > 0,
            response@ == response_of(advanced(plan@, call_result(result)), occasion),
    {
        self.react(plan.advance(result), occasion)
    }

    /// Reacts to a signal of webrtcbin.
    pub fn on_signal(&self, reaction: Reaction, values: &Vec<SignalValue>) -> (response: Response)
        requires
            carries(values@, reaction),
        ensures
            response@ == signal_handled(reaction, values@),
    {
        match reaction {
            Reaction::Negotiate => Response::CreateOffer(self.on_negotiation_needed()),
            Reaction::SendCandidate => {
                let steps = vec![self.on_ice_candidate(values)];
                assert(step_views(steps@) =~= seq![
                    text_sent(wire_text(candidate_message(values@))),
                ]);
                self.react(Plan::begin(steps), Occasion::IceCandidate)
            },
            Reaction::Deliver => Response::Done,
        }
    }

    /// Reacts to a pad that an element got.
    pub fn on_pad_added(&self, reaction: PadReaction, pad: &Pad) -> (response: Response)
        requires
            reaction == PadReaction::HandleDecodedStream ==> pad.caps_name is Some,
        ensures
            response@ == pad_handled(reaction, *pad),
    {
        match reaction {
            PadReaction::HandleStream => self.react(
                self.on_incoming_stream(pad),
                Occasion::IncomingStream,
            ),
            PadReaction::HandleDecodedStream => self.react(
                self.on_incoming_decodebin_stream(pad),
                Occasion::DecodedStream,
            ),
        }
    }

    /// Has the pipeline play.
    pub fn on_time_to_play(&self) -> (response: Response)
        ensures
            response@ == playing_handled(),
    {
        let steps = vec![Step::or_return(Call::SetState { state: PipelineState::Playing })];
        assert(step_views(steps@) =~= seq![
            or_return(CallView::SetState { state: PipelineState::Playing }),
        ]);
        self.react(Plan::begin(steps), Occasion::Playing)
    }

    /// Takes what became of the promise for an offer; `None` stands for one that was dropped.
    pub fn on_offer_promise(&self, outcome: Option<PromiseOutcome>) -> (response: Response)
        ensures
            response@ == offer_promise_handled(outcome),
    {
        let promise = match outcome {
            Some(promise) => promise,
            None => return Response::Done,
        };
        if promise.result == PromiseResult::Replied {
            match session_description(&promise, "offer") {
                Ok(_) => {},
                Err(error) => return Response::Abort(error.into_text()),
            }
        }
        self.react(self.on_offer_created(&promise), Occasion::SdpOffer)
    }
}

} // verus!
