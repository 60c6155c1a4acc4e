//! That the pipeline is stopped when the client is done with it, and not before.

use crate::app::branches::{audio_source, video_source};
use crate::app::connections::response_after;
use crate::app::flow::FlowView;
use crate::app::laws::law_plays_once_at_the_end;
use crate::app::reactions::{
    offer_promise_handled, pad_handled, playing_handled, response_of, signal_handled, ResponseView,
};
use crate::app::{
    json_handled, message_handled, pipeline_setup, registration, reported, text_sent, AppView,
    Occasion,
};
use crate::media::plan::{advanced, VerdictView};
use crate::media::step::{
    or_abort, CallView, PadReaction, PipelineState, Reaction, StepView,
};
use crate::media::webrtcbin::{construction, subscription, Pad, PromiseOutcome, SignalValue};
use crate::message::WsMessageView;
use crate::runs::{moved, reached, Move};
use crate::server::{preparation, startup_steps};
use crate::wire::JsonMsgView;
use vstd::prelude::*;

verus! {

/// The call that stops the pipeline.
pub open spec fn stop() -> CallView {
    CallView::SetState { state: PipelineState::Null }
}

/// Whether no step stops the pipeline.
pub open spec fn keeps_running(steps: Seq<StepView>) -> bool {
    forall|i: int| 0 <= i < steps.len() ==> (#[trigger] steps[i]).call != stop()
}

/// Whether no step of a run stops the pipeline.
pub open spec fn run_keeps_running(verdict: VerdictView) -> bool {
    match verdict {
        VerdictView::Continue(left) => left.len() > 0 && keeps_running(left),
        _ => true,
    }
}

/// Whether nothing that the handling of a message is about to do stops the pipeline.
pub open spec fn flow_keeps_running(flow: FlowView) -> bool {
    match flow {
        FlowView::Perform(left, _) => left.len() > 0 && keeps_running(left),
        FlowView::CreateAnswer(step) => step.call != stop(),
        _ => true,
    }
}

/// Whether nothing that a reaction is about to do stops the pipeline.
pub open spec fn response_keeps_running(response: ResponseView) -> bool {
    match response {
        ResponseView::Perform(left, _) => left.len() > 0 && keeps_running(left),
        ResponseView::CreateOffer(step) => step.call != stop(),
        _ => true,
    }
}

/// What is left of steps that do not stop the pipeline does not stop it.
proof fn lemma_advance_keeps_running(left: Seq<StepView>, result: Result<(), Seq<char>>)
    requires
        left.len() > 0,
        keeps_running(left),
    ensures
        run_keeps_running(advanced(left, result)),
{
    let later = left.drop_first();
    assert forall|i: int| 0 <= i < later.len() implies (#[trigger] later[i]).call != stop() by {
        assert(later[i] == left[i + 1]);
    }
}

/// The start of the client does not stop the pipeline that it creates, nor does connecting a
/// subscriber.
pub proof fn law_start_keeps_running(prefix: Seq<char>, url: Seq<char>, our_id: nat)
    ensures
        keeps_running(construction(prefix)),
        keeps_running(subscription()),
        keeps_running(
            startup_steps(url, preparation(), or_abort(text_sent(registration(our_id)).call)),
        ),
{
    let steps = startup_steps(
        url,
        preparation(),
        or_abort(text_sent(registration(our_id)).call),
    );
    assert forall|i: int| 0 <= i < steps.len() implies (#[trigger] steps[i]).call != stop() by {
        if 1 <= i < 1 + preparation().len() {
            assert(steps[i] == preparation()[i - 1]);
        }
    }
}

/// The preparation of a session does not stop the pipeline.
proof fn lemma_setup_keeps_running(app: AppView)
    ensures
        keeps_running(pipeline_setup(app)),
{
    let setup = pipeline_setup(app);
    let first: int = if app.peer_id is Some {
        3
    } else {
        2
    };
    assert forall|i: int| 0 <= i < setup.len() implies (#[trigger] setup[i]).call != stop() by {
        if first <= i < first + 12 {
            assert(setup[i] == video_source(0)[i - first]);
        } else if first + 12 <= i < first + 25 {
            assert(setup[i] == audio_source(6)[i - first - 12]);
        }
    }
}

/// What the parsed messages of the peer lead to does not stop the pipeline.
proof fn lemma_json_keeps_running(app: AppView, parsed: Result<JsonMsgView, Seq<char>>)
    ensures
        flow_keeps_running(json_handled(app, parsed)),
{
    lemma_setup_keeps_running(app);
    law_plays_once_at_the_end(app);
}

/// No move in the handling of a message leads to stopping the pipeline.
proof fn lemma_move_keeps_running(app: AppView, flow: FlowView, by: Move)
    requires
        flow_keeps_running(flow),
    ensures
        flow_keeps_running(moved(app, flow, by)),
{
    match (flow, by) {
        (FlowView::Perform(left, _), Move::Performed(result)) => {
            lemma_advance_keeps_running(left, result);
        },
        (FlowView::ParseJson(_), Move::Parsed(parsed)) => {
            lemma_json_keeps_running(app, parsed);
        },
        _ => {},
    }
}

/// Moves in the handling of a message keep the pipeline running.
proof fn lemma_moves_keep_running(app: AppView, flow: FlowView, moves: Seq<Move>)
    requires
        flow_keeps_running(flow),
    ensures
        flow_keeps_running(reached(app, flow, moves)),
    decreases moves.len(),
{
    if moves.len() > 0 {
        lemma_move_keeps_running(app, flow, moves[0]);
        lemma_moves_keep_running(app, moved(app, flow, moves[0]), moves.drop_first());
    }
}

/// A pipeline that nothing stopped before is stopped once by the step for when the client is done
/// with it, and that comes last.
pub proof fn law_pipeline_is_stopped_once(steps: Seq<StepView>)
    requires
        keeps_running(steps),
    ensures
        forall|i: int|
            0 <= i <= steps.len() ==> ((#[trigger] (steps + seq![or_abort(stop())])[i]).call
                == stop() <==> i == steps.len()),
{
    let life = steps + seq![or_abort(stop())];
    assert forall|i: int| 0 <= i <= steps.len() implies ((#[trigger] life[i]).call == stop() <==> i
        == steps.len()) by {
        if i < steps.len() {
            assert(life[i] == steps[i]);
        }
    }
}

/// However the handling of a message goes, it never comes to stopping the pipeline.
pub proof fn law_handling_keeps_running(
    app: AppView,
    message: WsMessageView,
    moves: Seq<Move>,
)
    ensures
        flow_keeps_running(reached(app, message_handled(app, message), moves)),
{
    lemma_setup_keeps_running(app);
    law_plays_once_at_the_end(app);
    lemma_moves_keep_running(app, message_handled(app, message), moves);
}

/// Results of a reaction keep the pipeline running.
proof fn lemma_results_keep_running(
    response: ResponseView,
    results: Seq<Result<(), Seq<char>>>,
)
    requires
        response_keeps_running(response),
    ensures
        response_keeps_running(response_after(response, results)),
    decreases results.len(),
{
    match response {
        ResponseView::Perform(left, occasion) if results.len() > 0 => {
            lemma_advance_keeps_running(left, results[0]);
            lemma_results_keep_running(
                response_of(advanced(left, results[0]), occasion),
                results.drop_first(),
            );
        },
        _ => {},
    }
}

/// However a reaction goes, it never comes to stopping the pipeline; nor does the report of its
/// failure.
pub proof fn law_reactions_keep_running(
    reaction: Reaction,
    values: Seq<SignalValue>,
    pad_reaction: PadReaction,
    pad: Pad,
    promise: Option<PromiseOutcome>,
    results: Seq<Result<(), Seq<char>>>,
    occasion: Occasion,
    error: Seq<char>,
)
    ensures
        response_keeps_running(response_after(signal_handled(reaction, values), results)),
        response_keeps_running(response_after(pad_handled(pad_reaction, pad), results)),
        response_keeps_running(response_after(offer_promise_handled(promise), results)),
        response_keeps_running(response_after(playing_handled(), results)),
        reported(occasion, error).call != stop(),
{
    lemma_results_keep_running(signal_handled(reaction, values), results);
    lemma_results_keep_running(pad_handled(pad_reaction, pad), results);
    lemma_results_keep_running(offer_promise_handled(promise), results);
    lemma_results_keep_running(playing_handled(), results);
}

} // verus!
