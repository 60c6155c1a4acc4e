//! What holds of the handling of messages as a whole.

use crate::app::branches::{audio_source, video_source};
use crate::app::flow::{FlowView, Then};
use crate::app::{
    answer_handled, answer_message, flow_of, json_handled, message_handled, offer_message,
    pipeline_setup, registration, session_ok_handled, text_handled, text_sent, AppView,
};
use crate::error::AppErrorView;
use crate::media::plan::{
    advanced, calls, calls_made, goes_on, law_run_makes_every_call, law_run_stops_at_failure, run,
    started, stopped, VerdictView,
};
use crate::media::step::{
    regardless, ArgumentView, CallView, OnFailure, PropertyValue, StepView, TargetView,
};
use crate::media::webrtcbin::{
    emitted, local_description_set, remote_description_set, SdpView,
};
use crate::message::WsMessageView;
use crate::text::{decimal, decimal_value, law_decimal_reads_back};
use crate::wire::{wire_text, JsonMsgView};
use vstd::prelude::*;

verus! {

/// Where the handling of a message stands after results, each of them handed on as long as there
/// are steps under way.
pub open spec fn flow_after(flow: FlowView, results: Seq<Result<(), Seq<char>>>) -> FlowView
    decreases results.len(),
{
    match flow {
        FlowView::Perform(left, then) if results.len() > 0 => flow_after(
            flow_of(advanced(left, results[0]), then),
            results.drop_first(),
        ),
        _ => flow,
    }
}

/// The handling of a message follows the run of its steps.
proof fn lemma_flow_follows_run(
    verdict: VerdictView,
    then: Then,
    results: Seq<Result<(), Seq<char>>>,
)
    ensures
        flow_after(flow_of(verdict, then), results) == flow_of(run(verdict, results), then),
    decreases results.len(),
{
    match verdict {
        VerdictView::Continue(left) if results.len() > 0 => {
            lemma_flow_follows_run(advanced(left, results[0]), then, results.drop_first());
        },
        _ => {},
    }
}

/// The steps by which an offer is taken in.
pub open spec fn offer_steps(app: AppView, offer: Seq<char>) -> Seq<StepView> {
    pipeline_setup(app) + seq![remote_description_set(SdpView::Offer(offer))]
}

/// The steps by which an answer goes out.
pub open spec fn answer_steps(answer: Seq<char>) -> Seq<StepView> {
    seq![
        local_description_set(SdpView::Answer(answer)),
        regardless(text_sent(wire_text(answer_message(answer))).call),
    ]
}

/// An offer of the peer leads to an answer: if no step fails, the pipeline is finished and
/// started, then the offer is applied, and then webrtcbin is asked for an answer; the answer
/// becomes our description and goes to the peer, and with that the message is handled, whether or
/// not the answer could be sent.
pub proof fn law_offer_is_answered(
    app: AppView,
    offer: Seq<char>,
    taken_in: Seq<Result<(), Seq<char>>>,
    answer: Seq<char>,
    sent: Result<(), Seq<char>>,
)
    requires
        taken_in.len() == offer_steps(app, offer).len(),
        forall|i: int| 0 <= i < taken_in.len() ==> #[trigger] taken_in[i] is Ok,
    ensures
        among(offer_steps(app, offer), CallView::StartPlaying),
        calls_made(started(offer_steps(app, offer)), taken_in) == calls(offer_steps(app, offer)),
        flow_after(json_handled(app, Ok(offer_message(offer))), taken_in)
            == FlowView::CreateAnswer(
            emitted(
                "create-answer"@,
                seq![ArgumentView::NoStructure, ArgumentView::Promise],
            ),
        ),
        calls_made(started(answer_steps(answer)), seq![Ok(()), sent]) == calls(
            answer_steps(answer),
        ),
        flow_after(answer_handled(answer), seq![Ok(()), sent]) == FlowView::Done(Ok(None)),
{
    reveal_strlit("answer");
    reveal_strlit("offer");
    assert("offer"@.len() != "answer"@.len());
    let steps = offer_steps(app, offer);
    law_plays_once_at_the_end(app);
    assert(steps[pipeline_setup(app).len() - 1].call == CallView::StartPlaying);
    assert forall|i: int| 0 <= i < steps.len() implies #[trigger] goes_on(steps[i], taken_in[i]) by {
        assert(taken_in[i] is Ok);
    }
    law_run_makes_every_call(steps, taken_in);
    lemma_flow_follows_run(started(steps), Then::CreateAnswer, taken_in);
    let results = seq![Ok::<(), Seq<char>>(()), sent];
    assert forall|i: int| 0 <= i < 2 implies #[trigger] goes_on(
        answer_steps(answer)[i],
        results[i],
    ) by {
        if i == 0 {
            assert(results[0] is Ok);
        } else {
            assert(answer_steps(answer)[1].on_failure == OnFailure::Ignore);
        }
    }
    law_run_makes_every_call(answer_steps(answer), results);
    lemma_flow_follows_run(started(answer_steps(answer)), Then::Finish, results);
}

/// A finished pipeline is started, once, and as the last thing.
pub proof fn law_plays_once_at_the_end(app: AppView)
    ensures
        pipeline_setup(app).len() > 0,
        pipeline_setup(app).last() == regardless(CallView::StartPlaying),
        forall|i: int|
            0 <= i < pipeline_setup(app).len() - 1 ==> (#[trigger] pipeline_setup(app)[i]).call
                != CallView::StartPlaying,
{
    lemma_setup_parts(app);
}

/// If a step of the preparation fails, the session never starts playing: nothing is called after
/// the failing step, and the handling of the message ends as the step says.
pub proof fn law_failed_setup_never_plays(
    app: AppView,
    results: Seq<Result<(), Seq<char>>>,
    k: int,
)
    requires
        0 <= k < pipeline_setup(app).len(),
        k < results.len(),
        forall|i: int| 0 <= i < k ==> #[trigger] goes_on(pipeline_setup(app)[i], results[i]),
        !goes_on(pipeline_setup(app)[k], results[k]),
    ensures
        flow_after(session_ok_handled(app), results) == flow_of(
            stopped(pipeline_setup(app)[k], results[k]->Err_0),
            Then::Finish,
        ),
        calls_made(started(pipeline_setup(app)), results) == calls(
            pipeline_setup(app).take(k + 1),
        ),
        !calls(pipeline_setup(app).take(k + 1)).contains(CallView::StartPlaying),
{
    let setup = pipeline_setup(app);
    law_run_stops_at_failure(setup, results, k);
    lemma_flow_follows_run(started(setup), Then::Finish, results);
    law_plays_once_at_the_end(app);
    assert(k < setup.len() - 1);
    assert forall|i: int| 0 <= i < k + 1 implies #[trigger] calls(setup.take(k + 1))[i]
        != CallView::StartPlaying by {
        assert(calls(setup.take(k + 1))[i] == setup[i].call);
    }
}

/// How many steps come before the sources.
spec fn source_offset(app: AppView) -> int {
    if app.peer_id is Some {
        3
    } else {
        2
    }
}

/// Which step stands where in the preparation.
proof fn lemma_setup_parts(app: AppView)
    ensures
        pipeline_setup(app).len() == source_offset(app) + 25 + (if app.rtx {
            3int
        } else {
            1
        }),
        forall|i: int|
            0 <= i < 12 ==> pipeline_setup(app)[source_offset(app) + i]
                == #[trigger] video_source(0)[i],
        forall|i: int|
            0 <= i < 13 ==> pipeline_setup(app)[source_offset(app) + 12 + i]
                == #[trigger] audio_source(6)[i],
        forall|i: int|
            source_offset(app) <= i < source_offset(app) + 12 ==> #[trigger] pipeline_setup(app)[i]
                == video_source(0)[i - source_offset(app)],
        forall|i: int|
            source_offset(app) + 12 <= i < source_offset(app) + 25
                ==> #[trigger] pipeline_setup(app)[i] == audio_source(6)[i - source_offset(app)
                - 12],
{
}

/// Whether a call is among those of steps.
pub open spec fn among(steps: Seq<StepView>, call: CallView) -> bool {
    exists|i: int| 0 <= i < steps.len() && (#[trigger] steps[i]).call == call
}

/// Lost packets are sent again exactly if the client was started that way, and then for the
/// first transceiver, which is asked for right before.
pub proof fn law_retransmits_only_when_asked(app: AppView)
    ensures
        among(
            pipeline_setup(app),
            CallView::SetProperty {
                target: TargetView::Transceiver,
                property: "do-nack"@,
                value: PropertyValue::Bool(true),
            },
        ) <==> app.rtx,
        app.rtx ==> pipeline_setup(app)[pipeline_setup(app).len() - 3] == emitted(
            "get-transceiver"@,
            seq![ArgumentView::Signed(0)],
        ),
{
    let setup = pipeline_setup(app);
    let call = CallView::SetProperty {
        target: TargetView::Transceiver,
        property: "do-nack"@,
        value: PropertyValue::Bool(true),
    };
    lemma_setup_parts(app);
    if app.rtx {
        assert(setup[setup.len() - 2].call == call);
    } else {
        assert forall|i: int| 0 <= i < setup.len() implies (#[trigger] setup[i]).call != call by {}
    }
}

/// What a peer sends is never taken for a word of the server: it goes on to be parsed.
pub proof fn law_peer_messages_are_parsed(app: AppView, msg: JsonMsgView)
    ensures
        message_handled(app, WsMessageView::Text(wire_text(msg))) == FlowView::ParseJson(
            wire_text(msg),
        ),
{
    reveal_strlit("{\"ice\":{\"candidate\":");
    reveal_strlit("{\"sdp\":{\"type\":");
    reveal_strlit("HELLO");
    reveal_strlit("SESSION_OK");
    reveal_strlit("ERROR");
    let text = wire_text(msg);
    assert(text[0] == '{');
    assert("HELLO"@[0] == 'H');
    assert("SESSION_OK"@[0] == 'S');
    assert("ERROR"@[0] == 'E');
}

/// What one peer sends as an answer the other applies as the answer, and what it sends as an
/// offer the other applies as the offer: the text of the description arrives unchanged.
pub proof fn law_descriptions_arrive(app: AppView, sdp: Seq<char>)
    ensures
        json_handled(app, Ok(answer_message(sdp))) == FlowView::Perform(
            seq![remote_description_set(SdpView::Answer(sdp))],
            Then::Finish,
        ),
        json_handled(app, Ok(offer_message(sdp))) == FlowView::Perform(
            offer_steps(app, sdp),
            Then::CreateAnswer,
        ),
        offer_steps(app, sdp).last() == remote_description_set(SdpView::Offer(sdp)),
{
    reveal_strlit("answer");
    reveal_strlit("offer");
    assert("offer"@.len() != "answer"@.len());
}

/// A refused session description touches nothing: the handling ends at once, with an error that
/// names the type.
pub proof fn law_unknown_descriptions_are_refused(app: AppView, type_: Seq<char>, sdp: Seq<char>)
    requires
        type_ != "answer"@,
        type_ != "offer"@,
    ensures
        json_handled(app, Ok(JsonMsgView::Sdp { type_, sdp })) == FlowView::Done(
            Err(AppErrorView::Peer("Sdp type is not \"answer\" but \""@ + type_ + "\""@)),
        ),
{
}

/// Everything that begins with the server's word for an error is an error of the peer, with the
/// whole text.
pub proof fn law_reported_errors_are_returned(app: AppView, details: Seq<char>)
    ensures
        text_handled(app, "ERROR"@ + details) == FlowView::Done(
            Err(AppErrorView::Peer("ERROR"@ + details)),
        ),
{
    reveal_strlit("HELLO");
    reveal_strlit("SESSION_OK");
    reveal_strlit("ERROR");
    let text = "ERROR"@ + details;
    assert(text[0] == 'E');
    assert("HELLO"@[0] == 'H');
    assert("SESSION_OK"@[0] == 'S');
    assert("ERROR"@ =~= text.subrange(0, 5));
}

/// Different numbers register under different texts.
pub proof fn law_registrations_differ(a: nat, b: nat)
    requires
        registration(a) == registration(b),
    ensures
        a == b,
{
    let greeting = "HELLO "@;
    assert(decimal(a) =~= registration(a).skip(greeting.len() as int));
    assert(decimal(b) =~= registration(b).skip(greeting.len() as int));
    law_decimal_reads_back(a);
    law_decimal_reads_back(b);
    assert(decimal_value(decimal(a)) == b);
}

} // verus!
