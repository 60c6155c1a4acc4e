//! What comes of everything that reaches the client: from the message, the promise or the signal
//! as it came in to the calls that are made.

use crate::app::branches::{
    decoded_stream_handled, decoder, incoming_stream_handled, media_sink, stream_type, MediaType,
};
use crate::app::connections::{reaction_calls, response_after};
use crate::app::flow::{FlowView, Then};
use crate::app::graph::{
    audio_sink_graph, built, empty_graph, law_decoder_takes_the_stream,
    law_media_sink_is_a_chain, video_sink_graph,
};
use crate::app::laws::flow_after;
use crate::app::reactions::{
    candidate_message, carries, if_there, offer_promise_handled, pad_handled, playing_handled,
    response_of, signal_handled, ResponseView,
};
use crate::app::{
    answer_handled, answer_message, answer_promise_handled, flow_of, hello_handled, ice_handled,
    json_handled, message_handled, offer_handled, offer_message, or_none, pipeline_message_handled,
    pipeline_setup, registration, reported, sdp_handled, session_ok_handled, text_handled,
    text_sent, AppView, Occasion,
};
use crate::error::{AppErrorView, IoErrorKind};
use crate::media::plan::{calls_made, law_successful_run, started, VerdictView};
use crate::media::promises::law_description_is_whole;
use crate::media::step::{
    ArgumentView, CallView, OnFailure, PadReaction, PipelineState, Reaction, SdpType, StepView,
    TargetView,
};
use crate::media::webrtcbin::{
    awaited, created, Pad, PadDirection, PromiseOutcome, PromiseResult, ReplyField, ReplyValue,
    SignalValue, WebRtcErrView,
};
use crate::message::{PipelineMessageView, WsMessageView};
use crate::runs::{moved, reached, Move};
use crate::text::{decimal, decimal_value, law_decimal_is_short, law_decimal_reads_back};
use crate::wire::{wire_text, JsonMsgView};
use vstd::prelude::*;

verus! {

/// The calls that are made in the handling of a message, as the steps come to these results.
pub open spec fn flow_calls(flow: FlowView, results: Seq<Result<(), Seq<char>>>) -> Seq<CallView> {
    match flow {
        FlowView::Perform(left, _) => calls_made(VerdictView::Continue(left), results),
        _ => Seq::empty(),
    }
}

/// A message is handled by one call: the call is made, and with its success the message is
/// handled without a reply, with its failure the program cannot go on.
pub open spec fn comes_to_one_call(flow: FlowView, call: CallView) -> bool {
    forall|result: Result<(), Seq<char>>|
        {
            &&& #[trigger] flow_calls(flow, seq![result]) == seq![call]
            &&& flow_after(flow, seq![result]) == (match result {
                Ok(()) => FlowView::Done(Ok(None)),
                Err(text) => FlowView::Abort(text),
            })
        }
}

/// One step that the program needs comes to its call.
proof fn lemma_comes_to_one_call(call: CallView)
    ensures
        comes_to_one_call(
            FlowView::Perform(
                seq![StepView { call, on_failure: OnFailure::Abort }],
                Then::Finish,
            ),
            call,
        ),
{
    let steps = seq![StepView { call, on_failure: OnFailure::Abort }];
    let flow = FlowView::Perform(steps, Then::Finish);
    assert forall|result: Result<(), Seq<char>>|
        {
            &&& #[trigger] flow_calls(flow, seq![result]) == seq![call]
            &&& flow_after(flow, seq![result]) == (match result {
                Ok(()) => FlowView::Done(Ok(None)),
                Err(text) => FlowView::Abort(text),
            })
        } by {
        reveal_with_fuel(calls_made, 2);
        reveal_with_fuel(flow_after, 2);
        assert(flow_calls(flow, seq![result]) =~= seq![call]);
        assert(steps.drop_first() =~= Seq::empty());
    }
}

/// A candidate of the peer is added for its own media line, whatever the line and the candidate
/// are: that is the one call which is made, and then the message is handled without a reply.
pub proof fn law_peer_candidate_is_added(app: AppView, index: u32, candidate: Seq<char>)
    ensures
        comes_to_one_call(
            json_handled(app, Ok(JsonMsgView::Ice { candidate, sdp_mline_index: index })),
            CallView::Emit {
                signal: "add-ice-candidate"@,
                arguments: seq![ArgumentView::Unsigned(index), ArgumentView::Text(candidate)],
            },
        ),
{
    let call = CallView::Emit {
        signal: "add-ice-candidate"@,
        arguments: seq![ArgumentView::Unsigned(index), ArgumentView::Text(candidate)],
    };
    lemma_comes_to_one_call(call);
    assert(json_handled(app, Ok(JsonMsgView::Ice { candidate, sdp_mline_index: index }))
        == FlowView::Perform(
        seq![StepView { call, on_failure: OnFailure::Abort }],
        Then::Finish,
    ));
}

/// Two candidates of the peer lead to the same only if they are the same and belong to the same
/// media line.
pub proof fn law_peer_candidates_are_kept_apart(
    app: AppView,
    index: u32,
    candidate: Seq<char>,
    other_index: u32,
    other: Seq<char>,
)
    requires
        json_handled(app, Ok(JsonMsgView::Ice { candidate, sdp_mline_index: index }))
            == json_handled(
            app,
            Ok(JsonMsgView::Ice { candidate: other, sdp_mline_index: other_index }),
        ),
    ensures
        index == other_index,
        candidate == other,
{
    law_peer_candidate_is_added(app, index, candidate);
    law_peer_candidate_is_added(app, other_index, other);
    let flow = json_handled(app, Ok(JsonMsgView::Ice { candidate, sdp_mline_index: index }));
    let first = CallView::Emit {
        signal: "add-ice-candidate"@,
        arguments: seq![ArgumentView::Unsigned(index), ArgumentView::Text(candidate)],
    };
    let second = CallView::Emit {
        signal: "add-ice-candidate"@,
        arguments: seq![ArgumentView::Unsigned(other_index), ArgumentView::Text(other)],
    };
    assert(flow_calls(flow, seq![Ok(())]) == seq![first]);
    assert(flow_calls(flow, seq![Ok(())]) == seq![second]);
    assert(seq![first][0] == seq![second][0]);
    assert(first->arguments[0] == second->arguments[0]);
    assert(first->arguments[1] == second->arguments[1]);
}

/// An answer of the peer is applied as the answer to the peer's end of the session, with its whole
/// text: that is the one call which is made, and then the message is handled without a reply.
pub proof fn law_peer_answer_is_applied(app: AppView, sdp: Seq<char>)
    ensures
        comes_to_one_call(
            json_handled(app, Ok(JsonMsgView::Sdp { type_: "answer"@, sdp })),
            CallView::Emit {
                signal: "set-remote-description"@,
                arguments: seq![
                    ArgumentView::Description { type_: SdpType::Answer, sdp },
                    ArgumentView::Promise,
                ],
            },
        ),
{
    let call = CallView::Emit {
        signal: "set-remote-description"@,
        arguments: seq![
            ArgumentView::Description { type_: SdpType::Answer, sdp },
            ArgumentView::Promise,
        ],
    };
    lemma_comes_to_one_call(call);
    assert(json_handled(app, Ok(JsonMsgView::Sdp { type_: "answer"@, sdp })) == FlowView::Perform(
        seq![StepView { call, on_failure: OnFailure::Abort }],
        Then::Finish,
    ));
}

/// An offer of the peer has the pipeline finished; then it is applied as the offer to the peer's
/// end of the session, with its whole text, and when all of that is done, an answer is asked for.
pub proof fn law_peer_offer_is_taken_in(
    app: AppView,
    sdp: Seq<char>,
    results: Seq<Result<(), Seq<char>>>,
)
    requires
        results.len() == pipeline_setup(app).len() + 1,
        forall|i: int| 0 <= i < results.len() ==> #[trigger] results[i] is Ok,
    ensures
        ({
            let flow = json_handled(app, Ok(JsonMsgView::Sdp { type_: "offer"@, sdp }));
            &&& flow_calls(flow, results).len() == results.len()
            &&& flow_calls(flow, results).last() == (CallView::Emit {
                signal: "set-remote-description"@,
                arguments: seq![
                    ArgumentView::Description { type_: SdpType::Offer, sdp },
                    ArgumentView::Promise,
                ],
            })
            &&& forall|i: int|
                0 <= i < results.len() - 1 ==> #[trigger] flow_calls(flow, results)[i]
                    == pipeline_setup(app)[i].call
            &&& flow_after(flow, results) == FlowView::CreateAnswer(
                StepView {
                    call: CallView::Emit {
                        signal: "create-answer"@,
                        arguments: seq![ArgumentView::NoStructure, ArgumentView::Promise],
                    },
                    on_failure: OnFailure::Abort,
                },
            )
            &&& flow_after(flow, results.drop_last()) is Perform
        }),
{
    reveal_strlit("answer");
    reveal_strlit("offer");
    assert("offer"@.len() != "answer"@.len());
    let flow = json_handled(app, Ok(JsonMsgView::Sdp { type_: "offer"@, sdp }));
    let steps = flow->Perform_0;
    assert(steps.len() == results.len());
    law_successful_run(steps, results);
    assert(started(steps) == VerdictView::Continue(steps));
    lemma_flow_of_successes(steps, Then::CreateAnswer, results);
    lemma_flow_of_successes(steps, Then::CreateAnswer, results.drop_last());
}

/// Where the handling of a message stands after successes.
proof fn lemma_flow_of_successes(
    steps: Seq<StepView>,
    then: Then,
    results: Seq<Result<(), Seq<char>>>,
)
    requires
        steps.len() > 0,
        results.len() <= steps.len(),
        forall|i: int| 0 <= i < results.len() ==> #[trigger] results[i] is Ok,
    ensures
        flow_after(FlowView::Perform(steps, then), results) == (if results.len() == steps.len() {
            flow_of(VerdictView::Complete, then)
        } else {
            FlowView::Perform(steps.skip(results.len() as int), then)
        }),
    decreases results.len(),
{
    if results.len() == 0 {
        assert(steps.skip(0) =~= steps);
    } else {
        let left = steps.drop_first();
        let later = results.drop_first();
        assert(results[0] is Ok);
        assert forall|i: int| 0 <= i < later.len() implies #[trigger] later[i] is Ok by {
            assert(results[i + 1] is Ok);
        }
        if left.len() > 0 {
            lemma_flow_of_successes(left, then, later);
            assert(left.skip(later.len() as int) =~= steps.skip(results.len() as int));
        } else {
            reveal_with_fuel(flow_after, 2);
        }
    }
}

/// An answer that webrtcbin gives goes out, from the promise on and whatever the answer is: it
/// becomes our description, then the peer gets it, whole and as the answer, and only then is the
/// message handled, whether or not the answer could be sent.
pub proof fn law_promised_answer_goes_out(
    app: AppView,
    step: StepView,
    outcome: PromiseOutcome,
    fields: Vec<ReplyField>,
    i: int,
    text: String,
    sent: Result<(), Seq<char>>,
    reason: Seq<char>,
)
    requires
        outcome.result == PromiseResult::Replied,
        outcome.reply == Some(fields),
        0 <= i < fields@.len(),
        fields@[i].name@ == "answer"@,
        forall|j: int| 0 <= j < i ==> #[trigger] fields@[j].name@ != "answer"@,
        fields@[i].value == (ReplyValue::Description { text: Some(text) }),
    ensures
        ({
            let flow = answer_promise_handled(Some(outcome));
            &&& flow_calls(flow, seq![Ok(()), sent]) == seq![
                CallView::Emit {
                    signal: "set-local-description"@,
                    arguments: seq![
                        ArgumentView::Description { type_: SdpType::Answer, sdp: text@ },
                        ArgumentView::Promise,
                    ],
                },
                CallView::Send {
                    message: WsMessageView::Text(
                        wire_text(JsonMsgView::Sdp { type_: "answer"@, sdp: text@ }),
                    ),
                },
            ]
            &&& flow_after(flow, Seq::empty()) is Perform
            &&& flow_after(flow, seq![Ok(())]) is Perform
            &&& flow_after(flow, seq![Ok(()), sent]) == FlowView::Done(Ok(None))
            &&& flow_after(flow, seq![Err(reason)]) == FlowView::Abort(reason)
            &&& reached(
                app,
                FlowView::CreateAnswer(step),
                seq![
                    Move::Promised(Some(outcome)),
                    Move::Performed(Ok(())),
                    Move::Performed(sent),
                ],
            ) == FlowView::Done(Ok(None))
        }),
{
    law_description_is_whole(outcome, fields, i, "answer"@, text);
    let flow = answer_promise_handled(Some(outcome));
    let steps = flow->Perform_0;
    let message = wire_text(JsonMsgView::Sdp { type_: "answer"@, sdp: text@ });
    assert(flow == FlowView::Perform(steps, Then::Finish));
    assert(steps.len() == 2);
    assert(steps[1].on_failure == OnFailure::Ignore);
    let results = seq![Ok::<(), Seq<char>>(()), sent];
    let left = steps.drop_first();
    let later = results.drop_first();
    assert(left.drop_first() =~= Seq::empty());
    reveal_with_fuel(calls_made, 3);
    reveal_with_fuel(flow_after, 3);
    assert(flow_calls(flow, results) =~= seq![steps[0].call, steps[1].call]);
    assert(seq![Ok::<(), Seq<char>>(())].drop_first() =~= Seq::empty());
    assert(flow_after(flow, seq![Ok(())]) == FlowView::Perform(left, Then::Finish));
    let moves = seq![
        Move::Promised(Some(outcome)),
        Move::Performed(Ok(())),
        Move::Performed(sent),
    ];
    let moves1 = moves.drop_first();
    let moves2 = moves1.drop_first();
    let moves3 = moves2.drop_first();
    assert(moves3.len() == 0);
    assert(moved(app, FlowView::CreateAnswer(step), moves[0]) == flow);
    assert(moved(app, flow, moves1[0]) == FlowView::Perform(left, Then::Finish));
    assert(moved(app, FlowView::Perform(left, Then::Finish), moves2[0]) == FlowView::Done(
        Ok(None),
    ));
    reveal_with_fuel(reached, 4);
}

/// The same for an answer that is there already: whatever it is, it becomes our description, then
/// goes to the peer, and only then is the message handled.
pub proof fn law_answer_goes_out(answer: Seq<char>, sent: Result<(), Seq<char>>)
    ensures
        flow_calls(answer_handled(answer), seq![Ok(()), sent]) == seq![
            CallView::Emit {
                signal: "set-local-description"@,
                arguments: seq![
                    ArgumentView::Description { type_: SdpType::Answer, sdp: answer },
                    ArgumentView::Promise,
                ],
            },
            CallView::Send {
                message: WsMessageView::Text(
                    wire_text(JsonMsgView::Sdp { type_: "answer"@, sdp: answer }),
                ),
            },
        ],
        flow_after(answer_handled(answer), seq![Ok(())]) is Perform,
        flow_after(answer_handled(answer), seq![Ok(()), sent]) == FlowView::Done(Ok(None)),
        forall|reason: Seq<char>| #[trigger]
            flow_after(answer_handled(answer), seq![Err(reason)]) == FlowView::Abort(reason),
{
    let flow = answer_handled(answer);
    let steps = flow->Perform_0;
    assert(steps.len() == 2);
    assert(steps[1].on_failure == OnFailure::Ignore);
    let results = seq![Ok::<(), Seq<char>>(()), sent];
    let left = steps.drop_first();
    let later = results.drop_first();
    assert(left.drop_first() =~= Seq::empty());
    reveal_with_fuel(calls_made, 3);
    reveal_with_fuel(flow_after, 3);
    assert(flow_calls(flow, results) =~= seq![steps[0].call, steps[1].call]);
    assert(flow_after(flow, seq![Ok(())]) == FlowView::Perform(left, Then::Finish));
    assert forall|reason: Seq<char>| #[trigger]
        flow_after(flow, seq![Err(reason)]) == FlowView::Abort(reason) by {
        assert(steps[0].on_failure == OnFailure::Abort);
    }
}

/// Without an answer the program cannot go on, and the reason is the fault of the promise.
pub proof fn law_missing_answer_aborts(outcome: Option<PromiseOutcome>, fault: Seq<char>)
    ensures
        answer_promise_handled(None) == FlowView::Abort("Canceled"@),
        awaited(outcome, "answer"@) == Err::<Seq<char>, WebRtcErrView>(
            WebRtcErrView::Whatever(fault),
        ) ==> answer_promise_handled(outcome) == FlowView::Abort(fault),
{
}

/// An offer that webrtcbin gives goes out, from the promise on and whatever the offer is: it
/// becomes our description, then the peer gets it, whole and as the offer. If it cannot be sent,
/// that is posted, and otherwise nothing is.
pub proof fn law_promised_offer_goes_out(
    outcome: PromiseOutcome,
    fields: Vec<ReplyField>,
    i: int,
    text: String,
    sent: Result<(), Seq<char>>,
    shown: spec_fn(AppErrorView) -> Seq<char>,
)
    requires
        outcome.result == PromiseResult::Replied,
        outcome.reply == Some(fields),
        0 <= i < fields@.len(),
        fields@[i].name@ == "offer"@,
        forall|j: int| 0 <= j < i ==> #[trigger] fields@[j].name@ != "offer"@,
        fields@[i].value == (ReplyValue::Description { text: Some(text) }),
    ensures
        ({
            let response = offer_promise_handled(Some(outcome));
            &&& reaction_calls(response, seq![Ok(()), sent], shown) == seq![
                CallView::Emit {
                    signal: "set-local-description"@,
                    arguments: seq![ArgumentView::CreatedOffer, ArgumentView::NoPromise],
                },
                CallView::Send {
                    message: WsMessageView::Text(
                        wire_text(JsonMsgView::Sdp { type_: "offer"@, sdp: text@ }),
                    ),
                },
            ] + (match sent {
                Ok(()) => Seq::empty(),
                Err(_) => seq![
                    CallView::PostError {
                        text: "Failed to send SDP offer: "@ + shown(
                            AppErrorView::WebSocket {
                                kind: IoErrorKind::BrokenPipe,
                                description: "Connection Closed"@,
                            },
                        ),
                    },
                ],
            })
            &&& response_after(response, seq![Ok(())]) is Perform
            &&& sent is Ok ==> response_after(response, seq![Ok(()), sent]) == ResponseView::Done
            &&& response == response_of(offer_handled(outcome), Occasion::SdpOffer)
        }),
        forall|reason: Seq<char>| #[trigger]
            response_after(offer_promise_handled(Some(outcome)), seq![Err(reason)])
                == ResponseView::Abort(reason),
{
    law_description_is_whole(outcome, fields, i, "offer"@, text);
    let response = offer_promise_handled(Some(outcome));
    let steps = response->Perform_0;
    assert(steps.len() == 2);
    assert(response == ResponseView::Perform(steps, Occasion::SdpOffer));
    let results = seq![Ok::<(), Seq<char>>(()), sent];
    let left = steps.drop_first();
    let later = results.drop_first();
    assert(left.drop_first() =~= Seq::empty());
    reveal_with_fuel(calls_made, 3);
    reveal_with_fuel(response_after, 3);
    assert(calls_made(VerdictView::Continue(steps), results) =~= seq![
        steps[0].call,
        steps[1].call,
    ]);
    assert(response_after(response, seq![Ok(())]) == ResponseView::Perform(
        left,
        Occasion::SdpOffer,
    ));
    assert forall|reason: Seq<char>| #[trigger]
        response_after(response, seq![Err(reason)]) == ResponseView::Abort(reason) by {
        assert(steps[0].on_failure == OnFailure::Abort);
    }
}

/// A promise that comes to no offer: nobody hears of one that was dropped, one that was not replied
/// to is reported by the name of its result, and after a reply without an offer the program cannot
/// go on.
pub proof fn law_missing_offer(outcome: PromiseOutcome, fault: Seq<char>)
    ensures
        offer_promise_handled(None) == ResponseView::Done,
        outcome.result != PromiseResult::Replied ==> offer_promise_handled(Some(outcome))
            == ResponseView::Report(
            Occasion::SdpOffer,
            AppErrorView::GStreamer(
                "Offer creation future got no reponse: "@ + outcome.result.name(),
            ),
        ),
        outcome.result != PromiseResult::Replied ==> offer_handled(outcome)
            == VerdictView::Failed(
            AppErrorView::GStreamer(
                "Offer creation future got no reponse: "@ + outcome.result.name(),
            ),
        ),
        outcome.result == PromiseResult::Replied && created(outcome, "offer"@) == Err::<
            Seq<char>,
            WebRtcErrView,
        >(WebRtcErrView::Whatever(fault)) ==> offer_promise_handled(Some(outcome))
            == ResponseView::Abort(fault),
{
}

/// A candidate of ours goes to the peer with the index of its own media line, whatever the line
/// and the candidate are. If it cannot be sent, that is posted, and otherwise nothing is.
pub proof fn law_our_candidate_goes_out(
    index: u32,
    candidate: String,
    more: Seq<SignalValue>,
    sent: Result<(), Seq<char>>,
    shown: spec_fn(AppErrorView) -> Seq<char>,
)
    ensures
        ({
            let values = seq![
                SignalValue::Element,
                SignalValue::Unsigned(index),
                SignalValue::Text(candidate),
            ] + more;
            let response = signal_handled(Reaction::SendCandidate, values);
            &&& carries(values, Reaction::SendCandidate)
            &&& reaction_calls(response, seq![sent], shown) == seq![
                CallView::Send {
                    message: WsMessageView::Text(
                        wire_text(
                            JsonMsgView::Ice { candidate: candidate@, sdp_mline_index: index },
                        ),
                    ),
                },
            ] + (match sent {
                Ok(()) => Seq::empty(),
                Err(_) => seq![
                    CallView::PostError {
                        text: "Failed to send ICE candidate: "@ + shown(
                            AppErrorView::WebSocket {
                                kind: IoErrorKind::BrokenPipe,
                                description: "Connection Closed"@,
                            },
                        ),
                    },
                ],
            })
            &&& sent is Ok ==> response_after(response, seq![sent]) == ResponseView::Done
            &&& candidate_message(values) == (JsonMsgView::Ice {
                candidate: candidate@,
                sdp_mline_index: index,
            })
        }),
{
    let values = seq![
        SignalValue::Element,
        SignalValue::Unsigned(index),
        SignalValue::Text(candidate),
    ] + more;
    let response = signal_handled(Reaction::SendCandidate, values);
    let steps = response->Perform_0;
    assert(response == ResponseView::Perform(steps, Occasion::IceCandidate));
    assert(steps.len() == 1);
    assert(steps.drop_first() =~= Seq::empty());
    let results = seq![sent];
    reveal_with_fuel(calls_made, 2);
    reveal_with_fuel(response_after, 2);
    assert(calls_made(VerdictView::Continue(steps), results) =~= seq![steps[0].call]);
}

/// The need for negotiation has an offer asked for, without options, and nothing else; an event
/// that is delivered has nothing done. Both come with what they need, whatever else comes along.
pub proof fn law_negotiation_asks_for_an_offer(values: Seq<SignalValue>, more: Seq<SignalValue>)
    ensures
        signal_handled(Reaction::Negotiate, values) == ResponseView::CreateOffer(
            StepView {
                call: CallView::Emit {
                    signal: "create-offer"@,
                    arguments: seq![ArgumentView::NoStructure, ArgumentView::Promise],
                },
                on_failure: OnFailure::Abort,
            },
        ),
        signal_handled(Reaction::Deliver, values) == ResponseView::Done,
        carries(seq![SignalValue::Element] + more, Reaction::Negotiate),
        carries(values, Reaction::Deliver),
{
}

/// The words of the server are told apart from everything else, to the letter: after the greeting
/// the call is set up with the peer that the client was started for, if any; a session that is
/// set up has the pipeline finished; what begins with the word for an error is one, with the whole
/// text; and everything else is read as a message of the peer, unchanged.
pub proof fn law_words_of_the_server(app: AppView, text: Seq<char>, details: Seq<char>)
    ensures
        message_handled(app, WsMessageView::Text("HELLO"@)) == FlowView::Done(
            Ok(
                match app.peer_id {
                    Some(peer_id) => Some(WsMessageView::Text("SESSION "@ + peer_id)),
                    None => None,
                },
            ),
        ),
        message_handled(app, WsMessageView::Text("SESSION_OK"@)) == FlowView::Perform(
            pipeline_setup(app),
            Then::Finish,
        ),
        message_handled(app, WsMessageView::Text("ERROR"@ + details)) == FlowView::Done(
            Err(AppErrorView::Peer("ERROR"@ + details)),
        ),
        text != "HELLO"@ && text != "SESSION_OK"@ && !(text.len() >= 5 && text.take(5)
            == "ERROR"@) ==> message_handled(app, WsMessageView::Text(text))
            == FlowView::ParseJson(text),
{
    reveal_strlit("HELLO");
    reveal_strlit("SESSION_OK");
    reveal_strlit("ERROR");
    assert("HELLO"@[0] == 'H' && "SESSION_OK"@[0] == 'S' && "ERROR"@[0] == 'E');
    assert("HELLO"@.len() != "SESSION_OK"@.len());
    assert("ERROR"@ =~= ("ERROR"@ + details).subrange(0, 5));
    assert(("ERROR"@ + details)[0] == 'E');
    assert(text.len() >= 5 ==> text.take(5) =~= text.subrange(0, 5));
    assert(pipeline_setup(app).len() > 0);
}

/// Frames of the WebSocket protocol: a ping has its own data sent back, a request to close is
/// answered without a reason, and nothing is said to the rest.
pub proof fn law_frames(app: AppView, data: Seq<u8>, frame: Option<(u16, Seq<char>)>)
    ensures
        message_handled(app, WsMessageView::Ping(data)) == FlowView::Done(
            Ok(Some(WsMessageView::Pong(data))),
        ),
        message_handled(app, WsMessageView::Close(frame)) == FlowView::Done(
            Ok(Some(WsMessageView::Close(None))),
        ),
        message_handled(app, WsMessageView::Pong(data)) == FlowView::Done(Ok(None)),
        message_handled(app, WsMessageView::Binary(data)) == FlowView::Done(Ok(None)),
{
}

/// What cannot be read is an error with the reason, and so is a description of an unknown type,
/// with the type.
pub proof fn law_unreadable_messages(
    app: AppView,
    reason: Seq<char>,
    type_: Seq<char>,
    sdp: Seq<char>,
)
    ensures
        json_handled(app, Err(reason)) == FlowView::Done(Err(AppErrorView::Json(reason))),
        type_ != "answer"@ && type_ != "offer"@ ==> json_handled(
            app,
            Ok(JsonMsgView::Sdp { type_, sdp }),
        ) == FlowView::Done(
            Err(AppErrorView::Peer("Sdp type is not \"answer\" but \""@ + type_ + "\""@)),
        ),
{
}

/// Each kind of message has one way to be handled, whoever hands it on.
pub proof fn law_handlers_agree(
    app: AppView,
    text: Seq<char>,
    type_: Seq<char>,
    sdp: Seq<char>,
    index: u32,
    candidate: Seq<char>,
    outcome: Option<PromiseOutcome>,
    answer: Seq<char>,
)
    ensures
        text_handled(app, text) == message_handled(app, WsMessageView::Text(text)),
        hello_handled(app) == message_handled(app, WsMessageView::Text("HELLO"@)),
        session_ok_handled(app) == message_handled(app, WsMessageView::Text("SESSION_OK"@)),
        sdp_handled(app, type_, sdp) == json_handled(app, Ok(JsonMsgView::Sdp { type_, sdp })),
        ice_handled(index, candidate) == json_handled(
            app,
            Ok(JsonMsgView::Ice { candidate, sdp_mline_index: index }),
        ),
        awaited(outcome, "answer"@) == Ok::<Seq<char>, WebRtcErrView>(answer)
            ==> answer_promise_handled(outcome) == answer_handled(answer),
{
    reveal_strlit("HELLO");
    reveal_strlit("SESSION_OK");
    assert("HELLO"@.len() != "SESSION_OK"@.len());
}

/// An error of the pipeline is told by its element, its description and its details, each of them
/// whole, or by the word for nothing; any other message of the pipeline leaves the client alone.
pub proof fn law_pipeline_errors_are_told(
    src: Option<Seq<char>>,
    error: Seq<char>,
    debug: Option<Seq<char>>,
)
    ensures
        pipeline_message_handled(PipelineMessageView::Error { src, error, debug }) == Err::<
            Option<WsMessageView>,
            AppErrorView,
        >(
            AppErrorView::GStreamer(
                "Error from element "@ + (match src {
                    Some(src) => src,
                    None => "None"@,
                }) + ": "@ + error + " ("@ + (match debug {
                    Some(debug) => debug,
                    None => "None"@,
                }) + ")"@,
            ),
        ),
        pipeline_message_handled(PipelineMessageView::Warning { debug }) == Ok::<
            Option<WsMessageView>,
            AppErrorView,
        >(None),
        pipeline_message_handled(PipelineMessageView::Other) == Ok::<
            Option<WsMessageView>,
            AppErrorView,
        >(None),
        or_none(Some(error)) == error,
        or_none(None) == "None"@,
{
}

/// Whatever is handed to the WebSocket is handed on as it is, and if it cannot be, that is the
/// caller's to deal with; what goes to the peer says what it is.
pub proof fn law_messages_say_what_they_are(text: Seq<char>)
    ensures
        text_sent(text) == (StepView {
            call: CallView::Send { message: WsMessageView::Text(text) },
            on_failure: OnFailure::Return,
        }),
        offer_message(text) == (JsonMsgView::Sdp { type_: "offer"@, sdp: text }),
        answer_message(text) == (JsonMsgView::Sdp { type_: "answer"@, sdp: text }),
{
}

/// A registration is the greeting and the number, in decimal notation without leading zeros.
pub proof fn law_registration_names_the_number(our_id: nat)
    ensures
        exists|digits: Seq<char>|
            {
                &&& registration(our_id) == "HELLO "@ + digits
                &&& #[trigger] decimal_value(digits) == our_id
                &&& digits.len() > 0
                &&& (digits.len() > 1 ==> digits[0] != '0')
                &&& forall|i: int| 0 <= i < digits.len() ==> '0' <= #[trigger] digits[i] <= '9'
            },
{
    law_decimal_reads_back(our_id);
    law_decimal_is_short(our_id, 0);
    assert(decimal_value(decimal(our_id)) == our_id);
}

/// Failures that nobody waits for are posted under the words for the occasion, with the whole
/// error, and nothing comes of a failure to post them.
pub proof fn law_reports_name_the_occasion(error: Seq<char>)
    ensures
        reported(Occasion::DecodedStream, error) == (StepView {
            call: CallView::PostError { text: "Failed to handle decoded stream: "@ + error },
            on_failure: OnFailure::Ignore,
        }),
        reported(Occasion::IncomingStream, error) == (StepView {
            call: CallView::PostError { text: "Failed to handle incoming stream: "@ + error },
            on_failure: OnFailure::Ignore,
        }),
        reported(Occasion::SdpOffer, error) == (StepView {
            call: CallView::PostError { text: "Failed to send SDP offer: "@ + error },
            on_failure: OnFailure::Ignore,
        }),
        reported(Occasion::IceCandidate, error) == (StepView {
            call: CallView::PostError { text: "Failed to send ICE candidate: "@ + error },
            on_failure: OnFailure::Ignore,
        }),
        reported(Occasion::Playing, error) == (StepView {
            call: CallView::PostError { text: "Failed to set pipeline to Playing: "@ + error },
            on_failure: OnFailure::Ignore,
        }),
        Occasion::DecodedStream.prefix() == "Failed to handle decoded stream: "@,
        Occasion::IncomingStream.prefix() == "Failed to handle incoming stream: "@,
        Occasion::SdpOffer.prefix() == "Failed to send SDP offer: "@,
        Occasion::IceCandidate.prefix() == "Failed to send ICE candidate: "@,
        Occasion::Playing.prefix() == "Failed to set pipeline to Playing: "@,
{
}

/// A run of steps goes on in the handling of a message as it goes: steps that are left are to be
/// performed, an error is what the message comes to, and after the last step the message is
/// handled without a reply, or an answer is asked for.
pub proof fn law_handling_follows_its_steps(
    left: Seq<StepView>,
    then: Then,
    error: AppErrorView,
    text: Seq<char>,
    occasion: Occasion,
)
    ensures
        flow_of(VerdictView::Continue(left), then) == FlowView::Perform(left, then),
        flow_of(VerdictView::Complete, Then::Finish) == FlowView::Done(Ok(None)),
        flow_of(VerdictView::Complete, Then::CreateAnswer) == FlowView::CreateAnswer(
            StepView {
                call: CallView::Emit {
                    signal: "create-answer"@,
                    arguments: seq![ArgumentView::NoStructure, ArgumentView::Promise],
                },
                on_failure: OnFailure::Abort,
            },
        ),
        flow_of(VerdictView::Failed(error), then) == FlowView::Done(Err(error)),
        flow_of(VerdictView::Abort(text), then) == FlowView::Abort(text),
        response_of(VerdictView::Continue(left), occasion) == ResponseView::Perform(
            left,
            occasion,
        ),
        response_of(VerdictView::Complete, occasion) == ResponseView::Done,
        response_of(VerdictView::Failed(error), occasion) == ResponseView::Report(
            occasion,
            error,
        ),
        response_of(VerdictView::Abort(text), occasion) == ResponseView::Abort(text),
{
}

/// What is to be done is done exactly as long as the application is there; what it is to do about
/// playing is one call, whose failure is to be reported.
pub proof fn law_responses_need_the_application(response: ResponseView)
    ensures
        if_there(true, response) == response,
        if_there(false, response) == ResponseView::Done,
        playing_handled() == ResponseView::Perform(
            seq![
                StepView {
                    call: CallView::SetState { state: PipelineState::Playing },
                    on_failure: OnFailure::Return,
                },
            ],
            Occasion::Playing,
        ),
{
}

/// A decoded stream is told by how the name of its capabilities begins, and by nothing else.
pub proof fn law_streams_are_told_by_their_names(name: Seq<char>, rest: Seq<char>)
    ensures
        stream_type("video/"@ + rest) == Some(MediaType::Video),
        stream_type("audio/"@ + rest) == Some(MediaType::Audio),
        !(name.len() >= 6 && name.take(6) == "video/"@) && !(name.len() >= 6 && name.take(6)
            == "audio/"@) ==> stream_type(name) is None,
        decoded_stream_handled("video/"@ + rest) == started(media_sink(MediaType::Video)),
        decoded_stream_handled("audio/"@ + rest) == started(media_sink(MediaType::Audio)),
        stream_type(name) is None ==> decoded_stream_handled(name) == VerdictView::Complete,
{
    reveal_strlit("video/");
    reveal_strlit("audio/");
    assert("video/"@[0] == 'v' && "audio/"@[0] == 'a');
    assert("video/"@ =~= ("video/"@ + rest).subrange(0, 6));
    assert("audio/"@ =~= ("audio/"@ + rest).subrange(0, 6));
    assert(("audio/"@ + rest)[0] == 'a');
    assert(!"video/"@.is_prefix_of("audio/"@ + rest)) by {
        if "video/"@.is_prefix_of("audio/"@ + rest) {
            assert(("audio/"@ + rest).subrange(0, 6)[0] == 'v');
        }
    }
    assert(name.len() >= 6 ==> name.take(6) =~= name.subrange(0, 6));
}

/// A decoded video stream ends in the screen: through a queue and a converter, each of which is in
/// the pipeline and in its state, linked one to the next, the stream to the input of the first.
pub proof fn law_video_stream_is_played(pad: Pad, name: String, rest: Seq<char>)
    requires
        pad.caps_name == Some(name),
        name@ == "video/"@ + rest,
    ensures
        ({
            let response = pad_handled(PadReaction::HandleDecodedStream, pad);
            let steps = response->Perform_0;
            let graph = built(empty_graph(), steps, steps.len())->0;
            &&& response == ResponseView::Perform(steps, Occasion::DecodedStream)
            &&& built(empty_graph(), steps, steps.len()) is Some
            &&& graph.made == seq!["queue"@, "videoconvert"@, "autovideosink"@]
            &&& graph.links == seq![(0nat, 1nat), (1, 2)]
            &&& graph.inputs == seq![(0nat, "sink"@)]
            &&& forall|element: nat| #[trigger] graph.added.contains(element) <==> element < 3
            &&& forall|element: nat| #[trigger] graph.synced.contains(element) <==> element < 3
            &&& graph.settings.len() == 0
            &&& graph.outputs.len() == 0
            &&& graph.others.len() == 0
        }),
{
    law_streams_are_told_by_their_names(name@, rest);
    law_media_sink_is_a_chain(MediaType::Video);
    let graph = video_sink_graph();
    assert(forall|element: nat| #[trigger] graph.added.contains(element) <==> element < 3);
    assert(forall|element: nat| #[trigger] graph.synced.contains(element) <==> element < 3);
}

/// A decoded audio stream ends in the loudspeaker: through a queue, a converter and a resampler,
/// each of which is in the pipeline and in its state, linked one to the next, the stream to the
/// input of the first.
pub proof fn law_audio_stream_is_played(pad: Pad, name: String, rest: Seq<char>)
    requires
        pad.caps_name == Some(name),
        name@ == "audio/"@ + rest,
    ensures
        ({
            let response = pad_handled(PadReaction::HandleDecodedStream, pad);
            let steps = response->Perform_0;
            let graph = built(empty_graph(), steps, steps.len())->0;
            &&& response == ResponseView::Perform(steps, Occasion::DecodedStream)
            &&& built(empty_graph(), steps, steps.len()) is Some
            &&& graph.made == seq!["queue"@, "audioconvert"@, "autoaudiosink"@, "audioresample"@]
            &&& graph.links == seq![(0nat, 1nat), (1, 3), (3, 2)]
            &&& graph.inputs == seq![(0nat, "sink"@)]
            &&& forall|element: nat| #[trigger] graph.added.contains(element) <==> element < 4
            &&& forall|element: nat| #[trigger] graph.synced.contains(element) <==> element < 4
            &&& graph.settings.len() == 0
            &&& graph.outputs.len() == 0
            &&& graph.others.len() == 0
        }),
{
    law_streams_are_told_by_their_names(name@, rest);
    law_media_sink_is_a_chain(MediaType::Audio);
    let graph = audio_sink_graph();
    assert(forall|element: nat| #[trigger] graph.added.contains(element) <==> element < 4);
    assert(forall|element: nat| #[trigger] graph.synced.contains(element) <==> element < 4);
}

/// Any other decoded stream is left alone, and so is a new pad of webrtcbin that no data comes out
/// of.
pub proof fn law_other_streams_are_left_alone(pad: Pad, name: String)
    ensures
        pad.caps_name == Some(name) && !(name@.len() >= 6 && name@.take(6) == "video/"@) && !(
        name@.len() >= 6 && name@.take(6) == "audio/"@) ==> pad_handled(
            PadReaction::HandleDecodedStream,
            pad,
        ) == ResponseView::Done,
        pad.direction != PadDirection::Src ==> pad_handled(PadReaction::HandleStream, pad)
            == ResponseView::Done,
        pad.direction != PadDirection::Src ==> incoming_stream_handled(pad.direction)
            == VerdictView::Complete,
{
    law_streams_are_told_by_their_names(name@, Seq::empty());
}

/// A stream that comes in from the peer gets a decoder of its own, which is in the pipeline and in
/// its state, takes the stream at its input and has what it puts out come back to the client.
pub proof fn law_incoming_stream_is_decoded(pad: Pad)
    requires
        pad.direction == PadDirection::Src,
    ensures
        ({
            let response = pad_handled(PadReaction::HandleStream, pad);
            let steps = response->Perform_0;
            let graph = built(empty_graph(), steps, steps.len())->0;
            &&& response == ResponseView::Perform(steps, Occasion::IncomingStream)
            &&& incoming_stream_handled(pad.direction) == VerdictView::Continue(steps)
            &&& built(empty_graph(), steps, steps.len()) is Some
            &&& graph.made == seq!["decodebin"@]
            &&& graph.links.len() == 0
            &&& graph.inputs == seq![(0nat, "sink"@)]
            &&& forall|element: nat| #[trigger] graph.added.contains(element) <==> element == 0
            &&& forall|element: nat| #[trigger] graph.synced.contains(element) <==> element == 0
            &&& graph.settings.len() == 0
            &&& graph.outputs.len() == 0
            &&& graph.others == seq![
                CallView::ConnectPadAdded {
                    target: TargetView::Element(0),
                    pad_reaction: PadReaction::HandleDecodedStream,
                },
            ]
        }),
{
    law_decoder_takes_the_stream();
    assert(decoder().len() > 0);
}

} // verus!
