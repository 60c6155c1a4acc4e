//! What the client is connected to, and what comes of it.

use crate::app::branches::{
    audio_source, decoder, media_sink, stream_type, video_source,
};
use crate::app::reactions::{
    candidate_message, carries, if_there, offer_promise_handled, pad_handled, playing_handled,
    response_of, signal_handled, ResponseView,
};
use crate::app::{
    offer_handled, offer_message, pipeline_setup, reported, text_sent, AppView, Occasion,
};
use crate::error::{connection_closed, AppErrorView};
use crate::media::plan::{
    advanced, calls, calls_made, goes_on, law_run_makes_every_call, law_run_stops_at_failure, run,
    started, stopped, VerdictView,
};
use crate::media::step::{
    or_return, regardless, ArgumentView, CallView, OnFailure, PadReaction, PipelineState, Reaction,
    StepView, TargetView,
};
use crate::media::webrtcbin::{
    connected, created, emitted, event_of, subscription, EventView, Pad, PadDirection,
    PromiseOutcome, PromiseResult, SignalValue,
};
use crate::wire::wire_text;
use vstd::prelude::*;

verus! {

/// What a reaction can be connected to.
pub enum Trigger {
    Signal(Seq<char>),
    PadAdded(TargetView),
}

/// A reaction that is connected.
pub enum Connected {
    Signal(Reaction),
    Pad(PadReaction),
}

/// What a call connects, if it connects anything.
pub open spec fn connection(call: CallView) -> Option<(Trigger, Connected)> {
    match call {
        CallView::Connect { signal, reaction } => Some(
            (Trigger::Signal(signal), Connected::Signal(reaction)),
        ),
        CallView::ConnectPadAdded { target, pad_reaction } => Some(
            (Trigger::PadAdded(target), Connected::Pad(pad_reaction)),
        ),
        _ => None,
    }
}

/// The reactions that steps connect to something, in order: each of them comes once for each time
/// that it happens.
pub open spec fn reactions(steps: Seq<StepView>, trigger: Trigger) -> Seq<Connected>
    decreases steps.len(),
{
    if steps.len() == 0 {
        Seq::empty()
    } else {
        let before = reactions(steps.drop_last(), trigger);
        match connection(steps.last().call) {
            Some((to, reaction)) if to == trigger => before.push(reaction),
            _ => before,
        }
    }
}

/// What steps connect does not depend on the steps before them.
proof fn lemma_reactions_add_up(a: Seq<StepView>, b: Seq<StepView>, trigger: Trigger)
    ensures
        reactions(a + b, trigger) == reactions(a, trigger) + reactions(b, trigger),
    decreases b.len(),
{
    if b.len() == 0 {
        assert(a + b =~= a);
        assert(reactions(a, trigger) + reactions(b, trigger) =~= reactions(a, trigger));
    } else {
        lemma_reactions_add_up(a, b.drop_last(), trigger);
        assert((a + b).drop_last() =~= a + b.drop_last());
        assert(reactions(a + b, trigger) =~= reactions(a, trigger) + reactions(b, trigger));
    }
}

/// Steps that connect nothing.
proof fn lemma_nothing_connected(steps: Seq<StepView>, trigger: Trigger)
    requires
        forall|i: int| 0 <= i < steps.len() ==> connection((#[trigger] steps[i]).call) is None,
    ensures
        reactions(steps, trigger) == Seq::<Connected>::empty(),
    decreases steps.len(),
{
    if steps.len() > 0 {
        assert forall|i: int| 0 <= i < steps.drop_last().len() implies connection(
            (#[trigger] steps.drop_last()[i]).call,
        ) is None by {
            assert(steps.drop_last()[i] == steps[i]);
        }
        lemma_nothing_connected(steps.drop_last(), trigger);
    }
}

/// What one step connects.
proof fn lemma_one_connected(step: StepView, trigger: Trigger)
    ensures
        reactions(seq![step], trigger) == (match connection(step.call) {
            Some((to, reaction)) if to == trigger => seq![reaction],
            _ => Seq::empty(),
        }),
{
    reveal_with_fuel(reactions, 2);
    assert(seq![step].drop_last() =~= Seq::empty());
    if let Some((_, reaction)) = connection(step.call) {
        assert(Seq::<Connected>::empty().push(reaction) =~= seq![reaction]);
    }
}

/// What the preparation of a session connects: the first steps do, the others do not.
proof fn lemma_setup_connects(app: AppView, trigger: Trigger)
    ensures
        reactions(pipeline_setup(app), trigger) == (if app.peer_id is Some {
            reactions(seq![connected("on-negotiation-needed"@, Reaction::Negotiate)], trigger)
        } else {
            Seq::empty()
        }) + reactions(
            seq![connected("on-ice-candidate"@, Reaction::SendCandidate)],
            trigger,
        ) + reactions(
            seq![
                regardless(
                    CallView::ConnectPadAdded {
                        target: TargetView::WebRtcBin,
                        pad_reaction: PadReaction::HandleStream,
                    },
                ),
            ],
            trigger,
        ),
{
    let setup = pipeline_setup(app);
    let calling: Seq<StepView> = if app.peer_id is Some {
        seq![connected("on-negotiation-needed"@, Reaction::Negotiate)]
    } else {
        Seq::empty()
    };
    let candidate = seq![connected("on-ice-candidate"@, Reaction::SendCandidate)];
    let stream = seq![
        regardless(
            CallView::ConnectPadAdded {
                target: TargetView::WebRtcBin,
                pad_reaction: PadReaction::HandleStream,
            },
        ),
    ];
    let head = calling + candidate + stream;
    let tail = setup.skip(head.len() as int);
    assert(setup =~= head + tail);
    assert forall|i: int| 0 <= i < tail.len() implies connection((#[trigger] tail[i]).call)
        is None by {
        if i < 12 {
            assert(tail[i] == video_source(0)[i]);
        } else if i < 25 {
            assert(tail[i] == audio_source(6)[i - 12]);
        }
    }
    lemma_nothing_connected(tail, trigger);
    lemma_reactions_add_up(head, tail, trigger);
    lemma_reactions_add_up(calling + candidate, stream, trigger);
    lemma_reactions_add_up(calling, candidate, trigger);
    assert(reactions(head, trigger) + Seq::<Connected>::empty() =~= reactions(head, trigger));
}

/// The client negotiates when that is needed, once each time, exactly if it was started with a
/// peer to call.
pub proof fn law_negotiates_only_when_calling(app: AppView)
    ensures
        reactions(pipeline_setup(app), Trigger::Signal("on-negotiation-needed"@)) == (
        if app.peer_id is Some {
            seq![Connected::Signal(Reaction::Negotiate)]
        } else {
            Seq::empty()
        }),
{
    reveal_strlit("on-negotiation-needed");
    reveal_strlit("on-ice-candidate");
    let trigger = Trigger::Signal("on-negotiation-needed"@);
    assert("on-negotiation-needed"@.len() != "on-ice-candidate"@.len());
    lemma_setup_connects(app, trigger);
    lemma_each_connected(trigger);
    assert(reactions(pipeline_setup(app), trigger) =~= if app.peer_id is Some {
        seq![Connected::Signal(Reaction::Negotiate)]
    } else {
        Seq::empty()
    });
}

/// What each of the connecting steps of the preparation connects.
proof fn lemma_each_connected(trigger: Trigger)
    ensures
        reactions(seq![connected("on-negotiation-needed"@, Reaction::Negotiate)], trigger) == (
        if trigger == Trigger::Signal("on-negotiation-needed"@) {
            seq![Connected::Signal(Reaction::Negotiate)]
        } else {
            Seq::empty()
        }),
        reactions(seq![connected("on-ice-candidate"@, Reaction::SendCandidate)], trigger) == (
        if trigger == Trigger::Signal("on-ice-candidate"@) {
            seq![Connected::Signal(Reaction::SendCandidate)]
        } else {
            Seq::empty()
        }),
        reactions(
            seq![
                regardless(
                    CallView::ConnectPadAdded {
                        target: TargetView::WebRtcBin,
                        pad_reaction: PadReaction::HandleStream,
                    },
                ),
            ],
            trigger,
        ) == (if trigger == Trigger::PadAdded(TargetView::WebRtcBin) {
            seq![Connected::Pad(PadReaction::HandleStream)]
        } else {
            Seq::empty()
        }),
{
    lemma_one_connected(connected("on-negotiation-needed"@, Reaction::Negotiate), trigger);
    lemma_one_connected(connected("on-ice-candidate"@, Reaction::SendCandidate), trigger);
    lemma_one_connected(
        regardless(
            CallView::ConnectPadAdded {
                target: TargetView::WebRtcBin,
                pad_reaction: PadReaction::HandleStream,
            },
        ),
        trigger,
    );
}

/// Whoever calls and whether or not lost packets are sent again: each candidate of ours is sent
/// to the peer once and each new pad of webrtcbin taken for a stream once, and nothing else is
/// connected.
pub proof fn law_candidates_and_streams_are_handled(app: AppView, other: Trigger)
    requires
        other != Trigger::Signal("on-negotiation-needed"@),
        other != Trigger::Signal("on-ice-candidate"@),
        other != Trigger::PadAdded(TargetView::WebRtcBin),
    ensures
        reactions(pipeline_setup(app), Trigger::Signal("on-ice-candidate"@)) == seq![
            Connected::Signal(Reaction::SendCandidate),
        ],
        reactions(pipeline_setup(app), Trigger::PadAdded(TargetView::WebRtcBin)) == seq![
            Connected::Pad(PadReaction::HandleStream),
        ],
        reactions(pipeline_setup(app), other) == Seq::<Connected>::empty(),
{
    reveal_strlit("on-negotiation-needed");
    reveal_strlit("on-ice-candidate");
    assert("on-negotiation-needed"@.len() != "on-ice-candidate"@.len());
    let candidate = Trigger::Signal("on-ice-candidate"@);
    let stream = Trigger::PadAdded(TargetView::WebRtcBin);
    lemma_setup_connects(app, candidate);
    lemma_each_connected(candidate);
    lemma_setup_connects(app, stream);
    lemma_each_connected(stream);
    lemma_setup_connects(app, other);
    lemma_each_connected(other);
    assert(reactions(pipeline_setup(app), candidate) =~= seq![
        Connected::Signal(Reaction::SendCandidate),
    ]);
    assert(reactions(pipeline_setup(app), stream) =~= seq![
        Connected::Pad(PadReaction::HandleStream),
    ]);
    assert(reactions(pipeline_setup(app), other) =~= Seq::<Connected>::empty());
}

/// Each stream that a decoder puts out is handled once.
pub proof fn law_decoded_streams_are_handled()
    ensures
        reactions(decoder(), Trigger::PadAdded(TargetView::Element(0))) == seq![
            Connected::Pad(PadReaction::HandleDecodedStream),
        ],
{
    let trigger = Trigger::PadAdded(TargetView::Element(0));
    let before = decoder().take(1);
    let own = seq![decoder()[1]];
    let after = decoder().skip(2);
    assert(decoder() =~= before + own + after);
    lemma_nothing_connected(before, trigger);
    lemma_one_connected(decoder()[1], trigger);
    lemma_nothing_connected(after, trigger);
    lemma_reactions_add_up(before, own, trigger);
    lemma_reactions_add_up(before + own, after, trigger);
    assert(reactions(decoder(), trigger) =~= seq![
        Connected::Pad(PadReaction::HandleDecodedStream),
    ]);
}

/// Where a reaction stands after results, each of them handed on as long as there are steps under
/// way.
pub open spec fn response_after(
    response: ResponseView,
    results: Seq<Result<(), Seq<char>>>,
) -> ResponseView
    decreases results.len(),
{
    match response {
        ResponseView::Perform(left, occasion) if results.len() > 0 => response_after(
            response_of(advanced(left, results[0]), occasion),
            results.drop_first(),
        ),
        _ => response,
    }
}

/// A reaction follows the run of its steps.
proof fn lemma_response_follows_run(
    verdict: VerdictView,
    occasion: Occasion,
    results: Seq<Result<(), Seq<char>>>,
)
    ensures
        response_after(response_of(verdict, occasion), results) == response_of(
            run(verdict, results),
            occasion,
        ),
    decreases results.len(),
{
    match verdict {
        VerdictView::Continue(left) if results.len() > 0 => {
            lemma_response_follows_run(advanced(left, results[0]), occasion, results.drop_first());
        },
        _ => {},
    }
}

/// What a reaction that came to this posts: its failure, if it is to be reported. `shown` is how
/// errors are put into words.
pub open spec fn posted(
    response: ResponseView,
    shown: spec_fn(AppErrorView) -> Seq<char>,
) -> Seq<CallView> {
    match response {
        ResponseView::Report(occasion, error) => seq![reported(occasion, shown(error)).call],
        _ => Seq::empty(),
    }
}

/// Everything that is called in the course of a reaction whose steps come to these results: the
/// calls of its steps, then the report of its failure, or the one call that asks for an offer.
pub open spec fn reaction_calls(
    response: ResponseView,
    results: Seq<Result<(), Seq<char>>>,
    shown: spec_fn(AppErrorView) -> Seq<char>,
) -> Seq<CallView> {
    match response {
        ResponseView::Perform(left, _) => calls_made(VerdictView::Continue(left), results) + posted(
            response_after(response, results),
            shown,
        ),
        ResponseView::CreateOffer(step) => seq![step.call],
        _ => posted(response, shown),
    }
}

/// A reaction makes the calls of its steps, and posts the error that they came to, if any, under
/// the words for the occasion; nothing else is posted.
pub proof fn law_failures_are_posted(
    verdict: VerdictView,
    occasion: Occasion,
    results: Seq<Result<(), Seq<char>>>,
    shown: spec_fn(AppErrorView) -> Seq<char>,
)
    ensures
        reaction_calls(response_of(verdict, occasion), results, shown) == calls_made(
            verdict,
            results,
        ) + (match run(verdict, results) {
            VerdictView::Failed(error) => seq![
                CallView::PostError { text: occasion.prefix() + shown(error) },
            ],
            _ => Seq::empty(),
        }),
{
    lemma_response_follows_run(verdict, occasion, results);
    let posts = posted(response_of(run(verdict, results), occasion), shown);
    match verdict {
        VerdictView::Continue(_) => {},
        _ => {
            assert(calls_made(verdict, results) + posts =~= posts);
        },
    }
}

/// Asking for an offer calls `create-offer`, without options, and nothing else. When its promise
/// is resolved and the application is still there, what is done about the offer is done once, and
/// an error of it is posted as a failure to send it; if the application is gone by then, nothing
/// is called at all.
pub proof fn law_negotiation_needed(
    values: Seq<SignalValue>,
    promise: PromiseOutcome,
    there: bool,
    results: Seq<Result<(), Seq<char>>>,
    shown: spec_fn(AppErrorView) -> Seq<char>,
)
    requires
        promise.result == PromiseResult::Replied ==> created(promise, "offer"@) is Ok,
    ensures
        reaction_calls(
            if_there(true, signal_handled(Reaction::Negotiate, values)),
            results,
            shown,
        ) == seq![
            CallView::Emit {
                signal: "create-offer"@,
                arguments: seq![ArgumentView::NoStructure, ArgumentView::Promise],
            },
        ],
        reaction_calls(
            if_there(there, offer_promise_handled(Some(promise))),
            results,
            shown,
        ) == (if there {
            calls_made(offer_handled(promise), results) + (match run(
                offer_handled(promise),
                results,
            ) {
                VerdictView::Failed(error) => seq![
                    CallView::PostError { text: "Failed to send SDP offer: "@ + shown(error) },
                ],
                _ => Seq::empty(),
            })
        } else {
            Seq::empty()
        }),
{
    law_failures_are_posted(offer_handled(promise), Occasion::SdpOffer, results, shown);
}

/// Whatever happens once the application is gone, nothing is called.
pub proof fn law_nothing_is_called_without_the_application(
    reaction: Reaction,
    values: Seq<SignalValue>,
    pad_reaction: PadReaction,
    pad: Pad,
    promise: Option<PromiseOutcome>,
    results: Seq<Result<(), Seq<char>>>,
    shown: spec_fn(AppErrorView) -> Seq<char>,
)
    ensures
        reaction_calls(
            if_there(false, signal_handled(reaction, values)),
            results,
            shown,
        ) == Seq::<CallView>::empty(),
        reaction_calls(
            if_there(false, pad_handled(pad_reaction, pad)),
            results,
            shown,
        ) == Seq::<CallView>::empty(),
        reaction_calls(
            if_there(false, offer_promise_handled(promise)),
            results,
            shown,
        ) == Seq::<CallView>::empty(),
        reaction_calls(if_there(false, playing_handled()), results, shown) == Seq::<
            CallView,
        >::empty(),
{
}

/// When it is time, the pipeline is told to play, once; if it cannot, that is posted, and if it
/// can, nothing is.
pub proof fn law_failure_to_play_is_posted(
    result: Result<(), Seq<char>>,
    shown: spec_fn(AppErrorView) -> Seq<char>,
)
    ensures
        reaction_calls(playing_handled(), seq![result], shown) == seq![
            CallView::SetState { state: PipelineState::Playing },
        ] + (match result {
            Ok(()) => Seq::empty(),
            Err(text) => seq![
                CallView::PostError {
                    text: "Failed to set pipeline to Playing: "@ + shown(AppErrorView::Media(text)),
                },
            ],
        }),
{
    let steps = seq![or_return(CallView::SetState { state: PipelineState::Playing })];
    let results = seq![result];
    law_failures_are_posted(started(steps), Occasion::Playing, results, shown);
    if result is Ok {
        assert(goes_on(steps[0], results[0]));
        law_run_makes_every_call(steps, results);
    } else {
        law_run_stops_at_failure(steps, results, 0);
        assert(steps.take(1) =~= steps);
    }
    assert(calls(steps) =~= seq![steps[0].call]);
}

/// A client that calls negotiates: when that is needed, webrtcbin is asked for an offer, once;
/// the offer becomes our description, then goes to the peer, and nothing else is called. If it
/// could not be sent, that is reported, and if it could, nothing is.
pub proof fn law_negotiation_sends_the_offer(
    app: AppView,
    values: Seq<SignalValue>,
    promise: PromiseOutcome,
    sent: Result<(), Seq<char>>,
)
    requires
        app.peer_id is Some,
        promise.result == PromiseResult::Replied,
        created(promise, "offer"@) is Ok,
    ensures
        reactions(pipeline_setup(app), Trigger::Signal("on-negotiation-needed"@)) == seq![
            Connected::Signal(Reaction::Negotiate),
        ],
        signal_handled(Reaction::Negotiate, values) == ResponseView::CreateOffer(
            emitted("create-offer"@, seq![ArgumentView::NoStructure, ArgumentView::Promise]),
        ),
        offer_promise_handled(Some(promise)) == response_of(
            offer_handled(promise),
            Occasion::SdpOffer,
        ),
        calls_made(offer_handled(promise), seq![Ok(()), sent]) == seq![
            CallView::Emit {
                signal: "set-local-description"@,
                arguments: seq![ArgumentView::CreatedOffer, ArgumentView::NoPromise],
            },
            text_sent(wire_text(offer_message(created(promise, "offer"@)->Ok_0))).call,
        ],
        response_after(offer_promise_handled(Some(promise)), seq![Ok(()), sent]) == (match sent {
            Ok(()) => ResponseView::Done,
            Err(_) => ResponseView::Report(Occasion::SdpOffer, connection_closed()),
        }),
{
    law_negotiates_only_when_calling(app);
    let steps = seq![
        emitted(
            "set-local-description"@,
            seq![ArgumentView::CreatedOffer, ArgumentView::NoPromise],
        ),
        text_sent(wire_text(offer_message(created(promise, "offer"@)->Ok_0))),
    ];
    let results = seq![Ok::<(), Seq<char>>(()), sent];
    assert(offer_handled(promise) == started(steps));
    lemma_response_follows_run(started(steps), Occasion::SdpOffer, results);
    if sent is Ok {
        assert forall|i: int| 0 <= i < 2 implies #[trigger] goes_on(steps[i], results[i]) by {
            assert(results[i] is Ok);
        }
        law_run_makes_every_call(steps, results);
    } else {
        law_run_stops_at_failure(steps, results, 1);
        assert(steps.take(2) =~= steps);
        assert(stopped(steps[1], sent->Err_0) == VerdictView::Failed(connection_closed()));
    }
    assert(calls(steps) =~= seq![steps[0].call, steps[1].call]);
}

/// A promise for an offer that comes to nothing is reported as well, and nothing is called; of
/// one that was dropped nobody hears.
pub proof fn law_missing_offers_are_reported(promise: PromiseOutcome)
    requires
        promise.result != PromiseResult::Replied,
    ensures
        offer_promise_handled(Some(promise)) == ResponseView::Report(
            Occasion::SdpOffer,
            AppErrorView::GStreamer(
                "Offer creation future got no reponse: "@ + promise.result.name(),
            ),
        ),
        offer_promise_handled(None) == ResponseView::Done,
{
}

/// A candidate of ours is sent to the peer, and nothing else is called; if it could not be sent,
/// that is reported, and if it could, nothing is.
pub proof fn law_candidate_is_sent_once(
    values: Seq<SignalValue>,
    sent: Result<(), Seq<char>>,
)
    requires
        carries(values, Reaction::SendCandidate),
    ensures
        signal_handled(Reaction::SendCandidate, values) == ResponseView::Perform(
            seq![text_sent(wire_text(candidate_message(values)))],
            Occasion::IceCandidate,
        ),
        calls_made(
            started(seq![text_sent(wire_text(candidate_message(values)))]),
            seq![sent],
        ) == seq![text_sent(wire_text(candidate_message(values))).call],
        response_after(signal_handled(Reaction::SendCandidate, values), seq![sent]) == (
        match sent {
            Ok(()) => ResponseView::Done,
            Err(_) => ResponseView::Report(Occasion::IceCandidate, connection_closed()),
        }),
{
    let steps = seq![text_sent(wire_text(candidate_message(values)))];
    let results = seq![sent];
    lemma_response_follows_run(started(steps), Occasion::IceCandidate, results);
    if sent is Ok {
        assert(goes_on(steps[0], results[0]));
        law_run_makes_every_call(steps, results);
    } else {
        law_run_stops_at_failure(steps, results, 0);
        assert(steps.take(1) =~= steps);
        assert(stopped(steps[0], sent->Err_0) == VerdictView::Failed(connection_closed()));
    }
    assert(calls(steps) =~= seq![steps[0].call]);
}

/// The steps that a new pad leads to.
pub open spec fn pad_steps(reaction: PadReaction, pad: Pad) -> Seq<StepView> {
    match reaction {
        PadReaction::HandleStream => if pad.direction == PadDirection::Src {
            decoder()
        } else {
            Seq::empty()
        },
        PadReaction::HandleDecodedStream => match stream_type(pad.caps_name->0@) {
            Some(media_type) => media_sink(media_type),
            None => Seq::empty(),
        },
    }
}

/// On which occasion the failure of a reaction to a new pad is reported.
pub open spec fn pad_occasion(reaction: PadReaction) -> Occasion {
    match reaction {
        PadReaction::HandleStream => Occasion::IncomingStream,
        PadReaction::HandleDecodedStream => Occasion::DecodedStream,
    }
}

/// If no step that a new pad leads to fails, each of them is made once, and nothing is reported.
pub proof fn law_stream_is_handled(
    reaction: PadReaction,
    pad: Pad,
    results: Seq<Result<(), Seq<char>>>,
)
    requires
        results.len() == pad_steps(reaction, pad).len(),
        forall|i: int|
            0 <= i < results.len() ==> #[trigger] goes_on(pad_steps(reaction, pad)[i], results[i]),
    ensures
        pad_handled(reaction, pad) == response_of(
            started(pad_steps(reaction, pad)),
            pad_occasion(reaction),
        ),
        calls_made(started(pad_steps(reaction, pad)), results) == calls(pad_steps(reaction, pad)),
        response_after(pad_handled(reaction, pad), results) == ResponseView::Done,
        forall|i: int|
            0 <= i < pad_steps(reaction, pad).len() ==> (#[trigger] pad_steps(reaction, pad)[i]).call
                !is PostError,
{
    let steps = pad_steps(reaction, pad);
    lemma_response_follows_run(started(steps), pad_occasion(reaction), results);
    law_run_makes_every_call(steps, results);
}

/// The first step that a new pad leads to and that fails is the last one; a failure that is
/// returned is reported on the occasion, and any other ends the program.
pub proof fn law_failed_stream_is_reported(
    reaction: PadReaction,
    pad: Pad,
    results: Seq<Result<(), Seq<char>>>,
    k: int,
)
    requires
        0 <= k < pad_steps(reaction, pad).len(),
        k < results.len(),
        forall|i: int|
            0 <= i < k ==> #[trigger] goes_on(pad_steps(reaction, pad)[i], results[i]),
        !goes_on(pad_steps(reaction, pad)[k], results[k]),
    ensures
        calls_made(started(pad_steps(reaction, pad)), results) == calls(
            pad_steps(reaction, pad).take(k + 1),
        ),
        response_after(pad_handled(reaction, pad), results) == (if pad_steps(
            reaction,
            pad,
        )[k].on_failure == OnFailure::Return {
            ResponseView::Report(
                pad_occasion(reaction),
                AppErrorView::Media(results[k]->Err_0),
            )
        } else {
            ResponseView::Abort(results[k]->Err_0)
        }),
{
    let steps = pad_steps(reaction, pad);
    lemma_response_follows_run(started(steps), pad_occasion(reaction), results);
    law_run_stops_at_failure(steps, results, k);
}

/// A signal that webrtcbin emitted.
pub struct Emission {
    pub signal: Seq<char>,
    pub values: Seq<SignalValue>,
}

/// The events of signals, in order.
pub open spec fn events(emissions: Seq<Emission>) -> Seq<EventView>
    decreases emissions.len(),
{
    if emissions.len() == 0 {
        Seq::empty()
    } else {
        let before = events(emissions.drop_last());
        match event_of(emissions.last().signal, emissions.last().values) {
            Some(event) => before.push(event),
            None => before,
        }
    }
}

/// What comes of an event that these reactions are connected to: one for each delivery.
pub open spec fn deliveries(connected: Seq<Connected>, event: Option<EventView>) -> Seq<EventView>
    decreases connected.len(),
{
    if connected.len() == 0 {
        Seq::empty()
    } else {
        let before = deliveries(connected.drop_last(), event);
        match event {
            Some(event) if connected.last() == Connected::Signal(Reaction::Deliver) => before.push(
                event,
            ),
            _ => before,
        }
    }
}

/// What a subscriber gets that is connected by these steps, of signals that are emitted from then
/// on.
pub open spec fn received(steps: Seq<StepView>, emissions: Seq<Emission>) -> Seq<EventView>
    decreases emissions.len(),
{
    if emissions.len() == 0 {
        Seq::empty()
    } else {
        received(steps, emissions.drop_last()) + deliveries(
            reactions(steps, Trigger::Signal(emissions.last().signal)),
            event_of(emissions.last().signal, emissions.last().values),
        )
    }
}

/// A subscriber is connected once to each of the signals that are events, and to no other.
pub proof fn law_subscription(signal: Seq<char>, values: Seq<SignalValue>)
    ensures
        reactions(subscription(), Trigger::Signal(signal)) == (if event_of(signal, values)
            is Some {
            seq![Connected::Signal(Reaction::Deliver)]
        } else {
            Seq::empty()
        }),
{
    reveal_strlit("on-negotiation-needed");
    reveal_strlit("on-ice-candidate");
    assert("on-negotiation-needed"@.len() != "on-ice-candidate"@.len());
    let trigger = Trigger::Signal(signal);
    let negotiation = connected("on-negotiation-needed"@, Reaction::Deliver);
    let candidate = connected("on-ice-candidate"@, Reaction::Deliver);
    assert(subscription() =~= seq![negotiation] + seq![candidate]);
    lemma_reactions_add_up(seq![negotiation], seq![candidate], trigger);
    lemma_one_connected(negotiation, trigger);
    lemma_one_connected(candidate, trigger);
    assert(reactions(subscription(), trigger) =~= if event_of(signal, values) is Some {
        seq![Connected::Signal(Reaction::Deliver)]
    } else {
        Seq::empty()
    });
}

/// A subscriber gets the event of every signal that has one: in the order in which the signals are
/// emitted, once each, and nothing else.
pub proof fn law_subscriber_gets_every_event(emissions: Seq<Emission>)
    ensures
        received(subscription(), emissions) == events(emissions),
    decreases emissions.len(),
{
    if emissions.len() > 0 {
        let last = emissions.last();
        let event = event_of(last.signal, last.values);
        law_subscriber_gets_every_event(emissions.drop_last());
        law_subscription(last.signal, last.values);
        let connected = reactions(subscription(), Trigger::Signal(last.signal));
        reveal_with_fuel(deliveries, 2);
        assert(connected.len() > 0 ==> connected.drop_last() =~= Seq::empty());
        assert(received(subscription(), emissions) =~= events(emissions));
    }
}

/// Events do not depend on what was emitted before: those of signals that follow others follow
/// theirs.
pub proof fn law_events_keep_their_order(a: Seq<Emission>, b: Seq<Emission>)
    ensures
        events(a + b) == events(a) + events(b),
    decreases b.len(),
{
    if b.len() == 0 {
        assert(a + b =~= a);
        assert(events(a) + events(b) =~= events(a));
    } else {
        law_events_keep_their_order(a, b.drop_last());
        assert((a + b).drop_last() =~= a + b.drop_last());
        assert(events(a + b) =~= events(a) + events(b));
    }
}

/// A subscriber neither takes an event away from what is connected besides it nor loses one to
/// it: each goes on to be called as often as if it were alone.
pub proof fn law_subscribers_are_independent(
    before: Seq<StepView>,
    after: Seq<StepView>,
    trigger: Trigger,
)
    ensures
        reactions(before + subscription() + after, trigger) == reactions(before, trigger)
            + reactions(subscription(), trigger) + reactions(after, trigger),
{
    lemma_reactions_add_up(before, subscription(), trigger);
    lemma_reactions_add_up(before + subscription(), after, trigger);
}

} // verus!
