//! What holds of the client from its start to its end, whatever comes in.

use crate::app::flow::FlowView;
use crate::app::{
    answer_promise_handled, flow_of, json_handled, message_handled, registration, text_sent,
    AppView,
};
use crate::error::AppErrorView;
use crate::media::plan::advanced;
use crate::media::step::{or_abort, CallView, StepView};
use crate::media::webrtcbin::PromiseOutcome;
use crate::message::{WsMessage, WsMessageView};
use crate::server::{
    preparation, startup_steps, turn, turn_after_handling, turn_after_sending, Incoming, TurnView,
};
use crate::wire::JsonMsgView;
use vstd::prelude::*;

verus! {

/// What the handling of a message goes on with.
pub enum Move {
    /// The current step was performed with this result.
    Performed(Result<(), Seq<char>>),
    /// The text was parsed with this result.
    Parsed(Result<JsonMsgView, Seq<char>>),
    /// This became of the promise for an answer.
    Promised(Option<PromiseOutcome>),
}

/// Where the handling of a message stands after a move. One that it does not wait for does not
/// count.
pub open spec fn moved(app: AppView, flow: FlowView, by: Move) -> FlowView {
    match (flow, by) {
        (FlowView::Perform(left, then), Move::Performed(result)) => flow_of(
            advanced(left, result),
            then,
        ),
        (FlowView::ParseJson(_), Move::Parsed(parsed)) => json_handled(app, parsed),
        (FlowView::CreateAnswer(_), Move::Promised(outcome)) => answer_promise_handled(outcome),
        _ => flow,
    }
}

/// Where the handling of a message stands after moves.
pub open spec fn reached(app: AppView, flow: FlowView, moves: Seq<Move>) -> FlowView
    decreases moves.len(),
{
    if moves.len() == 0 {
        flow
    } else {
        reached(app, moved(app, flow, moves[0]), moves.drop_first())
    }
}

/// What is done stays done.
proof fn lemma_done_stays_done(
    app: AppView,
    result: Result<Option<WsMessageView>, AppErrorView>,
    moves: Seq<Move>,
)
    ensures
        reached(app, FlowView::Done(result), moves) == FlowView::Done(result),
    decreases moves.len(),
{
    if moves.len() > 0 {
        lemma_done_stays_done(app, result, moves.drop_first());
    }
}

/// What happens to the client.
pub enum Event {
    /// It took something that came in.
    Took(Incoming),
    /// It handled a message, by these moves.
    Handled(Seq<Move>),
    /// It wrote a message to the WebSocket, with this result.
    Wrote(Result<(), Seq<char>>),
}

/// What the client does after an event, if the event can happen at this point.
pub open spec fn after(app: AppView, at: TurnView, event: Event) -> Option<TurnView> {
    match (at, event) {
        (TurnView::Wait, Event::Took(incoming)) => Some(turn(app, incoming)),
        (TurnView::Handle(flow), Event::Handled(moves)) => match reached(app, flow, moves) {
            FlowView::Done(result) => Some(turn_after_handling(result)),
            _ => None,
        },
        (TurnView::Send(_), Event::Wrote(result)) => Some(turn_after_sending(result)),
        _ => None,
    }
}

/// What the client does after events, if they can happen in this order. It starts out waiting.
pub open spec fn state(app: AppView, events: Seq<Event>) -> Option<TurnView>
    decreases events.len(),
{
    if events.len() == 0 {
        Some(TurnView::Wait)
    } else {
        match state(app, events.drop_last()) {
            Some(at) => after(app, at, events.last()),
            None => None,
        }
    }
}

/// Events up to some point happen if more of them do.
proof fn lemma_happened(app: AppView, events: Seq<Event>, k: int)
    requires
        state(app, events) is Some,
        0 <= k <= events.len(),
    ensures
        state(app, events.take(k)) is Some,
        k < events.len() ==> state(app, events.take(k + 1)) == after(
            app,
            state(app, events.take(k))->0,
            events[k],
        ),
        k < events.len() ==> state(app, events.take(k + 1)) is Some,
    decreases events.len() - k,
{
    if k == events.len() {
        assert(events.take(k) =~= events);
    } else {
        lemma_happened(app, events, k + 1);
        assert(events.take(k + 1).drop_last() =~= events.take(k));
    }
}

/// What a message that was handled in a run came to.
pub open spec fn outcome(app: AppView, events: Seq<Event>, k: int) -> Result<
    Option<WsMessageView>,
    AppErrorView,
> {
    reached(app, state(app, events.take(k))->0->Handle_0, events[k]->Handled_0)->Done_0
}

/// The client takes up nothing new before it is through with what it took: a message of the server
/// is handled next, a message of its own is written next, and a message of the pipeline leaves
/// nothing to be done.
pub proof fn law_one_thing_at_a_time(app: AppView, events: Seq<Event>, k: int)
    requires
        state(app, events) is Some,
        0 <= k < events.len() - 1,
    ensures
        match events[k] {
            Event::Took(Incoming::WebSocket(message)) => message is Ok && events[k + 1] is Handled,
            Event::Took(Incoming::Pipeline(_)) => events[k + 1] is Took,
            Event::Took(Incoming::Outgoing(message)) => events[k + 1] is Wrote && state(
                app,
                events.take(k + 1),
            ) == Some(TurnView::Send(message@)),
            Event::Took(Incoming::Complete) => false,
            Event::Handled(_) => events[k + 1] !is Handled,
            Event::Wrote(result) => result is Ok && events[k + 1] is Took,
        },
{
    lemma_happened(app, events, k);
    lemma_happened(app, events, k + 1);
}

/// A reply is written before anything else is taken, and it is the reply that the handling of the
/// message came to; without a reply nothing is written, and after a failure nothing more happens.
pub proof fn law_reply_comes_first(app: AppView, events: Seq<Event>, k: int)
    requires
        state(app, events) is Some,
        0 <= k < events.len(),
        events[k] is Handled,
    ensures
        state(app, events.take(k + 1)) == Some(turn_after_handling(outcome(app, events, k))),
        k < events.len() - 1 ==> match outcome(app, events, k) {
            Ok(Some(reply)) => events[k + 1] is Wrote && state(app, events.take(k + 1)) == Some(
                TurnView::Send(reply),
            ),
            Ok(None) => events[k + 1] is Took,
            Err(_) => false,
        },
{
    lemma_happened(app, events, k);
    if k < events.len() - 1 {
        lemma_happened(app, events, k + 1);
    }
}

/// A ping is answered before anything else is taken, with a pong that carries the same data.
pub proof fn law_ping_is_answered_first(
    app: AppView,
    events: Seq<Event>,
    k: int,
    ping: WsMessage,
)
    requires
        state(app, events) is Some,
        0 <= k < events.len() - 2,
        events[k] == Event::Took(Incoming::WebSocket(Ok(ping))),
        ping@ is Ping,
    ensures
        events[k + 1] is Handled,
        events[k + 2] is Wrote,
        state(app, events.take(k + 2)) == Some(
            TurnView::Send(WsMessageView::Pong(ping@->Ping_0)),
        ),
{
    law_one_thing_at_a_time(app, events, k);
    law_reply_comes_first(app, events, k + 1);
    lemma_happened(app, events, k);
    lemma_done_stays_done(
        app,
        Ok(Some(WsMessageView::Pong(ping@->Ping_0))),
        events[k + 1]->Handled_0,
    );
}

/// Handling that is not done at once comes to no reply.
proof fn lemma_moves_bring_no_reply(app: AppView, flow: FlowView, moves: Seq<Move>)
    requires
        flow matches FlowView::Done(result) ==> !(result matches Ok(Some(_))),
    ensures
        reached(app, flow, moves) matches FlowView::Done(result) ==> !(result matches Ok(Some(_))),
    decreases moves.len(),
{
    if moves.len() > 0 {
        lemma_moves_bring_no_reply(app, moved(app, flow, moves[0]), moves.drop_first());
    }
}

/// However the handling of a message goes, it comes to a reply only for a ping, a request to close
/// and, if there is a peer to call, the greeting of the server; the reply is then settled by the
/// message alone.
pub proof fn law_few_messages_are_replied_to(
    app: AppView,
    message: WsMessageView,
    moves: Seq<Move>,
    reply: WsMessageView,
)
    requires
        reached(app, message_handled(app, message), moves) == FlowView::Done(Ok(Some(reply))),
    ensures
        match message {
            WsMessageView::Ping(data) => reply == WsMessageView::Pong(data),
            WsMessageView::Close(_) => reply == WsMessageView::Close(None),
            WsMessageView::Text(text) => text == "HELLO"@ && app.peer_id is Some && reply
                == WsMessageView::Text("SESSION "@ + app.peer_id->0),
            _ => false,
        },
{
    match message_handled(app, message) {
        FlowView::Done(Ok(Some(at_once))) => {
            lemma_done_stays_done(app, Ok(Some(at_once)), moves);
        },
        _ => {
            lemma_moves_bring_no_reply(app, message_handled(app, message), moves);
        },
    }
}

/// The messages of its own that the client took, in order.
pub open spec fn own_taken(events: Seq<Event>) -> Seq<WsMessageView>
    decreases events.len(),
{
    if events.len() == 0 {
        Seq::empty()
    } else {
        let before = own_taken(events.drop_last());
        match events.last() {
            Event::Took(Incoming::Outgoing(message)) => before.push(message@),
            _ => before,
        }
    }
}

/// Whether the last of the events is that the client took a message of its own.
pub open spec fn just_took_own(events: Seq<Event>) -> bool {
    events.len() > 0 && match events.last() {
        Event::Took(Incoming::Outgoing(_)) => true,
        _ => false,
    }
}

/// The messages that were written to the WebSocket right after the client took one of its own, in
/// order.
pub open spec fn own_written(app: AppView, events: Seq<Event>) -> Seq<WsMessageView>
    decreases events.len(),
{
    if events.len() == 0 {
        Seq::empty()
    } else {
        let before = own_written(app, events.drop_last());
        match (state(app, events.drop_last()), events.last()) {
            (Some(TurnView::Send(message)), Event::Wrote(Ok(()))) if just_took_own(
                events.drop_last(),
            ) => before.push(message),
            _ => before,
        }
    }
}

/// Whether the client took a message of its own last and did not write it, or not yet.
pub open spec fn unwritten(events: Seq<Event>) -> bool {
    just_took_own(events) || (events.len() > 0 && events.last() is Wrote && events.last()->Wrote_0
        is Err && just_took_own(events.drop_last()))
}

/// The messages of its own that the client took are written: unchanged, once each and in order,
/// but for the last one, if that is not written yet or could not be.
pub proof fn law_own_messages_go_out(app: AppView, events: Seq<Event>)
    requires
        state(app, events) is Some,
    ensures
        unwritten(events) ==> own_taken(events).len() > 0,
        own_written(app, events) == (if unwritten(events) {
            own_taken(events).drop_last()
        } else {
            own_taken(events)
        }),
    decreases events.len(),
{
    if events.len() > 0 {
        let before = events.drop_last();
        law_own_messages_go_out(app, before);
        assert(state(app, before) is Some);
        if before.len() > 0 {
            assert(state(app, before.drop_last()) is Some);
        }
        match events.last() {
            Event::Took(Incoming::Outgoing(message)) => {
                assert(state(app, before) == Some(TurnView::Wait));
                assert(!unwritten(before));
                assert(own_taken(events).drop_last() =~= own_taken(before));
            },
            Event::Wrote(Ok(())) => {
                if just_took_own(before) {
                    assert(own_taken(before).drop_last().push(own_taken(before).last())
                        =~= own_taken(before));
                }
            },
            _ => {},
        }
    }
}

/// The messages that steps hand to the WebSocket, in order.
pub open spec fn sends(steps: Seq<StepView>) -> Seq<WsMessageView>
    decreases steps.len(),
{
    if steps.len() == 0 {
        Seq::empty()
    } else {
        let before = sends(steps.drop_last());
        match steps.last().call {
            CallView::Send { message } => before.push(message),
            _ => before,
        }
    }
}

/// Steps that hand nothing to the WebSocket.
proof fn lemma_nothing_sent(steps: Seq<StepView>)
    requires
        forall|i: int| 0 <= i < steps.len() ==> (#[trigger] steps[i]).call !is Send,
    ensures
        sends(steps) == Seq::<WsMessageView>::empty(),
    decreases steps.len(),
{
    if steps.len() > 0 {
        assert forall|i: int| 0 <= i < steps.drop_last().len() implies (
        #[trigger] steps.drop_last()[i]).call !is Send by {
            assert(steps.drop_last()[i] == steps[i]);
        }
        lemma_nothing_sent(steps.drop_last());
    }
}

/// The first message of its own that a client writes is its registration: that is the only message
/// which the start hands to the WebSocket, and whatever is handed on later, the messages go out in
/// the order in which they were handed on.
pub proof fn law_registration_goes_out_first(
    app: AppView,
    url: Seq<char>,
    our_id: nat,
    later: Seq<WsMessageView>,
    events: Seq<Event>,
)
    requires
        state(app, events) is Some,
        own_taken(events).is_prefix_of(
            sends(
                startup_steps(
                    url,
                    preparation(),
                    or_abort(text_sent(registration(our_id)).call),
                ),
            ) + later,
        ),
    ensures
        sends(
            startup_steps(url, preparation(), or_abort(text_sent(registration(our_id)).call)),
        ) == seq![WsMessageView::Text(registration(our_id))],
        own_written(app, events).is_prefix_of(
            seq![WsMessageView::Text(registration(our_id))] + later,
        ),
        own_written(app, events).len() > 0 ==> own_written(app, events)[0] == WsMessageView::Text(
            registration(our_id),
        ),
{
    let steps = startup_steps(
        url,
        preparation(),
        or_abort(text_sent(registration(our_id)).call),
    );
    let before = steps.drop_last();
    assert forall|i: int| 0 <= i < before.len() implies (#[trigger] before[i]).call !is Send by {
        assert(before[i] == steps[i]);
        if 1 <= i < 1 + preparation().len() {
            assert(steps[i] == preparation()[i - 1]);
        }
    }
    lemma_nothing_sent(before);
    let greeting = WsMessageView::Text(registration(our_id));
    assert(sends(steps) =~= seq![greeting]);
    let handed_on = seq![greeting] + later;
    law_own_messages_go_out(app, events);
    let written = own_written(app, events);
    assert(written =~= own_taken(events).subrange(0, written.len() as int));
    assert(written =~= handed_on.subrange(0, written.len() as int));
}

} // verus!
