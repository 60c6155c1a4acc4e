//! What is taken out of the replies of webrtcbin and of its signals.

use crate::media::step::{ArgumentView, CallView, OnFailure, Reaction, SdpType, StepView};
use crate::media::webrtcbin::{
    announces_candidate, awaited, created, description, emitted, event_of, field_value,
    ice_candidate_added, local_description_set, remote_description_set, subscription, EventView,
    PromiseOutcome, PromiseResult, ReplyField, ReplyValue, RtcBundlePolicy, SdpView, SignalValue,
    WebRtcErr, WebRtcErrView,
};
use crate::text::{
    decimal, decimal_value, law_decimal_is_short, law_decimal_reads_back, signed_decimal,
};
use vstd::prelude::*;

verus! {

/// Whether a field is the first one of this name.
pub open spec fn is_first(fields: Seq<ReplyField>, i: int, name: Seq<char>) -> bool {
    &&& 0 <= i < fields.len()
    &&& fields[i].name@ == name
    &&& forall|j: int| 0 <= j < i ==> #[trigger] fields[j].name@ != name
}

/// The value of a field is that of the first field of its name; without a field of the name there
/// is none.
pub proof fn law_first_field_counts(fields: Seq<ReplyField>, i: int, name: Seq<char>)
    ensures
        0 <= i < fields.len() && fields[i].name@ == name && (forall|j: int|
            0 <= j < i ==> #[trigger] fields[j].name@ != name) ==> field_value(fields, name)
            == Some(fields[i].value),
        (forall|j: int| 0 <= j < fields.len() ==> #[trigger] fields[j].name@ != name)
            ==> field_value(fields, name) is None,
    decreases fields.len(),
{
    if fields.len() > 0 {
        let later = fields.drop_first();
        law_first_field_counts(later, i - 1, name);
        if i > 0 && is_first(fields, i, name) {
            assert(fields[0].name@ != name);
            assert forall|j: int| 0 <= j < i - 1 implies #[trigger] later[j].name@ != name by {
                assert(fields[j + 1].name@ != name);
            }
            assert(later[i - 1] == fields[i]);
        }
        if forall|j: int| 0 <= j < fields.len() ==> #[trigger] fields[j].name@ != name {
            assert(fields[0].name@ != name);
            assert forall|j: int| 0 <= j < later.len() implies #[trigger] later[j].name@
                != name by {
                assert(fields[j + 1].name@ != name);
            }
        }
    }
}

/// A promise that was replied to with a session description gives the whole text of it, however
/// long it is and whatever it holds: character for character that of the first field of the name.
pub proof fn law_description_is_whole(
    outcome: PromiseOutcome,
    fields: Vec<ReplyField>,
    i: int,
    field: Seq<char>,
    text: String,
)
    requires
        outcome.result == PromiseResult::Replied,
        outcome.reply == Some(fields),
        0 <= i < fields@.len(),
        fields@[i].name@ == field,
        forall|j: int| 0 <= j < i ==> #[trigger] fields@[j].name@ != field,
        fields@[i].value == (ReplyValue::Description { text: Some(text) }),
    ensures
        created(outcome, field) == Ok::<Seq<char>, WebRtcErrView>(text@),
        awaited(Some(outcome), field) == Ok::<Seq<char>, WebRtcErrView>(text@),
{
    law_first_field_counts(fields@, i, field);
}

/// Nothing else gives a session description: one that is given is the text of the first field of
/// the name in the reply to a promise that was replied to.
pub proof fn law_description_comes_from_the_reply(
    outcome: Option<PromiseOutcome>,
    field: Seq<char>,
    text: Seq<char>,
)
    requires
        awaited(outcome, field) == Ok::<Seq<char>, WebRtcErrView>(text),
    ensures
        outcome is Some,
        outcome->0.result == PromiseResult::Replied,
        outcome->0.reply is Some,
        exists|i: int|
            {
                &&& 0 <= i < outcome->0.reply->0@.len()
                &&& (#[trigger] outcome->0.reply->0@[i]).name@ == field
                &&& (forall|j: int|
                    0 <= j < i ==> #[trigger] outcome->0.reply->0@[j].name@ != field)
                &&& outcome->0.reply->0@[i].value matches ReplyValue::Description {
                    text: Some(whole),
                } && whole@ == text
            },
{
    let fields = outcome->0.reply->0@;
    lemma_field_is_found(fields, field);
    let i = choose|i: int|
        is_first(fields, i, field) && #[trigger] fields[i].value == field_value(fields, field)->0;
    assert(fields[i].name@ == field);
}

/// A field that has a value is somewhere.
proof fn lemma_field_is_found(fields: Seq<ReplyField>, name: Seq<char>)
    requires
        field_value(fields, name) is Some,
    ensures
        exists|i: int|
            is_first(fields, i, name) && #[trigger] fields[i].value == field_value(
                fields,
                name,
            )->0,
    decreases fields.len(),
{
    if fields[0].name@ == name {
        assert(is_first(fields, 0, name));
    } else {
        let later = fields.drop_first();
        lemma_field_is_found(later, name);
        let i = choose|i: int|
            is_first(later, i, name) && #[trigger] later[i].value == field_value(later, name)->0;
        assert(fields[i + 1] == later[i]);
        assert forall|j: int| 0 <= j < i + 1 implies #[trigger] fields[j].name@ != name by {
            if j > 0 {
                assert(later[j - 1].name@ != name);
            }
        }
        assert(is_first(fields, i + 1, name));
    }
}

/// Every fault of a promise is told apart, and told by the words for it.
pub proof fn law_faults_of_promises(
    outcome: PromiseOutcome,
    fields: Vec<ReplyField>,
    i: int,
    field: Seq<char>,
)
    ensures
        awaited(None, field) == Err::<Seq<char>, WebRtcErrView>(WebRtcErrView::Canceled),
        awaited(Some(outcome), field) == created(outcome, field),
        outcome.result != PromiseResult::Replied ==> created(outcome, field) == Err::<
            Seq<char>,
            WebRtcErrView,
        >(WebRtcErrView::Whatever("Unresolved promise"@)),
        outcome.result == PromiseResult::Replied && outcome.reply is None ==> created(
            outcome,
            field,
        ) == Err::<Seq<char>, WebRtcErrView>(WebRtcErrView::Whatever("No reply in reply"@)),
        outcome.result == PromiseResult::Replied && outcome.reply == Some(fields) && (forall|
            j: int,
        |
            0 <= j < fields@.len() ==> #[trigger] fields@[j].name@ != field) ==> created(
            outcome,
            field,
        ) == Err::<Seq<char>, WebRtcErrView>(
            WebRtcErrView::Whatever("No `"@ + field + "` field in reply"@),
        ),
        outcome.result == PromiseResult::Replied && outcome.reply == Some(fields) && is_first(
            fields@,
            i,
            field,
        ) ==> match fields@[i].value {
            ReplyValue::Other => created(outcome, field) == Err::<Seq<char>, WebRtcErrView>(
                WebRtcErrView::Whatever("Not `WebRTCSessionDescription`"@),
            ),
            ReplyValue::Description { text: None } => created(outcome, field) == Err::<
                Seq<char>,
                WebRtcErrView,
            >(WebRtcErrView::Whatever("SDP is not text"@)),
            ReplyValue::Description { text: Some(text) } => created(outcome, field) == Ok::<
                Seq<char>,
                WebRtcErrView,
            >(text@),
        },
{
    law_first_field_counts(fields@, i, field);
}

/// The names by which results of promises and bundle policies are known, and the words for the
/// errors of promises.
pub proof fn law_names(n: i32, text: Seq<char>)
    ensures
        PromiseResult::Pending.name() == "Pending"@,
        PromiseResult::Interrupted.name() == "Interrupted"@,
        PromiseResult::Replied.name() == "Replied"@,
        PromiseResult::Expired.name() == "Expired"@,
        n >= 0 ==> exists|digits: Seq<char>| #[trigger]
            decimal_value(digits) == n && PromiseResult::Unknown(n).name() == "__Unknown("@ + digits
                + ")"@ && (digits.len() > 1 ==> digits[0] != '0'),
        n < 0 ==> exists|digits: Seq<char>| #[trigger]
            decimal_value(digits) == -n && PromiseResult::Unknown(n).name() == "__Unknown("@ + (
            seq!['-'] + digits) + ")"@ && (digits.len() > 1 ==> digits[0] != '0'),
        RtcBundlePolicy::Balanced.name() == "balanced"@,
        RtcBundlePolicy::MaxCompat.name() == "max-compat"@,
        RtcBundlePolicy::MaxBundle.name() == "max-bundle"@,
        WebRtcErr::description(WebRtcErrView::Canceled) == "Canceled"@,
        WebRtcErr::description(WebRtcErrView::Whatever(text)) == text,
{
    let magnitude: nat = if n < 0 {
        (-n) as nat
    } else {
        n as nat
    };
    law_decimal_reads_back(magnitude);
    law_decimal_is_short(magnitude, n as int);
    let digits = decimal(magnitude);
    assert(decimal_value(digits) == magnitude);
    if n < 0 {
        assert(signed_decimal(n as int) =~= seq!['-'] + digits);
    }
}

/// Session descriptions go to the end of the session that they are for, as what they are, with
/// their whole text, and somebody waits until they are applied; a candidate goes along with the
/// index of its own media line.
pub proof fn law_signals_carry_what_they_are_for(sdp: Seq<char>, index: u32, candidate: Seq<char>)
    ensures
        local_description_set(SdpView::Answer(sdp)) == (StepView {
            call: CallView::Emit {
                signal: "set-local-description"@,
                arguments: seq![
                    ArgumentView::Description { type_: SdpType::Answer, sdp },
                    ArgumentView::Promise,
                ],
            },
            on_failure: OnFailure::Abort,
        }),
        local_description_set(SdpView::Offer(sdp)) == (StepView {
            call: CallView::Emit {
                signal: "set-local-description"@,
                arguments: seq![
                    ArgumentView::Description { type_: SdpType::Offer, sdp },
                    ArgumentView::Promise,
                ],
            },
            on_failure: OnFailure::Abort,
        }),
        remote_description_set(SdpView::Answer(sdp)) == (StepView {
            call: CallView::Emit {
                signal: "set-remote-description"@,
                arguments: seq![
                    ArgumentView::Description { type_: SdpType::Answer, sdp },
                    ArgumentView::Promise,
                ],
            },
            on_failure: OnFailure::Abort,
        }),
        remote_description_set(SdpView::Offer(sdp)) == (StepView {
            call: CallView::Emit {
                signal: "set-remote-description"@,
                arguments: seq![
                    ArgumentView::Description { type_: SdpType::Offer, sdp },
                    ArgumentView::Promise,
                ],
            },
            on_failure: OnFailure::Abort,
        }),
        ice_candidate_added(index, candidate) == (StepView {
            call: CallView::Emit {
                signal: "add-ice-candidate"@,
                arguments: seq![ArgumentView::Unsigned(index), ArgumentView::Text(candidate)],
            },
            on_failure: OnFailure::Return,
        }),
        description(SdpView::Answer(sdp)) == (ArgumentView::Description {
            type_: SdpType::Answer,
            sdp,
        }),
        description(SdpView::Offer(sdp)) == (ArgumentView::Description {
            type_: SdpType::Offer,
            sdp,
        }),
{
}

/// A signal is emitted with exactly the arguments that it was given, and without it the program
/// cannot go on.
pub proof fn law_signals_are_emitted(signal: Seq<char>, arguments: Seq<ArgumentView>)
    ensures
        emitted(signal, arguments).call == (CallView::Emit { signal, arguments }),
        emitted(signal, arguments).on_failure == OnFailure::Abort,
{
}

/// A subscriber hears of the need for negotiation and of every candidate, each with its own index
/// and its whole text, and of no other signal.
pub proof fn law_events_tell_what_was_signalled(
    signal: Seq<char>,
    first: SignalValue,
    index: u32,
    candidate: String,
    more: Seq<SignalValue>,
)
    ensures
        event_of("on-negotiation-needed"@, more) == Some(EventView::OnNegotiationNeeded),
        event_of(
            "on-ice-candidate"@,
            seq![first, SignalValue::Unsigned(index), SignalValue::Text(candidate)] + more,
        ) == Some(
            EventView::OnIceCandidate { sdp_mline_index: index, candidate: candidate@ },
        ),
        signal != "on-negotiation-needed"@ && signal != "on-ice-candidate"@ ==> event_of(
            signal,
            more,
        ) is None,
        subscription() == seq![
            StepView {
                call: CallView::Connect {
                    signal: "on-negotiation-needed"@,
                    reaction: Reaction::Deliver,
                },
                on_failure: OnFailure::Abort,
            },
            StepView {
                call: CallView::Connect {
                    signal: "on-ice-candidate"@,
                    reaction: Reaction::Deliver,
                },
                on_failure: OnFailure::Abort,
            },
        ],
{
    reveal_strlit("on-negotiation-needed");
    reveal_strlit("on-ice-candidate");
    assert("on-negotiation-needed"@.len() != "on-ice-candidate"@.len());
}

/// A candidate is announced by any values of which the second is a number and the third a text.
pub proof fn law_candidates_are_announced(
    first: SignalValue,
    index: u32,
    candidate: String,
    more: Seq<SignalValue>,
)
    ensures
        announces_candidate(
            seq![first, SignalValue::Unsigned(index), SignalValue::Text(candidate)] + more,
        ),
{
}

} // verus!
