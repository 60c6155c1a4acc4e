//! The calls into the media framework and the outgoing channel that the client decides on.
//!
//! The client does not make these calls itself: it says which call comes next and what a
//! failure of it means, and whoever drives the client makes the call and reports the result.

use crate::message::{optional_text, WsMessage, WsMessageView};
use vstd::prelude::*;

verus! {

/// What a property is set on. The elements of one run of steps are numbered in the order in
/// which they are made.
#[derive(Debug, Clone, Copy, PartialEq, Eq)]
pub enum Target {
    WebRtcBin,
    /// The transceiver that was asked for last; without one the call fails.
    Transceiver,
    Element(usize),
}

/// The mathematical counterpart of a [`Target`].
pub enum TargetView {
    WebRtcBin,
    Transceiver,
    Element(nat),
}

impl View for Target {
    type V = TargetView;

    open spec fn view(&self) -> TargetView {
        match self {
            Target::WebRtcBin => TargetView::WebRtcBin,
            Target::Transceiver => TargetView::Transceiver,
            Target::Element(slot) => TargetView::Element(*slot as nat),
        }
    }
}

/// The value of a property.
#[derive(Debug, Clone, Copy, PartialEq, Eq, Structural)]
pub enum PropertyValue {
    Bool(bool),
    Int64(i64),
}

/// The states that the pipeline is put into.
#[derive(Debug, Clone, Copy, PartialEq, Eq, Structural)]
pub enum PipelineState {
    Null,
    Ready,
    Playing,
}

/// The capabilities of an RTP stream.
#[derive(Debug, PartialEq, Eq)]
pub struct Caps {
    pub name: String,
    pub media: String,
    pub encoding_name: String,
    pub payload: i32,
}

/// The contents of [`Caps`].
pub struct CapsView {
    pub name: Seq<char>,
    pub media: Seq<char>,
    pub encoding_name: Seq<char>,
    pub payload: i32,
}

impl View for Caps {
    type V = CapsView;

    open spec fn view(&self) -> CapsView {
        CapsView {
            name: self.name@,
            media: self.media@,
            encoding_name: self.encoding_name@,
            payload: self.payload,
        }
    }
}

/// Whether a session description offers a session or answers an offer.
#[derive(Debug, Clone, Copy, PartialEq, Eq, Structural)]
pub enum SdpType {
    Answer,
    Offer,
}

/// An argument of a signal.
#[derive(Debug, PartialEq, Eq)]
pub enum Argument {
    /// An absent structure of options.
    NoStructure,
    /// An absent promise: nobody waits for the signal to be handled.
    NoPromise,
    /// A promise that the driver waits for.
    Promise,
    /// The session description with this type and text.
    Description { type_: SdpType, sdp: String },
    /// The offer that came in the reply to `create-offer`.
    CreatedOffer,
    Unsigned(u32),
    Signed(i32),
    Text(String),
}

/// The contents of an [`Argument`].
pub enum ArgumentView {
    NoStructure,
    NoPromise,
    Promise,
    Description { type_: SdpType, sdp: Seq<char> },
    CreatedOffer,
    Unsigned(u32),
    Signed(i32),
    Text(Seq<char>),
}

impl View for Argument {
    type V = ArgumentView;

    open spec fn view(&self) -> ArgumentView {
        match self {
            Argument::NoStructure => ArgumentView::NoStructure,
            Argument::NoPromise => ArgumentView::NoPromise,
            Argument::Promise => ArgumentView::Promise,
            Argument::Description { type_, sdp } => ArgumentView::Description {
                type_: *type_,
                sdp: sdp@,
            },
            Argument::CreatedOffer => ArgumentView::CreatedOffer,
            Argument::Unsigned(n) => ArgumentView::Unsigned(*n),
            Argument::Signed(n) => ArgumentView::Signed(*n),
            Argument::Text(text) => ArgumentView::Text(text@),
        }
    }
}

/// What the client does when a signal that it is connected to is emitted.
#[derive(Debug, Clone, Copy, PartialEq, Eq, Structural)]
pub enum Reaction {
    /// Negotiate the session with the peer.
    Negotiate,
    /// Send our ICE candidate to the peer.
    SendCandidate,
    /// Deliver an event to a subscriber.
    Deliver,
}

/// What the client does when an element that it watches gets a pad.
#[derive(Debug, Clone, Copy, PartialEq, Eq, Structural)]
pub enum PadReaction {
    /// Take the pad for an encoded stream of the peer.
    HandleStream,
    /// Take the pad for a decoded stream.
    HandleDecodedStream,
}

/// One call.
#[derive(Debug, PartialEq, Eq)]
pub enum Call {
    /// Connect to the signalling server.
    ConnectServer { url: String },
    /// Create the pipeline.
    NewPipeline { pipeline: String },
    /// Make an element; it gets the next number.
    Make { factory: String, name: Option<String> },
    /// Put elements into the pipeline.
    Add { elements: Vec<usize> },
    /// Link elements, each to the next.
    Link { elements: Vec<usize> },
    /// Link an element to webrtcbin, for streams of these capabilities only.
    LinkFiltered { element: usize, caps: Caps },
    /// Bring an element to the state of the pipeline.
    SyncState { element: usize },
    /// Look up the pad of this name of an element.
    StaticPad { element: usize, pad: String },
    /// Link the pad of the incoming stream to the pad that was looked up last.
    LinkStream,
    /// Set a property to the value that a text stands for.
    SetPropertyFromText { target: Target, property: String, text: String },
    /// Set a property.
    SetProperty { target: Target, property: String, value: PropertyValue },
    /// Have the client react whenever webrtcbin emits the signal.
    Connect { signal: String, reaction: Reaction },
    /// Have the client react whenever the target gets a pad.
    ConnectPadAdded { target: Target, pad_reaction: PadReaction },
    /// Emit a signal on webrtcbin.
    Emit { signal: String, arguments: Vec<Argument> },
    /// Put the pipeline into a state.
    SetState { state: PipelineState },
    /// Start the pipeline in the background: there, `playing_response` says what is done.
    StartPlaying,
    /// Post an error of the library kind on the bus of the pipeline.
    PostError { text: String },
    /// Have the messages of the pipeline's bus come to the client.
    WatchBus,
    /// Hand a message to the channel that leads to the WebSocket.
    Send { message: WsMessage },
}

/// The contents of a [`Call`].
pub enum CallView {
    ConnectServer { url: Seq<char> },
    NewPipeline { pipeline: Seq<char> },
    Make { factory: Seq<char>, name: Option<Seq<char>> },
    Add { elements: Seq<nat> },
    Link { elements: Seq<nat> },
    LinkFiltered { element: nat, caps: CapsView },
    SyncState { element: nat },
    StaticPad { element: nat, pad: Seq<char> },
    LinkStream,
    SetPropertyFromText { target: TargetView, property: Seq<char>, text: Seq<char> },
    SetProperty { target: TargetView, property: Seq<char>, value: PropertyValue },
    Connect { signal: Seq<char>, reaction: Reaction },
    ConnectPadAdded { target: TargetView, pad_reaction: PadReaction },
    Emit { signal: Seq<char>, arguments: Seq<ArgumentView> },
    SetState { state: PipelineState },
    StartPlaying,
    PostError { text: Seq<char> },
    WatchBus,
    Send { message: WsMessageView },
}

/// Element numbers without a bound.
pub open spec fn numbers(elements: Seq<usize>) -> Seq<nat> {
    elements.map_values(|slot: usize| slot as nat)
}

/// The contents of arguments.
pub open spec fn argument_views(arguments: Seq<Argument>) -> Seq<ArgumentView> {
    arguments.map_values(|argument: Argument| argument@)
}

impl View for Call {
    type V = CallView;

    open spec fn view(&self) -> CallView {
        match self {
            Call::ConnectServer { url } => CallView::ConnectServer { url: url@ },
            Call::NewPipeline { pipeline } => CallView::NewPipeline { pipeline: pipeline@ },
            Call::Make { factory, name } => CallView::Make {
                factory: factory@,
                name: optional_text(*name),
            },
            Call::Add { elements } => CallView::Add { elements: numbers(elements@) },
            Call::Link { elements } => CallView::Link { elements: numbers(elements@) },
            Call::LinkFiltered { element, caps } => CallView::LinkFiltered {
                element: *element as nat,
                caps: caps@,
            },
            Call::SyncState { element } => CallView::SyncState { element: *element as nat },
            Call::StaticPad { element, pad } => CallView::StaticPad {
                element: *element as nat,
                pad: pad@,
            },
            Call::LinkStream => CallView::LinkStream,
            Call::SetPropertyFromText { target, property, text } => {
                CallView::SetPropertyFromText {
                    target: target@,
                    property: property@,
                    text: text@,
                }
            },
            Call::SetProperty { target, property, value } => CallView::SetProperty {
                target: target@,
                property: property@,
                value: *value,
            },
            Call::Connect { signal, reaction } => CallView::Connect {
                signal: signal@,
                reaction: *reaction,
            },
            Call::ConnectPadAdded { target, pad_reaction } => CallView::ConnectPadAdded {
                target: target@,
                pad_reaction: *pad_reaction,
            },
            Call::Emit { signal, arguments } => CallView::Emit {
                signal: signal@,
                arguments: argument_views(arguments@),
            },
            Call::SetState { state } => CallView::SetState { state: *state },
            Call::StartPlaying => CallView::StartPlaying,
            Call::PostError { text } => CallView::PostError { text: text@ },
            Call::WatchBus => CallView::WatchBus,
            Call::Send { message } => CallView::Send { message: message@ },
        }
    }
}

/// What the failure of a call means.
#[derive(Debug, Clone, Copy, PartialEq, Eq, Structural)]
pub enum OnFailure {
    /// The program cannot go on.
    Abort,
    /// What is under way ends with the error.
    Return,
    /// The call has no result, or nobody looks at it.
    Ignore,
}

/// A call and what its failure means.
#[derive(Debug, PartialEq, Eq)]
pub struct Step {
    pub call: Call,
    pub on_failure: OnFailure,
}

/// The contents of a [`Step`].
pub struct StepView {
    pub call: CallView,
    pub on_failure: OnFailure,
}

impl View for Step {
    type V = StepView;

    open spec fn view(&self) -> StepView {
        StepView { call: self.call@, on_failure: self.on_failure }
    }
}

/// The contents of steps.
pub open spec fn step_views(steps: Seq<Step>) -> Seq<StepView> {
    steps.map_values(|step: Step| step@)
}

/// A call whose failure aborts the program.
pub open spec fn or_abort(call: CallView) -> StepView {
    StepView { call, on_failure: OnFailure::Abort }
}

/// A call whose failure is returned.
pub open spec fn or_return(call: CallView) -> StepView {
    StepView { call, on_failure: OnFailure::Return }
}

/// A call whose result does not matter.
pub open spec fn regardless(call: CallView) -> StepView {
    StepView { call, on_failure: OnFailure::Ignore }
}

/// Making an unnamed element.
pub open spec fn made(factory: Seq<char>) -> StepView {
    or_abort(CallView::Make { factory, name: None })
}

/// The `count` element numbers from `first` on.
pub open spec fn consecutive(first: nat, count: nat) -> Seq<nat> {
    Seq::new(count, |i: int| (first + i) as nat)
}

impl Step {
    /// A step whose failure aborts the program.
    pub fn or_abort(call: Call) -> (step: Step)
        ensures
            step@ == or_abort(call@),
    {
        Step { call, on_failure: OnFailure::Abort }
    }

    /// A step whose failure is returned.
    pub fn or_return(call: Call) -> (step: Step)
        ensures
            step@ == or_return(call@),
    {
        Step { call, on_failure: OnFailure::Return }
    }

    /// A step whose result does not matter.
    pub fn regardless(call: Call) -> (step: Step)
        ensures
            step@ == regardless(call@),
    {
        Step { call, on_failure: OnFailure::Ignore }
    }

    /// The same call, with a result that nobody looks at.
    pub fn ignoring_failure(self) -> (step: Step)
        ensures
            step@ == regardless(self@.call),
    {
        Step::regardless(self.call)
    }

    /// The same call, without whose success the program cannot go on.
    pub fn required(self) -> (step: Step)
        ensures
            step@ == or_abort(self@.call),
    {
        Step::or_abort(self.call)
    }

    /// The step that makes an unnamed element.
    pub fn make(factory: &str) -> (step: Step)
        ensures
            step@ == made(factory@),
    {
        Step::or_abort(Call::Make { factory: factory.to_owned(), name: None })
    }

    /// The step that sets a property from text.
    pub fn set_text(target: Target, property: &str, value: &str) -> (step: Step)
        ensures
            step@ == regardless(
                CallView::SetPropertyFromText {
                    target: target@,
                    property: property@,
                    text: value@,
                },
            ),
    {
        Step::regardless(
            Call::SetPropertyFromText {
                target,
                property: property.to_owned(),
                text: value.to_owned(),
            },
        )
    }

    /// The step that sets a property.
    pub fn set(target: Target, property: &str, value: PropertyValue) -> (step: Step)
        ensures
            step@ == or_abort(
                CallView::SetProperty { target: target@, property: property@, value },
            ),
    {
        Step::or_abort(Call::SetProperty { target, property: property.to_owned(), value })
    }
}

/// Lists the `count` element numbers from `first` on.
pub fn consecutive_elements(first: usize, count: usize) -> (elements: Vec<usize>)
    requires
        first + count <= usize::MAX,
    ensures
        numbers(elements@) == consecutive(first as nat, count as nat),
{
    let mut elements: Vec<usize> = Vec::new();
    let mut i: usize = 0;
    while i < count
        invariant
            first + count <= usize::MAX,
            i <= count,
            elements@.len() == i,
            forall|j: int| 0 <= j < i ==> elements@[j] == first + j,
        decreases count - i,
    {
        elements.push(first + i);
        i += 1;
    }
    assert(numbers(elements@) =~= consecutive(first as nat, count as nat));
    elements
}

/// A step is its call, unchanged, with what its failure means.
pub proof fn law_steps_keep_their_calls(call: CallView, factory: Seq<char>)
    ensures
        or_abort(call) == (StepView { call, on_failure: OnFailure::Abort }),
        or_return(call) == (StepView { call, on_failure: OnFailure::Return }),
        regardless(call) == (StepView { call, on_failure: OnFailure::Ignore }),
        made(factory) == (StepView {
            call: CallView::Make { factory, name: None },
            on_failure: OnFailure::Abort,
        }),
{
}

/// Consecutive numbers begin with the first and grow by one.
pub proof fn law_consecutive_numbers(first: nat, count: nat, i: int)
    ensures
        consecutive(first, count).len() == count,
        0 <= i < count ==> consecutive(first, count)[i] == first + i,
{
}

} // verus!
