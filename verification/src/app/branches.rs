//! The branches of the pipeline: the sources of what we send and the sinks of what the peer
//! sends.

use crate::app::App;
use crate::media::plan::{started, Plan, Verdict, VerdictView};
use crate::media::step::{
    consecutive, consecutive_elements, made, numbers, or_abort, or_return, regardless,
    step_views, Call, CallView, Caps, CapsView, PadReaction, PropertyValue, Step, StepView,
    Target, TargetView,
};
use crate::media::webrtcbin::{Pad, PadDirection};
use crate::text::starts_with;
use vstd::prelude::*;

verus! {

/// The kind of a media stream.
#[derive(Debug, Clone, Copy, PartialEq, Eq, Structural)]
pub enum MediaType {
    Audio,
    Video,
}

/// The capabilities of the audio stream that we send.
pub open spec fn opus_caps() -> CapsView {
    CapsView {
        name: "application/x-rtp"@,
        media: "audio"@,
        encoding_name: "OPUS"@,
        payload: 97,
    }
}

/// The capabilities of the video stream that we send.
pub open spec fn vp8_caps() -> CapsView {
    CapsView {
        name: "application/x-rtp"@,
        media: "video"@,
        encoding_name: "VP8"@,
        payload: 96,
    }
}

/// The capabilities of the audio stream that we send.
pub fn rtp_caps_opus() -> (caps: Caps)
    ensures
        caps@ == opus_caps(),
{
    Caps {
        name: "application/x-rtp".to_owned(),
        media: "audio".to_owned(),
        encoding_name: "OPUS".to_owned(),
        payload: 97,
    }
}

/// The capabilities of the video stream that we send.
pub fn rtp_caps_vp8() -> (caps: Caps)
    ensures
        caps@ == vp8_caps(),
{
    Caps {
        name: "application/x-rtp".to_owned(),
        media: "video".to_owned(),
        encoding_name: "VP8".to_owned(),
        payload: 96,
    }
}

/// Putting elements into the pipeline.
pub open spec fn added(elements: Seq<nat>) -> StepView {
    or_abort(CallView::Add { elements })
}

/// Linking elements into a chain.
pub open spec fn linked(elements: Seq<nat>) -> StepView {
    or_return(CallView::Link { elements })
}

/// Bringing an element to the state of the pipeline.
pub open spec fn synced(element: nat) -> StepView {
    or_return(CallView::SyncState { element })
}

/// Looking up the pad that an element takes its input from.
pub open spec fn input_pad(element: nat) -> StepView {
    or_abort(CallView::StaticPad { element, pad: "sink"@ })
}

/// Making a source live.
pub open spec fn live(element: nat) -> StepView {
    or_abort(
        CallView::SetProperty {
            target: TargetView::Element(element),
            property: "is-live"@,
            value: PropertyValue::Bool(true),
        },
    )
}

/// The steps that add the video test source and its encoder, with element numbers from `first`
/// on: a bouncing ball, encoded as VP8, for webrtcbin.
pub open spec fn video_source(first: nat) -> Seq<StepView> {
    seq![
        made("videotestsrc"@),
        made("videoconvert"@),
        made("queue"@),
        made("vp8enc"@),
        regardless(
            CallView::SetPropertyFromText {
                target: TargetView::Element(first),
                property: "pattern"@,
                text: "ball"@,
            },
        ),
        live(first),
        or_abort(
            CallView::SetProperty {
                target: TargetView::Element(first + 3),
                property: "deadline"@,
                value: PropertyValue::Int64(1),
            },
        ),
        made("rtpvp8pay"@),
        made("queue"@),
        added(consecutive(first, 6)),
        linked(consecutive(first, 6)),
        or_return(CallView::LinkFiltered { element: first + 5, caps: vp8_caps() }),
    ]
}

/// The steps that add the audio test source and its encoder, with element numbers from `first`
/// on: red noise, encoded as Opus, for webrtcbin.
pub open spec fn audio_source(first: nat) -> Seq<StepView> {
    seq![
        made("audiotestsrc"@),
        made("queue"@),
        made("audioconvert"@),
        made("audioresample"@),
        made("queue"@),
        made("opusenc"@),
        made("rtpopuspay"@),
        made("queue"@),
        regardless(
            CallView::SetPropertyFromText {
                target: TargetView::Element(first),
                property: "wave"@,
                text: "red-noise"@,
            },
        ),
        live(first),
        added(consecutive(first, 8)),
        linked(consecutive(first, 8)),
        or_return(CallView::LinkFiltered { element: first + 7, caps: opus_caps() }),
    ]
}

/// The steps that connect a decoded stream to a sink: queue, converter, for audio a resampler,
/// and the sink of the system.
pub open spec fn media_sink(media_type: MediaType) -> Seq<StepView> {
    match media_type {
        MediaType::Audio => seq![
            made("queue"@),
            made("audioconvert"@),
            made("autoaudiosink"@),
            made("audioresample"@),
            added(seq![0nat, 1, 3, 2]),
            linked(seq![0nat, 1, 3, 2]),
            synced(3),
            synced(0),
            synced(1),
            synced(2),
            input_pad(0),
            or_return(CallView::LinkStream),
        ],
        MediaType::Video => seq![
            made("queue"@),
            made("videoconvert"@),
            made("autovideosink"@),
            added(seq![0nat, 1, 2]),
            linked(seq![0nat, 1, 2]),
            synced(0),
            synced(1),
            synced(2),
            input_pad(0),
            or_return(CallView::LinkStream),
        ],
    }
}

/// The steps that connect an encoded stream to a decoder whose output comes back to the client.
pub open spec fn decoder() -> Seq<StepView> {
    seq![
        made("decodebin"@),
        regardless(
            CallView::ConnectPadAdded {
                target: TargetView::Element(0),
                pad_reaction: PadReaction::HandleDecodedStream,
            },
        ),
        added(seq![0nat]),
        synced(0),
        input_pad(0),
        or_abort(CallView::LinkStream),
    ]
}

/// The kind of a decoded stream, by the name of its capabilities.
pub open spec fn stream_type(caps_name: Seq<char>) -> Option<MediaType> {
    if "video/"@.is_prefix_of(caps_name) {
        Some(MediaType::Video)
    } else if "audio/"@.is_prefix_of(caps_name) {
        Some(MediaType::Audio)
    } else {
        None
    }
}

/// Tells the kind of a decoded stream by the name of its capabilities.
pub fn stream_type_of(caps_name: &str) -> (kind: Option<MediaType>)
    ensures
        kind == stream_type(caps_name@),
{
    if starts_with(caps_name, "video/") {
        Some(MediaType::Video)
    } else if starts_with(caps_name, "audio/") {
        Some(MediaType::Audio)
    } else {
        None
    }
}

/// What is done with a decoded stream: one that is neither video nor audio is left alone.
pub open spec fn decoded_stream_handled(caps_name: Seq<char>) -> VerdictView {
    match stream_type(caps_name) {
        Some(media_type) => started(media_sink(media_type)),
        None => VerdictView::Complete,
    }
}

/// What is done with a new pad of webrtcbin: only one that data comes out of is a stream of the
/// peer.
pub open spec fn incoming_stream_handled(direction: PadDirection) -> VerdictView {
    if direction == PadDirection::Src {
        started(decoder())
    } else {
        VerdictView::Complete
    }
}

/// The step that looks up the pad that an element takes its input from.
fn input_pad_step(element: usize) -> (step: Step)
    ensures
        step@ == input_pad(element as nat),
{
    Step::or_abort(Call::StaticPad { element, pad: "sink".to_owned() })
}

/// The step that puts elements into the pipeline.
fn add_step(elements: Vec<usize>) -> (step: Step)
    ensures
        step@ == added(numbers(elements@)),
{
    Step::or_abort(Call::Add { elements })
}

/// The step that links elements into a chain.
fn link_step(elements: Vec<usize>) -> (step: Step)
    ensures
        step@ == linked(numbers(elements@)),
{
    Step::or_return(Call::Link { elements })
}

/// The step that brings an element to the state of the pipeline.
fn sync_step(element: usize) -> (step: Step)
    ensures
        step@ == synced(element as nat),
{
    Step::or_return(Call::SyncState { element })
}

impl App {
    /// Lists the steps that connect a newly decoded stream to newly made sink elements and
    /// converters.
    pub fn handle_media_stream(&self, media_type: MediaType) -> (steps: Vec<Step>)
        ensures
            step_views(steps@) == media_sink(media_type),
    {
        match media_type {
            MediaType::Audio => {
                let added_elements: Vec<usize> = vec![0usize, 1usize, 3usize, 2usize];
                let linked_elements: Vec<usize> = vec![0usize, 1usize, 3usize, 2usize];
                assert(numbers(added_elements@) =~= seq![0nat, 1, 3, 2]);
                assert(numbers(linked_elements@) =~= seq![0nat, 1, 3, 2]);
                let steps = vec![
                    Step::make("queue"),
                    Step::make("audioconvert"),
                    Step::make("autoaudiosink"),
                    Step::make("audioresample"),
                    add_step(added_elements),
                    link_step(linked_elements),
                    sync_step(3),
                    sync_step(0),
                    sync_step(1),
                    sync_step(2),
                    input_pad_step(0),
                    Step::or_return(Call::LinkStream),
                ];
                assert(step_views(steps@) =~= media_sink(media_type));
                steps
            },
            MediaType::Video => {
                let added_elements: Vec<usize> = vec![0usize, 1usize, 2usize];
                let linked_elements: Vec<usize> = vec![0usize, 1usize, 2usize];
                assert(numbers(added_elements@) =~= seq![0nat, 1, 2]);
                assert(numbers(linked_elements@) =~= seq![0nat, 1, 2]);
                let steps = vec![
                    Step::make("queue"),
                    Step::make("videoconvert"),
                    Step::make("autovideosink"),
                    add_step(added_elements),
                    link_step(linked_elements),
                    sync_step(0),
                    sync_step(1),
                    sync_step(2),
                    input_pad_step(0),
                    Step::or_return(Call::LinkStream),
                ];
                assert(step_views(steps@) =~= media_sink(media_type));
                steps
            },
        }
    }

    /// Handles a stream that a decoder put out: depending on its type, makes the relevant
    /// elements, or ignores it.
    pub fn on_incoming_decodebin_stream(&self, pad: &Pad) -> (verdict: Verdict)
        requires
            pad.caps_name is Some,
        ensures
            verdict@ == decoded_stream_handled(pad.caps_name->0@),
    {
        let name = pad.caps_name.as_ref().unwrap().as_str();
        match stream_type_of(name) {
            Some(media_type) => Plan::begin(self.handle_media_stream(media_type)),
            None => Verdict::Complete,
        }
    }

    /// Handles a new pad of webrtcbin: for every encoded stream of the peer a new decoder.
    pub fn on_incoming_stream(&self, pad: &Pad) -> (verdict: Verdict)
        ensures
            verdict@ == incoming_stream_handled(pad.direction),
    {
        match pad.direction {
            PadDirection::Src => {},
            // The pads that we add ourselves.
            _ => return Verdict::Complete,
        }
        let elements: Vec<usize> = vec![0usize];
        assert(numbers(elements@) =~= seq![0nat]);
        let steps = vec![
            Step::make("decodebin"),
            Step::regardless(
                Call::ConnectPadAdded {
                    target: Target::Element(0),
                    pad_reaction: PadReaction::HandleDecodedStream,
                },
            ),
            add_step(elements),
            sync_step(0),
            input_pad_step(0),
            Step::or_abort(Call::LinkStream),
        ];
        assert(step_views(steps@) =~= decoder());
        Plan::begin(steps)
    }

    /// Lists the steps that make a video test source plus encoder for the stream that we send
    /// to the peer.
    pub fn add_video_source(&self, first: usize) -> (steps: Vec<Step>)
        requires
            first + 6 <= usize::MAX,
        ensures
            step_views(steps@) == video_source(first as nat),
    {
        let steps = vec![
            Step::make("videotestsrc"),
            Step::make("videoconvert"),
            Step::make("queue"),
            Step::make("vp8enc"),
            Step::set_text(Target::Element(first), "pattern", "ball"),
            Step::set(Target::Element(first), "is-live", PropertyValue::Bool(true)),
            Step::set(Target::Element(first + 3), "deadline", PropertyValue::Int64(1)),
            Step::make("rtpvp8pay"),
            Step::make("queue"),
            add_step(consecutive_elements(first, 6)),
            link_step(consecutive_elements(first, 6)),
            Step::or_return(Call::LinkFiltered { element: first + 5, caps: rtp_caps_vp8() }),
        ];
        assert(step_views(steps@) =~= video_source(first as nat));
        steps
    }

    /// Lists the steps that make an audio test source plus encoder for the stream that we send
    /// to the peer.
    pub fn add_audio_source(&self, first: usize) -> (steps: Vec<Step>)
        requires
            first + 8 <= usize::MAX,
        ensures
            step_views(steps@) == audio_source(first as nat),
    {
        let steps = vec![
            Step::make("audiotestsrc"),
            Step::make("queue"),
            Step::make("audioconvert"),
            Step::make("audioresample"),
            Step::make("queue"),
            Step::make("opusenc"),
            Step::make("rtpopuspay"),
            Step::make("queue"),
            Step::set_text(Target::Element(first), "wave", "red-noise"),
            Step::set(Target::Element(first), "is-live", PropertyValue::Bool(true)),
            add_step(consecutive_elements(first, 8)),
            link_step(consecutive_elements(first, 8)),
            Step::or_return(Call::LinkFiltered { element: first + 7, caps: rtp_caps_opus() }),
        ];
        assert(step_views(steps@) =~= audio_source(first as nat));
        steps
    }
}

} // verus!
