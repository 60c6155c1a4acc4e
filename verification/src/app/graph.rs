//! What the steps build: a model of the pipeline as a graph of elements.

use crate::app::branches::{audio_source, decoder, media_sink, video_source, MediaType};
use crate::app::{pipeline_setup, AppView};
use crate::media::plan::calls;
use crate::media::step::{
    consecutive, ArgumentView, CallView, CapsView, OnFailure, PadReaction, PipelineState,
    PropertyValue, Reaction, StepView, TargetView,
};
use crate::media::webrtcbin::construction;
use vstd::prelude::*;

verus! {

/// What a property was set to.
pub enum Setting {
    Text(Seq<char>),
    Value(PropertyValue),
}

/// The elements that were made, in order, and what became of them.
#[verifier::ext_equal]
pub struct Graph {
    /// The factory of each element.
    pub made: Seq<Seq<char>>,
    /// The name of each element, if it has one.
    pub named: Seq<Option<Seq<char>>>,
    /// The properties that were set, in order.
    pub settings: Seq<(TargetView, Seq<char>, Setting)>,
    /// The elements that are in the pipeline.
    pub added: Set<nat>,
    /// The links between elements.
    pub links: Seq<(nat, nat)>,
    /// The links to webrtcbin, with the capabilities of the stream.
    pub outputs: Seq<(nat, CapsView)>,
    /// The elements that were brought to the state of the pipeline.
    pub synced: Set<nat>,
    /// The pad that was looked up last: its element and its name.
    pub pad_of: Option<(nat, Seq<char>)>,
    /// The pads that incoming streams were linked to.
    pub inputs: Seq<(nat, Seq<char>)>,
    /// The calls that concern something else than elements, in order.
    pub others: Seq<CallView>,
}

/// The graph without elements.
pub open spec fn empty_graph() -> Graph {
    Graph {
        made: Seq::empty(),
        named: Seq::empty(),
        settings: Seq::empty(),
        added: Set::empty(),
        links: Seq::empty(),
        outputs: Seq::empty(),
        synced: Set::empty(),
        pad_of: None,
        inputs: Seq::empty(),
        others: Seq::empty(),
    }
}

/// The links of a chain of elements.
pub open spec fn chain(elements: Seq<nat>) -> Seq<(nat, nat)> {
    Seq::new((elements.len() - 1) as nat, |i: int| (elements[i], elements[i + 1]))
}

/// Whether a target exists: an element does once it is made.
pub open spec fn exists_in(graph: Graph, target: TargetView) -> bool {
    target matches TargetView::Element(element) ==> element < graph.made.len()
}

/// The graph after a call; `None` if the call makes no sense: it names an element that is not
/// made yet, puts an element into the pipeline twice, or uses an element that is not in the
/// pipeline as if it were.
pub open spec fn called(graph: Graph, call: CallView) -> Option<Graph> {
    match call {
        CallView::Make { factory, name } => Some(
            Graph { made: graph.made.push(factory), named: graph.named.push(name), ..graph },
        ),
        CallView::Add { elements } => if elements.no_duplicates() && (forall|i: int|
            0 <= i < elements.len() ==> #[trigger] elements[i] < graph.made.len()
                && !graph.added.contains(elements[i])) {
            Some(Graph { added: graph.added.union(elements.to_set()), ..graph })
        } else {
            None
        },
        CallView::Link { elements } => if elements.len() > 1 && (forall|i: int|
            0 <= i < elements.len() ==> graph.added.contains(#[trigger] elements[i])) {
            Some(Graph { links: graph.links + chain(elements), ..graph })
        } else {
            None
        },
        CallView::LinkFiltered { element, caps } => if graph.added.contains(element) {
            Some(Graph { outputs: graph.outputs.push((element, caps)), ..graph })
        } else {
            None
        },
        CallView::SyncState { element } => if graph.added.contains(element) {
            Some(Graph { synced: graph.synced.insert(element), ..graph })
        } else {
            None
        },
        CallView::StaticPad { element, pad } => if element < graph.made.len() {
            Some(Graph { pad_of: Some((element, pad)), ..graph })
        } else {
            None
        },
        CallView::LinkStream => match graph.pad_of {
            Some((element, pad)) if graph.added.contains(element) => Some(
                Graph { inputs: graph.inputs.push((element, pad)), ..graph },
            ),
            _ => None,
        },
        CallView::SetPropertyFromText { target, property, text } => if exists_in(graph, target) {
            Some(
                Graph {
                    settings: graph.settings.push((target, property, Setting::Text(text))),
                    ..graph
                },
            )
        } else {
            None
        },
        CallView::SetProperty { target, property, value } => if exists_in(graph, target) {
            Some(
                Graph {
                    settings: graph.settings.push((target, property, Setting::Value(value))),
                    ..graph
                },
            )
        } else {
            None
        },
        CallView::ConnectPadAdded { target, .. } => if exists_in(graph, target) {
            Some(Graph { others: graph.others.push(call), ..graph })
        } else {
            None
        },
        _ => Some(Graph { others: graph.others.push(call), ..graph }),
    }
}

/// The graph after the calls of the first `n` steps.
pub open spec fn built(graph: Graph, steps: Seq<StepView>, n: nat) -> Option<Graph>
    decreases n,
{
    if n == 0 {
        Some(graph)
    } else {
        match built(graph, steps, (n - 1) as nat) {
            Some(graph) => called(graph, steps[n - 1].call),
            None => None,
        }
    }
}

/// Whether only elements that were made are in the pipeline.
pub open spec fn sound(graph: Graph) -> bool {
    forall|element: nat| #[trigger] graph.added.contains(element) ==> element < graph.made.len()
}

/// What a source adds to a graph: a chain of new elements without names, all of them in the
/// pipeline, the last one linked to webrtcbin, with these properties set.
pub open spec fn with_source(
    graph: Graph,
    factories: Seq<Seq<char>>,
    settings: Seq<(TargetView, Seq<char>, Setting)>,
    caps: CapsView,
) -> Graph {
    let elements = Seq::new(factories.len(), |i: int| (graph.made.len() + i) as nat);
    Graph {
        made: graph.made + factories,
        named: graph.named + Seq::new(factories.len(), |i: int| None::<Seq<char>>),
        settings: graph.settings + settings,
        added: graph.added.union(elements.to_set()),
        links: graph.links + chain(elements),
        outputs: graph.outputs.push((elements.last(), caps)),
        ..graph
    }
}

/// The elements of the video source, from the picture to the network.
pub open spec fn video_factories() -> Seq<Seq<char>> {
    seq![
        "videotestsrc"@,
        "videoconvert"@,
        "queue"@,
        "vp8enc"@,
        "rtpvp8pay"@,
        "queue"@,
    ]
}

/// The elements of the audio source, from the sound to the network.
pub open spec fn audio_factories() -> Seq<Seq<char>> {
    seq![
        "audiotestsrc"@,
        "queue"@,
        "audioconvert"@,
        "audioresample"@,
        "queue"@,
        "opusenc"@,
        "rtpopuspay"@,
        "queue"@,
    ]
}

/// The capabilities of an RTP stream.
pub open spec fn rtp(media: Seq<char>, encoding_name: Seq<char>, payload: i32) -> CapsView {
    CapsView { name: "application/x-rtp"@, media, encoding_name, payload }
}

/// A live picture of a ball, encoded with the shortest deadline, by a source whose first element
/// has this number.
pub open spec fn video_settings(first: nat) -> Seq<(TargetView, Seq<char>, Setting)> {
    seq![
        (TargetView::Element(first), "pattern"@, Setting::Text("ball"@)),
        (TargetView::Element(first), "is-live"@, Setting::Value(PropertyValue::Bool(true))),
        (TargetView::Element(first + 3), "deadline"@, Setting::Value(PropertyValue::Int64(1))),
    ]
}

/// Live red noise, by a source whose first element has this number.
pub open spec fn audio_settings(first: nat) -> Seq<(TargetView, Seq<char>, Setting)> {
    seq![
        (TargetView::Element(first), "wave"@, Setting::Text("red-noise"@)),
        (TargetView::Element(first), "is-live"@, Setting::Value(PropertyValue::Bool(true))),
    ]
}

/// Numbers in a row are different, and members of the set of them.
proof fn lemma_consecutive(first: nat, count: nat)
    ensures
        consecutive(first, count).no_duplicates(),
        forall|i: int|
            0 <= i < count ==> consecutive(first, count).to_set().contains(
                #[trigger] consecutive(first, count)[i],
            ),
{
    let elements = consecutive(first, count);
    assert forall|i: int| 0 <= i < count implies elements.to_set().contains(
        #[trigger] elements[i],
    ) by {
        assert(elements.contains(elements[i]));
    }
}

/// The steps of the video source build a chain of new elements that ends in webrtcbin: the test
/// picture, its encoder and its payloader. The properties go to the elements that they belong to,
/// wherever the source stands in the pipeline.
pub proof fn law_video_source_is_a_chain(graph: Graph)
    requires
        sound(graph),
    ensures
        video_source(graph.made.len()).len() == 12,
        built(graph, video_source(graph.made.len()), 12) == Some(
            with_source(
                graph,
                video_factories(),
                video_settings(graph.made.len()),
                rtp("video"@, "VP8"@, 96),
            ),
        ),
{
    let first = graph.made.len();
    let steps = video_source(first);
    let goal = with_source(
        graph,
        video_factories(),
        video_settings(first),
        rtp("video"@, "VP8"@, 96),
    );
    let elements = Seq::new(6, |i: int| (first + i) as nat);
    assert(elements =~= consecutive(first, 6));
    lemma_consecutive(first, 6);
    let g9 = Graph { made: goal.made, named: goal.named, settings: goal.settings, ..graph };
    assert(built(graph, steps, 9) == Some(g9)) by {
        reveal_with_fuel(built, 10);
        let got = built(graph, steps, 9)->0;
        assert(got.made =~= goal.made);
        assert(got.named =~= goal.named);
        assert(got.settings =~= goal.settings);
    }
    let g10 = Graph { added: goal.added, ..g9 };
    assert(built(graph, steps, 10) == Some(g10));
    let g11 = Graph { links: goal.links, ..g10 };
    assert(built(graph, steps, 11) == Some(g11));
    assert(elements[5] == first + 5);
    assert(g11.added.contains(elements[5]));
    assert(built(graph, steps, 12) == Some(goal));
}

/// The steps of the audio source build a chain of new elements that ends in webrtcbin: the test
/// sound, its encoder and its payloader. The properties go to the element that they belong to,
/// wherever the source stands in the pipeline.
pub proof fn law_audio_source_is_a_chain(graph: Graph)
    requires
        sound(graph),
    ensures
        audio_source(graph.made.len()).len() == 13,
        built(graph, audio_source(graph.made.len()), 13) == Some(
            with_source(
                graph,
                audio_factories(),
                audio_settings(graph.made.len()),
                rtp("audio"@, "OPUS"@, 97),
            ),
        ),
{
    let first = graph.made.len();
    let steps = audio_source(first);
    let goal = with_source(
        graph,
        audio_factories(),
        audio_settings(first),
        rtp("audio"@, "OPUS"@, 97),
    );
    let elements = Seq::new(8, |i: int| (first + i) as nat);
    assert(elements =~= consecutive(first, 8));
    lemma_consecutive(first, 8);
    let g10 = Graph { made: goal.made, named: goal.named, settings: goal.settings, ..graph };
    assert(built(graph, steps, 10) == Some(g10)) by {
        reveal_with_fuel(built, 11);
        let got = built(graph, steps, 10)->0;
        assert(got.made =~= goal.made);
        assert(got.named =~= goal.named);
        assert(got.settings =~= goal.settings);
    }
    let g11 = Graph { added: goal.added, ..g10 };
    assert(built(graph, steps, 11) == Some(g11));
    let g12 = Graph { links: goal.links, ..g11 };
    assert(built(graph, steps, 12) == Some(g12));
    assert(elements[7] == first + 7);
    assert(g12.added.contains(elements[7]));
    assert(built(graph, steps, 13) == Some(goal));
}

/// What the sink of a decoded audio stream is made of.
pub open spec fn audio_sink_graph() -> Graph {
    Graph {
        made: seq!["queue"@, "audioconvert"@, "autoaudiosink"@, "audioresample"@],
        named: seq![None, None, None, None],
        settings: Seq::empty(),
        added: set![0nat, 1, 2, 3],
        links: seq![(0nat, 1nat), (1, 3), (3, 2)],
        outputs: Seq::empty(),
        synced: set![0nat, 1, 2, 3],
        pad_of: Some((0, "sink"@)),
        inputs: seq![(0, "sink"@)],
        others: Seq::empty(),
    }
}

/// What the sink of a decoded video stream is made of.
pub open spec fn video_sink_graph() -> Graph {
    Graph {
        made: seq!["queue"@, "videoconvert"@, "autovideosink"@],
        named: seq![None, None, None],
        settings: Seq::empty(),
        added: set![0nat, 1, 2],
        links: seq![(0nat, 1nat), (1, 2)],
        outputs: Seq::empty(),
        synced: set![0nat, 1, 2],
        pad_of: Some((0, "sink"@)),
        inputs: seq![(0, "sink"@)],
        others: Seq::empty(),
    }
}

proof fn lemma_audio_sink()
    ensures
        built(empty_graph(), media_sink(MediaType::Audio), 12) == Some(audio_sink_graph()),
{
    let start = empty_graph();
    let goal = audio_sink_graph();
    let steps = media_sink(MediaType::Audio);
    let elements = seq![0nat, 1, 3, 2];
    let g4 = Graph { made: goal.made, named: goal.named, ..start };
    assert(built(start, steps, 4) == Some(g4)) by {
        reveal_with_fuel(built, 5);
        assert(built(start, steps, 4)->0.made =~= goal.made);
        assert(built(start, steps, 4)->0.named =~= goal.named);
    }
    assert(elements.to_set() =~= set![0nat, 1, 2, 3]) by {
        assert(elements[0] == 0 && elements[1] == 1 && elements[2] == 3 && elements[3] == 2);
    }
    let g5 = Graph { added: goal.added, ..g4 };
    assert(built(start, steps, 5) == Some(g5)) by {
        assert(g4.added.union(elements.to_set()) =~= goal.added);
    }
    let g6 = Graph { links: goal.links, ..g5 };
    assert(built(start, steps, 6) == Some(g6)) by {
        assert(g5.links + chain(elements) =~= goal.links);
    }
    assert(built(start, steps, 7) == Some(Graph { synced: set![3nat], ..g6 }));
    assert(built(start, steps, 8) == Some(Graph { synced: set![3nat, 0], ..g6 }));
    assert(built(start, steps, 9) == Some(Graph { synced: set![3nat, 0, 1], ..g6 }));
    let g10 = Graph { synced: goal.synced, ..g6 };
    assert(built(start, steps, 10) == Some(g10)) by {
        assert(set![3nat, 0, 1].insert(2) =~= goal.synced);
    }
    assert(built(start, steps, 11) == Some(Graph { pad_of: goal.pad_of, ..g10 }));
    assert(start.inputs.push((0, "sink"@)) =~= goal.inputs);
}

proof fn lemma_video_sink()
    ensures
        built(empty_graph(), media_sink(MediaType::Video), 10) == Some(video_sink_graph()),
{
    let start = empty_graph();
    let goal = video_sink_graph();
    let steps = media_sink(MediaType::Video);
    let elements = seq![0nat, 1, 2];
    let g3 = Graph { made: goal.made, named: goal.named, ..start };
    assert(built(start, steps, 3) == Some(g3)) by {
        reveal_with_fuel(built, 4);
        assert(built(start, steps, 3)->0.made =~= goal.made);
        assert(built(start, steps, 3)->0.named =~= goal.named);
    }
    assert(elements.to_set() =~= set![0nat, 1, 2]) by {
        assert(elements[0] == 0 && elements[1] == 1 && elements[2] == 2);
    }
    let g4 = Graph { added: goal.added, ..g3 };
    assert(built(start, steps, 4) == Some(g4)) by {
        assert(g3.added.union(elements.to_set()) =~= goal.added);
    }
    let g5 = Graph { links: goal.links, ..g4 };
    assert(built(start, steps, 5) == Some(g5)) by {
        assert(g4.links + chain(elements) =~= goal.links);
    }
    assert(built(start, steps, 6) == Some(Graph { synced: set![0nat], ..g5 }));
    assert(built(start, steps, 7) == Some(Graph { synced: set![0nat, 1], ..g5 }));
    let g8 = Graph { synced: goal.synced, ..g5 };
    assert(built(start, steps, 8) == Some(g8));
    assert(built(start, steps, 9) == Some(Graph { pad_of: goal.pad_of, ..g8 }));
    assert(start.inputs.push((0, "sink"@)) =~= goal.inputs);
}

/// A decoded stream ends in a sink of its kind: every element is in the pipeline and in its
/// state, the elements form a chain, and the stream is linked to the input of the first of it.
pub proof fn law_media_sink_is_a_chain(media_type: MediaType)
    ensures
        built(empty_graph(), media_sink(media_type), media_sink(media_type).len()) == Some(
            match media_type {
                MediaType::Audio => audio_sink_graph(),
                MediaType::Video => video_sink_graph(),
            },
        ),
{
    match media_type {
        MediaType::Audio => lemma_audio_sink(),
        MediaType::Video => lemma_video_sink(),
    }
}

/// An encoded stream is linked to a decoder that is in the pipeline and in its state.
pub proof fn law_decoder_takes_the_stream()
    ensures
        built(empty_graph(), decoder(), decoder().len()) == Some(
            Graph {
                made: seq!["decodebin"@],
                named: seq![None],
                settings: Seq::empty(),
                added: set![0nat],
                links: Seq::empty(),
                outputs: Seq::empty(),
                synced: set![0nat],
                pad_of: Some((0, "sink"@)),
                inputs: seq![(0, "sink"@)],
                others: seq![
                    CallView::ConnectPadAdded {
                        target: TargetView::Element(0),
                        pad_reaction: PadReaction::HandleDecodedStream,
                    },
                ],
            },
        ),
{
    let steps = decoder();
    reveal_with_fuel(built, 7);
    let elements = seq![0nat];
    assert(elements[0] == 0);
    assert(elements.to_set() =~= set![0nat]);
    let done = built(empty_graph(), steps, 6)->0;
    assert(done.made =~= seq!["decodebin"@]);
    assert(done.added =~= set![0nat]);
    assert(done.synced =~= set![0nat]);
    assert(done.named =~= seq![None::<Seq<char>>]);
    assert(done.inputs =~= seq![(0nat, "sink"@)]);
    assert(done.others =~= seq![steps[1].call]);
}

/// A new pipeline holds webrtcbin and nothing else; both have names that begin with the prefix,
/// and the pipeline is ready.
pub proof fn law_new_pipeline_holds_webrtcbin(prefix: Seq<char>)
    ensures
        built(empty_graph(), construction(prefix), construction(prefix).len()) == Some(
            Graph {
                made: seq!["webrtcbin"@],
                named: seq![Some(prefix + "_webrtcbin"@)],
                added: set![0nat],
                others: seq![
                    CallView::NewPipeline { pipeline: prefix + "_pipeline"@ },
                    CallView::SetState { state: PipelineState::Ready },
                ],
                ..empty_graph()
            },
        ),
        construction(prefix).last().call == (CallView::SetState { state: PipelineState::Ready }),
{
    let steps = construction(prefix);
    reveal_with_fuel(built, 5);
    let elements = seq![0nat];
    assert(elements[0] == 0);
    assert(elements.to_set() =~= set![0nat]);
    let done = built(empty_graph(), steps, 4)->0;
    assert(done.made =~= seq!["webrtcbin"@]);
    assert(done.named =~= seq![Some(prefix + "_webrtcbin"@)]);
    assert(done.added =~= set![0nat]);
    assert(done.others =~= seq![steps[0].call, steps[3].call]);
}

/// Steps one after the other build on what the first of them built.
proof fn lemma_built_in_turn(graph: Graph, a: Seq<StepView>, b: Seq<StepView>, n: nat)
    requires
        n <= b.len(),
    ensures
        built(graph, a + b, a.len() + n) == (match built(graph, a, a.len()) {
            Some(graph) => built(graph, b, n),
            None => None,
        }),
    decreases n,
{
    if n == 0 {
        lemma_built_prefix(graph, a, b, a.len());
    } else {
        lemma_built_in_turn(graph, a, b, (n - 1) as nat);
        assert((a + b)[a.len() + n - 1] == b[n - 1]);
    }
}

/// What the first steps build does not depend on later ones.
proof fn lemma_built_prefix(graph: Graph, a: Seq<StepView>, b: Seq<StepView>, n: nat)
    requires
        n <= a.len(),
    ensures
        built(graph, a + b, n) == built(graph, a, n),
    decreases n,
{
    if n > 0 {
        lemma_built_prefix(graph, a, b, (n - 1) as nat);
        assert((a + b)[n - 1] == a[n - 1]);
    }
}

/// Whether steps have nothing to do with elements.
pub open spec fn makes_nothing(steps: Seq<StepView>) -> bool {
    forall|i: int| 0 <= i < steps.len() ==> match (#[trigger] steps[i]).call {
        CallView::Connect { .. } | CallView::Emit { .. } | CallView::StartPlaying => true,
        CallView::ConnectPadAdded { target, .. } => target !is Element,
        _ => false,
    }
}

/// Such steps leave the elements as they are.
proof fn lemma_built_from_nothing(graph: Graph, steps: Seq<StepView>, n: nat)
    requires
        n <= steps.len(),
        makes_nothing(steps),
    ensures
        built(graph, steps, n) == Some(
            Graph { others: graph.others + calls(steps.take(n as int)), ..graph },
        ),
    decreases n,
{
    if n > 0 {
        lemma_built_from_nothing(graph, steps, (n - 1) as nat);
        assert(steps[n - 1] == steps[n - 1]);
        assert(calls(steps.take(n as int)) =~= calls(steps.take(n - 1)).push(steps[n - 1].call));
        assert(graph.others + calls(steps.take(n as int)) =~= (graph.others + calls(
            steps.take(n - 1),
        )).push(steps[n - 1].call));
    } else {
        assert(graph.others + calls(steps.take(0)) =~= graph.others);
    }
}

/// The calls of a preparation that have nothing to do with elements: connecting the client, to the
/// need for negotiation only if it calls, asking for the transceiver of the video only if lost
/// packets are sent again, and starting the pipeline in the end.
pub open spec fn setup_others(app: AppView) -> Seq<CallView> {
    (if app.peer_id is Some {
        seq![
            CallView::Connect {
                signal: "on-negotiation-needed"@,
                reaction: Reaction::Negotiate,
            },
        ]
    } else {
        Seq::empty()
    }) + seq![
        CallView::Connect { signal: "on-ice-candidate"@, reaction: Reaction::SendCandidate },
        CallView::ConnectPadAdded {
            target: TargetView::WebRtcBin,
            pad_reaction: PadReaction::HandleStream,
        },
    ] + (if app.rtx {
        seq![
            CallView::Emit {
                signal: "get-transceiver"@,
                arguments: seq![ArgumentView::Signed(0)],
            },
        ]
    } else {
        Seq::empty()
    }) + seq![CallView::StartPlaying]
}

/// The property by which lost packets are sent again, if they are.
pub open spec fn setup_settings(app: AppView) -> Seq<(TargetView, Seq<char>, Setting)> {
    if app.rtx {
        seq![
            (TargetView::Transceiver, "do-nack"@, Setting::Value(PropertyValue::Bool(true))),
        ]
    } else {
        Seq::empty()
    }
}

/// However the client is started, a finished pipeline holds the two sources, video first, each
/// of them a chain that ends in webrtcbin, with their properties on their own elements; and
/// nothing else is done than to connect the client and to start the pipeline, and to ask for
/// retransmission if that is wanted.
pub proof fn law_pipeline_holds_both_sources(app: AppView)
    ensures
        built(empty_graph(), pipeline_setup(app), pipeline_setup(app).len()) == Some(
            Graph {
                settings: video_settings(0) + audio_settings(6) + setup_settings(app),
                others: setup_others(app),
                ..with_source(
                    with_source(
                        empty_graph(),
                        video_factories(),
                        video_settings(0),
                        rtp("video"@, "VP8"@, 96),
                    ),
                    audio_factories(),
                    audio_settings(6),
                    rtp("audio"@, "OPUS"@, 97),
                )
            },
        ),
{
    let start = empty_graph();
    let all = pipeline_setup(app);
    let tail_len: nat = if app.rtx {
        3
    } else {
        1
    };
    let tail = all.skip(all.len() - tail_len);
    let head = all.take(all.len() - tail_len - 25);
    let video = video_source(0);
    let audio = audio_source(6);
    assert(all =~= head + video + audio + tail);
    assert(makes_nothing(head));
    lemma_built_from_nothing(start, head, head.len());
    let connected = Graph { others: calls(head), ..start };
    assert(head.take(head.len() as int) =~= head);
    assert(start.others + calls(head) =~= calls(head));
    lemma_built_in_turn(start, head, video, video.len());
    law_video_source_is_a_chain(connected);
    let with_video = with_source(
        connected,
        video_factories(),
        video_settings(0),
        rtp("video"@, "VP8"@, 96),
    );
    assert(with_video.made =~= video_factories());
    let numbers = Seq::new(6, |i: int| (0 + i) as nat);
    assert(sound(with_video)) by {
        assert forall|element: nat| with_video.added.contains(element) implies element
            < with_video.made.len() by {
            assert(numbers.contains(element));
        }
    }
    lemma_built_in_turn(start, head + video, audio, audio.len());
    law_audio_source_is_a_chain(with_video);
    let with_both = with_source(
        with_video,
        audio_factories(),
        audio_settings(6),
        rtp("audio"@, "OPUS"@, 97),
    );
    lemma_built_in_turn(start, head + video + audio, tail, tail.len());
    lemma_setup_end(app, with_both, tail);
    assert(with_both.settings =~= video_settings(0) + audio_settings(6));
    assert(calls(head) + setup_end(app) =~= setup_others(app));
}

/// The calls at the end of a preparation that have nothing to do with elements.
spec fn setup_end(app: AppView) -> Seq<CallView> {
    if app.rtx {
        seq![
            CallView::Emit {
                signal: "get-transceiver"@,
                arguments: seq![ArgumentView::Signed(0)],
            },
            CallView::StartPlaying,
        ]
    } else {
        seq![CallView::StartPlaying]
    }
}

/// What the end of a preparation adds to the graph.
proof fn lemma_setup_end(app: AppView, graph: Graph, tail: Seq<StepView>)
    requires
        app.rtx ==> tail == pipeline_setup(app).skip(pipeline_setup(app).len() - 3),
        !app.rtx ==> tail == pipeline_setup(app).skip(pipeline_setup(app).len() - 1),
    ensures
        built(graph, tail, tail.len()) == Some(
            Graph {
                settings: graph.settings + setup_settings(app),
                others: graph.others + setup_end(app),
                ..graph
            },
        ),
{
    reveal_with_fuel(built, 4);
    let done = built(graph, tail, tail.len())->0;
    assert(done.settings =~= graph.settings + setup_settings(app));
    assert(done.others =~= graph.others + setup_end(app));
}

/// The parts of a finished pipeline, one by one: a live picture of a bouncing ball goes through
/// the VP8 encoder, which may take no time, and live red noise through the Opus encoder; no
/// element has any other property set, and the two streams go to webrtcbin under their own
/// capabilities.
pub proof fn law_finished_pipeline(app: AppView)
    ensures
        ({
            let all = pipeline_setup(app);
            let graph = built(empty_graph(), all, all.len())->0;
            &&& built(empty_graph(), all, all.len()) is Some
            &&& graph.made == seq![
                "videotestsrc"@,
                "videoconvert"@,
                "queue"@,
                "vp8enc"@,
                "rtpvp8pay"@,
                "queue"@,
                "audiotestsrc"@,
                "queue"@,
                "audioconvert"@,
                "audioresample"@,
                "queue"@,
                "opusenc"@,
                "rtpopuspay"@,
                "queue"@,
            ]
            &&& graph.named.len() == 14
            &&& forall|i: int| 0 <= i < 14 ==> #[trigger] graph.named[i] is None
            &&& forall|element: nat| #[trigger] graph.added.contains(element) <==> element < 14
            &&& graph.links.len() == 12
            &&& forall|i: int|
                0 <= i < 12 ==> #[trigger] graph.links[i] == (if i < 5 {
                    (i as nat, (i + 1) as nat)
                } else {
                    ((i + 1) as nat, (i + 2) as nat)
                })
            &&& graph.outputs == seq![
                (
                    5nat,
                    CapsView {
                        name: "application/x-rtp"@,
                        media: "video"@,
                        encoding_name: "VP8"@,
                        payload: 96,
                    },
                ),
                (
                    13nat,
                    CapsView {
                        name: "application/x-rtp"@,
                        media: "audio"@,
                        encoding_name: "OPUS"@,
                        payload: 97,
                    },
                ),
            ]
            &&& graph.settings == seq![
                (TargetView::Element(0), "pattern"@, Setting::Text("ball"@)),
                (TargetView::Element(0), "is-live"@, Setting::Value(PropertyValue::Bool(true))),
                (TargetView::Element(3), "deadline"@, Setting::Value(PropertyValue::Int64(1))),
                (TargetView::Element(6), "wave"@, Setting::Text("red-noise"@)),
                (TargetView::Element(6), "is-live"@, Setting::Value(PropertyValue::Bool(true))),
            ] + (if app.rtx {
                seq![
                    (
                        TargetView::Transceiver,
                        "do-nack"@,
                        Setting::Value(PropertyValue::Bool(true)),
                    ),
                ]
            } else {
                Seq::empty()
            })
            &&& graph.inputs.len() == 0
            &&& graph.others == (if app.peer_id is Some {
                seq![
                    CallView::Connect {
                        signal: "on-negotiation-needed"@,
                        reaction: Reaction::Negotiate,
                    },
                ]
            } else {
                Seq::empty()
            }) + seq![
                CallView::Connect {
                    signal: "on-ice-candidate"@,
                    reaction: Reaction::SendCandidate,
                },
                CallView::ConnectPadAdded {
                    target: TargetView::WebRtcBin,
                    pad_reaction: PadReaction::HandleStream,
                },
            ] + (if app.rtx {
                seq![
                    CallView::Emit {
                        signal: "get-transceiver"@,
                        arguments: seq![ArgumentView::Signed(0)],
                    },
                ]
            } else {
                Seq::empty()
            }) + seq![CallView::StartPlaying]
        }),
{
    law_pipeline_holds_both_sources(app);
    let all = pipeline_setup(app);
    let graph = built(empty_graph(), all, all.len())->0;
    let video = Seq::new(6, |i: int| (0 + i) as nat);
    let audio = Seq::new(8, |i: int| (6 + i) as nat);
    assert(graph.made =~= video_factories() + audio_factories());
    assert(graph.links =~= chain(video) + chain(audio));
    assert(graph.added =~= video.to_set().union(audio.to_set()));
    assert forall|element: nat| #[trigger] graph.added.contains(element) <==> element < 14 by {
        if element < 6 {
            assert(video[element as int] == element);
        } else if element < 14 {
            assert(audio[element - 6] == element);
        }
    }
    assert(graph.settings =~= video_settings(0) + audio_settings(6) + setup_settings(app));
}

/// The properties of a source are set on its own elements, the first and, for the encoder of the
/// video, the fourth, whatever stands in the pipeline before it.
pub proof fn law_sources_set_their_own_properties(graph: Graph)
    requires
        sound(graph),
    ensures
        ({
            let first = graph.made.len();
            let video = built(graph, video_source(first), video_source(first).len())->0;
            let audio = built(graph, audio_source(first), audio_source(first).len())->0;
            &&& video.made[first as int] == "videotestsrc"@
            &&& video.made[(first + 3) as int] == "vp8enc"@
            &&& video.settings == graph.settings + seq![
                (TargetView::Element(first), "pattern"@, Setting::Text("ball"@)),
                (
                    TargetView::Element(first),
                    "is-live"@,
                    Setting::Value(PropertyValue::Bool(true)),
                ),
                (
                    TargetView::Element(first + 3),
                    "deadline"@,
                    Setting::Value(PropertyValue::Int64(1)),
                ),
            ]
            &&& audio.made[first as int] == "audiotestsrc"@
            &&& audio.settings == graph.settings + seq![
                (TargetView::Element(first), "wave"@, Setting::Text("red-noise"@)),
                (
                    TargetView::Element(first),
                    "is-live"@,
                    Setting::Value(PropertyValue::Bool(true)),
                ),
            ]
            &&& video.outputs == graph.outputs.push(
                (
                    first + 5,
                    CapsView {
                        name: "application/x-rtp"@,
                        media: "video"@,
                        encoding_name: "VP8"@,
                        payload: 96,
                    },
                ),
            )
            &&& audio.outputs == graph.outputs.push(
                (
                    first + 7,
                    CapsView {
                        name: "application/x-rtp"@,
                        media: "audio"@,
                        encoding_name: "OPUS"@,
                        payload: 97,
                    },
                ),
            )
            &&& video.others == graph.others
            &&& audio.others == graph.others
        }),
{
    law_video_source_is_a_chain(graph);
    law_audio_source_is_a_chain(graph);
}

/// What the failure of a call means for a branch of the pipeline: without an element, its pad or a
/// connection the program cannot go on; what cannot be linked or brought to the state of the
/// pipeline is an error of the branch; and there is nothing to go wrong about properties that are
/// set from text, nor about starting in the background.
pub open spec fn failure_means(call: CallView) -> OnFailure {
    match call {
        CallView::Link { .. } | CallView::LinkFiltered { .. } | CallView::SyncState { .. } => {
            OnFailure::Return
        },
        CallView::NewPipeline { .. }
        | CallView::SetPropertyFromText { .. }
        | CallView::ConnectPadAdded { .. }
        | CallView::StartPlaying => OnFailure::Ignore,
        _ => OnFailure::Abort,
    }
}

/// What a failure means depends on the call alone, in every branch of the pipeline; only a decoded
/// stream that cannot be linked to its sink is an error of the branch.
pub proof fn law_failures_of_branches(app: AppView, prefix: Seq<char>, first: nat, i: int)
    ensures
        0 <= i < pipeline_setup(app).len() ==> pipeline_setup(app)[i].on_failure == failure_means(
            pipeline_setup(app)[i].call,
        ),
        0 <= i < construction(prefix).len() ==> construction(prefix)[i].on_failure
            == failure_means(construction(prefix)[i].call),
        0 <= i < video_source(first).len() ==> video_source(first)[i].on_failure == failure_means(
            video_source(first)[i].call,
        ),
        0 <= i < audio_source(first).len() ==> audio_source(first)[i].on_failure == failure_means(
            audio_source(first)[i].call,
        ),
        0 <= i < decoder().len() ==> decoder()[i].on_failure == failure_means(decoder()[i].call),
        forall|media_type: MediaType|
            0 <= i < media_sink(media_type).len() ==> (#[trigger] media_sink(
                media_type,
            )[i]).on_failure == (if media_sink(media_type)[i].call is LinkStream {
                OnFailure::Return
            } else {
                failure_means(media_sink(media_type)[i].call)
            }),
{
    let setup = pipeline_setup(app);
    let offset: int = if app.peer_id is Some {
        3
    } else {
        2
    };
    if offset <= i < offset + 12 {
        assert(setup[i] == video_source(0)[i - offset]);
    } else if offset + 12 <= i < offset + 25 {
        assert(setup[i] == audio_source(6)[i - offset - 12]);
    }
}

/// The program cannot go on without a step that makes an element, puts it into the pipeline, sets
/// a property of it, looks up its pad, connects to a signal or emits one; a failure to link or to
/// follow the state of the pipeline is returned, but for the link of an incoming stream to its
/// decoder; and nobody looks at a failure of the rest.
pub proof fn law_failures_one_by_one(app: AppView, first: nat, media_type: MediaType, i: int)
    ensures
        0 <= i < pipeline_setup(app).len() ==> match pipeline_setup(app)[i].call {
            CallView::Make { .. }
            | CallView::Add { .. }
            | CallView::SetProperty { .. }
            | CallView::Connect { .. }
            | CallView::Emit { .. } => pipeline_setup(app)[i].on_failure == OnFailure::Abort,
            CallView::Link { .. } | CallView::LinkFiltered { .. } => {
                pipeline_setup(app)[i].on_failure == OnFailure::Return
            },
            CallView::SetPropertyFromText { .. }
            | CallView::ConnectPadAdded { .. }
            | CallView::StartPlaying => pipeline_setup(app)[i].on_failure == OnFailure::Ignore,
            _ => false,
        },
        0 <= i < video_source(first).len() ==> match video_source(first)[i].call {
            CallView::Make { .. } | CallView::Add { .. } | CallView::SetProperty { .. } => {
                video_source(first)[i].on_failure == OnFailure::Abort
            },
            CallView::Link { .. } | CallView::LinkFiltered { .. } => {
                video_source(first)[i].on_failure == OnFailure::Return
            },
            CallView::SetPropertyFromText { .. } => {
                video_source(first)[i].on_failure == OnFailure::Ignore
            },
            _ => false,
        },
        0 <= i < audio_source(first).len() ==> match audio_source(first)[i].call {
            CallView::Make { .. } | CallView::Add { .. } | CallView::SetProperty { .. } => {
                audio_source(first)[i].on_failure == OnFailure::Abort
            },
            CallView::Link { .. } | CallView::LinkFiltered { .. } => {
                audio_source(first)[i].on_failure == OnFailure::Return
            },
            CallView::SetPropertyFromText { .. } => {
                audio_source(first)[i].on_failure == OnFailure::Ignore
            },
            _ => false,
        },
        0 <= i < media_sink(media_type).len() ==> match media_sink(media_type)[i].call {
            CallView::Make { .. } | CallView::Add { .. } | CallView::StaticPad { .. } => {
                media_sink(media_type)[i].on_failure == OnFailure::Abort
            },
            CallView::Link { .. } | CallView::SyncState { .. } | CallView::LinkStream => {
                media_sink(media_type)[i].on_failure == OnFailure::Return
            },
            _ => false,
        },
        0 <= i < decoder().len() ==> match decoder()[i].call {
            CallView::Make { .. }
            | CallView::Add { .. }
            | CallView::StaticPad { .. }
            | CallView::LinkStream => decoder()[i].on_failure == OnFailure::Abort,
            CallView::SyncState { .. } => decoder()[i].on_failure == OnFailure::Return,
            CallView::ConnectPadAdded { .. } => decoder()[i].on_failure == OnFailure::Ignore,
            _ => false,
        },
{
    let setup = pipeline_setup(app);
    let offset: int = if app.peer_id is Some {
        3
    } else {
        2
    };
    if offset <= i < offset + 12 {
        assert(setup[i] == video_source(0)[i - offset]);
    } else if offset + 12 <= i < offset + 25 {
        assert(setup[i] == audio_source(6)[i - offset - 12]);
    }
}

} // verus!
