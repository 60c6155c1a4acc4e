use webrtc_sendrecv::app::branches::{rtp_caps_opus, rtp_caps_vp8, stream_type_of, MediaType};
use webrtc_sendrecv::app::App;
use webrtc_sendrecv::media::plan::Verdict;
use webrtc_sendrecv::media::step::{Call, Caps, OnFailure, PropertyValue, Step, Target};
use webrtc_sendrecv::media::webrtcbin::{Pad, PadDirection};
use webrtc_sendrecv::server::prepare;

fn app() -> App {
    prepare(None, false).0
}

/// A pipeline that steps are tried on.
#[derive(Debug, Default, PartialEq)]
struct Graph {
    made: Vec<String>,
    added: Vec<usize>,
    links: Vec<(usize, usize)>,
    outputs: Vec<(usize, String)>,
    synced: Vec<usize>,
    inputs: Vec<usize>,
}

fn build(steps: &Vec<Step>) -> Graph {
    let mut graph = Graph::default();
    let mut pad_of = None;
    for step in steps {
        match &step.call {
            Call::Make { factory, .. } => graph.made.push(factory.clone()),
            Call::Add { elements } => {
                for element in elements {
                    assert!(*element < graph.made.len());
                    assert!(!graph.added.contains(element));
                    graph.added.push(*element);
                }
            }
            Call::Link { elements } => {
                for pair in elements.windows(2) {
                    assert!(graph.added.contains(&pair[0]) && graph.added.contains(&pair[1]));
                    graph.links.push((pair[0], pair[1]));
                }
            }
            Call::LinkFiltered { element, caps } => {
                assert!(graph.added.contains(element));
                graph.outputs.push((*element, caps.encoding_name.clone()));
            }
            Call::SyncState { element } => {
                assert!(graph.added.contains(element));
                graph.synced.push(*element);
            }
            Call::StaticPad { element, pad } => {
                assert_eq!(pad, "sink");
                pad_of = Some(*element);
            }
            Call::LinkStream => graph.inputs.push(pad_of.unwrap()),
            Call::SetProperty {
                target: Target::Element(element),
                ..
            } => assert!(*element < graph.made.len()),
            _ => {}
        }
    }
    graph
}

fn strings(texts: &[&str]) -> Vec<String> {
    texts.iter().map(|text| text.to_string()).collect()
}

/// The steps of a plan, in order.
fn steps_of(verdict: Verdict) -> Vec<(String, OnFailure)> {
    let mut steps = Vec::new();
    let mut verdict = verdict;
    loop {
        match verdict {
            Verdict::Continue(plan) => {
                let step = plan.current();
                steps.push((format!("{:?}", step.call), step.on_failure));
                verdict = plan.advance(Ok(()));
            }
            _ => return steps,
        }
    }
}

#[test]
fn the_video_source_is_a_chain() {
    let steps = app().add_video_source(0);
    let graph = build(&steps);
    assert_eq!(
        graph.made,
        strings(&["videotestsrc", "videoconvert", "queue", "vp8enc", "rtpvp8pay", "queue"])
    );
    assert_eq!(graph.links, vec![(0, 1), (1, 2), (2, 3), (3, 4), (4, 5)]);
    assert_eq!(graph.outputs, vec![(5, "VP8".to_string())]);
    assert!(steps.contains(&Step::set_text(Target::Element(0), "pattern", "ball")));
    assert!(steps.contains(&Step::set(
        Target::Element(0),
        "is-live",
        PropertyValue::Bool(true)
    )));
    assert!(steps.contains(&Step::set(
        Target::Element(3),
        "deadline",
        PropertyValue::Int64(1)
    )));
    assert_eq!(steps.len(), 12);
}

#[test]
fn the_audio_source_is_a_chain() {
    let steps = app().add_audio_source(0);
    let graph = build(&steps);
    assert_eq!(
        graph.made,
        strings(&[
            "audiotestsrc",
            "queue",
            "audioconvert",
            "audioresample",
            "queue",
            "opusenc",
            "rtpopuspay",
            "queue"
        ])
    );
    assert_eq!(
        graph.links,
        vec![(0, 1), (1, 2), (2, 3), (3, 4), (4, 5), (5, 6), (6, 7)]
    );
    assert_eq!(graph.outputs, vec![(7, "OPUS".to_string())]);
    assert!(steps.contains(&Step::set_text(Target::Element(0), "wave", "red-noise")));
    assert_eq!(steps.len(), 13);
}

#[test]
fn a_finished_pipeline_holds_both_sources() {
    let graph = build(&prepare(Some("1".to_string()), true).0.setup_pipeline());
    assert_eq!(graph.made.len(), 14);
    assert_eq!(graph.made[0], "videotestsrc");
    assert_eq!(graph.made[6], "audiotestsrc");
    assert_eq!(graph.links.len(), 5 + 7);
    assert_eq!(graph.links[5], (6, 7));
    assert_eq!(
        graph.outputs,
        vec![(5, "VP8".to_string()), (13, "OPUS".to_string())]
    );
}

#[test]
fn decoded_streams_end_in_sinks() {
    let audio = build(&app().handle_media_stream(MediaType::Audio));
    assert_eq!(
        audio,
        Graph {
            made: strings(&["queue", "audioconvert", "autoaudiosink", "audioresample"]),
            added: vec![0, 1, 3, 2],
            links: vec![(0, 1), (1, 3), (3, 2)],
            outputs: vec![],
            synced: vec![3, 0, 1, 2],
            inputs: vec![0],
        }
    );
    let video = build(&app().handle_media_stream(MediaType::Video));
    assert_eq!(
        video,
        Graph {
            made: strings(&["queue", "videoconvert", "autovideosink"]),
            added: vec![0, 1, 2],
            links: vec![(0, 1), (1, 2)],
            outputs: vec![],
            synced: vec![0, 1, 2],
            inputs: vec![0],
        }
    );
}

#[test]
fn streams_are_told_apart_by_their_capabilities() {
    let lengths = vec![
        ("video/x-raw", 10),
        ("video/", 10),
        ("audio/x-raw", 12),
        ("application/x-rtp", 0),
        ("video", 0),
        ("Audio/x-raw", 0),
    ];
    for (caps_name, length) in lengths {
        let pad = Pad {
            direction: PadDirection::Src,
            caps_name: Some(caps_name.to_string()),
        };
        let kind = stream_type_of(caps_name);
        assert_eq!(
            kind,
            match length {
                10 => Some(MediaType::Video),
                12 => Some(MediaType::Audio),
                _ => None,
            }
        );
        let steps = steps_of(app().on_incoming_decodebin_stream(&pad));
        assert_eq!(steps.len(), length);
    }
}

#[test]
fn only_streams_of_the_peer_are_decoded() {
    for direction in vec![PadDirection::Sink, PadDirection::Unknown] {
        let pad = Pad {
            direction,
            caps_name: None,
        };
        assert!(matches!(app().on_incoming_stream(&pad), Verdict::Complete));
    }
    let pad = Pad {
        direction: PadDirection::Src,
        caps_name: None,
    };
    let steps = steps_of(app().on_incoming_stream(&pad));
    let failures: Vec<OnFailure> = steps.iter().map(|step| step.1).collect();
    assert_eq!(
        failures,
        vec![
            OnFailure::Abort,
            OnFailure::Ignore,
            OnFailure::Abort,
            OnFailure::Return,
            OnFailure::Abort,
            OnFailure::Abort,
        ]
    );
    assert!(steps[0].0.contains("decodebin"));
    assert_eq!(steps[5].0, "LinkStream");
}

#[test]
fn capabilities_name_the_codecs() {
    assert_eq!(
        rtp_caps_opus(),
        Caps {
            name: "application/x-rtp".to_string(),
            media: "audio".to_string(),
            encoding_name: "OPUS".to_string(),
            payload: 97,
        }
    );
    assert_eq!(
        rtp_caps_vp8(),
        Caps {
            name: "application/x-rtp".to_string(),
            media: "video".to_string(),
            encoding_name: "VP8".to_string(),
            payload: 96,
        }
    );
}
