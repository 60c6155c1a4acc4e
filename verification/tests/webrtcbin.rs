use std::borrow::Cow;
use webrtc_sendrecv::media::step::{
    Argument, Call, OnFailure, PipelineState, Reaction, SdpType, Step, Target,
};
use webrtc_sendrecv::media::webrtcbin::{
    announced_candidate, IceCandidate, PromiseOutcome, PromiseResult, ReplyField, ReplyValue,
    Returned, RtcBundlePolicy, Sdp, SignalValue, WebRtcBin, WebRtcBinEvent, WebRtcErr,
};
use webrtc_sendrecv::media::{enable_logs, DebugLevel};

fn bin(prefix: &str) -> WebRtcBin {
    WebRtcBin::new(prefix).0
}

fn emitted(signal: &str, arguments: Vec<Argument>) -> Step {
    Step {
        call: Call::Emit {
            signal: signal.to_string(),
            arguments,
        },
        on_failure: OnFailure::Abort,
    }
}

fn replied(fields: Vec<(&str, ReplyValue)>) -> Option<PromiseOutcome> {
    Some(PromiseOutcome {
        result: PromiseResult::Replied,
        reply: Some(
            fields
                .into_iter()
                .map(|(name, value)| ReplyField {
                    name: name.to_string(),
                    value,
                })
                .collect(),
        ),
    })
}

fn described(text: &str) -> ReplyValue {
    ReplyValue::Description {
        text: Some(text.to_string()),
    }
}

fn whatever<T>(text: &str) -> Result<T, WebRtcErr> {
    Err(WebRtcErr::Whatever(text.to_string()))
}

#[test]
fn set_stun_server() {
    let webrtcbin = bin("set_stun_server");

    let step = webrtcbin.set_stun_server("some_stun_server");

    let stun_server: String = match step.call {
        Call::SetPropertyFromText {
            target: Target::WebRtcBin,
            property,
            text,
        } => {
            assert_eq!(property, "stun-server");
            text
        }
        _ => panic!("the property should have been set"),
    };

    assert_eq!(stun_server, String::from("some_stun_server"));
}

#[test]
fn the_bundle_policy_is_set_by_its_name() {
    let names = vec![
        (RtcBundlePolicy::Balanced, "balanced"),
        (RtcBundlePolicy::MaxCompat, "max-compat"),
        (RtcBundlePolicy::MaxBundle, "max-bundle"),
    ];
    for (policy, name) in names {
        assert_eq!(policy.as_ref(), name);
        assert_eq!(
            bin("set_bundle_policy").set_bundle_policy(policy),
            Step {
                call: Call::SetPropertyFromText {
                    target: Target::WebRtcBin,
                    property: "bundle-policy".to_string(),
                    text: name.to_string(),
                },
                on_failure: OnFailure::Ignore,
            }
        );
    }
}

#[test]
fn a_new_pipeline_is_made_ready() {
    let (webrtcbin, steps) = WebRtcBin::new("left");
    assert_eq!(webrtcbin.pipeline, "left_pipeline");
    assert_eq!(webrtcbin.webrtcbin, "left_webrtcbin");
    let expected = vec![
        Step {
            call: Call::NewPipeline {
                pipeline: "left_pipeline".to_string(),
            },
            on_failure: OnFailure::Ignore,
        },
        Step {
            call: Call::Make {
                factory: "webrtcbin".to_string(),
                name: Some("left_webrtcbin".to_string()),
            },
            on_failure: OnFailure::Abort,
        },
        Step {
            call: Call::Add { elements: vec![0] },
            on_failure: OnFailure::Abort,
        },
        Step {
            call: Call::SetState {
                state: PipelineState::Ready,
            },
            on_failure: OnFailure::Abort,
        },
    ];
    assert_eq!(steps, expected);
    assert_eq!(
        webrtcbin.shut_down(),
        Step {
            call: Call::SetState {
                state: PipelineState::Null,
            },
            on_failure: OnFailure::Abort,
        }
    );
}

#[test]
fn signals_carry_their_arguments() {
    let webrtcbin = bin("signals");
    assert_eq!(
        webrtcbin.create_offer(),
        emitted("create-offer", vec![Argument::NoStructure, Argument::Promise])
    );
    assert_eq!(
        webrtcbin.create_answer(),
        emitted("create-answer", vec![Argument::NoStructure, Argument::Promise])
    );
    assert_eq!(
        webrtcbin.set_local_description(Sdp::Offer("v=0".to_string())),
        emitted(
            "set-local-description",
            vec![
                Argument::Description {
                    type_: SdpType::Offer,
                    sdp: "v=0".to_string(),
                },
                Argument::Promise,
            ]
        )
    );
    assert_eq!(
        webrtcbin.set_remote_description(Sdp::Answer("v=1".to_string())),
        emitted(
            "set-remote-description",
            vec![
                Argument::Description {
                    type_: SdpType::Answer,
                    sdp: "v=1".to_string(),
                },
                Argument::Promise,
            ]
        )
    );
    assert_eq!(
        webrtcbin.get_transceiver(-2),
        emitted("get-transceiver", vec![Argument::Signed(-2)])
    );
}

#[test]
fn candidates_are_added_borrowed_or_owned() {
    let expected = Step {
        call: Call::Emit {
            signal: "add-ice-candidate".to_string(),
            arguments: vec![Argument::Unsigned(4), Argument::Text("candidate:1".to_string())],
        },
        on_failure: OnFailure::Return,
    };
    assert_eq!(
        bin("ice").add_ice_candidate(IceCandidate {
            sdp_mline_index: 4,
            candidate: Cow::Borrowed("candidate:1"),
        }),
        expected
    );
    assert_eq!(
        bin("ice").add_ice_candidate(IceCandidate {
            sdp_mline_index: 4,
            candidate: Cow::Owned("candidate:1".to_string()),
        }),
        expected
    );
}

#[test]
fn descriptions_are_taken_out_of_promises() {
    let webrtcbin = bin("promises");
    assert_eq!(
        webrtcbin.offer_created(replied(vec![("offer", described("v=0"))])),
        Ok("v=0".to_string())
    );
    assert_eq!(
        webrtcbin.answer_created(replied(vec![
            ("offer", described("v=0")),
            ("answer", described("v=1")),
            ("answer", described("v=2")),
        ])),
        Ok("v=1".to_string())
    );
}

#[test]
fn every_fault_of_a_promise_has_its_error() {
    let webrtcbin = bin("faults");
    assert_eq!(webrtcbin.offer_created(None), Err(WebRtcErr::Canceled));
    assert_eq!(webrtcbin.answer_created(None), Err(WebRtcErr::Canceled));
    let unresolved = vec![
        PromiseResult::Pending,
        PromiseResult::Interrupted,
        PromiseResult::Expired,
        PromiseResult::Unknown(9),
    ];
    for result in unresolved {
        let outcome = PromiseOutcome {
            result,
            reply: Some(vec![]),
        };
        assert_eq!(webrtcbin.offer_created(Some(outcome)), whatever("Unresolved promise"));
    }
    let empty = PromiseOutcome {
        result: PromiseResult::Replied,
        reply: None,
    };
    assert_eq!(webrtcbin.answer_created(Some(empty)), whatever("No reply in reply"));
    assert_eq!(
        webrtcbin.offer_created(replied(vec![("answer", described("v=0"))])),
        whatever("No `offer` field in reply")
    );
    assert_eq!(
        webrtcbin.answer_created(replied(vec![])),
        whatever("No `answer` field in reply")
    );
    assert_eq!(
        webrtcbin.answer_created(replied(vec![("answer", ReplyValue::Other)])),
        whatever("Not `WebRTCSessionDescription`")
    );
    assert_eq!(
        webrtcbin.offer_created(replied(vec![("offer", ReplyValue::Description { text: None })])),
        whatever("SDP is not text")
    );
}

#[test]
fn results_of_promises_have_names() {
    assert_eq!(PromiseResult::Pending.to_text(), "Pending");
    assert_eq!(PromiseResult::Interrupted.to_text(), "Interrupted");
    assert_eq!(PromiseResult::Replied.to_text(), "Replied");
    assert_eq!(PromiseResult::Expired.to_text(), "Expired");
    assert_eq!(PromiseResult::Unknown(-7).to_text(), "__Unknown(-7)");
}

#[test]
fn a_transceiver_may_be_missing() {
    let webrtcbin = bin("transceivers");
    assert_eq!(
        webrtcbin.transceiver_found(Returned::Transceiver("first")),
        Some("first")
    );
    assert_eq!(webrtcbin.transceiver_found(Returned::<&str>::Nothing), None);
}

#[test]
fn a_subscriber_is_connected_to_each_signal_once() {
    let steps = bin("events").subscribe();
    let expected: Vec<Step> = vec!["on-negotiation-needed", "on-ice-candidate"]
        .into_iter()
        .map(|signal| Step {
            call: Call::Connect {
                signal: signal.to_string(),
                reaction: Reaction::Deliver,
            },
            on_failure: OnFailure::Abort,
        })
        .collect();
    assert_eq!(steps, expected);
    assert_eq!(bin("events").subscribe(), expected);
}

#[test]
fn signals_come_in_as_events() {
    let webrtcbin = bin("events");
    let values = vec![
        SignalValue::Element,
        SignalValue::Unsigned(1),
        SignalValue::Text("candidate:2".to_string()),
    ];
    match webrtcbin.event("on-ice-candidate", &values) {
        Some(WebRtcBinEvent::OnIceCandidate(ice)) => {
            assert_eq!(ice.sdp_mline_index, 1);
            assert_eq!(ice.candidate, "candidate:2");
        }
        _ => panic!("a candidate was announced"),
    }
    assert!(matches!(
        webrtcbin.event("on-negotiation-needed", &vec![SignalValue::Element]),
        Some(WebRtcBinEvent::OnNegotiationNeeded)
    ));
    for other in vec!["pad-added", "on-data-channel", "", "on-ice-candidates"] {
        assert!(webrtcbin.event(other, &values).is_none());
    }
    assert_eq!(announced_candidate(&values).sdp_mline_index, 1);
}

#[test]
fn events_keep_the_order_of_the_signals() {
    let webrtcbin = bin("order");
    let values = |n: u32| {
        vec![
            SignalValue::Element,
            SignalValue::Unsigned(n),
            SignalValue::Text("candidate".to_string()),
        ]
    };
    let emitted = vec![
        ("on-ice-candidate", 2),
        ("on-negotiation-needed", 0),
        ("pad-added", 0),
        ("on-ice-candidate", 1),
    ];
    let received: Vec<Option<u32>> = emitted
        .into_iter()
        .filter_map(|(signal, n)| webrtcbin.event(signal, &values(n)))
        .map(|event| match event {
            WebRtcBinEvent::OnIceCandidate(ice) => Some(ice.sdp_mline_index),
            _ => None,
        })
        .collect();
    assert_eq!(received, vec![Some(2), None, Some(1)]);
}

#[test]
fn errors_of_promises_have_descriptions() {
    assert_eq!(WebRtcErr::Canceled.into_text(), "Canceled");
    assert_eq!(
        WebRtcErr::Whatever("SDP is not text".to_string()).into_text(),
        "SDP is not text"
    );
}

#[test]
fn logs_are_coloured_and_detailed() {
    let settings = enable_logs();
    assert!(settings.colored);
    assert!(settings.active);
    assert_eq!(settings.default_threshold, DebugLevel::Debug);
}
