use webrtc_sendrecv::app::flow::{Flow, Then};
use webrtc_sendrecv::app::{App, Occasion};
use webrtc_sendrecv::error::{AppError, GStreamerError, PeerError};
use webrtc_sendrecv::media::plan::{Plan, Verdict};
use webrtc_sendrecv::media::step::{
    Argument, Call, OnFailure, PadReaction, PropertyValue, Reaction, SdpType, Step, Target,
};
use webrtc_sendrecv::media::webrtcbin::{
    PromiseOutcome, PromiseResult, ReplyField, ReplyValue, SignalValue,
};
use webrtc_sendrecv::message::{CloseFrame, PipelineMessage, WsMessage};
use webrtc_sendrecv::server::prepare;
use webrtc_sendrecv::wire::JsonMsg;

fn app(peer_id: Option<&str>, rtx: bool) -> App {
    prepare(peer_id.map(String::from), rtx).0
}

fn text(text: &str) -> WsMessage {
    WsMessage::Text(text.to_string())
}

fn done(flow: Flow) -> Result<Option<WsMessage>, AppError> {
    match flow {
        Flow::Done(result) => result,
        _ => panic!("the message should have been handled at once"),
    }
}

/// Performs the steps of a flow, all of them successfully; returns the calls made.
fn perform(app: &App, flow: Flow) -> (Vec<Call>, Flow) {
    let mut calls = Vec::new();
    let mut flow = flow;
    loop {
        match flow {
            Flow::Perform(plan, then) => {
                flow = resume(app, plan, then, Ok(()), &mut calls);
            }
            end => return (calls, end),
        }
    }
}

fn resume(
    app: &App,
    plan: Plan,
    then: Then,
    result: Result<(), String>,
    calls: &mut Vec<Call>,
) -> Flow {
    calls.push(copy(&plan.current().call));
    app.resume(plan, then, result)
}

/// A copy of the calls that the tests look at closely; the others by a stand-in.
fn copy(call: &Call) -> Call {
    match call {
        Call::Make { factory, name } => Call::Make {
            factory: factory.clone(),
            name: name.clone(),
        },
        Call::Connect { signal, reaction } => Call::Connect {
            signal: signal.clone(),
            reaction: *reaction,
        },
        Call::ConnectPadAdded {
            target,
            pad_reaction,
        } => Call::ConnectPadAdded {
            target: *target,
            pad_reaction: *pad_reaction,
        },
        Call::SetProperty {
            target,
            property,
            value,
        } => Call::SetProperty {
            target: *target,
            property: property.clone(),
            value: *value,
        },
        Call::Send {
            message: WsMessage::Text(text),
        } => Call::Send {
            message: WsMessage::Text(text.clone()),
        },
        Call::Emit { signal, arguments } => Call::Emit {
            signal: signal.clone(),
            arguments: arguments
                .iter()
                .map(|argument| match argument {
                    Argument::Description { type_, sdp } => Argument::Description {
                        type_: *type_,
                        sdp: sdp.clone(),
                    },
                    Argument::Text(text) => Argument::Text(text.clone()),
                    Argument::Unsigned(n) => Argument::Unsigned(*n),
                    Argument::Signed(n) => Argument::Signed(*n),
                    Argument::Promise => Argument::Promise,
                    Argument::NoPromise => Argument::NoPromise,
                    Argument::NoStructure => Argument::NoStructure,
                    Argument::CreatedOffer => Argument::CreatedOffer,
                })
                .collect(),
        },
        Call::StartPlaying => Call::StartPlaying,
        _ => Call::LinkStream,
    }
}

fn description(signal: &str, type_: SdpType, sdp: &str) -> Call {
    Call::Emit {
        signal: signal.to_string(),
        arguments: vec![
            Argument::Description {
                type_,
                sdp: sdp.to_string(),
            },
            Argument::Promise,
        ],
    }
}

fn replied(field: &str, sdp: &str) -> PromiseOutcome {
    PromiseOutcome {
        result: PromiseResult::Replied,
        reply: Some(vec![ReplyField {
            name: field.to_string(),
            value: ReplyValue::Description {
                text: Some(sdp.to_string()),
            },
        }]),
    }
}

fn sdp_msg(type_: &str, sdp: &str) -> Result<JsonMsg, String> {
    Ok(JsonMsg::Sdp {
        type_: type_.to_string(),
        sdp: sdp.to_string(),
    })
}

#[test]
fn protocol_messages_are_answered() {
    let app = app(None, false);
    assert_eq!(
        done(app.handle_websocket_message(WsMessage::Ping(vec![1, 2, 3]))),
        Ok(Some(WsMessage::Pong(vec![1, 2, 3])))
    );
    assert_eq!(
        done(app.handle_websocket_message(WsMessage::Close(None))),
        Ok(Some(WsMessage::Close(None)))
    );
    let frame = CloseFrame {
        code: 1000,
        reason: "bye".to_string(),
    };
    assert_eq!(
        done(app.handle_websocket_message(WsMessage::Close(Some(frame)))),
        Ok(Some(WsMessage::Close(None)))
    );
    assert_eq!(
        done(app.handle_websocket_message(WsMessage::Binary(vec![0]))),
        Ok(None)
    );
    assert_eq!(
        done(app.handle_websocket_message(WsMessage::Pong(vec![0]))),
        Ok(None)
    );
}

#[test]
fn the_greeting_leads_to_a_call() {
    assert_eq!(
        done(app(Some("1234"), false).handle_websocket_message(text("HELLO"))),
        Ok(Some(text("SESSION 1234")))
    );
    assert_eq!(
        done(app(None, false).handle_websocket_message(text("HELLO"))),
        Ok(None)
    );
}

#[test]
fn errors_of_the_server_are_returned_whole() {
    for report in vec!["ERROR", "ERROR peer 17 not found", "ERRORS"] {
        assert_eq!(
            done(app(None, false).handle_websocket_message(text(report))),
            Err(AppError::Peer(PeerError(report.to_string())))
        );
    }
}

#[test]
fn other_texts_are_to_be_parsed() {
    for other in vec!["hello", "HELLO ", "SESSION_OK?", "SESSION", "", "{}", "ERR"] {
        match app(None, false).handle_websocket_message(text(other)) {
            Flow::ParseJson(to_parse) => assert_eq!(to_parse, other),
            _ => panic!("the text is no word of the server"),
        }
    }
}

#[test]
fn messages_of_a_peer_are_parsed() {
    let sender = app(Some("1"), false);
    let steps = vec![
        sender.send_sdp_offer("v=0".to_string()),
        sender.send_sdp_answer("v=0".to_string()),
        sender.send_ice_candidate_message(0, "candidate:1".to_string()),
    ];
    for step in steps {
        assert_eq!(step.on_failure, OnFailure::Return);
        let message = match step.call {
            Call::Send { message } => message,
            _ => panic!("a message should be sent"),
        };
        assert!(matches!(
            app(None, false).handle_websocket_message(message),
            Flow::ParseJson(_)
        ));
    }
}

#[test]
fn text_that_is_no_json_is_an_error() {
    assert_eq!(
        done(app(None, false).on_json(Err("expected value".to_string()))),
        Err(AppError::Json("expected value".to_string()))
    );
}

#[test]
fn unknown_types_of_descriptions_are_refused() {
    for (type_, error) in vec![
        ("pranswer", "Sdp type is not \"answer\" but \"pranswer\""),
        ("Offer", "Sdp type is not \"answer\" but \"Offer\""),
        ("", "Sdp type is not \"answer\" but \"\""),
    ] {
        assert_eq!(
            done(app(None, true).on_json(sdp_msg(type_, "v=0"))),
            Err(AppError::Peer(PeerError(error.to_string())))
        );
    }
}

#[test]
fn an_answer_is_applied() {
    let app = app(Some("1"), false);
    let (calls, end) = perform(&app, app.on_json(sdp_msg("answer", "v=0")));
    assert_eq!(
        calls,
        vec![description("set-remote-description", SdpType::Answer, "v=0")]
    );
    assert_eq!(done(end), Ok(None));
}

#[test]
fn a_candidate_is_added() {
    let app = app(None, false);
    let parsed = Ok(JsonMsg::Ice {
        candidate: "candidate:1".to_string(),
        sdp_mline_index: 1,
    });
    let (calls, end) = perform(&app, app.on_json(parsed));
    assert_eq!(
        calls,
        vec![Call::Emit {
            signal: "add-ice-candidate".to_string(),
            arguments: vec![Argument::Unsigned(1), Argument::Text("candidate:1".to_string())],
        }]
    );
    assert_eq!(done(end), Ok(None));
}

#[test]
fn an_offer_is_answered() {
    let app = app(None, false);
    let (calls, end) = perform(&app, app.on_json(sdp_msg("offer", "v=0")));
    assert_eq!(calls.len(), 2 + 12 + 13 + 1 + 1);
    assert_eq!(calls[calls.len() - 2], Call::StartPlaying);
    assert_eq!(
        calls[calls.len() - 1],
        description("set-remote-description", SdpType::Offer, "v=0")
    );
    match end {
        Flow::CreateAnswer(step) => assert_eq!(
            step,
            Step {
                call: Call::Emit {
                    signal: "create-answer".to_string(),
                    arguments: vec![Argument::NoStructure, Argument::Promise],
                },
                on_failure: OnFailure::Abort,
            }
        ),
        _ => panic!("an answer should be asked for"),
    }
    let (calls, end) = perform(&app, app.on_answer_created("v=1".to_string()));
    assert_eq!(
        calls,
        vec![
            description("set-local-description", SdpType::Answer, "v=1"),
            Call::Send {
                message: text("{\"sdp\":{\"type\":\"answer\",\"sdp\":\"v=1\"}}"),
            },
        ]
    );
    assert_eq!(done(end), Ok(None));
}

#[test]
fn a_promised_answer_is_taken() {
    let app = app(None, false);
    let (calls, end) = perform(&app, app.on_answer_promise(Some(replied("answer", "v=1"))));
    assert_eq!(
        calls,
        vec![
            description("set-local-description", SdpType::Answer, "v=1"),
            Call::Send {
                message: text("{\"sdp\":{\"type\":\"answer\",\"sdp\":\"v=1\"}}"),
            },
        ]
    );
    assert_eq!(done(end), Ok(None));
}

#[test]
fn a_missing_answer_aborts() {
    let missing = vec![
        (None, "Canceled"),
        (Some(replied("offer", "v=0")), "No `answer` field in reply"),
        (
            Some(PromiseOutcome {
                result: PromiseResult::Expired,
                reply: None,
            }),
            "Unresolved promise",
        ),
    ];
    for (outcome, reason) in missing {
        match app(None, false).on_answer_promise(outcome) {
            Flow::Abort(text) => assert_eq!(text, reason),
            _ => panic!("the program cannot go on"),
        }
    }
}

#[test]
fn a_candidate_that_cannot_be_added_aborts() {
    let app = app(None, false);
    let flow = app.handle_ice(0, "candidate:1");
    match flow {
        Flow::Perform(plan, then) => {
            assert_eq!(plan.current().on_failure, OnFailure::Abort);
            match app.resume(plan, then, Err("no such signal".to_string())) {
                Flow::Abort(reason) => assert_eq!(reason, "no such signal"),
                _ => panic!("the program cannot go on"),
            }
        }
        _ => panic!("the candidate is to be added"),
    }
}

#[test]
fn an_answer_that_cannot_be_sent_is_no_failure() {
    let app = app(None, false);
    let mut calls = Vec::new();
    let mut flow = app.on_answer_created("v=1".to_string());
    for result in vec![Ok(()), Err("closed".to_string())] {
        flow = match flow {
            Flow::Perform(plan, then) => resume(&app, plan, then, result, &mut calls),
            _ => panic!("there are steps left"),
        };
    }
    assert_eq!(done(flow), Ok(None));
}

#[test]
fn a_session_starts_playing() {
    let app = app(Some("1"), true);
    let (calls, end) = perform(&app, app.handle_websocket_message(text("SESSION_OK")));
    assert_eq!(calls.len(), 3 + 12 + 13 + 2 + 1);
    assert_eq!(
        calls[0],
        Call::Connect {
            signal: "on-negotiation-needed".to_string(),
            reaction: Reaction::Negotiate,
        }
    );
    assert_eq!(
        calls[1],
        Call::Connect {
            signal: "on-ice-candidate".to_string(),
            reaction: Reaction::SendCandidate,
        }
    );
    assert_eq!(
        calls[2],
        Call::ConnectPadAdded {
            target: Target::WebRtcBin,
            pad_reaction: PadReaction::HandleStream,
        }
    );
    assert_eq!(
        calls[28],
        Call::Emit {
            signal: "get-transceiver".to_string(),
            arguments: vec![Argument::Signed(0)],
        }
    );
    assert_eq!(
        calls[29],
        Call::SetProperty {
            target: Target::Transceiver,
            property: "do-nack".to_string(),
            value: PropertyValue::Bool(true),
        }
    );
    assert_eq!(calls[30], Call::StartPlaying);
    assert_eq!(done(end), Ok(None));
}

#[test]
fn negotiation_and_retransmission_are_optional() {
    for (peer_id, rtx) in vec![
        (None, false),
        (None, true),
        (Some("1"), false),
        (Some("1"), true),
    ] {
        let calls: Vec<Call> = app(peer_id, rtx)
            .setup_pipeline()
            .into_iter()
            .map(|step| step.call)
            .collect();
        let negotiates = calls.iter().any(|call| match call {
            Call::Connect { signal, .. } => signal == "on-negotiation-needed",
            _ => false,
        });
        let retransmits = calls.iter().any(|call| match call {
            Call::SetProperty { property, .. } => property == "do-nack",
            _ => false,
        });
        assert_eq!(negotiates, peer_id.is_some());
        assert_eq!(retransmits, rtx);
    }
}

#[test]
fn a_failed_setup_ends_the_session() {
    let app = app(None, false);
    let mut calls = Vec::new();
    let mut flow = app.handle_session_ok();
    loop {
        match flow {
            Flow::Perform(plan, then) => {
                let result = match &plan.current().call {
                    Call::LinkFiltered { .. } => Err("not linked".to_string()),
                    _ => Ok(()),
                };
                flow = resume(&app, plan, then, result, &mut calls);
            }
            end => {
                assert_eq!(done(end), Err(AppError::Media("not linked".to_string())));
                break;
            }
        }
    }
    assert_eq!(calls.len(), 2 + 12);
    assert!(!calls.contains(&Call::StartPlaying));
}

#[test]
fn a_missing_element_aborts() {
    let app = app(None, false);
    let mut calls = Vec::new();
    let mut flow = app.handle_session_ok();
    for result in vec![Ok(()), Ok(()), Err("no videotestsrc".to_string())] {
        flow = match flow {
            Flow::Perform(plan, then) => resume(&app, plan, then, result, &mut calls),
            _ => panic!("there are steps left"),
        };
    }
    match flow {
        Flow::Abort(reason) => assert_eq!(reason, "no videotestsrc"),
        _ => panic!("the program cannot go on"),
    }
}

#[test]
fn an_offer_of_ours_is_applied_and_sent() {
    let app = app(Some("1"), false);
    assert_eq!(
        app.on_negotiation_needed().call,
        Call::Emit {
            signal: "create-offer".to_string(),
            arguments: vec![Argument::NoStructure, Argument::Promise],
        }
    );
    let promise = replied("offer", "v=0");
    let mut verdict = app.on_offer_created(&promise);
    let mut calls = Vec::new();
    loop {
        match verdict {
            Verdict::Continue(plan) => {
                calls.push(copy(&plan.current().call));
                verdict = plan.advance(Ok(()));
            }
            end => {
                assert!(matches!(end, Verdict::Complete));
                break;
            }
        }
    }
    assert_eq!(
        calls,
        vec![
            Call::Emit {
                signal: "set-local-description".to_string(),
                arguments: vec![Argument::CreatedOffer, Argument::NoPromise],
            },
            Call::Send {
                message: text("{\"sdp\":{\"type\":\"offer\",\"sdp\":\"v=0\"}}"),
            },
        ]
    );
}

#[test]
fn an_offer_without_reply_is_an_error() {
    let promise = PromiseOutcome {
        result: PromiseResult::Interrupted,
        reply: None,
    };
    match app(Some("1"), false).on_offer_created(&promise) {
        Verdict::Failed(error) => assert_eq!(
            error,
            AppError::GStreamer(GStreamerError(
                "Offer creation future got no reponse: Interrupted".to_string()
            ))
        ),
        _ => panic!("there is no offer"),
    }
}

#[test]
fn candidates_of_ours_are_sent() {
    let values = vec![
        SignalValue::Element,
        SignalValue::Unsigned(0),
        SignalValue::Text("candidate:1".to_string()),
    ];
    assert_eq!(
        app(None, false).on_ice_candidate(&values),
        Step {
            call: Call::Send {
                message: text(
                    "{\"ice\":{\"candidate\":\"candidate:1\",\"sdpMLineIndex\":0}}"
                ),
            },
            on_failure: OnFailure::Return,
        }
    );
}

#[test]
fn failures_that_nobody_waits_for_are_posted() {
    let occasions = vec![
        (Occasion::DecodedStream, "Failed to handle decoded stream: why"),
        (Occasion::IncomingStream, "Failed to handle incoming stream: why"),
        (Occasion::SdpOffer, "Failed to send SDP offer: why"),
        (Occasion::IceCandidate, "Failed to send ICE candidate: why"),
        (Occasion::Playing, "Failed to set pipeline to Playing: why"),
    ];
    for (occasion, report) in occasions {
        assert_eq!(
            app(None, false).report_failure(occasion, "why"),
            Step {
                call: Call::PostError {
                    text: report.to_string(),
                },
                on_failure: OnFailure::Ignore,
            }
        );
    }
}

#[test]
fn errors_of_the_pipeline_are_described() {
    let app = app(None, false);
    assert_eq!(
        app.handle_pipeline_message(PipelineMessage::Error {
            src: Some("/GstPipeline:p".to_string()),
            error: "Internal data stream error".to_string(),
            debug: Some("gstbasesrc.c(2950)".to_string()),
        }),
        Err(AppError::GStreamer(GStreamerError(
            "Error from element /GstPipeline:p: Internal data stream error (gstbasesrc.c(2950))"
                .to_string()
        )))
    );
    assert_eq!(
        app.handle_pipeline_message(PipelineMessage::Error {
            src: None,
            error: "e".to_string(),
            debug: None,
        }),
        Err(AppError::GStreamer(GStreamerError(
            "Error from element None: e (None)".to_string()
        )))
    );
    assert_eq!(
        app.handle_pipeline_message(PipelineMessage::Warning {
            debug: Some("w".to_string()),
        }),
        Ok(None)
    );
    assert_eq!(app.handle_pipeline_message(PipelineMessage::Other), Ok(None));
}

fn registered(step: Step) -> u32 {
    assert_eq!(step.on_failure, OnFailure::Abort);
    match step.call {
        Call::Send {
            message: WsMessage::Text(text),
        } => text.strip_prefix("HELLO ").unwrap().parse().unwrap(),
        _ => panic!("a text should be sent"),
    }
}

#[test]
fn clones_share_the_state() {
    let app = app(Some("7"), true);
    let clone = app.clone();
    assert!(std::sync::Arc::ptr_eq(&app.0, &clone.0));
    assert_eq!(clone.0.peer_id, Some("7".to_string()));
}

#[test]
fn registration_is_under_a_random_number() {
    let app = app(None, false);
    let ids: Vec<u32> = (0..200)
        .map(|_| registered(app.register_with_server()))
        .collect();
    assert!(ids.iter().all(|id| 10 <= *id && *id < 10_000));
    assert!(ids.iter().any(|id| *id != ids[0]));
}

#[test]
fn registration_names_the_number() {
    let app = app(None, false);
    assert_eq!(registered(app.register_as(10)), 10);
    assert_eq!(registered(app.register_as(9999)), 9999);
    assert_ne!(app.register_as(11), app.register_as(111));
    assert_eq!(
        app.register_as(4711).call,
        Call::Send {
            message: text("HELLO 4711"),
        }
    );
}
