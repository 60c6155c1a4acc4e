use webrtc_sendrecv::app::reactions::{
    offer_response, pad_response, playing_response, signal_response, Response,
};
use webrtc_sendrecv::app::{App, Occasion};
use webrtc_sendrecv::error::{AppError, GStreamerError, WebSocketError};
use webrtc_sendrecv::media::step::{
    Argument, Call, OnFailure, PadReaction, PipelineState, Reaction, Step, Target,
};
use webrtc_sendrecv::media::webrtcbin::{
    Pad, PadDirection, PromiseOutcome, PromiseResult, ReplyField, ReplyValue, SignalValue,
};
use webrtc_sendrecv::message::WsMessage;
use webrtc_sendrecv::server::prepare;

fn app() -> App {
    prepare(Some("7".to_string()), false).0
}

fn offered(value: ReplyValue) -> Option<PromiseOutcome> {
    Some(PromiseOutcome {
        result: PromiseResult::Replied,
        reply: Some(vec![ReplyField {
            name: "offer".to_string(),
            value,
        }]),
    })
}

fn candidate() -> Vec<SignalValue> {
    vec![
        SignalValue::Element,
        SignalValue::Unsigned(3),
        SignalValue::Text("candidate:9".to_string()),
    ]
}

/// Performs the steps of a reaction with these results; returns the calls made.
fn perform(response: Response, results: Vec<Result<(), String>>) -> (Vec<String>, Response) {
    let mut calls = Vec::new();
    let mut response = response;
    for result in results {
        response = match response {
            Response::Perform(plan, occasion) => {
                calls.push(format!("{:?}", plan.current().call));
                app().go_on_reacting(plan, occasion, result)
            }
            _ => panic!("there are no steps left"),
        };
    }
    (calls, response)
}

fn shown(call: Call) -> String {
    format!("{:?}", call)
}

#[test]
fn negotiation_begins_with_an_offer() {
    match app().on_signal(Reaction::Negotiate, &vec![SignalValue::Element]) {
        Response::CreateOffer(step) => assert_eq!(
            step,
            Step {
                call: Call::Emit {
                    signal: "create-offer".to_string(),
                    arguments: vec![Argument::NoStructure, Argument::Promise],
                },
                on_failure: OnFailure::Abort,
            }
        ),
        _ => panic!("an offer should be asked for"),
    }
}

#[test]
fn the_offer_is_applied_and_sent() {
    let outcome = offered(ReplyValue::Description {
        text: Some("v=0".to_string()),
    });
    let (calls, end) = perform(app().on_offer_promise(outcome), vec![Ok(()), Ok(())]);
    assert_eq!(
        calls,
        vec![
            shown(Call::Emit {
                signal: "set-local-description".to_string(),
                arguments: vec![Argument::CreatedOffer, Argument::NoPromise],
            }),
            shown(Call::Send {
                message: WsMessage::Text(
                    "{\"sdp\":{\"type\":\"offer\",\"sdp\":\"v=0\"}}".to_string()
                ),
            }),
        ]
    );
    assert!(matches!(end, Response::Done));
}

#[test]
fn an_offer_that_cannot_be_sent_is_reported() {
    let outcome = offered(ReplyValue::Description {
        text: Some("v=0".to_string()),
    });
    let results = vec![Ok(()), Err("closed".to_string())];
    match perform(app().on_offer_promise(outcome), results).1 {
        Response::Report(occasion, error) => {
            assert_eq!(occasion, Occasion::SdpOffer);
            assert_eq!(error, AppError::WebSocket(WebSocketError::connection_closed()));
        }
        _ => panic!("the failure should be reported"),
    }
}

#[test]
fn a_promise_without_an_offer_is_dealt_with() {
    let interrupted = PromiseOutcome {
        result: PromiseResult::Interrupted,
        reply: None,
    };
    match app().on_offer_promise(Some(interrupted)) {
        Response::Report(occasion, error) => {
            assert_eq!(occasion, Occasion::SdpOffer);
            assert_eq!(
                error,
                AppError::GStreamer(GStreamerError(
                    "Offer creation future got no reponse: Interrupted".to_string()
                ))
            );
        }
        _ => panic!("the failure should be reported"),
    }
    assert!(matches!(app().on_offer_promise(None), Response::Done));
    match app().on_offer_promise(offered(ReplyValue::Other)) {
        Response::Abort(reason) => assert_eq!(reason, "Not `WebRTCSessionDescription`"),
        _ => panic!("there is no offer in the reply"),
    }
}

#[test]
fn candidates_go_to_the_peer() {
    let sent = shown(Call::Send {
        message: WsMessage::Text(
            "{\"ice\":{\"candidate\":\"candidate:9\",\"sdpMLineIndex\":3}}".to_string(),
        ),
    });
    let (calls, end) = perform(
        app().on_signal(Reaction::SendCandidate, &candidate()),
        vec![Ok(())],
    );
    assert_eq!(calls, vec![sent]);
    assert!(matches!(end, Response::Done));
    let failed = perform(
        app().on_signal(Reaction::SendCandidate, &candidate()),
        vec![Err("closed".to_string())],
    );
    match failed.1 {
        Response::Report(occasion, error) => {
            assert_eq!(occasion, Occasion::IceCandidate);
            assert_eq!(error, AppError::WebSocket(WebSocketError::connection_closed()));
        }
        _ => panic!("the failure should be reported"),
    }
}

#[test]
fn events_are_up_to_their_subscriber() {
    assert!(matches!(
        app().on_signal(Reaction::Deliver, &candidate()),
        Response::Done
    ));
}

#[test]
fn streams_of_the_peer_get_a_decoder() {
    let pad = Pad {
        direction: PadDirection::Src,
        caps_name: None,
    };
    let response = app().on_pad_added(PadReaction::HandleStream, &pad);
    let (calls, end) = perform(response, vec![Ok(()); 6]);
    assert_eq!(
        calls[1],
        shown(Call::ConnectPadAdded {
            target: Target::Element(0),
            pad_reaction: PadReaction::HandleDecodedStream,
        })
    );
    assert!(matches!(end, Response::Done));
    let response = app().on_pad_added(PadReaction::HandleStream, &pad);
    let results = vec![Ok(()), Ok(()), Ok(()), Err("no state".to_string())];
    match perform(response, results).1 {
        Response::Report(occasion, error) => {
            assert_eq!(occasion, Occasion::IncomingStream);
            assert_eq!(error, AppError::Media("no state".to_string()));
        }
        _ => panic!("the failure should be reported"),
    }
    let ours = Pad {
        direction: PadDirection::Sink,
        caps_name: None,
    };
    assert!(matches!(
        app().on_pad_added(PadReaction::HandleStream, &ours),
        Response::Done
    ));
}

#[test]
fn decoded_streams_are_played() {
    let pad = Pad {
        direction: PadDirection::Src,
        caps_name: Some("video/x-raw".to_string()),
    };
    let response = app().on_pad_added(PadReaction::HandleDecodedStream, &pad);
    assert!(matches!(perform(response, vec![Ok(()); 10]).1, Response::Done));
    let response = app().on_pad_added(PadReaction::HandleDecodedStream, &pad);
    match perform(response, vec![Err("no queue".to_string())]).1 {
        Response::Abort(reason) => assert_eq!(reason, "no queue"),
        _ => panic!("the program cannot go on"),
    }
    let response = app().on_pad_added(PadReaction::HandleDecodedStream, &pad);
    let results = vec![Ok(()), Ok(()), Ok(()), Ok(()), Err("not linked".to_string())];
    match perform(response, results).1 {
        Response::Report(occasion, error) => {
            assert_eq!(occasion, Occasion::DecodedStream);
            assert_eq!(error, AppError::Media("not linked".to_string()));
        }
        _ => panic!("the failure should be reported"),
    }
    let other = Pad {
        direction: PadDirection::Src,
        caps_name: Some("text/x-raw".to_string()),
    };
    assert!(matches!(
        app().on_pad_added(PadReaction::HandleDecodedStream, &other),
        Response::Done
    ));
}

#[test]
fn nothing_is_done_once_the_application_is_gone() {
    for reaction in vec![Reaction::Negotiate, Reaction::SendCandidate, Reaction::Deliver] {
        assert!(matches!(
            signal_response(None, reaction, &candidate()),
            Response::Done
        ));
    }
    let pad = Pad {
        direction: PadDirection::Src,
        caps_name: None,
    };
    for reaction in vec![PadReaction::HandleStream, PadReaction::HandleDecodedStream] {
        assert!(matches!(pad_response(None, reaction, &pad), Response::Done));
    }
    let offer = offered(ReplyValue::Description {
        text: Some("v=0".to_string()),
    });
    assert!(matches!(offer_response(None, offer), Response::Done));
    assert!(matches!(playing_response(None), Response::Done));
}

#[test]
fn everything_is_done_while_the_application_is_there() {
    let client = app();
    assert!(matches!(
        signal_response(Some(&client), Reaction::Negotiate, &candidate()),
        Response::CreateOffer(_)
    ));
    let pad = Pad {
        direction: PadDirection::Src,
        caps_name: None,
    };
    let response = pad_response(Some(&client), PadReaction::HandleStream, &pad);
    assert_eq!(perform(response, vec![Ok(()); 6]).0.len(), 6);
    let offer = offered(ReplyValue::Description {
        text: Some("v=0".to_string()),
    });
    let response = offer_response(Some(&client), offer);
    assert_eq!(perform(response, vec![Ok(()); 2]).0.len(), 2);
}

#[test]
fn the_pipeline_is_told_to_play() {
    let client = app();
    let (calls, end) = perform(playing_response(Some(&client)), vec![Ok(())]);
    assert_eq!(
        calls,
        vec![shown(Call::SetState {
            state: PipelineState::Playing,
        })]
    );
    assert!(matches!(end, Response::Done));
    let failed = perform(
        playing_response(Some(&client)),
        vec![Err("StateChangeError".to_string())],
    );
    match failed.1 {
        Response::Report(occasion, error) => {
            assert_eq!(occasion, Occasion::Playing);
            assert_eq!(error, AppError::Media("StateChangeError".to_string()));
        }
        _ => panic!("the failure should be reported"),
    }
}

#[test]
fn only_the_end_stops_the_pipeline() {
    let stops = |steps: &Vec<Step>| {
        let stop = app().0.webrtcbin.shut_down();
        steps.iter().filter(|step| step.call == stop.call).count()
    };
    let (client, ready) = prepare(Some("7".to_string()), true);
    assert_eq!(stops(&ready), 0);
    assert_eq!(stops(&client.setup_pipeline()), 0);
    assert_eq!(stops(&client.0.webrtcbin.subscribe()), 0);
    assert_eq!(stops(&vec![client.0.webrtcbin.shut_down()]), 1);
}
