use webrtc_sendrecv::app::flow::Flow;
use webrtc_sendrecv::app::plugins::{check_plugins, needed_plugins};
use webrtc_sendrecv::app::App;
use webrtc_sendrecv::error::{AppError, GStreamerError, MissingElements, PeerError};
use webrtc_sendrecv::media::plan::{Plan, Verdict};
use webrtc_sendrecv::media::step::{Call, Target};
use webrtc_sendrecv::message::{PipelineMessage, WsMessage};
use webrtc_sendrecv::server::{
    after_handling, after_sending, checked_address, on_incoming, parse_args, prepare,
    server_address, startup, ws_loop, Incoming, Turn, STUN_SERVER,
};

fn app() -> App {
    prepare(Some("7".to_string()), false).0
}

/// What a turn comes to once its message is handled.
fn settled(turn: Turn) -> Turn {
    match turn {
        Turn::Handle(Flow::Done(result)) => after_handling(result),
        other => other,
    }
}

fn from_server(message: WsMessage) -> Turn {
    settled(on_incoming(&app(), Incoming::WebSocket(Ok(message))))
}

fn sent(turn: Turn) -> WsMessage {
    match turn {
        Turn::Send(message) => message,
        _ => panic!("a message should be sent"),
    }
}

fn exit(turn: Turn) -> Result<(), AppError> {
    match turn {
        Turn::Exit(result) => result,
        _ => panic!("the client should leave"),
    }
}

#[test]
fn arguments_have_a_default_server() {
    assert_eq!(
        parse_args(None, None, false),
        ("ws://localhost:8443".to_string(), None, false)
    );
    assert_eq!(
        parse_args(
            Some("wss://example.org".to_string()),
            Some("7".to_string()),
            true
        ),
        ("wss://example.org".to_string(), Some("7".to_string()), true)
    );
}

#[test]
fn addresses_are_urls() {
    assert_eq!(
        server_address("ws://localhost:8443"),
        Ok("ws://localhost:8443/".to_string())
    );
    assert_eq!(
        server_address("WSS://Example.ORG:443/a b"),
        Ok("wss://example.org/a%20b".to_string())
    );
    assert_eq!(
        server_address("localhost"),
        Err(AppError::Url("relative URL without a base".to_string()))
    );
    assert_eq!(
        server_address("ws://"),
        Err(AppError::Url("empty host".to_string()))
    );
}

#[test]
fn parsed_addresses_are_passed_on() {
    assert_eq!(checked_address(Ok("ws://a/".to_string())), Ok("ws://a/".to_string()));
    assert_eq!(
        checked_address(Err("bad".to_string())),
        Err(AppError::Url("bad".to_string()))
    );
}

#[test]
fn a_client_is_prepared_with_its_settings() {
    let (app, steps) = prepare(Some("7".to_string()), true);
    assert_eq!(app.0.peer_id, Some("7".to_string()));
    assert!(app.0.rtx);
    assert_eq!(app.0.webrtcbin.pipeline, "webrtcbin_pipeline");
    assert_eq!(app.0.webrtcbin.webrtcbin, "webrtcbin_webrtcbin");
    assert_eq!(steps.len(), 6);
    assert_eq!(
        steps[4].call,
        Call::SetPropertyFromText {
            target: Target::WebRtcBin,
            property: "bundle-policy".to_string(),
            text: "max-bundle".to_string(),
        }
    );
    assert_eq!(
        steps[5].call,
        Call::SetPropertyFromText {
            target: Target::WebRtcBin,
            property: "stun-server".to_string(),
            text: "stun://stun.l.google.com:19302".to_string(),
        }
    );
    assert_eq!(STUN_SERVER, "stun://stun.l.google.com:19302");
}

#[test]
fn a_client_connects_first_and_registers_last() {
    let (app, steps) = ws_loop("ws://localhost:8443", Some("7".to_string()), false).unwrap();
    assert_eq!(app.0.peer_id, Some("7".to_string()));
    assert_eq!(steps.len(), 9);
    assert_eq!(
        steps[0].call,
        Call::ConnectServer {
            url: "ws://localhost:8443/".to_string(),
        }
    );
    assert_eq!(
        steps[1].call,
        Call::NewPipeline {
            pipeline: "webrtcbin_pipeline".to_string(),
        }
    );
    assert_eq!(steps[7].call, Call::WatchBus);
    match &steps[8].call {
        Call::Send {
            message: WsMessage::Text(text),
        } => assert!(text.starts_with("HELLO ")),
        _ => panic!("the client should register"),
    }
}

#[test]
fn a_client_without_an_address_does_not_start() {
    match ws_loop("localhost", None, false) {
        Err(error) => assert_eq!(
            error,
            AppError::Url("relative URL without a base".to_string())
        ),
        Ok(_) => panic!("the address is no URL"),
    }
}

#[test]
fn a_client_without_a_connection_makes_no_pipeline() {
    let steps = startup(
        "ws://a/".to_string(),
        prepare(None, false).1,
        app().register_as(10),
    );
    match Plan::begin(steps) {
        Verdict::Continue(plan) => match plan.advance(Err("refused".to_string())) {
            Verdict::Failed(error) => {
                assert_eq!(error, AppError::Transport("refused".to_string()))
            }
            _ => panic!("the start should have failed"),
        },
        _ => panic!("there is a connection to be made"),
    }
}

#[test]
fn the_protocol_is_kept_up() {
    assert_eq!(
        sent(from_server(WsMessage::Ping(vec![9]))),
        WsMessage::Pong(vec![9])
    );
    assert_eq!(
        sent(from_server(WsMessage::Close(None))),
        WsMessage::Close(None)
    );
    assert!(matches!(from_server(WsMessage::Pong(vec![])), Turn::Wait));
    assert!(matches!(from_server(WsMessage::Binary(vec![1])), Turn::Wait));
}

#[test]
fn the_call_starts_after_the_greeting() {
    assert_eq!(
        sent(from_server(WsMessage::Text("HELLO".to_string()))),
        WsMessage::Text("SESSION 7".to_string())
    );
    let waiting = prepare(None, false).0;
    let greeting = Incoming::WebSocket(Ok(WsMessage::Text("HELLO".to_string())));
    assert!(matches!(settled(on_incoming(&waiting, greeting)), Turn::Wait));
}

#[test]
fn reported_errors_end_the_client() {
    assert_eq!(
        exit(from_server(WsMessage::Text("ERROR busy".to_string()))),
        Err(AppError::Peer(PeerError("ERROR busy".to_string())))
    );
    let failure = PipelineMessage::Error {
        src: None,
        error: "x".to_string(),
        debug: None,
    };
    assert_eq!(
        exit(on_incoming(&app(), Incoming::Pipeline(failure))),
        Err(AppError::GStreamer(GStreamerError(
            "Error from element None: x (None)".to_string()
        )))
    );
    assert!(matches!(
        on_incoming(&app(), Incoming::Pipeline(PipelineMessage::Other)),
        Turn::Wait
    ));
    let warning = PipelineMessage::Warning {
        debug: Some("w".to_string()),
    };
    assert!(matches!(
        on_incoming(&app(), Incoming::Pipeline(warning)),
        Turn::Wait
    ));
}

#[test]
fn the_connection_decides_when_to_leave() {
    assert_eq!(exit(on_incoming(&app(), Incoming::Complete)), Ok(()));
    assert_eq!(
        exit(on_incoming(&app(), Incoming::WebSocket(Err("reset".to_string())))),
        Err(AppError::Transport("reset".to_string()))
    );
    assert_eq!(
        exit(after_sending(Err("reset".to_string()))),
        Err(AppError::Transport("reset".to_string()))
    );
    assert!(matches!(after_sending(Ok(())), Turn::Wait));
}

#[test]
fn our_own_messages_are_sent() {
    let message = WsMessage::Text("HELLO 10".to_string());
    assert_eq!(
        sent(on_incoming(&app(), Incoming::Outgoing(message))),
        WsMessage::Text("HELLO 10".to_string())
    );
}

#[test]
fn replies_go_out_before_the_next_message_is_taken() {
    let client = app();
    let incoming = vec![
        Incoming::Outgoing(WsMessage::Text("HELLO 10".to_string())),
        Incoming::WebSocket(Ok(WsMessage::Text("HELLO".to_string()))),
        Incoming::WebSocket(Ok(WsMessage::Ping(vec![1]))),
        Incoming::Outgoing(WsMessage::Text("{}".to_string())),
        Incoming::WebSocket(Ok(WsMessage::Pong(vec![2]))),
        Incoming::Complete,
    ];
    let mut written = Vec::new();
    for item in incoming {
        let mut turn = settled(on_incoming(&client, item));
        loop {
            turn = match turn {
                Turn::Send(message) => {
                    written.push(message);
                    after_sending(Ok(()))
                }
                Turn::Wait => break,
                Turn::Exit(result) => {
                    assert_eq!(result, Ok(()));
                    break;
                }
                Turn::Handle(_) => panic!("these messages are handled at once"),
            };
        }
    }
    assert_eq!(
        written,
        vec![
            WsMessage::Text("HELLO 10".to_string()),
            WsMessage::Text("SESSION 7".to_string()),
            WsMessage::Pong(vec![1]),
            WsMessage::Text("{}".to_string()),
        ]
    );
}

#[test]
fn all_plugins_are_needed() {
    let needed = needed_plugins();
    assert_eq!(
        needed,
        vec![
            "opus",
            "vpx",
            "nice",
            "webrtc",
            "dtls",
            "srtp",
            "rtpmanager",
            "videotestsrc",
            "audiotestsrc",
            "pulseaudio",
        ]
    );
    let mut installed: Vec<String> = needed.iter().map(|name| name.to_string()).collect();
    installed.push("coreelements".to_string());
    assert_eq!(check_plugins(&installed), Ok(()));
    installed.reverse();
    assert_eq!(check_plugins(&installed), Ok(()));
}

#[test]
fn missing_plugins_are_listed_in_order() {
    assert_eq!(
        check_plugins(&vec![]),
        Err(MissingElements(needed_plugins()))
    );
    let installed: Vec<String> = needed_plugins()
        .into_iter()
        .filter(|name| *name != "pulseaudio" && *name != "vpx")
        .map(String::from)
        .collect();
    assert_eq!(
        check_plugins(&installed),
        Err(MissingElements(vec!["vpx", "pulseaudio"]))
    );
}
