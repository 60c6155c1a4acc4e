use webrtc_sendrecv::error::{
    AppError, GStreamerError, MissingElements, PeerError, WebSocketError,
};

#[test]
fn errors_are_displayed_with_their_kind() {
    assert_eq!(
        GStreamerError("no \"sink\" pad".to_string()).to_text(),
        "GStreamer error: \"no \\\"sink\\\" pad\""
    );
    assert_eq!(
        PeerError("ERROR\tbusy".to_string()).to_text(),
        "Peer error: \"ERROR\\tbusy\""
    );
    assert_eq!(
        MissingElements(vec!["vpx", "nice"]).to_text(),
        "Missing elements [\"vpx\", \"nice\"]"
    );
    assert_eq!(
        WebSocketError::connection_closed().to_text(),
        "WebSocket error: Io(Custom { kind: BrokenPipe, error: \"Connection Closed\" })"
    );
}

#[test]
fn every_error_has_a_text() {
    let errors = vec![
        (
            AppError::WebSocket(WebSocketError::connection_closed()),
            "WebSocket error: Io(Custom { kind: BrokenPipe, error: \"Connection Closed\" })",
        ),
        (
            AppError::GStreamer(GStreamerError("a".to_string())),
            "GStreamer error: \"a\"",
        ),
        (
            AppError::Peer(PeerError("b".to_string())),
            "Peer error: \"b\"",
        ),
        (AppError::Json("expected value".to_string()), "expected value"),
        (AppError::Media("not linked".to_string()), "not linked"),
        (AppError::Transport("reset".to_string()), "reset"),
        (AppError::Url("empty host".to_string()), "empty host"),
    ];
    for (error, text) in errors {
        assert_eq!(error.to_text(), text);
    }
}

#[test]
fn what_is_shown_follows_the_kind() {
    assert_eq!(GStreamerError::displayed("x"), "GStreamer error: x");
    assert_eq!(PeerError::displayed("x"), "Peer error: x");
    assert_eq!(MissingElements::displayed("[]"), "Missing elements []");
    assert_eq!(WebSocketError::displayed("Utf8"), "WebSocket error: Utf8");
}
