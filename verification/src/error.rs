//! What can go wrong.

use crate::text::names;
use vstd::prelude::*;

verus! {

/// The kind of an input or output error.
#[derive(Debug, Clone, Copy, PartialEq, Eq, Structural)]
pub enum IoErrorKind {
    BrokenPipe,
}

/// A failure of the WebSocket connection: an input or output error with its description.
#[derive(Debug, PartialEq, Eq)]
pub struct WebSocketError {
    pub kind: IoErrorKind,
    pub description: String,
}

/// A failure inside the media framework.
#[derive(Debug, PartialEq, Eq)]
pub struct GStreamerError(pub String);

/// A failure that the peer or the signalling server caused.
#[derive(Debug, PartialEq, Eq)]
pub struct PeerError(pub String);

/// Plugins that the client needs and that are not installed.
#[derive(Debug, PartialEq, Eq)]
pub struct MissingElements(pub Vec<&'static str>);

/// Everything that ends the handling of a message without success.
#[derive(Debug, PartialEq, Eq)]
pub enum AppError {
    WebSocket(WebSocketError),
    GStreamer(GStreamerError),
    Peer(PeerError),
    /// A text that should have been a JSON message is none.
    Json(String),
    /// A call into the media framework failed.
    Media(String),
    /// Reading from or writing to the WebSocket failed.
    Transport(String),
    /// The address of the signalling server is no URL.
    Url(String),
}

/// The contents of an [`AppError`].
pub enum AppErrorView {
    WebSocket { kind: IoErrorKind, description: Seq<char> },
    GStreamer(Seq<char>),
    Peer(Seq<char>),
    Json(Seq<char>),
    Media(Seq<char>),
    Transport(Seq<char>),
    Url(Seq<char>),
}

impl View for AppError {
    type V = AppErrorView;

    open spec fn view(&self) -> AppErrorView {
        match self {
            AppError::WebSocket(error) => AppErrorView::WebSocket {
                kind: error.kind,
                description: error.description@,
            },
            AppError::GStreamer(error) => AppErrorView::GStreamer(error.0@),
            AppError::Peer(error) => AppErrorView::Peer(error.0@),
            AppError::Json(text) => AppErrorView::Json(text@),
            AppError::Media(text) => AppErrorView::Media(text@),
            AppError::Transport(text) => AppErrorView::Transport(text@),
            AppError::Url(text) => AppErrorView::Url(text@),
        }
    }
}

/// What sending through a channel that nobody reads any more fails with.
pub open spec fn connection_closed() -> AppErrorView {
    AppErrorView::WebSocket {
        kind: IoErrorKind::BrokenPipe,
        description: "Connection Closed"@,
    }
}

/// What the `Debug` of a text writes for it.
pub uninterp spec fn shown_text(text: Seq<char>) -> Seq<char>;

/// What the `Debug` of a vector of texts writes for them.
pub uninterp spec fn shown_texts(texts: Seq<Seq<char>>) -> Seq<char>;

/// What the `Debug` of `tungstenite::Error` writes for an input or output error of this kind and
/// description.
pub uninterp spec fn shown_io_error(kind: IoErrorKind, description: Seq<char>) -> Seq<char>;

/// Formats a text with its `Debug`.
///
/// Claimed of it: what it writes depends on the text alone. How it quotes and escapes is left
/// unsaid.
#[verifier::external_body]
fn show_text(text: &str) -> (shown: String)
    ensures
        shown@ == shown_text(text@),
{
    format!("{:?}", text)
}

/// Formats texts with the `Debug` of their vector.
///
/// Claimed of it: what it writes depends on the texts alone. How it separates, quotes and escapes
/// them is left unsaid.
#[verifier::external_body]
fn show_texts(texts: &Vec<&'static str>) -> (shown: String)
    ensures
        shown@ == shown_texts(names(texts@)),
{
    format!("{:?}", texts)
}

/// Formats a `tungstenite::Error` for an input or output error with its `Debug`.
///
/// Claimed of it: what it writes depends on the kind and the description alone. The notation is
/// left unsaid.
#[verifier::external_body]
fn show_io_error(kind: IoErrorKind, description: &str) -> (shown: String)
    ensures
        shown@ == shown_io_error(kind, description@),
{
    let kind = match kind {
        IoErrorKind::BrokenPipe => std::io::ErrorKind::BrokenPipe,
    };
    format!("{:?}", tungstenite::Error::Io(std::io::Error::new(kind, description)))
}

/// The text by which an error is displayed to the user.
pub open spec fn error_text(error: AppErrorView) -> Seq<char> {
    match error {
        AppErrorView::WebSocket { kind, description } => "WebSocket error: "@ + shown_io_error(
            kind,
            description,
        ),
        AppErrorView::GStreamer(text) => "GStreamer error: "@ + shown_text(text),
        AppErrorView::Peer(text) => "Peer error: "@ + shown_text(text),
        AppErrorView::Json(text) => text,
        AppErrorView::Media(text) => text,
        AppErrorView::Transport(text) => text,
        AppErrorView::Url(text) => text,
    }
}

impl AppError {
    /// The text by which the error is displayed to the user.
    pub fn to_text(&self) -> (text: String)
        ensures
            text@ == error_text(self@),
    {
        match self {
            AppError::WebSocket(error) => error.to_text(),
            AppError::GStreamer(error) => error.to_text(),
            AppError::Peer(error) => error.to_text(),
            AppError::Json(text) => text.clone(),
            AppError::Media(text) => text.clone(),
            AppError::Transport(text) => text.clone(),
            AppError::Url(text) => text.clone(),
        }
    }
}

impl GStreamerError {
    /// The text by which an error is displayed whose description is shown like this.
    pub fn displayed(shown: &str) -> (text: String)
        ensures
            text@ == "GStreamer error: "@ + shown@,
    {
        "GStreamer error: ".to_owned().concat(shown)
    }

    /// The text by which the error is displayed to the user.
    pub fn to_text(&self) -> (text: String)
        ensures
            text@ == "GStreamer error: "@ + shown_text(self.0@),
    {
        GStreamerError::displayed(show_text(self.0.as_str()).as_str())
    }
}

impl PeerError {
    /// The text by which an error is displayed whose description is shown like this.
    pub fn displayed(shown: &str) -> (text: String)
        ensures
            text@ == "Peer error: "@ + shown@,
    {
        "Peer error: ".to_owned().concat(shown)
    }

    /// The text by which the error is displayed to the user.
    pub fn to_text(&self) -> (text: String)
        ensures
            text@ == "Peer error: "@ + shown_text(self.0@),
    {
        PeerError::displayed(show_text(self.0.as_str()).as_str())
    }
}

impl MissingElements {
    /// The text by which an error is displayed whose plugins are shown like this.
    pub fn displayed(shown: &str) -> (text: String)
        ensures
            text@ == "Missing elements "@ + shown@,
    {
        "Missing elements ".to_owned().concat(shown)
    }

    /// The text by which the error is displayed to the user.
    pub fn to_text(&self) -> (text: String)
        ensures
            text@ == "Missing elements "@ + shown_texts(names(self.0@)),
    {
        MissingElements::displayed(show_texts(&self.0).as_str())
    }
}

impl WebSocketError {
    /// The text by which an error is displayed whose cause is shown like this.
    pub fn displayed(shown: &str) -> (text: String)
        ensures
            text@ == "WebSocket error: "@ + shown@,
    {
        "WebSocket error: ".to_owned().concat(shown)
    }

    /// The text by which the error is displayed to the user.
    pub fn to_text(&self) -> (text: String)
        ensures
            text@ == "WebSocket error: "@ + shown_io_error(self.kind, self.description@),
    {
        WebSocketError::displayed(show_io_error(self.kind, self.description.as_str()).as_str())
    }

    /// The error of a connection whose writing end is gone.
    pub fn connection_closed() -> (error: WebSocketError)
        ensures
            error.kind == IoErrorKind::BrokenPipe,
            error.description@ == "Connection Closed"@,
    {
        WebSocketError {
            kind: IoErrorKind::BrokenPipe,
            description: "Connection Closed".to_owned(),
        }
    }
}

/// An error is displayed under the words for its kind, with what is shown of it; one that is fully
/// described by its text is displayed by that. A connection that nobody reads any more is a broken
/// pipe.
pub proof fn law_errors_are_displayed(kind: IoErrorKind, text: Seq<char>)
    ensures
        error_text(AppErrorView::WebSocket { kind, description: text }) == "WebSocket error: "@
            + shown_io_error(kind, text),
        error_text(AppErrorView::GStreamer(text)) == "GStreamer error: "@ + shown_text(text),
        error_text(AppErrorView::Peer(text)) == "Peer error: "@ + shown_text(text),
        error_text(AppErrorView::Json(text)) == text,
        error_text(AppErrorView::Media(text)) == text,
        error_text(AppErrorView::Transport(text)) == text,
        error_text(AppErrorView::Url(text)) == text,
        connection_closed() == (AppErrorView::WebSocket {
            kind: IoErrorKind::BrokenPipe,
            description: "Connection Closed"@,
        }),
{
}

} // verus!
