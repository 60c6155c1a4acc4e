//! Messages that reach the client: WebSocket frames and reports of the media pipeline.

use vstd::prelude::*;

verus! {

/// The code and the reason that come with the closing of a WebSocket connection.
#[derive(Debug, PartialEq, Eq)]
pub struct CloseFrame {
    pub code: u16,
    pub reason: String,
}

/// A WebSocket message.
#[derive(Debug, PartialEq, Eq)]
pub enum WsMessage {
    Text(String),
    Binary(Vec<u8>),
    Ping(Vec<u8>),
    Pong(Vec<u8>),
    Close(Option<CloseFrame>),
}

/// The contents of a [`WsMessage`].
pub enum WsMessageView {
    Text(Seq<char>),
    Binary(Seq<u8>),
    Ping(Seq<u8>),
    Pong(Seq<u8>),
    Close(Option<(u16, Seq<char>)>),
}

impl View for WsMessage {
    type V = WsMessageView;

    open spec fn view(&self) -> WsMessageView {
        match self {
            WsMessage::Text(text) => WsMessageView::Text(text@),
            WsMessage::Binary(data) => WsMessageView::Binary(data@),
            WsMessage::Ping(data) => WsMessageView::Ping(data@),
            WsMessage::Pong(data) => WsMessageView::Pong(data@),
            WsMessage::Close(None) => WsMessageView::Close(None),
            WsMessage::Close(Some(frame)) => WsMessageView::Close(
                Some((frame.code, frame.reason@)),
            ),
        }
    }
}

/// The contents of an optional message.
pub open spec fn optional_message(message: Option<WsMessage>) -> Option<WsMessageView> {
    match message {
        Some(message) => Some(message@),
        None => None,
    }
}

/// The contents of an optional text.
pub open spec fn optional_text(text: Option<String>) -> Option<Seq<char>> {
    match text {
        Some(text) => Some(text@),
        None => None,
    }
}

/// A message from the bus of the media pipeline.
#[derive(Debug, PartialEq, Eq)]
pub enum PipelineMessage {
    /// An element failed: the path of the element, the error and the details, as far as known.
    Error { src: Option<String>, error: String, debug: Option<String> },
    /// An element warns.
    Warning { debug: Option<String> },
    /// Anything else.
    Other,
}

/// The contents of a [`PipelineMessage`].
pub enum PipelineMessageView {
    Error { src: Option<Seq<char>>, error: Seq<char>, debug: Option<Seq<char>> },
    Warning { debug: Option<Seq<char>> },
    Other,
}

impl View for PipelineMessage {
    type V = PipelineMessageView;

    open spec fn view(&self) -> PipelineMessageView {
        match self {
            PipelineMessage::Error { src, error, debug } => PipelineMessageView::Error {
                src: optional_text(*src),
                error: error@,
                debug: optional_text(*debug),
            },
            PipelineMessage::Warning { debug } => PipelineMessageView::Warning {
                debug: optional_text(*debug),
            },
            PipelineMessage::Other => PipelineMessageView::Other,
        }
    }
}

} // verus!
