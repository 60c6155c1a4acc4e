//! Signalling and control logic of a WebRTC client that sends test video and audio to a peer and
//! plays what the peer sends.
//!
//! The logic decides; it makes no calls into the media framework and does no input or output.
//! Every decision comes back as a value: a message to be sent, a step to be performed, an error.

pub mod app;
pub mod error;
pub mod media;
pub mod message;
pub mod runs;
pub mod server;
pub mod shutdown;
pub mod text;
pub mod views;
pub mod wire;
