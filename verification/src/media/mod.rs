//! The media side of the client.

use vstd::prelude::*;

pub mod plan;
pub mod promises;
pub mod step;
pub mod webrtcbin;

verus! {

/// How talkative the media framework's log is.
#[derive(Debug, Clone, Copy, PartialEq, Eq, Structural)]
pub enum DebugLevel {
    Debug,
}

/// The settings of the media framework's log.
#[derive(Debug, Clone, Copy, PartialEq, Eq, Structural)]
pub struct LogSettings {
    pub colored: bool,
    pub active: bool,
    pub default_threshold: DebugLevel,
}

/// The settings under which the media framework logs in colour, down to debug messages.
pub fn enable_logs() -> (settings: LogSettings)
    ensures
        settings == (LogSettings {
            colored: true,
            active: true,
            default_threshold: DebugLevel::Debug,
        }),
{
    LogSettings { colored: true, active: true, default_threshold: DebugLevel::Debug }
}

} // verus!
