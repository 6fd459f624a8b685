use vstd::prelude::*;
use std::time::Duration;

verus! {

/// A change of playback state, reported to the listener.
#[derive(Debug, Clone, Copy, PartialEq)]
pub enum PlayerEvent {
    Play,
    Pause,
    /// A seek to the requested position.
    Seek(Duration),
    Stop,
    /// The track played to its natural end.
    End,
}

/// The receiver of playback events; called from the event-delivery thread,
/// and expected to return promptly.
pub trait PlayerEventListener: Send + Sync + core::fmt::Debug {
    fn on_event(&self, event: PlayerEvent);
}

} // verus!
