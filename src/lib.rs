//! Coordination core of a single-track audio player: media resolution,
//! supersession of stale requests, the device command loop's decisions,
//! end-of-track handling and download progress.
pub mod error;
pub mod media;
pub mod resolve;
pub mod progress;
pub mod event;
pub mod playback;
pub mod device;
pub mod pipeline;
