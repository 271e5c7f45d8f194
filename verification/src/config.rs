//! Fixed limits and delays of the player, all in one place.

use vstd::prelude::*;

verus! {

/// Most entries that the video packet queue holds.
pub const VIDEO_PACKET_QUEUE_MAX: usize = 1024;

/// Most entries that the audio packet queue holds.
pub const AUDIO_PACKET_QUEUE_MAX: usize = 512;

/// Most samples that wait in the output ring.
pub const AUDIO_BUFFER_MAX: usize = 50_000;

/// Delay, in milliseconds, after a queue or the ring was found full.
pub const QUEUE_FULL_SLEEP: u64 = 50;

/// Delay, in milliseconds, after a packet queue was found empty.
pub const NO_PACKET_SLEEP: u64 = 10;

/// Delay, in milliseconds, while the render surface has no size yet.
pub const NO_TEXTURE_SLEEP: u64 = 50;

/// Shortest delay, in milliseconds, before a frame that is not yet due.
pub const FRAME_TIMEOUT_MAX: u64 = 5;

/// A frame that is due within this many milliseconds is shown at once.
pub const FRAME_SLEEP_EPSILON: u64 = 1;

/// Delay, in milliseconds, while playback is paused or has reached the end.
pub const PAUSE_SLEEP: u64 = 50;

/// What a worker loop does once an iteration is over.
#[derive(Clone, Copy, Debug, PartialEq, Eq, Structural)]
pub enum LoopState {
    /// Start the next iteration at once.
    Running,
    /// Wait this many milliseconds, then start the next iteration.
    Sleep(u64),
    /// Leave the loop for good.
    Exit,
}

} // verus!
