//! The description of a decoded sound file.

use vstd::prelude::*;

verus! {

/// What the decoder reports about an open sound file: captured once at
/// decode time and never mutated afterwards.
#[derive(Clone, Copy, Debug, PartialEq, Eq, Structural)]
pub struct SndInfo {
    /// Number of interleaved channels.
    pub channels: u32,
    /// Sample rate in frames per second.
    pub samplerate: u32,
    /// Number of frames (one sample per channel each).
    pub frames: u32,
}

} // verus!
