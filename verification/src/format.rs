//! Device buffer formats and the mapping from channel counts.

use vstd::prelude::*;

verus! {

/// The linear 16-bit PCM formats the audio backend accepts.
#[derive(Clone, Copy, Debug, PartialEq, Eq, Structural)]
pub enum BufferFormat {
    /// One channel, 16 bits per sample.
    Mono16,
    /// Two interleaved channels, 16 bits per sample.
    Stereo16,
}

/// The format a given channel count maps to: mono and stereo are the only
/// recognized layouts.
pub open spec fn spec_map_channels(channels: u32) -> Option<BufferFormat> {
    if channels == 1 {
        Some(BufferFormat::Mono16)
    } else if channels == 2 {
        Some(BufferFormat::Stereo16)
    } else {
        None
    }
}

/// Map a channel count to the device buffer format it decodes into, or
/// `None` when the backend recognizes no such layout.
pub fn map_channels_to_format(channels: u32) -> (r: Option<BufferFormat>)
    ensures
        r == spec_map_channels(channels),
{
    if channels == 1 {
        Some(BufferFormat::Mono16)
    } else if channels == 2 {
        Some(BufferFormat::Stereo16)
    } else {
        None
    }
}

} // verus!
