//! The ways a sample-data construction can fail.

use vstd::prelude::*;

verus! {

/// A construction failure. Every variant is terminal for the attempt and
/// carries the collaborator's diagnostic, so the caller can surface it.
#[derive(Debug)]
pub enum LoadError {
    /// No playback context was active; the file system was never touched.
    NoActiveContext,
    /// The decoder could not open the file (missing, unsupported or
    /// corrupt); carries the decoder's diagnostic.
    FileOpenError { diagnostic: String },
    /// The decoder delivered fewer samples than the file's description
    /// promised.
    DecodeError { requested: u64, read: u64 },
    /// The channel count maps to no device buffer format.
    UnsupportedFormat { channels: u32 },
    /// The backend reported an error after the buffer upload; carries the
    /// backend's message.
    BackendError { message: String },
}

} // verus!
