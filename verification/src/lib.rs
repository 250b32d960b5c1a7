//! Sample data extracted from a sound file.
//!
//! Loading a file is a staged pipeline: check that a playback context is
//! active, open the file, read its description, decode the samples, map the
//! channel count to a device buffer format, allocate and fill a device
//! buffer, check the backend's error state, extract the tags, and close the
//! file. The pipeline is driven from outside: the [`sound_data::Loader`]
//! decides each next step and the caller performs it against the real
//! decoder and audio backend, feeding the outcome back in.

pub mod error;
pub mod format;
pub mod info;
pub mod protocol;
pub mod shared;
pub mod sound_data;
pub mod tags;

pub use error::LoadError;
pub use format::BufferFormat;
pub use info::SndInfo;
pub use protocol::Action;
pub use protocol::Event;
pub use shared::SharedSoundData;
pub use sound_data::Loader;
pub use sound_data::LoaderState;
pub use sound_data::SoundData;
pub use tags::Tags;
