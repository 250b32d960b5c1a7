//! The actions the loading pipeline asks its driver to perform, and the
//! events the driver reports back.

use vstd::prelude::*;
use crate::format::BufferFormat;
use crate::info::SndInfo;
use crate::tags::Tags;

verus! {

/// One step of outside work the pipeline needs done: a call into the
/// decoder, the audio backend or the metadata reader. The driver performs
/// it and answers with the matching [`Event`].
#[derive(Clone, Copy, Debug, PartialEq, Eq, Structural)]
pub enum Action {
    /// Ask the audio backend whether a playback context is active.
    CheckContext,
    /// Open the loader's file through the decoder, for reading.
    OpenFile,
    /// Read the open file's description from the decoder.
    ReadInfo,
    /// Ask the decoder for `count` 16-bit samples.
    ReadSamples { count: u64 },
    /// Ask the backend for a fresh device buffer handle.
    GenBuffer,
    /// Upload the decoded samples to the device buffer: `byte_len` bytes of
    /// 16-bit PCM in the given format at the given rate.
    Upload { buffer: u32, format: BufferFormat, byte_len: u64, sample_rate: u32 },
    /// Query the backend's error state.
    QueryBackendError,
    /// Extract the tags from the still-open file.
    ExtractTags,
    /// Delete the device buffer: the cleanup of a failed upload.
    DeleteBuffer { buffer: u32 },
    /// Close the open file.
    CloseFile,
}

/// The outcome of one performed [`Action`], reported by the driver.
#[derive(Debug)]
pub enum Event {
    /// Whether a playback context is active.
    ContextStatus { active: bool },
    /// Whether the open succeeded; on failure, the decoder's diagnostic.
    OpenResult { ok: bool, diagnostic: String },
    /// The file's description.
    InfoRead { info: SndInfo },
    /// How many samples the decoder delivered; a read error shows as a
    /// short count.
    SamplesRead { count: u64 },
    /// The fresh device buffer handle.
    BufferGenerated { buffer: u32 },
    /// The upload call returned.
    Uploaded,
    /// The backend's error state: `None` when it reports no error.
    BackendStatus { error: Option<String> },
    /// The tags found in the file.
    TagsExtracted { tags: Tags },
    /// The device buffer was deleted.
    BufferDeleted,
    /// The file was closed.
    Closed,
}

/// How many buffer allocations a history holds.
pub open spec fn gen_count(h: Seq<Action>) -> int
    decreases h.len(),
{
    if h.len() == 0 {
        0
    } else {
        gen_count(h.drop_last()) + if h.last() is GenBuffer {
            1int
        } else {
            0int
        }
    }
}

/// How many buffer deletions a history holds.
pub open spec fn del_count(h: Seq<Action>) -> int
    decreases h.len(),
{
    if h.len() == 0 {
        0
    } else {
        del_count(h.drop_last()) + if h.last() is DeleteBuffer {
            1int
        } else {
            0int
        }
    }
}

/// How many file opens a history holds.
pub open spec fn open_count(h: Seq<Action>) -> int
    decreases h.len(),
{
    if h.len() == 0 {
        0
    } else {
        open_count(h.drop_last()) + if h.last() is OpenFile {
            1int
        } else {
            0int
        }
    }
}

/// Appending an action raises the allocation count exactly when it is a
/// `GenBuffer`.
pub broadcast proof fn lemma_gen_count_push(h: Seq<Action>, a: Action)
    ensures
        #[trigger] gen_count(h.push(a)) == gen_count(h) + if a is GenBuffer {
            1int
        } else {
            0int
        },
{
    assert(h.push(a).drop_last() =~= h);
    assert(h.push(a).last() == a);
}

/// Appending an action raises the deletion count exactly when it is a
/// `DeleteBuffer`.
pub broadcast proof fn lemma_del_count_push(h: Seq<Action>, a: Action)
    ensures
        #[trigger] del_count(h.push(a)) == del_count(h) + if a is DeleteBuffer {
            1int
        } else {
            0int
        },
{
    assert(h.push(a).drop_last() =~= h);
    assert(h.push(a).last() == a);
}

/// Appending an action raises the open count exactly when it is an
/// `OpenFile`.
pub broadcast proof fn lemma_open_count_push(h: Seq<Action>, a: Action)
    ensures
        #[trigger] open_count(h.push(a)) == open_count(h) + if a is OpenFile {
            1int
        } else {
            0int
        },
{
    assert(h.push(a).drop_last() =~= h);
    assert(h.push(a).last() == a);
}

/// A history holds an action after a push exactly when it held it before
/// or the push added it.
pub broadcast proof fn lemma_contains_push(h: Seq<Action>, a: Action, x: Action)
    ensures
        #[trigger] h.push(a).contains(x) <==> (h.contains(x) || a == x),
{
    if a == x {
        assert(h.push(a)[h.len() as int] == x);
    }
    if h.contains(x) {
        let i = choose|i: int| 0 <= i < h.len() && h[i] == x;
        assert(h.push(a)[i] == x);
    }
    if h.push(a).contains(x) {
        let i = choose|i: int| 0 <= i < h.push(a).len() && h.push(a)[i] == x;
        if i < h.len() {
            assert(h[i] == x);
        }
    }
}

/// The push lemmas on action histories, taken together.
pub broadcast group group_history_lemmas {
    lemma_gen_count_push,
    lemma_del_count_push,
    lemma_open_count_push,
    lemma_contains_push,
}

} // verus!
