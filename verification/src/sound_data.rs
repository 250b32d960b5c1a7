//! Samples extracted from a sound file.
//!
//! A [`SoundData`] is made to be shared between several playback instances
//! and played at the same time. It is built by a [`Loader`]: a staged
//! pipeline that decides each next step while the caller performs the
//! decoder, backend and metadata calls and reports their outcomes back.

use vstd::prelude::*;
use crate::error::LoadError;
use crate::format::BufferFormat;
use crate::format::map_channels_to_format;
use crate::format::spec_map_channels;
use crate::info::SndInfo;
use crate::protocol::Action;
use crate::protocol::Event;
use crate::protocol::del_count;
use crate::protocol::gen_count;
use crate::protocol::group_history_lemmas;
use crate::protocol::open_count;
use crate::tags::Tags;

verus! {

broadcast use group_history_lemmas;

/// Samples extracted from a file, with the device buffer that holds them.
///
/// Immutable after construction but for [`SoundData::release`], the
/// explicit, at-most-once release of the device buffer.
#[derive(Debug)]
pub struct SoundData {
    /// The tags found in the file.
    pub sound_tags: Tags,
    /// The file's description, captured at decode time.
    pub snd_info: SndInfo,
    /// The total sample count: channels times frames.
    pub nb_sample: u64,
    /// The backend's identifier for the device buffer.
    pub al_buffer: u32,
    /// Whether the device buffer has been handed back for deletion.
    pub released: bool,
}

impl SoundData {
    /// The entity is consistent: its sample count is its channel count
    /// times its frame count.
    pub open spec fn wf(self) -> bool {
        self.nb_sample as int == self.snd_info.channels as int * self.snd_info.frames as int
    }

    /// The tags of the sound: an exact copy of the captured snapshot,
    /// never recomputed from the file.
    pub fn get_tags(&self) -> (r: Tags)
        ensures
            r == self.sound_tags,
    {
        self.sound_tags.clone()
    }

    /// Hand the device buffer back for deletion.
    ///
    /// The first call yields the deletion the driver must perform; any
    /// further call is a no-op, so the buffer is deleted at most once
    /// even if the surrounding ownership wrapper misbehaves.
    pub fn release(&mut self) -> (a: Option<Action>)
        ensures
            release_rel(*old(self), *final(self), a),
    {
        if self.released {
            None
        } else {
            self.released = true;
            Some(Action::DeleteBuffer { buffer: self.al_buffer })
        }
    }
}

/// How a released entity relates to the one before: every captured field
/// kept, the release mark set, and the deletion emitted exactly when the
/// entity still held its buffer.
pub open spec fn release_rel(pre: SoundData, post: SoundData, a: Option<Action>) -> bool {
    &&& post.sound_tags == pre.sound_tags
    &&& post.snd_info == pre.snd_info
    &&& post.nb_sample == pre.nb_sample
    &&& post.al_buffer == pre.al_buffer
    &&& post.released
    &&& a == (if pre.released {
        None::<Action>
    } else {
        Some(Action::DeleteBuffer { buffer: pre.al_buffer })
    })
}

/// Releasing twice deletes the buffer exactly once: the first release of
/// a live entity yields the deletion, and a release of an already
/// released entity yields nothing.
pub proof fn lemma_release_exactly_once(
    s0: SoundData,
    s1: SoundData,
    s2: SoundData,
    a1: Option<Action>,
    a2: Option<Action>,
)
    requires
        !s0.released,
        release_rel(s0, s1, a1),
        release_rel(s1, s2, a2),
    ensures
        a1 == Some(Action::DeleteBuffer { buffer: s0.al_buffer }),
        a2 is None,
{
}

/// Get the sound file's description.
pub fn get_sndinfo<'r>(s_data: &'r SoundData) -> (r: &'r SndInfo)
    ensures
        r == &s_data.snd_info,
{
    &s_data.snd_info
}

/// Get the backend identifier of the samples buffer.
pub fn get_buffer(s_data: &SoundData) -> (r: u32)
    ensures
        r == s_data.al_buffer,
{
    s_data.al_buffer
}

/// Where the pipeline stands: which outcome it awaits, with everything
/// captured so far.
pub enum LoaderState {
    /// Awaiting the backend's context status.
    AwaitContext,
    /// Awaiting the decoder's open result.
    AwaitOpen,
    /// Awaiting the file's description.
    AwaitInfo,
    /// Awaiting the decoded samples.
    AwaitSamples { info: SndInfo, nb_sample: u64 },
    /// Awaiting a fresh device buffer handle.
    AwaitBuffer { info: SndInfo, nb_sample: u64, format: BufferFormat },
    /// Awaiting the upload of the samples.
    AwaitUpload { info: SndInfo, nb_sample: u64, format: BufferFormat, buffer: u32 },
    /// Awaiting the backend's error state.
    AwaitStatus { info: SndInfo, nb_sample: u64, format: BufferFormat, buffer: u32 },
    /// Awaiting the file's tags.
    AwaitTags { info: SndInfo, nb_sample: u64, format: BufferFormat, buffer: u32 },
    /// Awaiting the deletion of the buffer a failed upload left behind.
    AwaitDelete { message: String, buffer: u32 },
    /// Awaiting the unconditional file close; the outcome is settled.
    AwaitClose { pending: Result<SoundData, LoadError> },
    /// The pipeline is finished.
    Done { result: Result<SoundData, LoadError> },
}

/// The staged construction of a [`SoundData`].
///
/// The loader never performs outside work itself: [`Loader::current_action`]
/// says what must be done next, the driver does it and reports the outcome
/// through [`Loader::step`]. `history` records every action whose outcome
/// the loader has consumed.
pub struct Loader {
    /// The path of the file to load.
    pub path: String,
    /// Where the pipeline stands.
    pub state: LoaderState,
    /// The actions performed so far, in order.
    pub history: Ghost<Seq<Action>>,
}

/// Whether the event answers the action the state awaits.
pub open spec fn spec_fits(s: LoaderState, ev: Event) -> bool {
    match (s, ev) {
        (LoaderState::AwaitContext, Event::ContextStatus { .. }) => true,
        (LoaderState::AwaitOpen, Event::OpenResult { .. }) => true,
        (LoaderState::AwaitInfo, Event::InfoRead { .. }) => true,
        (LoaderState::AwaitSamples { .. }, Event::SamplesRead { .. }) => true,
        (LoaderState::AwaitBuffer { .. }, Event::BufferGenerated { .. }) => true,
        (LoaderState::AwaitUpload { .. }, Event::Uploaded) => true,
        (LoaderState::AwaitStatus { .. }, Event::BackendStatus { .. }) => true,
        (LoaderState::AwaitTags { .. }, Event::TagsExtracted { .. }) => true,
        (LoaderState::AwaitDelete { .. }, Event::BufferDeleted) => true,
        (LoaderState::AwaitClose { .. }, Event::Closed) => true,
        _ => false,
    }
}

/// The action a state awaits.
pub open spec fn required_action(s: LoaderState) -> Action
    recommends
        !(s is Done),
{
    match s {
        LoaderState::AwaitContext => Action::CheckContext,
        LoaderState::AwaitOpen => Action::OpenFile,
        LoaderState::AwaitInfo => Action::ReadInfo,
        LoaderState::AwaitSamples { info: _, nb_sample } => Action::ReadSamples { count: nb_sample },
        LoaderState::AwaitBuffer { .. } => Action::GenBuffer,
        LoaderState::AwaitUpload { info, nb_sample, format, buffer } => Action::Upload {
            buffer,
            format,
            byte_len: (2 * nb_sample) as u64,
            sample_rate: info.samplerate,
        },
        LoaderState::AwaitStatus { .. } => Action::QueryBackendError,
        LoaderState::AwaitTags { .. } => Action::ExtractTags,
        LoaderState::AwaitDelete { message: _, buffer } => Action::DeleteBuffer { buffer },
        LoaderState::AwaitClose { .. } => Action::CloseFile,
        LoaderState::Done { .. } => Action::CheckContext,
    }
}

/// The pipeline's transition: from a state and the event answering its
/// action to the next state. An event that answers no awaited action
/// changes nothing.
pub open spec fn spec_next(s: LoaderState, ev: Event) -> LoaderState {
    match (s, ev) {
        (LoaderState::AwaitContext, Event::ContextStatus { active }) => if active {
            LoaderState::AwaitOpen
        } else {
            LoaderState::Done { result: Err(LoadError::NoActiveContext) }
        },
        (LoaderState::AwaitOpen, Event::OpenResult { ok, diagnostic }) => if ok {
            LoaderState::AwaitInfo
        } else {
            LoaderState::Done { result: Err(LoadError::FileOpenError { diagnostic }) }
        },
        (LoaderState::AwaitInfo, Event::InfoRead { info }) => LoaderState::AwaitSamples {
            info,
            nb_sample: ((info.channels as int) * (info.frames as int)) as u64,
        },
        (LoaderState::AwaitSamples { info, nb_sample }, Event::SamplesRead { count }) => if count
            < nb_sample {
            LoaderState::AwaitClose {
                pending: Err(LoadError::DecodeError { requested: nb_sample, read: count }),
            }
        } else {
            match spec_map_channels(info.channels) {
                Some(format) => LoaderState::AwaitBuffer { info, nb_sample, format },
                None => LoaderState::AwaitClose {
                    pending: Err(LoadError::UnsupportedFormat { channels: info.channels }),
                },
            }
        },
        (
            LoaderState::AwaitBuffer { info, nb_sample, format },
            Event::BufferGenerated { buffer },
        ) => LoaderState::AwaitUpload { info, nb_sample, format, buffer },
        (
            LoaderState::AwaitUpload { info, nb_sample, format, buffer },
            Event::Uploaded,
        ) => LoaderState::AwaitStatus { info, nb_sample, format, buffer },
        (
            LoaderState::AwaitStatus { info, nb_sample, format, buffer },
            Event::BackendStatus { error },
        ) => match error {
            None => LoaderState::AwaitTags { info, nb_sample, format, buffer },
            Some(message) => LoaderState::AwaitDelete { message, buffer },
        },
        (
            LoaderState::AwaitTags { info, nb_sample, format: _, buffer },
            Event::TagsExtracted { tags },
        ) => LoaderState::AwaitClose {
            pending: Ok(
                SoundData {
                    sound_tags: tags,
                    snd_info: info,
                    nb_sample,
                    al_buffer: buffer,
                    released: false,
                },
            ),
        },
        (LoaderState::AwaitDelete { message, buffer: _ }, Event::BufferDeleted) => {
            LoaderState::AwaitClose { pending: Err(LoadError::BackendError { message }) }
        },
        (LoaderState::AwaitClose { pending }, Event::Closed) => LoaderState::Done {
            result: pending,
        },
        (s2, _) => s2,
    }
}

impl Loader {
    /// What always holds of a loader the pipeline built: the captured
    /// counts are consistent, the format matches the channel count, and
    /// the history shows each resource handled as the outcome demands.
    pub open spec fn inv(self) -> bool {
        let h = self.history@;
        match self.state {
            LoaderState::AwaitContext => h.len() == 0,
            LoaderState::AwaitOpen => h =~= seq![Action::CheckContext],
            LoaderState::AwaitInfo => h =~= seq![Action::CheckContext, Action::OpenFile],
            LoaderState::AwaitSamples { info, nb_sample } => {
                &&& nb_sample as int == info.channels as int * info.frames as int
                &&& gen_count(h) == 0
                &&& del_count(h) == 0
            },
            LoaderState::AwaitBuffer { info, nb_sample, format } => {
                &&& nb_sample as int == info.channels as int * info.frames as int
                &&& spec_map_channels(info.channels) == Some(format)
                &&& gen_count(h) == 0
                &&& del_count(h) == 0
            },
            LoaderState::AwaitUpload { info, nb_sample, format, buffer: _ } => {
                &&& nb_sample as int == info.channels as int * info.frames as int
                &&& spec_map_channels(info.channels) == Some(format)
                &&& gen_count(h) == 1
                &&& del_count(h) == 0
            },
            LoaderState::AwaitStatus { info, nb_sample, format, buffer } => {
                &&& nb_sample as int == info.channels as int * info.frames as int
                &&& spec_map_channels(info.channels) == Some(format)
                &&& gen_count(h) == 1
                &&& del_count(h) == 0
                &&& h.contains(
                    Action::Upload {
                        buffer,
                        format,
                        byte_len: (2 * nb_sample) as u64,
                        sample_rate: info.samplerate,
                    },
                )
            },
            LoaderState::AwaitTags { info, nb_sample, format, buffer } => {
                &&& nb_sample as int == info.channels as int * info.frames as int
                &&& spec_map_channels(info.channels) == Some(format)
                &&& gen_count(h) == 1
                &&& del_count(h) == 0
                &&& h.contains(
                    Action::Upload {
                        buffer,
                        format,
                        byte_len: (2 * nb_sample) as u64,
                        sample_rate: info.samplerate,
                    },
                )
            },
            LoaderState::AwaitDelete { .. } => {
                &&& gen_count(h) == 1
                &&& del_count(h) == 0
            },
            LoaderState::AwaitClose { pending } => match pending {
                Ok(sd) => {
                    &&& sd.wf()
                    &&& !sd.released
                    &&& gen_count(h) == 1
                    &&& del_count(h) == 0
                    &&& (spec_map_channels(sd.snd_info.channels) matches Some(f)
                        && h.contains(
                        Action::Upload {
                            buffer: sd.al_buffer,
                            format: f,
                            byte_len: (2 * sd.nb_sample) as u64,
                            sample_rate: sd.snd_info.samplerate,
                        },
                    ))
                },
                Err(e) => match e {
                    LoadError::DecodeError { .. } | LoadError::UnsupportedFormat { .. } => {
                        &&& gen_count(h) == 0
                        &&& del_count(h) == 0
                    },
                    LoadError::BackendError { .. } => {
                        &&& gen_count(h) == 1
                        &&& del_count(h) == 1
                    },
                    _ => false,
                },
            },
            LoaderState::Done { result } => match result {
                Ok(sd) => {
                    &&& sd.wf()
                    &&& !sd.released
                    &&& gen_count(h) == 1
                    &&& del_count(h) == 0
                    &&& (spec_map_channels(sd.snd_info.channels) matches Some(f)
                        && h.contains(
                        Action::Upload {
                            buffer: sd.al_buffer,
                            format: f,
                            byte_len: (2 * sd.nb_sample) as u64,
                            sample_rate: sd.snd_info.samplerate,
                        },
                    ))
                    &&& h.len() > 0
                    &&& h.last() == Action::CloseFile
                },
                Err(e) => match e {
                    LoadError::NoActiveContext => h =~= seq![Action::CheckContext],
                    LoadError::FileOpenError { .. } => h =~= seq![
                        Action::CheckContext,
                        Action::OpenFile,
                    ],
                    LoadError::DecodeError { .. } | LoadError::UnsupportedFormat { .. } => {
                        &&& gen_count(h) == 0
                        &&& del_count(h) == 0
                        &&& h.len() > 0
                        &&& h.last() == Action::CloseFile
                    },
                    LoadError::BackendError { .. } => {
                        &&& gen_count(h) == 1
                        &&& del_count(h) == 1
                        &&& h.len() > 0
                        &&& h.last() == Action::CloseFile
                    },
                },
            },
        }
    }
}

/// Taking one step from a state that satisfies the invariant, with the
/// history extended by the action the event answers, lands in a state
/// that satisfies it again.
proof fn lemma_step_preserves_inv(pre: Loader, ev: Event, post: Loader)
    requires
        pre.inv(),
        post.state == spec_next(pre.state, ev),
        post.history@ == (if spec_fits(pre.state, ev) {
            pre.history@.push(required_action(pre.state))
        } else {
            pre.history@
        }),
    ensures
        post.inv(),
{
    let h = pre.history@;
    if spec_fits(pre.state, ev) {
        let act = required_action(pre.state);
        let h2 = h.push(act);
        match pre.state {
            LoaderState::AwaitContext => {
                assert(h2 =~= seq![Action::CheckContext]);
            },
            LoaderState::AwaitOpen => {
                assert(h2 =~= seq![Action::CheckContext, Action::OpenFile]);
            },
            LoaderState::AwaitInfo => {
                let info = ev->InfoRead_info;
                assert((info.channels as int) * (info.frames as int)
                    <= 0xffff_ffff * 0xffff_ffff) by (nonlinear_arith)
                    requires
                        info.channels <= 0xffff_ffffu32,
                        info.frames <= 0xffff_ffffu32,
                ;
                assert(h =~= Seq::empty().push(Action::CheckContext).push(Action::OpenFile));
                assert(gen_count(Seq::<Action>::empty()) == 0);
                assert(del_count(Seq::<Action>::empty()) == 0);
            },
            _ => {
            },
        }
    }
}

impl Loader {
    /// Consume the outcome of the awaited action and move the pipeline
    /// one step: exactly the transition [`spec_next`] describes, with the
    /// performed action appended to the history. An event that answers
    /// nothing changes nothing.
    pub fn step(self, ev: Event) -> (r: Loader)
        ensures
            r.path == self.path,
            r.state == spec_next(self.state, ev),
            r.history@ == (if spec_fits(self.state, ev) {
                self.history@.push(required_action(self.state))
            } else {
                self.history@
            }),
            self.inv() ==> r.inv(),
    {
        let ghost pre = self;
        let ghost gev = ev;
        let Loader { path, state, history } = self;
        let ghost h2 = if spec_fits(pre.state, gev) {
            history@.push(required_action(pre.state))
        } else {
            history@
        };
        let next_state: LoaderState = match (state, ev) {
            (LoaderState::AwaitContext, Event::ContextStatus { active }) => if active {
                LoaderState::AwaitOpen
            } else {
                LoaderState::Done { result: Err(LoadError::NoActiveContext) }
            },
            (LoaderState::AwaitOpen, Event::OpenResult { ok, diagnostic }) => if ok {
                LoaderState::AwaitInfo
            } else {
                LoaderState::Done { result: Err(LoadError::FileOpenError { diagnostic }) }
            },
            (LoaderState::AwaitInfo, Event::InfoRead { info }) => {
                proof {
                    assert((info.channels as int) * (info.frames as int)
                        <= 0xffff_ffff * 0xffff_ffff) by (nonlinear_arith)
                        requires
                            info.channels <= 0xffff_ffffu32,
                            info.frames <= 0xffff_ffffu32,
                    ;
                }
                let nb_sample: u64 = (info.channels as u64) * (info.frames as u64);
                LoaderState::AwaitSamples { info, nb_sample }
            },
            (LoaderState::AwaitSamples { info, nb_sample }, Event::SamplesRead { count }) => {
                if count < nb_sample {
                    LoaderState::AwaitClose {
                        pending: Err(LoadError::DecodeError { requested: nb_sample, read: count }),
                    }
                } else {
                    match map_channels_to_format(info.channels) {
                        Some(format) => LoaderState::AwaitBuffer { info, nb_sample, format },
                        None => LoaderState::AwaitClose {
                            pending: Err(
                                LoadError::UnsupportedFormat { channels: info.channels },
                            ),
                        },
                    }
                }
            },
            (
                LoaderState::AwaitBuffer { info, nb_sample, format },
                Event::BufferGenerated { buffer },
            ) => LoaderState::AwaitUpload { info, nb_sample, format, buffer },
            (
                LoaderState::AwaitUpload { info, nb_sample, format, buffer },
                Event::Uploaded,
            ) => LoaderState::AwaitStatus { info, nb_sample, format, buffer },
            (
                LoaderState::AwaitStatus { info, nb_sample, format, buffer },
                Event::BackendStatus { error },
            ) => match error {
                None => LoaderState::AwaitTags { info, nb_sample, format, buffer },
                Some(message) => LoaderState::AwaitDelete { message, buffer },
            },
            (
                LoaderState::AwaitTags { info, nb_sample, format: _, buffer },
                Event::TagsExtracted { tags },
            ) => LoaderState::AwaitClose {
                pending: Ok(
                    SoundData {
                        sound_tags: tags,
                        snd_info: info,
                        nb_sample,
                        al_buffer: buffer,
                        released: false,
                    },
                ),
            },
            (LoaderState::AwaitDelete { message, buffer: _ }, Event::BufferDeleted) => {
                LoaderState::AwaitClose { pending: Err(LoadError::BackendError { message }) }
            },
            (LoaderState::AwaitClose { pending }, Event::Closed) => LoaderState::Done {
                result: pending,
            },
            (s2, _) => s2,
        };
        let r = Loader { path, state: next_state, history: Ghost(h2) };
        proof {
            if pre.inv() {
                lemma_step_preserves_inv(pre, gev, r);
            }
        }
        r
    }

    /// The action the driver must perform next, or `None` once the
    /// pipeline is finished.
    pub fn current_action(&self) -> (a: Option<Action>)
        requires
            self.inv(),
        ensures
            a == (if self.state is Done {
                None::<Action>
            } else {
                Some(required_action(self.state))
            }),
    {
        match &self.state {
            LoaderState::AwaitContext => Some(Action::CheckContext),
            LoaderState::AwaitOpen => Some(Action::OpenFile),
            LoaderState::AwaitInfo => Some(Action::ReadInfo),
            LoaderState::AwaitSamples { info: _, nb_sample } => Some(
                Action::ReadSamples { count: *nb_sample },
            ),
            LoaderState::AwaitBuffer { .. } => Some(Action::GenBuffer),
            LoaderState::AwaitUpload { info, nb_sample, format, buffer } => {
                proof {
                    assert((info.channels as int) * (info.frames as int) <= 2 * 0xffff_ffff)
                        by (nonlinear_arith)
                        requires
                            info.channels <= 2u32,
                            info.frames <= 0xffff_ffffu32,
                    ;
                }
                let byte_len: u64 = 2 * *nb_sample;
                Some(
                    Action::Upload {
                        buffer: *buffer,
                        format: *format,
                        byte_len,
                        sample_rate: info.samplerate,
                    },
                )
            },
            LoaderState::AwaitStatus { .. } => Some(Action::QueryBackendError),
            LoaderState::AwaitTags { .. } => Some(Action::ExtractTags),
            LoaderState::AwaitDelete { message: _, buffer } => Some(
                Action::DeleteBuffer { buffer: *buffer },
            ),
            LoaderState::AwaitClose { .. } => Some(Action::CloseFile),
            LoaderState::Done { .. } => None,
        }
    }

    /// The pipeline's outcome, once it is finished; `None` while work
    /// remains.
    pub fn take_result(self) -> (r: Option<Result<SoundData, LoadError>>)
        ensures
            r == (match self.state {
                LoaderState::Done { result } => Some(result),
                _ => None::<Result<SoundData, LoadError>>,
            }),
    {
        match self.state {
            LoaderState::Done { result } => Some(result),
            _ => None,
        }
    }
}

/// Every successfully constructed entity is consistent: its sample count
/// is its channel count times its frame count, its buffer is still live,
/// and the file was closed last of all.
pub proof fn lemma_success_is_consistent(l: Loader, sd: SoundData)
    requires
        l.inv(),
        l.state == (LoaderState::Done { result: Ok(sd) }),
    ensures
        sd.nb_sample as int == sd.snd_info.channels as int * sd.snd_info.frames as int,
        !sd.released,
        gen_count(l.history@) == 1,
        del_count(l.history@) == 0,
        l.history@.last() == Action::CloseFile,
{
}

/// No failure leaks a device buffer: whichever error a finished pipeline
/// reports, every buffer allocation in its history is matched by a
/// deletion.
pub proof fn lemma_failure_leaks_no_buffer(l: Loader, e: LoadError)
    requires
        l.inv(),
        l.state == (LoaderState::Done { result: Err(e) }),
    ensures
        gen_count(l.history@) == del_count(l.history@),
{
    let h = l.history@;
    match e {
        LoadError::NoActiveContext => {
            assert(h =~= Seq::empty().push(Action::CheckContext));
            assert(gen_count(Seq::<Action>::empty()) == 0);
            assert(del_count(Seq::<Action>::empty()) == 0);
        },
        LoadError::FileOpenError { .. } => {
            assert(h =~= Seq::empty().push(Action::CheckContext).push(Action::OpenFile));
            assert(gen_count(Seq::<Action>::empty()) == 0);
            assert(del_count(Seq::<Action>::empty()) == 0);
        },
        _ => {
        },
    }
}

/// A failed open allocates nothing: when construction ends with
/// `FileOpenError`, the driver was asked for exactly one context check
/// and one open, and never for a device buffer.
pub proof fn lemma_open_failure_allocates_nothing(l: Loader, d: String)
    requires
        l.inv(),
        l.state == (LoaderState::Done { result: Err(LoadError::FileOpenError { diagnostic: d }) }),
    ensures
        l.history@ =~= seq![Action::CheckContext, Action::OpenFile],
        gen_count(l.history@) == 0,
{
    let h = l.history@;
    assert(h =~= Seq::empty().push(Action::CheckContext).push(Action::OpenFile));
    assert(gen_count(Seq::<Action>::empty()) == 0);
}

/// No context, no file access: when construction ends with
/// `NoActiveContext`, the only action ever asked of the driver was the
/// context check itself — in particular the file was never opened.
pub proof fn lemma_no_context_touches_nothing(l: Loader)
    requires
        l.inv(),
        l.state == (LoaderState::Done { result: Err(LoadError::NoActiveContext) }),
    ensures
        l.history@ =~= seq![Action::CheckContext],
        open_count(l.history@) == 0,
        gen_count(l.history@) == 0,
{
    let h = l.history@;
    assert(h =~= Seq::empty().push(Action::CheckContext));
    assert(open_count(Seq::<Action>::empty()) == 0);
    assert(gen_count(Seq::<Action>::empty()) == 0);
}

/// The format round-trip: the upload performed for a successfully
/// constructed entity carried exactly the format its channel count maps
/// to, together with the entity's buffer, byte length and sample rate.
pub proof fn lemma_upload_format_round_trip(l: Loader, sd: SoundData)
    requires
        l.inv(),
        l.state == (LoaderState::Done { result: Ok(sd) }),
    ensures
        spec_map_channels(sd.snd_info.channels) matches Some(f) && l.history@.contains(
            Action::Upload {
                buffer: sd.al_buffer,
                format: f,
                byte_len: (2 * sd.nb_sample) as u64,
                sample_rate: sd.snd_info.samplerate,
            },
        ),
{
}

/// A backend failure leaks nothing: when construction ends with
/// `BackendError`, exactly one device buffer was allocated and exactly
/// one was deleted, and the file was still closed last of all.
pub proof fn lemma_backend_failure_leaks_nothing(l: Loader, m: String)
    requires
        l.inv(),
        l.state == (LoaderState::Done { result: Err(LoadError::BackendError { message: m }) }),
    ensures
        gen_count(l.history@) == 1,
        del_count(l.history@) == 1,
        l.history@.last() == Action::CloseFile,
{
}

/// The file is closed on every path that opened it: whichever outcome a
/// finished pipeline reports other than `NoActiveContext` and
/// `FileOpenError` — the two that never reach the file — its last action
/// was the close.
pub proof fn lemma_file_always_closed(l: Loader, result: Result<SoundData, LoadError>)
    requires
        l.inv(),
        l.state == (LoaderState::Done { result }),
        !(result matches Err(LoadError::NoActiveContext)),
        !(result matches Err(LoadError::FileOpenError { .. })),
    ensures
        l.history@.last() == Action::CloseFile,
{
}

impl SoundData {
    /// Begin constructing a new `SoundData` from the file at `path`.
    ///
    /// The returned loader awaits the backend's context status: nothing,
    /// the file system included, is touched before that answer comes in.
    pub fn new(path: String) -> (r: Loader)
        ensures
            r.path == path,
            r.state == LoaderState::AwaitContext,
            r.history@ == Seq::<Action>::empty(),
            r.inv(),
    {
        Loader { path, state: LoaderState::AwaitContext, history: Ghost(Seq::empty()) }
    }
}

} // verus!
