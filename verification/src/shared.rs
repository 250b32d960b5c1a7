//! Shared ownership of one sound-data entity.
//!
//! Several playback instances hold the same immutable [`SoundData`]; the
//! device buffer must be released exactly once, after the last holder is
//! gone. The count lives here, outside the entity, so the hard resource
//! logic stays in one place.

use vstd::prelude::*;
use crate::protocol::Action;
use crate::sound_data::SoundData;
use crate::sound_data::release_rel;

verus! {

/// One sound-data entity together with the number of holders that still
/// reference it. The entity's buffer is released when — and only when —
/// the holder count drops to zero.
pub struct SharedSoundData {
    /// The shared, immutable entity.
    pub data: SoundData,
    /// How many holders still reference it.
    pub holders: u32,
}

/// How one holder's release relates the wrapper's states: the count drops
/// by one; while holders remain the entity is untouched and nothing is
/// deleted; the last holder releases the entity's buffer.
pub open spec fn holder_release_rel(
    pre: SharedSoundData,
    post: SharedSoundData,
    a: Option<Action>,
) -> bool {
    &&& pre.holders >= 1
    &&& post.holders == pre.holders - 1
    &&& (pre.holders > 1 ==> post.data == pre.data && a is None)
    &&& (pre.holders == 1 ==> release_rel(pre.data, post.data, a))
}

impl SharedSoundData {
    /// Wrap a freshly constructed entity for sharing, with one holder.
    pub fn new(data: SoundData) -> (r: SharedSoundData)
        ensures
            r.data == data,
            r.holders == 1,
    {
        SharedSoundData { data, holders: 1 }
    }

    /// Register one more holder of the entity.
    pub fn acquire(&mut self)
        requires
            old(self).holders < u32::MAX,
        ensures
            final(self).data == old(self).data,
            final(self).holders == old(self).holders + 1,
    {
        self.holders = self.holders + 1;
    }

    /// Drop one holder. Only the last holder's release yields the buffer
    /// deletion the driver must perform; every earlier one yields nothing
    /// and leaves the entity untouched.
    pub fn release_holder(&mut self) -> (a: Option<Action>)
        requires
            old(self).holders >= 1,
        ensures
            holder_release_rel(*old(self), *final(self), a),
    {
        self.holders = self.holders - 1;
        if self.holders == 0 {
            self.data.release()
        } else {
            None
        }
    }
}

/// With two holders, the buffer is deleted exactly once, and only after
/// both are released: the first release yields nothing, the second yields
/// the one deletion.
pub proof fn lemma_two_holders_one_deletion(
    s0: SharedSoundData,
    s1: SharedSoundData,
    s2: SharedSoundData,
    a1: Option<Action>,
    a2: Option<Action>,
)
    requires
        s0.holders == 2,
        !s0.data.released,
        holder_release_rel(s0, s1, a1),
        holder_release_rel(s1, s2, a2),
    ensures
        a1 is None,
        a2 == Some(Action::DeleteBuffer { buffer: s0.data.al_buffer }),
{
}

} // verus!
