//! The session's status-effect list: up to thirty concurrent effects with
//! a dirty flag that gates whether a refresh segment is sent, so redundant
//! traffic is avoided when nothing changed since the last tick.

use vstd::prelude::*;

use crate::common::ObjectId;

verus! {

/// Largest number of concurrent status effects a session tracks.
pub const MAX_STATUS_EFFECTS: usize = 30;

/// One live status effect. The duration is carried as a raw 32-bit word
/// (an IEEE-754 bit pattern on the wire); the session only stores and
/// forwards it.
#[derive(Debug, Clone, Copy, PartialEq, Eq, Structural, Default)]
pub struct StatusEffect {
    pub effect_id: u16,
    pub param: u16,
    pub duration: u32,
    pub source_actor_id: ObjectId,
}

/// The status-effect list with its dirty flag.
#[derive(Debug, Clone, PartialEq, Eq)]
pub struct StatusEffects {
    pub status_effects: Vec<StatusEffect>,
    /// Whether the list changed since the last refresh segment was sent.
    pub dirty: bool,
}

impl Default for StatusEffects {
    /// An empty, clean list.
    fn default() -> (r: StatusEffects)
        ensures
            r.status_effects@.len() == 0,
            !r.dirty,
    {
        StatusEffects { status_effects: Vec::new(), dirty: false }
    }
}

impl StatusEffects {
    /// Adds an effect when a slot is free and marks the list dirty; a full
    /// list is left unchanged.
    pub fn add(&mut self, effect: StatusEffect)
        ensures
            old(self).status_effects@.len() < MAX_STATUS_EFFECTS ==> final(self).status_effects@
                == old(self).status_effects@.push(effect) && final(self).dirty,
            old(self).status_effects@.len() >= MAX_STATUS_EFFECTS ==> *final(self) == *old(self),
    {
        if self.status_effects.len() < MAX_STATUS_EFFECTS {
            self.status_effects.push(effect);
            self.dirty = true;
        }
    }

    /// Removes every effect with the given id and marks the list dirty
    /// when one was present.
    pub fn remove(&mut self, effect_id: u16)
        ensures
            final(self).status_effects@ == old(self).status_effects@.filter(
                (|e: StatusEffect| e.effect_id != effect_id),
            ),
            final(self).dirty == (old(self).dirty || old(self).status_effects@.len()
                != final(self).status_effects@.len()),
    {
        let n = self.status_effects.len();
        let mut kept: Vec<StatusEffect> = Vec::new();
        let mut i: usize = 0;
        proof {
            assert(self.status_effects@.subrange(0, 0) =~= Seq::<StatusEffect>::empty());
            assert(Seq::<StatusEffect>::empty().filter(|e: StatusEffect| e.effect_id != effect_id)
                =~= Seq::<StatusEffect>::empty());
        }
        while i < n
            invariant
                i <= n,
                n == self.status_effects@.len(),
                *self == *old(self),
                kept@ == self.status_effects@.subrange(0, i as int).filter(
                    |e: StatusEffect| e.effect_id != effect_id,
                ),
            decreases n - i,
        {
            let ghost prefix = self.status_effects@.subrange(0, i as int);
            proof {
                assert(self.status_effects@.subrange(0, i as int + 1) =~= prefix.push(
                    self.status_effects@[i as int],
                ));
                prefix.lemma_filter_push(
                    self.status_effects@[i as int],
                    |e: StatusEffect| e.effect_id != effect_id,
                );
            }
            let e = self.status_effects[i];
            if e.effect_id != effect_id {
                kept.push(e);
            }
            i = i + 1;
        }
        proof {
            assert(self.status_effects@.subrange(0, n as int) =~= self.status_effects@);
        }
        if kept.len() != self.status_effects.len() {
            self.dirty = true;
        }
        self.status_effects = kept;
    }
}

} // verus!
