//! Per-speaker gain table.
//!
//! Maps a speaker identity to a linear gain, stored as the bit pattern of an
//! IEEE-754 single-precision value. A speaker with no entry has the default
//! unity gain: readers treat absence as gain 1.0, never as an error.

use vstd::prelude::*;

verus! {

broadcast use vstd::std_specs::hash::group_hash_axioms;

/// Bit pattern of the IEEE-754 single-precision value 1.0, the default gain.
pub const GAIN_UNITY_BITS: u32 = 0x3F80_0000;

/// The gain a table with contents `m` yields for `speaker`: the stored
/// value, or unity if the speaker has no entry.
pub open spec fn gain_for(m: Map<u64, u32>, speaker: u64) -> u32 {
    if m.contains_key(speaker) {
        m[speaker]
    } else {
        GAIN_UNITY_BITS
    }
}

/// Mapping from speaker identity to gain bits, mutated by control requests
/// and read on every audio frame.
pub struct GainTable {
    map: std::collections::HashMap<u64, u32>,
}

impl GainTable {
    pub closed spec fn view(&self) -> Map<u64, u32> {
        self.map@
    }

    pub fn new() -> (t: GainTable)
        ensures
            t@ == Map::<u64, u32>::empty(),
    {
        GainTable { map: std::collections::HashMap::new() }
    }

    /// Stored gain for `speaker`, or unity if absent. Never errors.
    pub fn get(&self, speaker: u64) -> (g: u32)
        ensures
            g == gain_for(self@, speaker),
    {
        match self.map.get(&speaker) {
            Some(g) => *g,
            None => GAIN_UNITY_BITS,
        }
    }

    /// Unconditional upsert, visible to every subsequent `get`.
    pub fn set(&mut self, speaker: u64, gain_bits: u32)
        ensures
            final(self)@ == old(self)@.insert(speaker, gain_bits),
    {
        self.map.insert(speaker, gain_bits);
    }

    /// Inserts unity gain only if no entry exists; used on a speaker's Join.
    pub fn init_default_if_absent(&mut self, speaker: u64)
        ensures
            final(self)@ == if old(self)@.contains_key(speaker) {
                old(self)@
            } else {
                old(self)@.insert(speaker, GAIN_UNITY_BITS)
            },
            gain_for(final(self)@, speaker) == gain_for(old(self)@, speaker),
    {
        if !self.map.contains_key(&speaker) {
            self.map.insert(speaker, GAIN_UNITY_BITS);
        } else {
            proof {
                assert(old(self)@ =~= self@);
            }
        }
    }
}

/// Before any `set` or `init_default_if_absent` touches a speaker — in
/// particular on a fresh table — `get` yields unity gain.
pub proof fn lemma_fresh_table_unity(speaker: u64)
    ensures
        gain_for(Map::<u64, u32>::empty(), speaker) == GAIN_UNITY_BITS,
{
}

} // verus!
