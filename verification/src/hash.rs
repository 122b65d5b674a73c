//! Hash decomposition: a 64-bit key fingerprint and its per-level 5-bit
//! branch selectors.
//!
//! A trie consumes the hash five bits at a time, so one 64-bit hash routes
//! a key through twelve full levels (bits `[level*5, level*5 + 5)`); beyond
//! that the shift wraps modulo 64 and the extracted window is degenerate,
//! so deeper levels must not rely on it for uniqueness.

use core::marker::PhantomData;
use std::hash::{Hash, Hasher};
use vstd::arithmetic::div_mod::lemma_mul_mod_noop_left;
use vstd::prelude::*;

verus! {

/// The branch slot a level index addresses: its value reduced mod 32,
/// so always one of the 32 child positions.
pub open spec fn slot(i: usize) -> u32 {
    (i % 32) as u32
}

/// The single-bit presence mask of a level index.
pub open spec fn spec_mask(i: usize) -> u32 {
    1u32 << slot(i)
}

/// The 5-bit branch selector of hash `h` at `level`: bits
/// `[level*5, level*5 + 5)`, with the shift wrapping modulo 64.
pub open spec fn spec_level_index(h: u64, level: usize) -> usize {
    ((h >> (((level * 5) % 64) as u64)) & 0x1f) as usize
}

/// Hash of a key
#[derive(Debug, Clone, Copy, PartialEq, Eq, Structural)]
pub struct HashedKey(pub u64);

impl HashedKey {
    /// Compute the HashedKey from a key 'k'
    ///
    /// Relies on std::hash: `H::default()` builds the hasher state,
    /// `Hash::hash` feeds the key into it, and `Hasher::finish` yields the
    /// 64-bit digest.  What comes back is whatever the chosen hasher
    /// computes; nothing is assumed of it here.
    #[verifier::external_body]
    pub fn compute<H: Hasher + Default, K: Hash>(_h: PhantomData<H>, k: &K) -> Self {
        let mut hs = H::default();
        k.hash(&mut hs);
        HashedKey(hs.finish())
    }

    /// get the index associated with a specific level
    #[must_use]
    pub fn level_index(self, level: usize) -> (r: LevelIndex)
        ensures
            r.0 == spec_level_index(self.0, level),
            r.0 < 32,
    {
        proof {
            lemma_mul_mod_noop_left(level as int, 5, 64);
        }
        // group of 5 bits
        let shift: usize = (level % 64) * 5 % 64;
        let idx: usize = ((self.0 >> (shift as u64)) & 0x1f) as usize;
        proof {
            let h = self.0;
            let s = ((level * 5) % 64) as u64;
            assert((h >> s) & 0x1f < 32) by (bit_vector);
        }
        LevelIndex(idx)
    }
}

/// Hash value subgroup per level used as Index for children
///
/// A number that is between 0 and the maximum number of children
/// elements in a node.
#[derive(Debug, Clone, Copy, PartialEq, Eq, Structural)]
pub struct LevelIndex(pub usize);

impl LevelIndex {
    #[must_use]
    pub fn mask(self) -> (r: u32)
        ensures
            r == spec_mask(self.0),
            r != 0,
    {
        let m: u32 = 1u32 << ((self.0 % 32) as u32);
        proof {
            let s = slot(self.0);
            assert(s < 32 ==> 1u32 << s != 0) by (bit_vector);
        }
        m
    }
}

} // verus!
