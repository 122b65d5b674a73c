//! Bitmap-indexed sparse array primitive for a hash array mapped trie.
//!
//! A trie node stores only the children that are actually present, in a
//! densely packed array.  A 32-bit presence bitmap records which of the 32
//! possible child slots are materialized, and the population count of the
//! bits below a slot gives the slot's position in the packed array.  The
//! companion hash module slices a 64-bit key hash into 5-bit branch
//! selectors, one per trie level.

pub mod bitmap;
pub mod bitops;
pub mod hash;
