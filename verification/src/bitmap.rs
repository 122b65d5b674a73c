//! helpers and type for the HAMT bitmap
//!
//! The bitmap map a index into the sparse array index
//!
//! The number of bits set represent the number of elements
//! currently present in the array
//!
//! e.g for the following elements and their indices:
//!
//! ```text
//!     [ (0b0010_0000, x) ]
//! ```
//!
//! will map into this bitmap:
//!
//! ```text
//!     0b0010_0000 (1 bit set)
//! ```
//!
//! and a vector of 1 element containing x
//!
//! ```text
//!     | x |
//! ```
//!
//! or the following elements and their indices:
//!
//! ```text
//!     [ (0b0010_0000, x), (0b1000_0000, y), (0b0000_0010, z) ]
//! ```
//!
//! will map into this bitmap:
//!
//! ```text
//!     0b1010_0010 (3 bit set)
//! ```
//!
//! and a vector of 3 elements containing x, y, z in the following order:
//!
//! ```text
//!     | z | x | y |
//! ```

use crate::bitops::lemma_all_bits_clear_is_zero;
use crate::bitops::lemma_clear_word;
use crate::bitops::lemma_masked_rank;
use crate::bitops::lemma_pop_count_zero;
use crate::bitops::lemma_rank_below_agree;
use crate::bitops::lemma_rank_below_bound;
use crate::bitops::lemma_rank_below_zero;
use crate::bitops::lemma_set_word;
use crate::bitops::lemma_single_bit_word;
use crate::bitops::lemma_test_bit;
use crate::bitops::lemma_zero_has_no_bits;
use crate::bitops::nth_bit;
use crate::bitops::pop_count;
use crate::bitops::rank_below;
use crate::hash::slot;
use crate::hash::spec_mask;
use crate::hash::LevelIndex;
use vstd::prelude::*;

verus! {

/// Reserved sentinel for "slot absent".  A 32-bit bitmap holds at most 32
/// elements, so a legitimate sparse position never exceeds 31 and can never
/// collide with this value.
pub const NOT_FOUND: usize = 0xff;

/// The sparse array position of level index `i` in the bitmap word `w`:
/// the rank of its slot (number of present slots below it) when the slot
/// is present, and the sentinel when it is absent.
pub open spec fn spec_sparse_index(w: u32, i: usize) -> usize {
    if nth_bit(w, slot(i)) {
        rank_below(w, slot(i)) as usize
    } else {
        NOT_FOUND
    }
}

/// The position at which a new element for level index `i` must be placed
/// in the sparse array to keep it in ascending slot order: the rank of its
/// slot, with no presence test.
pub open spec fn spec_insert_pos(w: u32, i: usize) -> usize {
    rank_below(w, slot(i)) as usize
}

/// This is a node size bitmap to allow to find element
/// in the node's array
#[derive(Debug, Clone, Copy, PartialEq, Eq, Structural)]
pub struct SmallBitmap(u32);

impl View for SmallBitmap {
    type V = u32;

    closed spec fn view(&self) -> u32 {
        self.0
    }
}

/// Count the set bits of `w` by walking its 32 bit positions.
fn count_set_bits(w: u32) -> (r: usize)
    ensures
        r == pop_count(w),
{
    let mut count: usize = 0;
    let mut j: u32 = 0;
    while j < 32
        invariant
            j <= 32,
            count <= j,
            count == rank_below(w, j),
        decreases 32 - j,
    {
        if (w >> j) & 1 == 1 {
            count = count + 1;
        }
        j = j + 1;
    }
    count
}

impl SmallBitmap {
    /// Create a new bitmap with no element
    pub fn new() -> (r: Self)
        ensures
            r@ == 0u32,
    {
        SmallBitmap(0u32)
    }

    pub fn is_empty(self) -> (r: bool)
        ensures
            r <==> self@ == 0,
            r <==> pop_count(self@) == 0,
    {
        proof {
            lemma_pop_count_zero();
            if pop_count(self.0) == 0 {
                lemma_rank_below_zero(self.0, 32);
                lemma_all_bits_clear_is_zero(self.0);
            }
        }
        self.0 == 0
    }

    pub fn present(self) -> (r: usize)
        ensures
            r == pop_count(self@),
    {
        count_set_bits(self.0)
    }

    /// Create a new bitmap with 1 element set
    pub fn once(b: LevelIndex) -> (r: Self)
        ensures
            r@ == spec_mask(b.0),
            pop_count(r@) == 1,
            forall|j: u32| nth_bit(r@, j) == (j == slot(b.0)),
    {
        proof {
            lemma_single_bit_word(slot(b.0));
        }
        SmallBitmap(b.mask())
    }

    /// Get the sparse array index from a level index
    pub fn get_index_sparse(self, b: LevelIndex) -> (r: ArrayIndex)
        ensures
            r@ == spec_sparse_index(self@, b.0),
            nth_bit(self@, slot(b.0)) ==> r@ == rank_below(self@, slot(b.0)) && r@ < 32,
            !nth_bit(self@, slot(b.0)) ==> r@ == NOT_FOUND,
    {
        proof {
            lemma_test_bit(self.0, slot(b.0));
            lemma_masked_rank(self.0, slot(b.0));
            lemma_rank_below_bound(self.0, slot(b.0));
        }
        let mask = b.mask();
        if self.0 & mask == 0 {
            ArrayIndex::not_found()
        } else {
            ArrayIndex::create(count_set_bits(self.0 & (mask - 1)))
        }
    }

    /// Get the position of a level index in the sparse array for insertion
    pub fn get_sparse_pos(self, b: LevelIndex) -> (r: ArrayIndex)
        ensures
            r@ == spec_insert_pos(self@, b.0),
            r@ < 32,
    {
        proof {
            lemma_masked_rank(self.0, slot(b.0));
            lemma_rank_below_bound(self.0, slot(b.0));
        }
        let mask = b.mask();
        ArrayIndex::create(count_set_bits(self.0 & (mask - 1)))
    }

    /// Check if the element exist
    pub fn is_set(self, b: LevelIndex) -> (r: bool)
        ensures
            r == nth_bit(self@, slot(b.0)),
    {
        proof {
            lemma_test_bit(self.0, slot(b.0));
        }
        (self.0 & b.mask()) != 0
    }

    pub fn set_index(self, b: LevelIndex) -> (r: Self)
        ensures
            r@ == (self@ | spec_mask(b.0)),
            nth_bit(r@, slot(b.0)),
            forall|j: u32| nth_bit(r@, j) == (nth_bit(self@, j) || j == slot(b.0)),
            pop_count(r@) == pop_count(self@) + (if nth_bit(self@, slot(b.0)) {
                0int
            } else {
                1int
            }),
    {
        proof {
            lemma_set_word(self.0, slot(b.0));
        }
        SmallBitmap(self.0 | b.mask())
    }

    pub fn clear_index(self, b: LevelIndex) -> (r: Self)
        ensures
            r@ == (self@ & !spec_mask(b.0)),
            !nth_bit(r@, slot(b.0)),
            forall|j: u32| nth_bit(r@, j) == (nth_bit(self@, j) && j != slot(b.0)),
            pop_count(self@) == pop_count(r@) + (if nth_bit(self@, slot(b.0)) {
                1int
            } else {
                0int
            }),
    {
        proof {
            lemma_clear_word(self.0, slot(b.0));
        }
        SmallBitmap(self.0 & !b.mask())
    }
}

/// Sparse index in the array.
///
/// The array elements are allocated on demand,
/// and their presence is indicated by the bitmap
#[derive(Debug, Clone, Copy)]
pub struct ArrayIndex(usize);

impl View for ArrayIndex {
    type V = usize;

    closed spec fn view(&self) -> usize {
        self.0
    }
}

impl ArrayIndex {
    pub fn is_not_found(self) -> (r: bool)
        ensures
            r <==> self@ == NOT_FOUND,
    {
        self.0 == 0xff
    }

    pub fn get_found(self) -> (r: usize)
        ensures
            r == self@,
    {
        self.0
    }

    pub fn not_found() -> (r: Self)
        ensures
            r@ == NOT_FOUND,
    {
        ArrayIndex(0xff)
    }

    pub fn create(s: usize) -> (r: Self)
        ensures
            r@ == s,
    {
        ArrayIndex(s)
    }
}

/// Law: setting a slot makes it present, clearing a slot makes it absent.
pub proof fn lemma_set_clear_present(w: u32, i: usize)
    ensures
        nth_bit(w | spec_mask(i), slot(i)),
        !nth_bit(w & !spec_mask(i), slot(i)),
{
    lemma_set_word(w, slot(i));
    lemma_clear_word(w, slot(i));
}

/// Law: the sparse position is the sentinel exactly when the slot is
/// absent; when the slot is present it is the number of present slots
/// strictly below it.
pub proof fn lemma_sparse_index_absent_iff_sentinel(w: u32, i: usize)
    ensures
        (spec_sparse_index(w, i) == NOT_FOUND) <==> !nth_bit(w, slot(i)),
        nth_bit(w, slot(i)) ==> spec_sparse_index(w, i) == rank_below(w, slot(i)),
{
    lemma_rank_below_bound(w, slot(i));
}

/// Law: the insertion position anticipates the post-insert rank: it equals
/// the sparse position of the slot once the slot has been set.
pub proof fn lemma_insert_pos_anticipates_rank(w: u32, i: usize)
    ensures
        spec_insert_pos(w, i) == spec_sparse_index(w | spec_mask(i), i),
{
    let s = slot(i);
    lemma_set_word(w, s);
    lemma_rank_below_agree(w | spec_mask(i), w, s);
}

/// Law: setting a slot twice equals setting it once, and clearing a slot
/// twice equals clearing it once.
pub proof fn lemma_set_clear_idempotent(w: u32, i: usize)
    ensures
        ((w | spec_mask(i)) | spec_mask(i)) == (w | spec_mask(i)),
        ((w & !spec_mask(i)) & !spec_mask(i)) == (w & !spec_mask(i)),
{
    assert(((w | spec_mask(i)) | spec_mask(i)) == (w | spec_mask(i))) by (bit_vector);
    assert(((w & !spec_mask(i)) & !spec_mask(i)) == (w & !spec_mask(i))) by (bit_vector);
}

/// Law: the empty bitmap has no slot present and population count zero.
pub proof fn lemma_empty_bitmap()
    ensures
        pop_count(0u32) == 0,
        forall|j: u32| !nth_bit(0u32, j),
{
    lemma_pop_count_zero();
    lemma_zero_has_no_bits();
}

/// Law: a singleton bitmap is the empty bitmap with the one slot set, and
/// its population count is one.
pub proof fn lemma_singleton(i: usize)
    ensures
        spec_mask(i) == (0u32 | spec_mask(i)),
        pop_count(spec_mask(i)) == 1,
{
    assert(spec_mask(i) == (0u32 | spec_mask(i))) by (bit_vector);
    lemma_single_bit_word(slot(i));
}

} // verus!
