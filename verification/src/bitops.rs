//! Bit-level model of a 32-bit word: individual bits, and the rank
//! (number of set bits strictly below a position) that maps a sparse
//! slot to its dense array position.

use vstd::prelude::*;

verus! {

/// Bit `j` of the word `w` (false for any `j >= 32`).
pub open spec fn nth_bit(w: u32, j: u32) -> bool {
    (w >> j) & 1 == 1
}

/// Number of set bits of `w` with position strictly below `j`.
pub open spec fn rank_below(w: u32, j: u32) -> nat
    decreases j,
{
    if j == 0 {
        0
    } else {
        rank_below(w, (j - 1) as u32) + (if nth_bit(w, (j - 1) as u32) {
            1nat
        } else {
            0nat
        })
    }
}

/// Number of set bits of `w`.
pub open spec fn pop_count(w: u32) -> nat {
    rank_below(w, 32)
}

/// The rank below `j` never exceeds `j`: fewer than `j` bits lie below `j`.
pub proof fn lemma_rank_below_bound(w: u32, j: u32)
    ensures
        rank_below(w, j) <= j,
    decreases j,
{
    if j != 0 {
        lemma_rank_below_bound(w, (j - 1) as u32);
    }
}

/// Words that agree on every bit below `j` have the same rank below `j`.
pub proof fn lemma_rank_below_agree(a: u32, b: u32, j: u32)
    requires
        forall|k: u32| k < j ==> nth_bit(a, k) == nth_bit(b, k),
    ensures
        rank_below(a, j) == rank_below(b, j),
    decreases j,
{
    if j != 0 {
        lemma_rank_below_agree(a, b, (j - 1) as u32);
    }
}

/// If every bit of `w` in `[i, j)` is clear, the rank does not grow there.
pub proof fn lemma_rank_below_flat(w: u32, i: u32, j: u32)
    requires
        i <= j,
        forall|k: u32| i <= k < j ==> !nth_bit(w, k),
    ensures
        rank_below(w, j) == rank_below(w, i),
    decreases j,
{
    if j != i {
        lemma_rank_below_flat(w, i, (j - 1) as u32);
    }
}

/// If `a` and `b` agree everywhere except at position `p`, where `a` has the
/// bit and `b` does not, then `a`'s rank exceeds `b`'s by one once `j` passes `p`.
pub proof fn lemma_rank_below_one_more(a: u32, b: u32, p: u32, j: u32)
    requires
        nth_bit(a, p),
        !nth_bit(b, p),
        forall|k: u32| k != p ==> nth_bit(a, k) == nth_bit(b, k),
    ensures
        rank_below(a, j) == rank_below(b, j) + (if p < j {
            1int
        } else {
            0int
        }),
    decreases j,
{
    if j != 0 {
        lemma_rank_below_one_more(a, b, p, (j - 1) as u32);
    }
}

/// A rank of zero below `j` means every bit below `j` is clear.
pub proof fn lemma_rank_below_zero(w: u32, j: u32)
    requires
        rank_below(w, j) == 0,
    ensures
        forall|k: u32| k < j ==> !nth_bit(w, k),
    decreases j,
{
    if j != 0 {
        lemma_rank_below_zero(w, (j - 1) as u32);
    }
}

/// A word whose 32 bits are all clear is zero.
pub proof fn lemma_all_bits_clear_is_zero(w: u32)
    requires
        forall|k: u32| k < 32 ==> !nth_bit(w, k),
    ensures
        w == 0,
{
    assert(w == 0) by (bit_vector)
        requires
            !nth_bit(w, 0) && !nth_bit(w, 1) && !nth_bit(w, 2) && !nth_bit(w, 3) && !nth_bit(
                w,
                4,
            ) && !nth_bit(w, 5) && !nth_bit(w, 6) && !nth_bit(w, 7) && !nth_bit(w, 8) && !nth_bit(
                w,
                9,
            ) && !nth_bit(w, 10) && !nth_bit(w, 11) && !nth_bit(w, 12) && !nth_bit(w, 13)
                && !nth_bit(w, 14) && !nth_bit(w, 15) && !nth_bit(w, 16) && !nth_bit(w, 17)
                && !nth_bit(w, 18) && !nth_bit(w, 19) && !nth_bit(w, 20) && !nth_bit(w, 21)
                && !nth_bit(w, 22) && !nth_bit(w, 23) && !nth_bit(w, 24) && !nth_bit(w, 25)
                && !nth_bit(w, 26) && !nth_bit(w, 27) && !nth_bit(w, 28) && !nth_bit(w, 29)
                && !nth_bit(w, 30) && !nth_bit(w, 31),
    ;
}

/// The zero word has no set bits.
pub proof fn lemma_zero_has_no_bits()
    by (bit_vector)
    ensures
        forall|k: u32| !nth_bit(0u32, k),
{
}

/// The zero word has population count zero.
pub proof fn lemma_pop_count_zero()
    ensures
        pop_count(0u32) == 0,
{
    lemma_zero_has_no_bits();
    lemma_rank_below_flat(0u32, 0, 32);
}

proof fn lemma_set_bit(w: u32, s: u32, j: u32)
    by (bit_vector)
    requires
        s < 32,
    ensures
        nth_bit(w | (1u32 << s), j) == (nth_bit(w, j) || j == s),
{
}

proof fn lemma_clear_bit(w: u32, s: u32, j: u32)
    by (bit_vector)
    requires
        s < 32,
    ensures
        nth_bit(w & !(1u32 << s), j) == (nth_bit(w, j) && j != s),
{
}

proof fn lemma_single_bit(s: u32, j: u32)
    by (bit_vector)
    requires
        s < 32,
    ensures
        nth_bit(1u32 << s, j) == (j == s),
{
}

proof fn lemma_low_mask_bit(w: u32, s: u32, j: u32)
    by (bit_vector)
    requires
        s < 32,
    ensures
        nth_bit(w & (((1u32 << s) - 1) as u32), j) == (j < s && nth_bit(w, j)),
{
}

proof fn lemma_or_present_bit_noop(w: u32, s: u32)
    by (bit_vector)
    requires
        s < 32,
        nth_bit(w, s),
    ensures
        w | (1u32 << s) == w,
{
}

proof fn lemma_clear_absent_bit_noop(w: u32, s: u32)
    by (bit_vector)
    requires
        s < 32,
        !nth_bit(w, s),
    ensures
        w & !(1u32 << s) == w,
{
}

/// Testing the word against a single-bit mask tests that bit.
pub proof fn lemma_test_bit(w: u32, s: u32)
    requires
        s < 32,
    ensures
        (w & (1u32 << s) == 0) <==> !nth_bit(w, s),
{
    assert((w & (1u32 << s) == 0) <==> !nth_bit(w, s)) by (bit_vector)
        requires
            s < 32,
    ;
}

/// Masking the word below bit `s` keeps exactly the bits below `s`,
/// so its population count is the rank of `s`.
pub proof fn lemma_masked_rank(w: u32, s: u32)
    requires
        s < 32,
    ensures
        pop_count(w & (((1u32 << s) - 1) as u32)) == rank_below(w, s),
{
    let m = w & (((1u32 << s) - 1) as u32);
    assert forall|j: u32| nth_bit(m, j) == (j < s && nth_bit(w, j)) by {
        lemma_low_mask_bit(w, s, j);
    }
    lemma_rank_below_agree(m, w, s);
    lemma_rank_below_flat(m, s, 32);
}

/// Setting bit `s` of `w`: bit `s` becomes set, every other bit is kept,
/// and the population count grows by one exactly when the bit was clear.
pub proof fn lemma_set_word(w: u32, s: u32)
    requires
        s < 32,
    ensures
        nth_bit(w | (1u32 << s), s),
        forall|j: u32| nth_bit(w | (1u32 << s), j) == (nth_bit(w, j) || j == s),
        pop_count(w | (1u32 << s)) == pop_count(w) + (if nth_bit(w, s) {
            0int
        } else {
            1int
        }),
{
    let ws = w | (1u32 << s);
    assert forall|j: u32| nth_bit(ws, j) == (nth_bit(w, j) || j == s) by {
        lemma_set_bit(w, s, j);
    }
    if nth_bit(w, s) {
        lemma_or_present_bit_noop(w, s);
    } else {
        lemma_rank_below_one_more(ws, w, s, 32);
    }
}

/// Clearing bit `s` of `w`: bit `s` becomes clear, every other bit is kept,
/// and the population count shrinks by one exactly when the bit was set.
pub proof fn lemma_clear_word(w: u32, s: u32)
    requires
        s < 32,
    ensures
        !nth_bit(w & !(1u32 << s), s),
        forall|j: u32| nth_bit(w & !(1u32 << s), j) == (nth_bit(w, j) && j != s),
        pop_count(w) == pop_count(w & !(1u32 << s)) + (if nth_bit(w, s) {
            1int
        } else {
            0int
        }),
{
    let wc = w & !(1u32 << s);
    assert forall|j: u32| nth_bit(wc, j) == (nth_bit(w, j) && j != s) by {
        lemma_clear_bit(w, s, j);
    }
    if nth_bit(w, s) {
        lemma_rank_below_one_more(w, wc, s, 32);
    } else {
        lemma_clear_absent_bit_noop(w, s);
    }
}

/// A word with a single bit set has exactly that bit, and population count one.
pub proof fn lemma_single_bit_word(s: u32)
    requires
        s < 32,
    ensures
        forall|j: u32| nth_bit(1u32 << s, j) == (j == s),
        pop_count(1u32 << s) == 1,
{
    assert forall|j: u32| nth_bit(1u32 << s, j) == (j == s) by {
        lemma_single_bit(s, j);
    }
    lemma_zero_has_no_bits();
    lemma_pop_count_zero();
    lemma_rank_below_one_more(1u32 << s, 0u32, s, 32);
}

} // verus!
