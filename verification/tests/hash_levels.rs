use imhamt::hash::{HashedKey, LevelIndex};
use std::collections::hash_map::DefaultHasher;
use std::marker::PhantomData;

#[test]
fn hash_is_deterministic() {
    let h1 = HashedKey::compute(PhantomData::<DefaultHasher>, &100u32);
    let h2 = HashedKey::compute(PhantomData::<DefaultHasher>, &100u32);
    assert_eq!(h1, h2)
}

#[test]
fn level_extraction_low_groups() {
    // hash ...0011_1110_0001: level 0 reads bits [4:0], level 1 bits [9:5]
    let h = HashedKey(0x0000_0000_0000_03E1);
    assert_eq!(h.level_index(0).0, 1);
    assert_eq!(h.level_index(1).0, 31);
    assert_eq!(h.level_index(2).0, 0);
}

#[test]
fn level_extraction_walks_all_groups() {
    // twelve full 5-bit groups holding 1, 2, ..., 12
    let mut h: u64 = 0;
    for level in 0..12u64 {
        h |= (level + 1) << (level * 5);
    }
    let hashed = HashedKey(h);
    for level in 0..12usize {
        assert_eq!(hashed.level_index(level).0, level + 1);
    }
}

#[test]
fn level_index_stays_in_range() {
    let h = HashedKey(u64::MAX);
    for level in 0..20usize {
        let idx = h.level_index(level).0;
        assert!(idx < 32);
    }
    for level in 0..12usize {
        assert_eq!(h.level_index(level).0, 31);
    }
    // level 12 only has the 4 leftover bits [63:60]
    assert_eq!(h.level_index(12).0, 15);
}

#[test]
fn level_beyond_twelve_wraps_the_shift() {
    // at level 13 the shift is 65, which wraps to 1: bits [5:1]
    let h = HashedKey(0b10_1010);
    assert_eq!(h.level_index(13).0, 0b10101);
}

#[test]
fn mask_is_single_bit() {
    assert_eq!(LevelIndex(0).mask(), 1);
    assert_eq!(LevelIndex(3).mask(), 8);
    assert_eq!(LevelIndex(31).mask(), 0x8000_0000);
}

#[test]
fn mask_wraps_modulo_32() {
    assert_eq!(LevelIndex(35).mask(), LevelIndex(3).mask());
}
