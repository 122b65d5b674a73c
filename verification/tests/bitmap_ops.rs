use imhamt::bitmap::SmallBitmap;
use imhamt::hash::LevelIndex;

#[test]
fn set_then_present_clear_then_absent() {
    let b = SmallBitmap::new().set_index(LevelIndex(9)).set_index(LevelIndex(20));
    for i in 0..32usize {
        assert!(b.set_index(LevelIndex(i)).is_set(LevelIndex(i)));
        assert!(!b.clear_index(LevelIndex(i)).is_set(LevelIndex(i)));
    }
}

#[test]
fn population_grows_only_on_new_slots() {
    let b = SmallBitmap::new();
    let b1 = b.set_index(LevelIndex(4));
    assert_eq!(b1.present(), b.present() + 1);
    let b2 = b1.set_index(LevelIndex(4));
    assert_eq!(b2.present(), b1.present());
    let b3 = b1.clear_index(LevelIndex(4));
    assert_eq!(b3.present(), b1.present() - 1);
    let b4 = b3.clear_index(LevelIndex(4));
    assert_eq!(b4.present(), b3.present());
}

#[test]
fn sparse_index_sentinel_iff_absent() {
    let b = SmallBitmap::new().set_index(LevelIndex(2)).set_index(LevelIndex(30));
    for i in 0..32usize {
        let r = b.get_index_sparse(LevelIndex(i));
        assert_eq!(r.is_not_found(), !b.is_set(LevelIndex(i)));
    }
    assert_eq!(b.get_index_sparse(LevelIndex(2)).get_found(), 0);
    assert_eq!(b.get_index_sparse(LevelIndex(30)).get_found(), 1);
}

#[test]
fn insertion_position_anticipates_post_insert_rank() {
    let b = SmallBitmap::new()
        .set_index(LevelIndex(1))
        .set_index(LevelIndex(8))
        .set_index(LevelIndex(17));
    for i in 0..32usize {
        let pos = b.get_sparse_pos(LevelIndex(i));
        assert!(!pos.is_not_found());
        let after = b.set_index(LevelIndex(i)).get_index_sparse(LevelIndex(i));
        assert_eq!(pos.get_found(), after.get_found());
    }
}

#[test]
fn set_and_clear_are_idempotent() {
    let b = SmallBitmap::new().set_index(LevelIndex(12));
    assert_eq!(b.set_index(LevelIndex(7)).set_index(LevelIndex(7)), b.set_index(LevelIndex(7)));
    assert_eq!(
        b.clear_index(LevelIndex(12)).clear_index(LevelIndex(12)),
        b.clear_index(LevelIndex(12))
    );
}

#[test]
fn empty_bitmap_has_nothing() {
    let b = SmallBitmap::new();
    assert!(b.is_empty());
    assert_eq!(b.present(), 0);
    for i in 0..32usize {
        assert!(!b.is_set(LevelIndex(i)));
        assert!(b.get_index_sparse(LevelIndex(i)).is_not_found());
    }
}

#[test]
fn singleton_is_one_slot_set_on_empty() {
    for i in 0..32usize {
        let once = SmallBitmap::once(LevelIndex(i));
        assert_eq!(once, SmallBitmap::new().set_index(LevelIndex(i)));
        assert_eq!(once.present(), 1);
        assert!(!once.is_empty());
        assert!(once.is_set(LevelIndex(i)));
    }
}

#[test]
fn scenario_rank_is_by_ascending_slot() {
    // set 5, 7, 1 in that order: positions follow slot order, not insertion order
    let b = SmallBitmap::new()
        .set_index(LevelIndex(5))
        .set_index(LevelIndex(7))
        .set_index(LevelIndex(1));
    assert_eq!(b.present(), 3);
    assert_eq!(b.get_index_sparse(LevelIndex(1)).get_found(), 0);
    assert_eq!(b.get_index_sparse(LevelIndex(5)).get_found(), 1);
    assert_eq!(b.get_index_sparse(LevelIndex(7)).get_found(), 2);
    assert!(b.get_index_sparse(LevelIndex(0)).is_not_found());
}

#[test]
fn full_bitmap_ranks_every_slot() {
    let mut b = SmallBitmap::new();
    for i in 0..32usize {
        b = b.set_index(LevelIndex(i));
    }
    assert_eq!(b.present(), 32);
    for i in 0..32usize {
        assert_eq!(b.get_index_sparse(LevelIndex(i)).get_found(), i);
    }
}

#[test]
fn slot_indices_wrap_modulo_32() {
    let b = SmallBitmap::new().set_index(LevelIndex(32));
    assert!(b.is_set(LevelIndex(0)));
    assert_eq!(b.present(), 1);
}
