use rlbot_gui::capture::CaptureRegistry;

#[test]
fn a_new_table_has_no_slot() {
    let registry: CaptureRegistry<&str> = CaptureRegistry::new();
    assert_eq!(registry.len(), 0);
    assert!(registry.is_empty());
    assert!(registry.occupied().is_empty());
    assert!(!registry.is_occupied(0));
    assert!(registry.stream(0).is_none());
}

#[test]
fn acquisitions_without_release_count_up_from_zero() {
    let mut registry = CaptureRegistry::new();
    for expected in 0..8usize {
        let before = registry.len();
        let index = registry.acquire(expected * 10);
        assert_eq!(index, expected);
        assert_eq!(registry.len(), before + 1);
    }
    assert_eq!(registry.occupied(), vec![0, 1, 2, 3, 4, 5, 6, 7]);
    assert_eq!(registry.stream(3), Some(&30));
}

#[test]
fn a_released_slot_is_reused_before_the_table_grows() {
    let mut registry = CaptureRegistry::new();
    for stream in ["a", "b", "c", "d"] {
        registry.acquire(stream);
    }
    registry.release(1);
    assert_eq!(registry.len(), 4);
    assert!(!registry.is_occupied(1));
    let index = registry.acquire("e");
    assert_eq!(index, 1);
    assert_eq!(registry.len(), 4);
    assert_eq!(registry.stream(1), Some(&"e"));
    assert_eq!(registry.acquire("f"), 4);
    assert_eq!(registry.len(), 5);
}

#[test]
fn the_lowest_of_several_holes_is_taken_first() {
    let mut registry = CaptureRegistry::new();
    for stream in 0..5 {
        registry.acquire(stream);
    }
    registry.release(3);
    registry.release(1);
    assert_eq!(registry.acquire(100), 1);
    assert_eq!(registry.acquire(101), 3);
    assert_eq!(registry.acquire(102), 5);
}

#[test]
fn releasing_the_last_slot_lets_compaction_shrink_by_one() {
    let mut registry = CaptureRegistry::new();
    for stream in 0..3 {
        registry.acquire(stream);
    }
    registry.release(2);
    assert_eq!(registry.len(), 3);
    registry.compact_trailing();
    assert_eq!(registry.len(), 2);
    assert_eq!(registry.occupied(), vec![0, 1]);
}

#[test]
fn compaction_also_takes_the_holes_that_stood_before_the_last_slot() {
    let mut registry = CaptureRegistry::new();
    for stream in 0..5 {
        registry.acquire(stream);
    }
    registry.release(2);
    registry.release(3);
    registry.compact_trailing();
    assert_eq!(registry.len(), 5);
    registry.release(4);
    registry.compact_trailing();
    assert_eq!(registry.len(), 2);
    assert_eq!(registry.occupied(), vec![0, 1]);
}

#[test]
fn releasing_an_inner_slot_never_shrinks_the_table() {
    let mut registry = CaptureRegistry::new();
    for stream in 0..4 {
        registry.acquire(stream);
    }
    registry.release(0);
    registry.release(2);
    registry.compact_trailing();
    assert_eq!(registry.len(), 4);
    assert_eq!(registry.occupied(), vec![1, 3]);
    assert!(!registry.is_occupied(0));
    assert!(registry.is_occupied(1));
    assert!(!registry.is_occupied(2));
    assert_eq!(registry.stream(3), Some(&3));
}

#[test]
fn compaction_empties_a_table_of_holes() {
    let mut registry = CaptureRegistry::new();
    for stream in 0..3 {
        registry.acquire(stream);
    }
    registry.release(1);
    registry.release(0);
    registry.release(2);
    registry.compact_trailing();
    assert!(registry.is_empty());
    assert_eq!(registry.acquire(9), 0);
}

#[test]
fn compaction_leaves_a_table_that_ends_occupied_alone() {
    let mut registry = CaptureRegistry::new();
    registry.acquire("a");
    registry.acquire("b");
    registry.compact_trailing();
    assert_eq!(registry.len(), 2);
    let mut empty: CaptureRegistry<&str> = CaptureRegistry::new();
    empty.compact_trailing();
    assert_eq!(empty.len(), 0);
}

#[test]
fn a_held_slot_keeps_its_index_and_stream() {
    let mut registry = CaptureRegistry::new();
    registry.acquire("first");
    let held = registry.acquire("held");
    registry.acquire("third");
    registry.release(0);
    registry.compact_trailing();
    registry.acquire("fourth");
    registry.release(2);
    registry.compact_trailing();
    assert_eq!(held, 1);
    assert_eq!(registry.stream(held), Some(&"held"));
    assert_eq!(registry.len(), 2);
}

#[test]
fn a_stream_is_seen_only_in_an_occupied_slot() {
    let mut registry = CaptureRegistry::new();
    registry.acquire(7u8);
    registry.acquire(8u8);
    registry.release(0);
    assert_eq!(registry.stream(0), None);
    assert_eq!(registry.stream(1), Some(&8));
    assert_eq!(registry.stream(2), None);
    assert!(!registry.is_occupied(2));
}
