use conui::{is_in_window, TextBinder, TextStore};

#[test]
fn hit_test_is_true_at_all_four_corners() {
    assert!(is_in_window(1, 1, 10, 10, 1, 1));
    assert!(is_in_window(1, 1, 10, 10, 11, 1));
    assert!(is_in_window(1, 1, 10, 10, 1, 11));
    assert!(is_in_window(1, 1, 10, 10, 11, 11));
}

#[test]
fn hit_test_is_false_outside_the_box() {
    assert!(!is_in_window(1, 1, 10, 10, 0, 0));
    assert!(!is_in_window(1, 1, 10, 10, 12, 12));
    assert!(!is_in_window(1, 1, 10, 10, 6, 12));
    assert!(!is_in_window(1, 1, 10, 10, 12, 6));
    assert!(!is_in_window(1, 1, 10, 10, 6, 0));
    assert!(!is_in_window(1, 1, 10, 10, 0, 6));
}

#[test]
fn hit_test_is_true_on_edges_and_inside() {
    assert!(is_in_window(1, 1, 10, 10, 6, 6));
    assert!(is_in_window(1, 1, 10, 10, 6, 1));
    assert!(is_in_window(1, 1, 10, 10, 1, 6));
    assert!(is_in_window(1, 1, 10, 10, 11, 6));
    assert!(is_in_window(1, 1, 10, 10, 6, 11));
}

#[test]
fn hit_test_survives_extreme_coordinates() {
    // The box reaches past the i32 range; arithmetic must not wrap.
    assert!(is_in_window(i32::MAX - 1, 0, 10, 10, i32::MAX, 5));
    assert!(!is_in_window(i32::MAX, i32::MAX, u32::MAX, u32::MAX, 0, 0));
    assert!(is_in_window(0, 0, u32::MAX, u32::MAX, i32::MAX, i32::MAX));
    assert!(!is_in_window(1, 1, u32::MAX, u32::MAX, 0, 0));
    assert!(is_in_window(i32::MIN, i32::MIN, u32::MAX, u32::MAX, -1, -1));
}

#[test]
fn write_through_one_handle_is_visible_through_the_other() {
    let mut store = TextStore::new();
    let binder1 = TextBinder::new(&mut store, "test123");
    assert_eq!(binder1.get(&store), "test123");

    let binder2 = binder1.clone();
    binder1.set(&mut store, "something else");
    assert_eq!(binder2.get(&store), "something else");
}

#[test]
fn independent_cell_with_equal_text_is_unaffected() {
    let mut store = TextStore::new();
    let shared = TextBinder::new(&mut store, "same");
    let other = TextBinder::new(&mut store, "same");

    shared.set(&mut store, "changed");
    assert_eq!(shared.get(&store), "changed");
    assert_eq!(other.get(&store), "same");
}

#[test]
fn get_returns_a_snapshot_copy() {
    let mut store = TextStore::new();
    let binder = TextBinder::new(&mut store, "before");
    let snapshot = binder.get(&store);
    binder.set(&mut store, "after");
    assert_eq!(snapshot, "before");
    assert_eq!(binder.get(&store), "after");
}

#[test]
fn handle_against_a_foreign_store_reads_empty_and_writes_nothing() {
    let mut home = TextStore::new();
    let _ = TextBinder::new(&mut home, "zero");
    let mut bigger = TextStore::new();
    let _ = TextBinder::new(&mut bigger, "a");
    let stray = TextBinder::new(&mut bigger, "b");

    // `stray` addresses the second cell, which `home` does not have.
    assert_eq!(stray.get(&home), "");
    stray.set(&mut home, "write");
    assert_eq!(home.len(), 1);
    assert_eq!(stray.get(&bigger), "b");
}

#[test]
fn store_len_counts_allocated_cells() {
    let mut store = TextStore::new();
    assert_eq!(store.len(), 0);
    let _ = TextBinder::new(&mut store, "");
    let _ = TextBinder::new(&mut store, "x");
    assert_eq!(store.len(), 2);
}
