use tantivy_search::rank::{filter_and_cap, row_id_alive};

#[test]
fn bitmap_bit_positions_decide_liveness() {
    // 0b0000_0101: rows 0 and 2 alive, rows 1 and 3 dead.
    let bitmap = vec![0b0000_0101u8];
    assert!(row_id_alive(&bitmap, 0));
    assert!(!row_id_alive(&bitmap, 1));
    assert!(row_id_alive(&bitmap, 2));
    assert!(!row_id_alive(&bitmap, 3));
    // Beyond the bitmap: not alive.
    assert!(!row_id_alive(&bitmap, 8));
    assert!(!row_id_alive(&Vec::new(), 0));
}

#[test]
fn bitmap_second_byte_covers_rows_eight_and_up() {
    let bitmap = vec![0u8, 0b0000_0010u8];
    assert!(!row_id_alive(&bitmap, 8));
    assert!(row_id_alive(&bitmap, 9));
}

#[test]
fn filter_drops_dead_rows_and_cap_keeps_the_best() {
    let rows = vec![(0u64, 300u32), (1, 200), (2, 100)];
    // Row 1 is dead.
    let bitmap = vec![0b0000_0101u8];

    let kept = filter_and_cap(&rows, &bitmap, true, 10);
    assert_eq!(kept, vec![(0u64, 300u32), (2, 100)]);

    let capped = filter_and_cap(&rows, &bitmap, true, 1);
    assert_eq!(capped, vec![(0u64, 300u32)]);

    let unfiltered = filter_and_cap(&rows, &bitmap, false, 2);
    assert_eq!(unfiltered, vec![(0u64, 300u32), (1, 200)]);
}
