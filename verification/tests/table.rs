use rcmpsptr::table::FallbackTable;

#[test]
fn new_table_is_empty() {
    let table = FallbackTable::new();
    assert_eq!(table.len(), 0);
    assert_eq!(table.cursor(), 0);
    assert!(!table.holds(0));
    assert!(!table.holds(1));
}

#[test]
fn list_returns_indices_from_one() {
    let mut table = FallbackTable::new();
    assert_eq!(table.list(0x1000), 1);
    assert_eq!(table.list(0x2000), 2);
    assert_eq!(table.list(0x3000), 3);
    assert_eq!(table.len(), 3);
    assert_eq!(table.cursor(), 3);
    assert_eq!(table.resolve(1), 0x1000);
    assert_eq!(table.resolve(2), 0x2000);
    assert_eq!(table.resolve(3), 0x3000);
}

#[test]
fn holds_names_the_slots() {
    let mut table = FallbackTable::new();
    table.list(0x1000);
    table.list(0x2000);
    assert!(!table.holds(0));
    assert!(table.holds(1));
    assert!(table.holds(2));
    assert!(!table.holds(3));
    assert!(!table.holds(usize::MAX));
}

#[test]
fn unlist_zeroes_the_slot_and_keeps_length_and_cursor() {
    let mut table = FallbackTable::new();
    table.list(0x1000);
    table.list(0x2000);
    table.unlist(1);
    assert_eq!(table.len(), 2);
    assert_eq!(table.cursor(), 2);
    assert_eq!(table.resolve(1), 0);
    assert_eq!(table.resolve(2), 0x2000);
    assert!(table.holds(1));
}

#[test]
fn list_unlist_list_resolves_the_second_address() {
    let mut table = FallbackTable::new();
    let a = table.list(0xaaaa_0000);
    table.unlist(a);
    let b = table.list(0xbbbb_0000);
    assert_eq!(table.resolve(b), 0xbbbb_0000);
    assert_eq!(a, 1);
    assert_eq!(b, 2);
    assert_eq!(table.len(), 2);
}

#[test]
fn a_slot_freed_before_the_cursor_is_not_taken_again() {
    let mut table = FallbackTable::new();
    for round in 1..=10usize {
        let index = table.list(0x1000 * round as u64);
        assert_eq!(index, round);
        assert_eq!(table.resolve(index), 0x1000 * round as u64);
        table.unlist(index);
    }
    assert_eq!(table.len(), 10);
    assert_eq!(table.cursor(), 10);
    for index in 1..=10usize {
        assert_eq!(table.resolve(index), 0);
    }
}

#[test]
fn scan_finds_the_first_free_slot() {
    let mut table = FallbackTable::new();
    table.list(0x1000);
    table.list(0x2000);
    table.list(0x3000);
    table.list(0x4000);
    assert_eq!(table.scan(0), 4);
    table.unlist(3);
    assert_eq!(table.scan(0), 2);
    assert_eq!(table.scan(2), 2);
    assert_eq!(table.scan(3), 4);
    assert_eq!(table.scan(4), 4);
    table.unlist(1);
    assert_eq!(table.scan(0), 0);
    assert_eq!(table.scan(1), 2);
}

#[test]
fn listing_zero_leaves_the_slot_free() {
    let mut table = FallbackTable::new();
    let index = table.list(0);
    assert_eq!(index, 1);
    assert_eq!(table.resolve(1), 0);
    assert_eq!(table.scan(0), 0);
    assert_eq!(table.list(0x5000), 2);
}

#[test]
fn other_slots_keep_their_addresses() {
    let mut table = FallbackTable::new();
    let a = table.list(0x1000);
    let b = table.list(0x2000);
    let c = table.list(0x3000);
    table.unlist(b);
    let d = table.list(0x4000);
    assert_eq!(table.resolve(a), 0x1000);
    assert_eq!(table.resolve(b), 0);
    assert_eq!(table.resolve(c), 0x3000);
    assert_eq!(table.resolve(d), 0x4000);
    assert_eq!(d, 4);
}
