use eccodes::keys::{iterator_moved, KeysCursor};

#[test]
fn advance_codes() {
    assert!(iterator_moved(1));
    assert!(!iterator_moved(0));
    assert!(!iterator_moved(-1));
}

#[test]
fn cursor_runs_out_and_stays_out() {
    let mut cursor = KeysCursor::new(1);
    assert!(cursor.name_left());
    cursor.advanced(1);
    assert!(cursor.name_left());
    cursor.advanced(0);
    assert!(!cursor.name_left());
    cursor.advanced(1);
    assert!(!cursor.name_left());
}

#[test]
fn empty_iteration() {
    let cursor = KeysCursor::new(0);
    assert!(!cursor.name_left());
}
