use ephosh::cursor::Cursor;

#[test]
fn cursor_starts_where_it_is_put() {
    let cursor = Cursor::new(3, 7);
    assert_eq!(cursor.get_x(), 3);
    assert_eq!(cursor.get_y(), 7);
}

#[test]
fn cursor_moves_left_and_right_by_one_column() {
    let mut cursor = Cursor::new(3, 7);
    cursor.move_left();
    assert_eq!(cursor.get_x(), 2);
    assert_eq!(cursor.get_y(), 7);
    cursor.move_right();
    cursor.move_right();
    assert_eq!(cursor.get_x(), 4);
    assert_eq!(cursor.get_y(), 7);
}

#[test]
fn cursor_reaches_both_ends_of_a_row() {
    let mut cursor = Cursor::new(1, 0);
    cursor.move_left();
    assert_eq!(cursor.get_x(), 0);
    let mut cursor = Cursor::new(u16::MAX - 1, 0);
    cursor.move_right();
    assert_eq!(cursor.get_x(), u16::MAX);
}

#[test]
fn cursor_jumps_to_a_position() {
    let mut cursor = Cursor::new(0, 0);
    cursor.move_cursor(10, 20);
    assert_eq!(cursor.get_x(), 10);
    assert_eq!(cursor.get_y(), 20);
}
