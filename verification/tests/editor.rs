use notes_tui::editor::EditBuffer;

#[test]
fn insert_moves_and_delete() {
    let mut b = EditBuffer::new();
    assert_eq!(b.value(), "");
    assert_eq!(b.cursor_index(), 0);
    b.insert_char('a');
    b.insert_char('b');
    b.insert_char('c');
    assert_eq!(b.value(), "abc");
    assert_eq!(b.cursor_index(), 3);
    b.move_left();
    assert_eq!(b.cursor_index(), 2);
    b.insert_char('x');
    assert_eq!(b.value(), "abxc");
    assert_eq!(b.cursor_index(), 3);
    b.delete_backward();
    assert_eq!(b.value(), "abc");
    assert_eq!(b.cursor_index(), 2);
    b.move_right();
    b.move_right();
    assert_eq!(b.cursor_index(), 3);
    b.move_right();
    assert_eq!(b.cursor_index(), 3);
}

#[test]
fn cursor_clamped_at_start() {
    let mut b = EditBuffer::new();
    b.move_left();
    assert_eq!(b.cursor_index(), 0);
    b.delete_backward();
    assert_eq!(b.value(), "");
    assert_eq!(b.cursor_index(), 0);
}

#[test]
fn set_text_puts_cursor_at_end() {
    let mut b = EditBuffer::new();
    b.set_text("hello");
    assert_eq!(b.value(), "hello");
    assert_eq!(b.cursor_index(), 5);
    b.reset();
    assert_eq!(b.value(), "");
    assert_eq!(b.cursor_index(), 0);
}

#[test]
fn window_fits_short_text() {
    let mut b = EditBuffer::new();
    b.set_text("abc");
    let (scroll, slice) = b.visible_window(10);
    assert_eq!(scroll, 0);
    assert_eq!(slice, vec!['a', 'b', 'c']);
}

#[test]
fn window_follows_cursor_on_long_text() {
    let mut b = EditBuffer::new();
    b.set_text("abcdefgh");
    let (scroll, slice) = b.visible_window(4);
    assert_eq!(scroll, 5);
    assert_eq!(slice, vec!['f', 'g', 'h']);
    b.move_left();
    b.move_left();
    b.move_left();
    let (scroll2, slice2) = b.visible_window(4);
    assert_eq!(scroll2, 2);
    assert_eq!(slice2, vec!['c', 'd', 'e', 'f']);
}

#[test]
fn window_of_width_one_at_end_is_empty() {
    let mut b = EditBuffer::new();
    b.set_text("abc");
    let (scroll, slice) = b.visible_window(1);
    assert_eq!(scroll, 3);
    assert_eq!(slice.len(), 0);
}
