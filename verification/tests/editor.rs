use rustman::input::{CursorMoveDirection, TextField};

fn type_str(t: &mut TextField, s: &str) {
    for c in s.chars() {
        t.append(c);
    }
}

#[test]
fn new_editor_is_empty() {
    let t = TextField::new("URL");
    assert_eq!(t.title, "URL");
    assert_eq!(t.text.len(), 0);
    assert_eq!(t.cursor, 0);
    assert!(!t.focused);
}

#[test]
fn insert_cursor_coupling() {
    let mut t = TextField::new("URL");
    type_str(&mut t, "hello");
    assert_eq!(t.text.len(), 5);
    assert_eq!(t.cursor, 5);
    assert_eq!(t.text, vec!['h', 'e', 'l', 'l', 'o']);
}

#[test]
fn delete_back_on_empty_is_noop() {
    let mut t = TextField::new("URL");
    t.remove();
    assert_eq!(t.text.len(), 0);
    assert_eq!(t.cursor, 0);
}

#[test]
fn reset_is_idempotent() {
    let mut t = TextField::new("URL");
    type_str(&mut t, "abc");
    t.focus();
    t.reset();
    let text_once = t.text.clone();
    let cursor_once = t.cursor;
    let focused_once = t.focused;
    t.reset();
    assert_eq!(t.text, text_once);
    assert_eq!(t.cursor, cursor_once);
    assert_eq!(t.focused, focused_once);
    assert_eq!(t.text.len(), 0);
    assert_eq!(t.cursor, 0);
}

#[test]
fn single_step_example() {
    let mut t = TextField::new("URL");
    type_str(&mut t, "ab");
    t.move_cursor(CursorMoveDirection::Left, false);
    t.move_cursor(CursorMoveDirection::Left, false);
    assert_eq!(t.cursor, 0);
    t.move_cursor(CursorMoveDirection::Right, false);
    assert_eq!(t.cursor, 1);
    t.move_cursor(CursorMoveDirection::Right, false);
    assert_eq!(t.cursor, 2);
    t.move_cursor(CursorMoveDirection::Right, false);
    assert_eq!(t.cursor, 2);
}

#[test]
fn single_step_left_saturates_at_start() {
    let mut t = TextField::new("URL");
    t.move_cursor(CursorMoveDirection::Left, false);
    assert_eq!(t.cursor, 0);
    type_str(&mut t, "x");
    t.move_cursor(CursorMoveDirection::Left, false);
    t.move_cursor(CursorMoveDirection::Left, false);
    assert_eq!(t.cursor, 0);
}

#[test]
fn word_skip_example() {
    let mut t = TextField::new("URL");
    type_str(&mut t, "hello world");
    assert_eq!(t.cursor, 11);
    t.move_cursor(CursorMoveDirection::Left, true);
    assert_eq!(t.cursor, 6);
    t.move_cursor(CursorMoveDirection::Left, true);
    assert_eq!(t.cursor, 0);
}

#[test]
fn word_skip_right_stops_on_boundary() {
    let mut t = TextField::new("URL");
    type_str(&mut t, "hello world");
    t.move_cursor(CursorMoveDirection::Left, true);
    t.move_cursor(CursorMoveDirection::Left, true);
    assert_eq!(t.cursor, 0);
    t.move_cursor(CursorMoveDirection::Right, true);
    assert_eq!(t.cursor, 5);
    t.move_cursor(CursorMoveDirection::Right, true);
    assert_eq!(t.cursor, 11);
}

#[test]
fn word_skip_over_punctuation() {
    let mut t = TextField::new("URL");
    type_str(&mut t, "a-b");
    t.move_cursor(CursorMoveDirection::Left, true);
    assert_eq!(t.cursor, 2);
    t.move_cursor(CursorMoveDirection::Left, true);
    assert_eq!(t.cursor, 0);
}

#[test]
fn word_skip_on_empty_buffer() {
    let mut t = TextField::new("URL");
    t.move_cursor(CursorMoveDirection::Left, true);
    assert_eq!(t.cursor, 0);
    t.move_cursor(CursorMoveDirection::Right, true);
    assert_eq!(t.cursor, 0);
}

#[test]
fn insert_in_middle() {
    let mut t = TextField::new("URL");
    type_str(&mut t, "ac");
    t.move_cursor(CursorMoveDirection::Left, false);
    t.append('b');
    assert_eq!(t.text, vec!['a', 'b', 'c']);
    assert_eq!(t.cursor, 2);
}

#[test]
fn delete_in_middle() {
    let mut t = TextField::new("URL");
    type_str(&mut t, "abc");
    t.move_cursor(CursorMoveDirection::Left, false);
    t.remove();
    assert_eq!(t.text, vec!['a', 'c']);
    assert_eq!(t.cursor, 1);
}

#[test]
fn insert_delete_round_trip() {
    let mut t = TextField::new("URL");
    type_str(&mut t, "ab");
    t.move_cursor(CursorMoveDirection::Left, false);
    let text_before = t.text.clone();
    let cursor_before = t.cursor;
    type_str(&mut t, "xyz");
    t.remove();
    t.remove();
    t.remove();
    assert_eq!(t.text, text_before);
    assert_eq!(t.cursor, cursor_before);
}

#[test]
fn byte_offset_translation() {
    let mut t = TextField::new("URL");
    t.append('a');
    t.append('\u{e9}');
    t.append('\u{20ac}');
    t.append('\u{1d11e}');
    assert_eq!(t.cursor, 4);
    assert_eq!(t.index(), 10);
    t.move_cursor(CursorMoveDirection::Left, false);
    assert_eq!(t.index(), 6);
    t.move_cursor(CursorMoveDirection::Left, false);
    assert_eq!(t.index(), 3);
    t.move_cursor(CursorMoveDirection::Left, false);
    assert_eq!(t.index(), 1);
    t.move_cursor(CursorMoveDirection::Left, false);
    assert_eq!(t.index(), 0);
    let s: String = t.text.iter().collect();
    assert_eq!(s.len(), 10);
}

#[test]
fn word_skip_counts_characters_not_bytes() {
    let mut t = TextField::new("URL");
    type_str(&mut t, "caf\u{e9} au");
    assert_eq!(t.cursor, 7);
    t.move_cursor(CursorMoveDirection::Left, true);
    assert_eq!(t.cursor, 5);
    t.move_cursor(CursorMoveDirection::Left, true);
    assert_eq!(t.cursor, 0);
}

#[test]
fn focus_and_unfocus_only_touch_the_flag() {
    let mut t = TextField::new("URL");
    type_str(&mut t, "ab");
    t.focus();
    assert!(t.focused);
    assert_eq!(t.text, vec!['a', 'b']);
    assert_eq!(t.cursor, 2);
    t.unfocus();
    assert!(!t.focused);
    assert_eq!(t.cursor, 2);
}
