use edcore::editor::{Editor, EditorKey};

fn chars_of(s: &str) -> Vec<char> {
    s.chars().collect()
}

fn string_of(v: &[char]) -> String {
    v.iter().collect()
}

fn doc_of(lines: &[&str]) -> Vec<Vec<char>> {
    lines.iter().map(|s| chars_of(s)).collect()
}

fn editor_over(lines: &[&str], width: u16, height: u16) -> Editor {
    Editor::build(&doc_of(lines), Vec::new(), width, height, 0)
}

fn cursor_in_bounds(e: &Editor) {
    assert!(e.cursor_y <= e.rows.len());
    if e.cursor_y < e.rows.len() {
        assert!(e.cursor_x <= e.rows[e.cursor_y].len());
    } else {
        assert_eq!(e.cursor_x, 0);
    }
}

#[test]
fn left_at_origin_is_a_no_op() {
    let mut e = editor_over(&["abc", "x"], 80, 24);
    e.process_keypress(EditorKey::ArrowLeft);
    assert_eq!((e.cursor_y, e.cursor_x), (0, 0));
}

#[test]
fn right_walks_a_line_and_wraps_to_the_next() {
    let mut e = editor_over(&["abc", "x"], 80, 24);
    for _ in 0..3 {
        e.process_keypress(EditorKey::ArrowRight);
    }
    assert_eq!((e.cursor_y, e.cursor_x), (0, 3));
    e.process_keypress(EditorKey::ArrowRight);
    assert_eq!((e.cursor_y, e.cursor_x), (1, 0));
}

#[test]
fn left_at_column_zero_wraps_to_previous_line_end() {
    let mut e = editor_over(&["abc", "x"], 80, 24);
    e.process_keypress(EditorKey::ArrowDown);
    e.process_keypress(EditorKey::ArrowLeft);
    assert_eq!((e.cursor_y, e.cursor_x), (0, 3));
}

#[test]
fn down_clamps_column_to_shorter_line() {
    let mut e = editor_over(&["abcdef", "xy"], 80, 24);
    e.process_keypress(EditorKey::End);
    assert_eq!((e.cursor_y, e.cursor_x), (0, 6));
    e.process_keypress(EditorKey::ArrowDown);
    assert_eq!((e.cursor_y, e.cursor_x), (1, 2));
}

#[test]
fn down_allows_one_past_the_last_line_with_column_zero() {
    let mut e = editor_over(&["abc"], 80, 24);
    e.process_keypress(EditorKey::End);
    e.process_keypress(EditorKey::ArrowDown);
    assert_eq!((e.cursor_y, e.cursor_x), (1, 0));
    e.process_keypress(EditorKey::ArrowDown);
    assert_eq!((e.cursor_y, e.cursor_x), (1, 0));
}

#[test]
fn up_at_top_is_a_no_op() {
    let mut e = editor_over(&["abc"], 80, 24);
    e.process_keypress(EditorKey::ArrowUp);
    assert_eq!((e.cursor_y, e.cursor_x), (0, 0));
}

#[test]
fn home_and_end_jump_within_the_line() {
    let mut e = editor_over(&["hello"], 80, 24);
    e.process_keypress(EditorKey::End);
    assert_eq!((e.cursor_y, e.cursor_x), (0, 5));
    e.process_keypress(EditorKey::Home);
    assert_eq!((e.cursor_y, e.cursor_x), (0, 0));
}

#[test]
fn end_past_the_last_line_is_a_no_op() {
    let mut e = editor_over(&["abc"], 80, 24);
    e.process_keypress(EditorKey::ArrowDown);
    e.process_keypress(EditorKey::End);
    assert_eq!((e.cursor_y, e.cursor_x), (1, 0));
}

#[test]
fn cursor_stays_in_bounds_after_any_move_sequence() {
    let mut e = editor_over(&["abcdef", "x", "", "a\tb"], 80, 24);
    let keys = [
        EditorKey::ArrowDown,
        EditorKey::End,
        EditorKey::ArrowRight,
        EditorKey::ArrowRight,
        EditorKey::PageDown,
        EditorKey::ArrowLeft,
        EditorKey::ArrowUp,
        EditorKey::PageUp,
        EditorKey::Home,
        EditorKey::ArrowLeft,
        EditorKey::ArrowDown,
        EditorKey::ArrowDown,
        EditorKey::ArrowDown,
        EditorKey::ArrowDown,
        EditorKey::ArrowDown,
        EditorKey::ArrowRight,
    ];
    for k in keys {
        e.process_keypress(k);
        cursor_in_bounds(&e);
    }
}

#[test]
fn quit_reports_quit_and_changes_nothing() {
    let mut e = editor_over(&["abc"], 80, 24);
    assert!(e.process_keypress(EditorKey::Quit));
    assert!(!e.process_keypress(EditorKey::Other));
    assert_eq!((e.cursor_y, e.cursor_x), (0, 0));
}

#[test]
fn inserting_into_empty_document_materialises_a_line() {
    let mut e = editor_over(&[], 80, 24);
    assert_eq!(e.rows.len(), 0);
    e.process_keypress(EditorKey::Char('a'));
    assert_eq!(e.rows.len(), 1);
    assert_eq!(string_of(&e.rows[0].chars), "a");
    assert_eq!((e.cursor_y, e.cursor_x), (0, 1));
}

#[test]
fn typing_builds_a_line_in_order() {
    let mut e = editor_over(&[], 80, 24);
    for c in "hi\tthere".chars() {
        e.process_keypress(EditorKey::Char(c));
    }
    assert_eq!(string_of(&e.rows[0].chars), "hi\tthere");
    assert_eq!(string_of(&e.rows[0].render), "hi      there");
    assert_eq!((e.cursor_y, e.cursor_x), (0, 8));
}

#[test]
fn insert_in_the_middle_shifts_the_tail() {
    let mut e = editor_over(&["ac"], 80, 24);
    e.process_keypress(EditorKey::ArrowRight);
    e.process_keypress(EditorKey::Char('b'));
    assert_eq!(string_of(&e.rows[0].chars), "abc");
    assert_eq!((e.cursor_y, e.cursor_x), (0, 2));
}

#[test]
fn scrolling_down_to_row_fifty_snaps_the_row_offset() {
    // A 100-line document in a 24-row viewport: bringing the cursor to
    // row 50 scrolls the offset to 50 - 24 + 1.
    let lines: Vec<String> = (0..100).map(|i| format!("line {}", i)).collect();
    let data: Vec<Vec<char>> = lines.iter().map(|s| s.chars().collect()).collect();
    let mut e = Editor::build(&data, Vec::new(), 80, 24, 0);
    for _ in 0..50 {
        e.process_keypress(EditorKey::ArrowDown);
    }
    assert_eq!(e.cursor_y, 50);
    e.refresh_screen(0);
    assert_eq!(e.rowoff, 27);
    assert!(e.rowoff <= e.cursor_y && e.cursor_y < e.rowoff + 24);
}

#[test]
fn scrolling_back_up_snaps_the_offset_to_the_cursor() {
    let lines: Vec<String> = (0..100).map(|i| format!("line {}", i)).collect();
    let data: Vec<Vec<char>> = lines.iter().map(|s| s.chars().collect()).collect();
    let mut e = Editor::build(&data, Vec::new(), 80, 24, 0);
    for _ in 0..50 {
        e.process_keypress(EditorKey::ArrowDown);
    }
    e.refresh_screen(0);
    for _ in 0..30 {
        e.process_keypress(EditorKey::ArrowUp);
    }
    e.refresh_screen(0);
    assert_eq!(e.rowoff, 20);
}

#[test]
fn horizontal_scroll_follows_the_render_column() {
    let long: String = "x".repeat(100);
    let mut e = Editor::build(&vec![long.chars().collect()], Vec::new(), 10, 24, 0);
    e.process_keypress(EditorKey::End);
    e.refresh_screen(0);
    assert_eq!(e.render_x, 100);
    assert_eq!(e.coloff, 91);
    assert!(e.coloff <= e.render_x && e.render_x < e.coloff + 10);
    e.process_keypress(EditorKey::Home);
    e.refresh_screen(0);
    assert_eq!(e.coloff, 0);
}

#[test]
fn render_column_follows_tab_expansion() {
    let mut e = editor_over(&["a\tb"], 80, 24);
    e.process_keypress(EditorKey::ArrowRight);
    e.process_keypress(EditorKey::ArrowRight);
    e.refresh_screen(0);
    assert_eq!(e.cursor_x, 2);
    assert_eq!(e.render_x, 8);
}

#[test]
fn page_down_jumps_to_the_bottom_then_moves_a_screen() {
    let lines: Vec<String> = (0..100).map(|i| format!("{}", i)).collect();
    let data: Vec<Vec<char>> = lines.iter().map(|s| s.chars().collect()).collect();
    let mut e = Editor::build(&data, Vec::new(), 80, 24, 0);
    e.process_keypress(EditorKey::PageDown);
    // From offset 0: jump to row 23, then 24 single steps down.
    assert_eq!(e.cursor_y, 47);
    cursor_in_bounds(&e);
}

#[test]
fn page_up_jumps_to_the_top_then_moves_a_screen() {
    let lines: Vec<String> = (0..100).map(|i| format!("{}", i)).collect();
    let data: Vec<Vec<char>> = lines.iter().map(|s| s.chars().collect()).collect();
    let mut e = Editor::build(&data, Vec::new(), 80, 24, 0);
    for _ in 0..50 {
        e.process_keypress(EditorKey::ArrowDown);
    }
    e.refresh_screen(0);
    assert_eq!(e.rowoff, 27);
    e.process_keypress(EditorKey::PageUp);
    // Jump to the offset row 27, then 24 single steps up.
    assert_eq!(e.cursor_y, 3);
}

#[test]
fn page_down_clamps_to_the_document_end() {
    let mut e = editor_over(&["a", "b", "c"], 80, 24);
    e.process_keypress(EditorKey::PageDown);
    assert_eq!((e.cursor_y, e.cursor_x), (3, 0));
    cursor_in_bounds(&e);
}

#[test]
fn status_message_expires_after_the_timeout() {
    let mut e = editor_over(&["abc"], 80, 24);
    e.set_status_message(chars_of("saved"), 1000);
    e.refresh_screen(6000);
    assert_eq!(string_of(&e.status_msg), "saved");
    e.refresh_screen(6001);
    assert_eq!(string_of(&e.status_msg), "");
}

#[test]
fn initial_help_message_is_set() {
    let e = editor_over(&[], 80, 24);
    assert_eq!(string_of(&e.status_msg), "HELP: Ctrl -Q = quit");
}
