use chat_tui::textbox::Textbox;

#[test]
fn typing_and_flush() {
    let mut tb = Textbox::new(10);
    tb.add_char('h');
    tb.add_char('i');
    tb.newline();
    tb.add_char('y');
    tb.add_char('o');
    assert_eq!(tb.flush(), "hi\nyo");
    // flushing empties the box
    assert_eq!(tb.flush(), "");
}

#[test]
fn backspace_joins_lines() {
    let mut tb = Textbox::new(10);
    tb.add_char('a');
    tb.newline();
    tb.add_char('b');
    // cursor sits after 'b'; two backspaces eat 'b' and the line break
    assert_eq!(tb.backspace(), Some('b'));
    assert_eq!(tb.backspace(), Some('\n'));
    assert_eq!(tb.backspace(), Some('a'));
    assert_eq!(tb.backspace(), None);
    assert_eq!(tb.flush(), "");
}

#[test]
fn delete_eats_forward() {
    let mut tb = Textbox::new(10);
    tb.add_to_end(vec!["ab".to_string(), "cd".to_string()]);
    // cursor is still at the very start
    assert_eq!(tb.delete(), Some('a'));
    assert_eq!(tb.delete(), Some('b'));
    assert_eq!(tb.delete(), Some('\n'));
    assert_eq!(tb.flush(), "cd");
}

#[test]
fn append_extends_last_line() {
    let mut tb = Textbox::new(10);
    tb.add_char('x');
    tb.add_to_end(vec!["yz".to_string(), "new".to_string()]);
    assert_eq!(tb.flush(), "xyz\nnew");
}

#[test]
fn cursor_moves_across_lines() {
    let mut tb = Textbox::new(10);
    tb.add_to_end(vec!["ab".to_string(), "c".to_string()]);
    tb.right();
    tb.right();
    tb.right();
    // moved past the end of line one onto line two
    assert_eq!(tb.cursor_line, 1);
    assert_eq!(tb.cursor_pos, 0);
    tb.left();
    assert_eq!(tb.cursor_line, 0);
    assert_eq!(tb.cursor_pos, 2);
}

#[test]
fn wrapped_row_count() {
    let mut tb = Textbox::new(5);
    tb.add_to_end(vec!["hello world".to_string()]);
    // eleven characters wrapped at five: two full extra rows
    assert_eq!(tb.lines(), 2);
    let empty = Textbox::new(5);
    assert_eq!(empty.lines(), 1);
}

#[test]
fn vertical_moves_stay_in_bounds() {
    let mut tb = Textbox::new(3);
    tb.add_to_end(vec!["abcdefgh".to_string(), "x".to_string()]);
    for _ in 0..6 {
        tb.down();
    }
    assert!(tb.cursor_line < 2);
    for _ in 0..6 {
        tb.up();
    }
    assert_eq!(tb.cursor_line, 0);
    assert!(tb.cursor_pos <= 8);
}

#[test]
fn insert_then_backspace_restores_the_box() {
    let mut tb = Textbox::new(10);
    tb.add_to_end(vec!["ab".to_string(), "cd".to_string()]);
    tb.right();
    let before = tb.text.clone();
    let line = tb.cursor_line;
    let pos = tb.cursor_pos;
    tb.add_char('x');
    assert_eq!(tb.backspace(), Some('x'));
    assert_eq!(tb.text, before);
    assert_eq!(tb.cursor_line, line);
    assert_eq!(tb.cursor_pos, pos);
}

#[test]
fn newline_then_backspace_restores_the_box() {
    let mut tb = Textbox::new(10);
    tb.add_to_end(vec!["abcd".to_string(), "ef".to_string()]);
    tb.right();
    tb.right();
    let before = tb.text.clone();
    tb.newline();
    assert_eq!(tb.text.len(), 3);
    assert_eq!(tb.backspace(), Some('\n'));
    assert_eq!(tb.text, before);
}
