use chat_tui::colors::{Color, SimpleColor};
use chat_tui::format::{format_time, Stamp};
use chat_tui::task::process;
use chat_tui::text::{chunk_clusters, dec_string, dec_string_signed, pad_to_width};

fn stamp(day_num: i64, hour: u32, minute: u32) -> Stamp {
    Stamp { year: 2024, month: 3, day: 5, hour, minute, day_num }
}

#[test]
fn decimal_rendering() {
    assert_eq!(dec_string(0), "0");
    assert_eq!(dec_string(7), "7");
    assert_eq!(dec_string(231), "231");
    assert_eq!(dec_string(120000), "120000");
    assert_eq!(dec_string_signed(-45), "-45");
    assert_eq!(dec_string_signed(45), "45");
}

#[test]
fn sanitize_remote_reference() {
    let got = process("https://cdn.example.com/attachments/12/34/file.png".to_string());
    assert_eq!(got, "examplecomattachments1234file.png");
}

#[test]
fn sanitize_drops_early_segments() {
    assert_eq!(process("a.b.c".to_string()), "ab.c");
    assert_eq!(process("x.y.z.png".to_string()), "yz.png");
}

#[test]
fn sanitize_is_idempotent() {
    let once = process("https://cdn.example.com/attachments/12/34/file.png".to_string());
    let twice = process(once.clone());
    assert_eq!(twice, once);
    // names already in sanitized shape pass through unchanged
    assert_eq!(process("ab.c".to_string()), "ab.c");
    assert_eq!(process("noext".to_string()), "noext");
    assert_eq!(process("".to_string()), "");
    // separators are still stripped from short names
    assert_eq!(process("a/b.c".to_string()), "ab.c");
}

#[test]
fn sanitize_collides_on_dotted_names() {
    // Two distinct remote names can map to the same local file name.
    let a = process("data.a.tar.gz".to_string());
    let b = process("a.tar.gz".to_string());
    assert_eq!(a, "atar.gz");
    assert_eq!(b, "atar.gz");
    assert_eq!(a, b);
}

#[test]
fn color_cube_escape() {
    let c = Color::new();
    assert_eq!(c.to_ansi_value(), "\u{001b}[38;5;231m");
}

#[test]
fn color_components_wrap() {
    let mut c = Color::new();
    c.red();
    // red wrapped from 5 to 0: 16 + 5 + 5*6 + 0*36
    assert_eq!(c.to_ansi_value(), "\u{001b}[38;5;51m");
    c.blue();
    assert_eq!(c.to_ansi_value(), "\u{001b}[38;5;46m");
    c.green();
    assert_eq!(c.to_ansi_value(), "\u{001b}[38;5;16m");
}

#[test]
fn simple_color_rotation_and_bold() {
    let mut c = SimpleColor::new();
    assert_eq!(c.to_ansi_value(), "\u{001B}[37m");
    c.switch_color();
    assert_eq!(c.to_ansi_value(), "\u{001B}[31m");
    c.toggle();
    assert_eq!(c.to_ansi_value(), "\u{001B}[31m\u{001B}[1m");
    c.deselect();
    assert_eq!(c.to_ansi_value(), "\u{001B}[31m");
    c.select();
    assert_eq!(c.to_ansi_value(), "\u{001B}[31m\u{001B}[1m");
}

#[test]
fn time_same_day() {
    let then = stamp(1000, 9, 7);
    let now = stamp(1000, 23, 59);
    assert_eq!(format_time(&then, &now), "9:7");
}

#[test]
fn time_within_week() {
    let then = stamp(1000, 9, 7);
    let now = stamp(1002, 0, 0);
    assert_eq!(format_time(&then, &now), "9:7-2");
}

#[test]
fn time_older_than_week() {
    let then = stamp(1000, 9, 7);
    let now = stamp(1010, 0, 0);
    assert_eq!(format_time(&then, &now), "3/5/2024");
}

#[test]
fn time_from_the_future() {
    let then = stamp(1000, 9, 7);
    let now = stamp(999, 0, 0);
    assert_eq!(format_time(&then, &now), "9:7--1");
}

#[test]
fn padding_cuts_and_fills() {
    assert_eq!(pad_to_width("ab", 4), "ab  ");
    assert_eq!(pad_to_width("abcd", 2), "ab");
    assert_eq!(pad_to_width("", 3), "   ");
}

#[test]
fn wrapping_chunks_clusters() {
    let rows = chunk_clusters("abcde", 2);
    assert_eq!(rows, vec!["ab".to_string(), "cd".to_string(), "e".to_string()]);
    let empty: Vec<String> = chunk_clusters("", 2);
    assert!(empty.is_empty());
}

#[test]
fn wrapping_respects_grapheme_boundaries() {
    // A combining mark stays glued to its base character.
    let rows = chunk_clusters("a\u{0301}bc", 2);
    assert_eq!(rows, vec!["a\u{0301}b".to_string(), "c".to_string()]);
}
