use chat_tui::format::{local_now, Stamp};
use chat_tui::message::{
    AttachmentRef, ChannelKind, ChannelRef, LoadedMessage, RawAttachment, RawMessage, UserDict,
};
use chat_tui::messages::LoadedMessages;
use chat_tui::render::Grid;
use chat_tui::task::Task;

fn stamp() -> Stamp {
    Stamp { year: 2024, month: 1, day: 2, hour: 3, minute: 4, day_num: 1000 }
}

fn chan(id: u64) -> ChannelRef {
    ChannelRef { id, guild: Some(7), kind: ChannelKind::Guild }
}

fn entry(id: u64, lines: Vec<&str>) -> LoadedMessage {
    LoadedMessage::from_content(
        500,
        lines.into_iter().map(|s| s.to_string()).collect(),
        stamp(),
        id,
        "bob".to_string(),
    )
}

#[test]
fn author_line_with_time() {
    let mut dict = UserDict::new();
    let mut store = LoadedMessages::new(chan(11));
    store.add_complete(entry(1, vec!["hi"]), None, &mut dict);
    let now = stamp();
    let line = store.labels[0].user(&dict, 20, &now);
    assert_eq!(line, "\u{001b}[38;5;231mbob 3:4");
}

#[test]
fn author_line_cut_to_narrow_column() {
    let mut dict = UserDict::new();
    let mut store = LoadedMessages::new(chan(11));
    store.add_complete(entry(1, vec!["hi"]), None, &mut dict);
    let now = stamp();
    let line = store.labels[0].user(&dict, 2, &now);
    assert_eq!(line, "\u{001b}[38;5;231mbo");
}

#[test]
fn recoloring_an_author() {
    let mut dict = UserDict::new();
    let mut store = LoadedMessages::new(chan(11));
    store.add_complete(entry(1, vec!["hi"]), None, &mut dict);
    store.labels[0].red(&mut dict);
    let now = stamp();
    let line = store.labels[0].user(&dict, 20, &now);
    // red wrapped from 5 to 0
    assert_eq!(line, "\u{001b}[38;5;51mbob 3:4");
}

#[test]
fn message_rows_wrap_and_list_attachments() {
    let mut dict = UserDict::new();
    let mut store = LoadedMessages::new(chan(11));
    let mut tasks: Vec<Task> = Vec::new();
    let msg = RawMessage {
        id: 1,
        channel_id: 11,
        guild_id: Some(7),
        author_id: 500,
        author_name: "bob".to_string(),
        content: vec!["abcdefgh".to_string(), "".to_string()],
        timestamp: stamp(),
        attachments: vec![RawAttachment {
            remote: AttachmentRef { id: 9, filename: "pic.png".to_string(), url: "u".to_string() },
            location: "/tmp/pic.png".to_string(),
            fresh: false,
        }],
    };
    let loaded = LoadedMessage::from_message(msg, &mut tasks);
    assert!(tasks.is_empty());
    store.add_complete(loaded, None, &mut dict);
    let grid = Grid::new(10, 30);
    // message column is 10 - 6 = 4 cells wide
    assert_eq!(grid.len_messages(), 4);
    let now = stamp();
    let rows = store.message_rows(0, &grid, &dict, &now);
    // author line wraps too (its escape code counts), then the eight
    // characters wrap into two rows, the empty line takes one, and the
    // attachment name wraps into two
    let tail: Vec<String> = rows[rows.len() - 5..].to_vec();
    assert_eq!(
        tail,
        vec![
            "abcd".to_string(),
            "efgh".to_string(),
            " ".to_string(),
            "pic.".to_string(),
            "png".to_string(),
        ],
    );
}

#[test]
fn fresh_attachment_spawns_a_download() {
    let mut tasks: Vec<Task> = Vec::new();
    let msg = RawMessage {
        id: 1,
        channel_id: 11,
        guild_id: Some(7),
        author_id: 500,
        author_name: "bob".to_string(),
        content: vec!["hi".to_string()],
        timestamp: stamp(),
        attachments: vec![
            RawAttachment {
                remote: AttachmentRef {
                    id: 9,
                    filename: "pic.png".to_string(),
                    url: "u".to_string(),
                },
                location: "/tmp/pic.png".to_string(),
                fresh: true,
            },
            RawAttachment {
                remote: AttachmentRef {
                    id: 10,
                    filename: "doc.pdf".to_string(),
                    url: "v".to_string(),
                },
                location: "/tmp/doc.pdf".to_string(),
                fresh: false,
            },
        ],
    };
    let loaded = LoadedMessage::from_message(msg, &mut tasks);
    assert_eq!(tasks.len(), 1);
    assert!(matches!(&tasks[0], Task::Download(a, loc) if a.id == 9 && loc == "/tmp/pic.png"));
    assert_eq!(loaded.content.attachments, vec!["pic.png".to_string(), "doc.pdf".to_string()]);
    assert_eq!(
        loaded.content.attachment_url,
        vec!["/tmp/pic.png".to_string(), "/tmp/doc.pdf".to_string()],
    );
}

#[test]
fn layout_places_focus_and_selection() {
    let mut dict = UserDict::new();
    let mut store = LoadedMessages::new(chan(11));
    store.add_complete(entry(1, vec!["hi"]), None, &mut dict);
    store.add_complete(entry(2, vec!["ho"]), None, &mut dict);
    store.current = 1;
    store.current_in_message = 1;
    store.selected = 0;
    let grid = Grid::new(100, 30);
    let now = stamp();
    let (rows, hover, selected_pos) = store.layout(&grid, &dict, &now);
    // each message shows its author line and one short text line
    assert_eq!(rows.len(), 4);
    assert_eq!(selected_pos, 0);
    assert_eq!(hover, 3);
    assert_eq!(rows[1], "hi");
    assert_eq!(rows[3], "ho");
}

#[test]
fn attachment_under_focus() {
    let mut dict = UserDict::new();
    let mut store = LoadedMessages::new(chan(11));
    let mut msg = entry(1, vec!["hi"]);
    msg.content.attachments.push("pic.png".to_string());
    msg.content.attachment_url.push("/tmp/pic.png".to_string());
    store.add_complete(msg, None, &mut dict);
    let grid = Grid::new(100, 30);
    // rows: author, text, attachment; focus on the attachment row
    store.current_in_message = 2;
    assert_eq!(store.attachment_pos(&grid), Some(0));
    let plain = entry(2, vec!["hi"]);
    let mut bare = LoadedMessages::new(chan(12));
    bare.add_complete(plain, None, &mut dict);
    assert_eq!(bare.attachment_pos(&grid), None);
}

#[test]
fn clock_reading_is_a_calendar_time() {
    let now = local_now();
    assert!((1..=12).contains(&now.month));
    assert!((1..=31).contains(&now.day));
    assert!(now.hour < 24);
    assert!(now.minute < 60);
}

#[test]
fn layout_windows_long_conversations() {
    let mut dict = UserDict::new();
    let mut store = LoadedMessages::new(chan(11));
    for i in 0..40u64 {
        store.add_complete(entry(i, vec!["hi"]), None, &mut dict);
    }
    store.current = 39;
    store.current_in_message = 0;
    store.selected = 0;
    // height 9: the window of whole entries ends at the focused one
    let mut grid = Grid::new(100, 30);
    grid.border_y = 9;
    let now = stamp();
    let (rows, hover, selected_pos) = store.layout(&grid, &dict, &now);
    // entries 31..40 are visible, two rows each
    assert_eq!(rows.len(), 18);
    assert_eq!(hover, 16);
    // the committed entry lies outside the window
    assert_eq!(selected_pos, usize::MAX);
}
