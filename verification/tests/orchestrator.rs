use chat_tui::file::ExtConfig;
use chat_tui::format::Stamp;
use chat_tui::input::{Parser, Response};
use chat_tui::message::{ChannelKind, ChannelRef, LoadedMessage, RawMessage, UserDict};
use chat_tui::messages::{LoadingState, Messages};
use chat_tui::task::Product;

fn stamp() -> Stamp {
    Stamp { year: 2024, month: 1, day: 2, hour: 3, minute: 4, day_num: 1000 }
}

fn chan(id: u64) -> ChannelRef {
    ChannelRef { id, guild: Some(7), kind: ChannelKind::Guild }
}

fn entry(id: u64) -> LoadedMessage {
    LoadedMessage::from_content(500, vec!["hello".to_string()], stamp(), id, "bob".to_string())
}

fn raw(id: u64, channel: u64) -> RawMessage {
    RawMessage {
        id,
        channel_id: channel,
        guild_id: Some(7),
        author_id: 500,
        author_name: "bob".to_string(),
        content: vec!["hi".to_string()],
        timestamp: stamp(),
        attachments: Vec::new(),
    }
}

fn client_with_channel() -> Parser {
    let mut p = Parser::new(100, 30, 0, "less".to_string());
    p.servers.add("workspace".to_string(), None, 7);
    p.servers.grab2(1, 0).add("general".to_string(), None, chan(11));
    p
}

#[test]
fn stale_product_is_dropped() {
    let mut p = client_with_channel();
    let before_len = p.servers.labels.len();
    let (save, tasks) = p.handle_product(Product::MessagesBefore(vec![entry(1)], chan(999)));
    assert!(!save);
    assert!(tasks.is_empty());
    assert_eq!(p.servers.labels.len(), before_len);
    assert!(matches!(p.servers.grab3(1, 0, 1), Messages::Unloaded(_)));
}

#[test]
fn stale_live_message_is_dropped() {
    let mut p = client_with_channel();
    let tasks = p.handle_response(Response::Message(raw(1, 999)));
    assert!(tasks.is_empty());
    assert!(matches!(p.servers.grab3(1, 0, 1), Messages::Unloaded(_)));
}

#[test]
fn initial_fetch_product_loads_the_channel() {
    let mut p = client_with_channel();
    // the channel was focused and its initial fetch went out
    let task = p.servers.grab3(1, 0, 1).update();
    assert!(task.is_some());
    // the worker answers with a short page
    let page: Vec<LoadedMessage> = (0..3).map(|i| entry(10 - i)).collect();
    let (save, tasks) = p.handle_product(Product::MessagesNew(page, chan(11)));
    assert!(!save);
    assert!(tasks.is_empty());
    match p.servers.grab3(1, 0, 1) {
        Messages::Loaded(v) => {
            assert_eq!(v.labels.len(), 3);
            // a short page means the history is complete
            assert_eq!(v.before, LoadingState::Finished);
        },
        _ => panic!("channel should be loaded"),
    }
}

#[test]
fn checkpoint_products_allow_saving() {
    let mut p = client_with_channel();
    let (save, _) = p.handle_product(Product::CanSave);
    assert!(save);
    let (save, _) = p.handle_product(Product::Killed);
    assert!(save);
}

#[test]
fn live_message_reaches_its_channel() {
    let mut p = client_with_channel();
    p.servers.grab3(1, 0, 1).update();
    let page: Vec<LoadedMessage> = vec![entry(5)];
    p.handle_product(Product::MessagesNew(page, chan(11)));
    let tasks = p.handle_response(Response::Message(raw(6, 11)));
    assert!(tasks.is_empty());
    match p.servers.grab3(1, 0, 1) {
        Messages::Loaded(v) => {
            let ids: Vec<u64> = v.labels.iter().map(|m| m.id).collect();
            assert_eq!(ids, vec![5, 6]);
        },
        _ => panic!("channel should be loaded"),
    }
}

#[test]
fn snapshot_restores_a_client() {
    let mut p = client_with_channel();
    p.servers.grab3(1, 0, 1).update();
    p.handle_product(Product::MessagesNew(vec![entry(5)], chan(11)));
    let saved = chat_tui::save::ParserSave::process(&p);
    let q = Parser::from_save(saved, 100, 30, 42, );
    assert_eq!(q.servers.labels.len(), 2);
    assert_eq!(q.autosave.last_time, 42);
    assert_eq!(q.servers.contents[1].contents[0].labels[1], "general");
}

#[test]
fn opener_configuration_chooses_by_extension() {
    let mut cfg = ExtConfig::new("less".to_string());
    cfg.extensions.push(vec!["png".to_string(), "jpg".to_string()]);
    cfg.paths.push("viewer".to_string());
    assert_eq!(cfg.choose_program("shot.png"), "viewer");
    assert_eq!(cfg.choose_program("notes.txt"), "less");
    // no dot: the whole name is the extension
    assert_eq!(cfg.choose_program("png"), "viewer");
}
