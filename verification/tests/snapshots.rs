use chat_tui::format::Stamp;
use chat_tui::message::{ChannelKind, ChannelRef, LoadedMessage, UserDict};
use chat_tui::messages::{LoadedMessages, LoadingState, Messages};
use chat_tui::save::{
    Autosave, ChannelSave, LoadedMessagesSave, MessagesSave, ServerSave, AUTOSAVE_FREQUENCY_MS,
};
use chat_tui::servers::Servers;

fn stamp() -> Stamp {
    Stamp { year: 2024, month: 1, day: 2, hour: 3, minute: 4, day_num: 1000 }
}

fn chan(id: u64) -> ChannelRef {
    ChannelRef { id, guild: Some(7), kind: ChannelKind::Guild }
}

fn entry(id: u64) -> LoadedMessage {
    LoadedMessage::from_content(500, vec!["hello".to_string()], stamp(), id, "bob".to_string())
}

#[test]
fn store_round_trip_preserves_entries() {
    let mut dict = UserDict::new();
    let mut store = LoadedMessages::new(chan(11));
    for i in 0..5u64 {
        store.add_complete(entry(i), None, &mut dict);
    }
    store.current = 2;
    store.selected = 3;
    store.unread = 1;
    store.before = LoadingState::Unloaded;
    store.after = LoadingState::Finished;
    let reloaded = LoadedMessagesSave::process(&store).reload();
    let ids: Vec<u64> = reloaded.labels.iter().map(|m| m.id).collect();
    assert_eq!(ids, vec![0, 1, 2, 3, 4]);
    assert_eq!(reloaded.labels[0].content.content, vec!["hello".to_string()]);
    assert_eq!(reloaded.labels[0].username, "bob");
    assert_eq!(reloaded.current, 2);
    assert_eq!(reloaded.selected, 3);
    assert_eq!(reloaded.unread, 1);
    // backward-more-available survives
    assert_eq!(reloaded.before, LoadingState::Unloaded);
    // the forward state always resets so the tail is checked afresh
    assert_eq!(reloaded.after, LoadingState::Unloaded);
}

#[test]
fn transient_backward_fetch_counts_as_more_available() {
    let mut dict = UserDict::new();
    let mut store = LoadedMessages::new(chan(11));
    store.add_complete(entry(1), None, &mut dict);
    store.before = LoadingState::Loading;
    let saved = LoadedMessagesSave::process(&store);
    assert!(saved.more_before);
    let reloaded = saved.reload();
    assert_eq!(reloaded.before, LoadingState::Unloaded);
}

#[test]
fn finished_history_survives_round_trip() {
    let mut dict = UserDict::new();
    let mut store = LoadedMessages::new(chan(11));
    store.add_complete(entry(1), None, &mut dict);
    store.before = LoadingState::Finished;
    let reloaded = LoadedMessagesSave::process(&store).reload();
    assert_eq!(reloaded.before, LoadingState::Finished);
}

#[test]
fn loading_slot_is_saved_as_unloaded() {
    let slot = Messages::Loading(chan(4));
    let saved = MessagesSave::process(&slot);
    assert!(matches!(saved, MessagesSave::Unloaded(c) if c.id == 4));
    let reloaded = saved.reload();
    assert!(matches!(reloaded, Messages::Unloaded(c) if c.id == 4));
}

#[test]
fn tree_round_trip_preserves_shape_and_positions() {
    let mut servers = Servers::new();
    servers.add("workspace".to_string(), None, 7);
    servers.grab2(1, 0).add(
        "general".to_string(),
        None,
        ChannelRef { id: 11, guild: Some(7), kind: ChannelKind::Guild },
    );
    servers.current = 1;
    servers.selected = 1;
    let restored = ServerSave::process(&servers).reload();
    assert_eq!(restored.labels.len(), 2);
    assert_eq!(restored.labels[1].name, "workspace");
    assert_eq!(restored.current, 1);
    assert_eq!(restored.selected, 1);
    assert_eq!(restored.contents[1].s_id, Some(7));
    assert_eq!(restored.contents[1].contents[0].labels.len(), 2);
    assert_eq!(restored.contents[1].contents[0].labels[1], "general");
}

#[test]
fn channel_column_round_trip() {
    let mut chans = chat_tui::channels::Channels::new(None);
    chans.add("general".to_string(), None, chan(11));
    chans.select();
    let restored = ChannelSave::process(&chans).reload();
    assert_eq!(restored.labels, vec!["placeholder channel".to_string(), "general".to_string()]);
    assert_eq!(restored.selected, 0);
    assert!(matches!(restored.contents[1], Messages::Unloaded(c) if c.id == 11));
}

#[test]
fn autosave_interval() {
    let a = Autosave::new(1000);
    assert!(!a.should_save(1000));
    assert!(!a.should_save(1000 + AUTOSAVE_FREQUENCY_MS));
    assert!(a.should_save(1001 + AUTOSAVE_FREQUENCY_MS));
}
