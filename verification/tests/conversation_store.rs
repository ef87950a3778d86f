use chat_tui::format::Stamp;
use chat_tui::message::{ChannelKind, ChannelRef, LoadedMessage, RawMessage, UserDict};
use chat_tui::messages::{LoadedMessages, LoadingState, Messages};
use chat_tui::task::Task;

fn stamp() -> Stamp {
    Stamp { year: 2024, month: 1, day: 2, hour: 3, minute: 4, day_num: 1000 }
}

fn chan(id: u64) -> ChannelRef {
    ChannelRef { id, guild: Some(7), kind: ChannelKind::Guild }
}

fn entry(id: u64) -> LoadedMessage {
    LoadedMessage::from_content(500, vec!["hello".to_string()], stamp(), id, "bob".to_string())
}

fn raw(id: u64) -> RawMessage {
    RawMessage {
        id,
        channel_id: 11,
        guild_id: Some(7),
        author_id: 500,
        author_name: "bob".to_string(),
        content: vec!["hi there".to_string()],
        timestamp: stamp(),
        attachments: Vec::new(),
    }
}

#[test]
fn first_focus_triggers_initial_fetch() {
    // channel with no cached entries: first focus issues the initial fetch
    let mut slot = Messages::with_channel(chan(11));
    let task = slot.update();
    assert!(matches!(task, Some(Task::GetNewMessages(c)) if c.id == 11));
    assert!(matches!(slot, Messages::Loading(_)));
    // a second focus does not issue another fetch
    assert!(slot.update().is_none());
}

#[test]
fn full_first_page_leaves_more_available() {
    // worker returns a full page of 50 entries
    let mut slot = Messages::with_channel(chan(11));
    slot.update();
    let mut dict = UserDict::new();
    let page: Vec<LoadedMessage> = (0..50).map(|i| entry(1000 - i)).collect();
    slot.receive_new(&mut dict, page, true);
    match &slot {
        Messages::Loaded(v) => {
            assert_eq!(v.labels.len(), 50);
            assert_eq!(v.before, LoadingState::Unloaded);
            assert_eq!(v.after, LoadingState::Finished);
            // fetch returned newest first; the store keeps oldest first
            assert_eq!(v.labels[0].id, 951);
            assert_eq!(v.labels[49].id, 1000);
        },
        _ => panic!("slot should be loaded"),
    }
}

#[test]
fn empty_backward_fetch_finishes_history() {
    // channel with 10 cached entries; a backward fetch returns nothing
    let mut dict = UserDict::new();
    let mut store = LoadedMessages::new(chan(11));
    for i in 0..10u64 {
        store.add_complete(entry(i), None, &mut dict);
    }
    store.before = LoadingState::Loading;
    store.receive_update(&mut dict, Vec::new());
    assert_eq!(store.before, LoadingState::Finished);
    assert_eq!(store.labels.len(), 10);
}

#[test]
fn backward_entries_go_in_front_and_shift_positions() {
    let mut dict = UserDict::new();
    let mut store = LoadedMessages::new(chan(11));
    for i in 10..13u64 {
        store.add_complete(entry(i), None, &mut dict);
    }
    store.current = 1;
    store.selected = 2;
    store.before = LoadingState::Loading;
    // backward pages arrive newest first
    store.receive_update(&mut dict, vec![entry(9), entry(8)]);
    assert_eq!(store.before, LoadingState::Unloaded);
    let ids: Vec<u64> = store.labels.iter().map(|m| m.id).collect();
    assert_eq!(ids, vec![8, 9, 10, 11, 12]);
    assert_eq!(store.current, 3);
    assert_eq!(store.selected, 4);
}

#[test]
fn live_message_during_backward_fetch_is_deferred() {
    // a live message while the backward fetch is in flight must not be
    // applied; it comes back as a delayed task and lands after the
    // backward entries once they are in
    let mut dict = UserDict::new();
    let mut store = LoadedMessages::new(chan(11));
    store.add_complete(entry(20), None, &mut dict);
    store.before = LoadingState::Loading;
    let tasks = store.receive_message(&mut dict, raw(21));
    assert_eq!(store.labels.len(), 1, "deferred message must not be applied");
    assert_eq!(tasks.len(), 1);
    let deferred = match tasks.into_iter().next().unwrap() {
        Task::Kick(chat_tui::input::Response::Message(m), delay) => {
            assert_eq!(delay, 100);
            m
        },
        _ => panic!("expected a delayed retry"),
    };
    // the backward fetch answers
    store.receive_update(&mut dict, vec![entry(19), entry(18)]);
    assert_eq!(store.before, LoadingState::Unloaded);
    // the deferred message is retried now that nothing is in flight
    let follow = store.receive_message(&mut dict, deferred);
    assert!(follow.is_empty());
    let ids: Vec<u64> = store.labels.iter().map(|m| m.id).collect();
    assert_eq!(ids, vec![18, 19, 20, 21]);
}

#[test]
fn live_message_with_unseen_tail_fetches_forward() {
    let mut dict = UserDict::new();
    let mut store = LoadedMessages::new(chan(11));
    store.add_complete(entry(30), None, &mut dict);
    store.after = LoadingState::Unloaded;
    let tasks = store.receive_message(&mut dict, raw(31));
    assert_eq!(store.after, LoadingState::Loading);
    assert_eq!(store.labels.len(), 1);
    assert_eq!(tasks.len(), 2);
    assert!(matches!(&tasks[0], Task::GetMessagesAfter(c, 30) if c.id == 11));
    assert!(matches!(&tasks[1], Task::Kick(_, 100)));
}

#[test]
fn live_message_applies_directly_when_tail_complete() {
    let mut dict = UserDict::new();
    let mut store = LoadedMessages::new(chan(11));
    store.add_complete(entry(30), None, &mut dict);
    let tasks = store.receive_message(&mut dict, raw(31));
    assert!(tasks.is_empty());
    assert_eq!(store.labels.len(), 2);
    assert_eq!(store.labels[1].id, 31);
    assert_eq!(store.labels[1].content.content, vec!["hi there".to_string()]);
}

#[test]
fn at_most_one_direction_loading() {
    let mut dict = UserDict::new();
    let mut store = LoadedMessages::new(chan(11));
    store.add_complete(entry(1), None, &mut dict);
    store.before = LoadingState::Unloaded;
    store.after = LoadingState::Loading;
    // the backward prefetch is suppressed while the forward fetch runs
    let t = store.update();
    assert!(t.is_none());
    assert_eq!(store.before, LoadingState::Unloaded);
    store.after = LoadingState::Finished;
    let t = store.update();
    assert!(matches!(t, Some(Task::GetMessagesBefore(c, 1)) if c.id == 11));
    assert_eq!(store.before, LoadingState::Loading);
    assert!(!(store.before == LoadingState::Loading && store.after == LoadingState::Loading));
}

#[test]
fn forward_results_append() {
    let mut dict = UserDict::new();
    let mut store = LoadedMessages::new(chan(11));
    store.add_complete(entry(1), None, &mut dict);
    store.after = LoadingState::Loading;
    store.receive_update_after(&mut dict, vec![entry(2), entry(3)]);
    assert_eq!(store.after, LoadingState::Unloaded);
    let ids: Vec<u64> = store.labels.iter().map(|m| m.id).collect();
    assert_eq!(ids, vec![1, 2, 3]);
    store.after = LoadingState::Loading;
    store.receive_update_after(&mut dict, Vec::new());
    assert_eq!(store.after, LoadingState::Finished);
}

#[test]
fn update_to_end_uses_newest_cursor() {
    let mut dict = UserDict::new();
    let mut store = LoadedMessages::new(chan(11));
    store.add_complete(entry(5), None, &mut dict);
    store.add_complete(entry(9), None, &mut dict);
    store.after = LoadingState::Unloaded;
    let mut slot = Messages::Loaded(store);
    let (did, task) = slot.update_to_end();
    assert!(did);
    assert!(matches!(task, Some(Task::GetMessagesAfter(c, 9)) if c.id == 11));
    let (did_again, task_again) = slot.update_to_end();
    assert!(!did_again);
    assert!(task_again.is_none());
}

#[test]
fn raw_batch_builds_a_store() {
    let mut dict = UserDict::new();
    let mut tasks: Vec<Task> = Vec::new();
    let batch = vec![raw(3), raw(2), raw(1)];
    let store = LoadedMessages::with_messages(chan(11), batch, false, &mut dict, &mut tasks);
    assert!(tasks.is_empty());
    let ids: Vec<u64> = store.labels.iter().map(|m| m.id).collect();
    assert_eq!(ids, vec![1, 2, 3]);
    assert_eq!(store.before, LoadingState::Finished);
}

#[test]
fn recolor_through_the_store() {
    let mut dict = UserDict::new();
    let mut store = LoadedMessages::new(chan(11));
    store.add_complete(entry(1), None, &mut dict);
    store.red(&mut dict);
    assert!(store.flag);
    let info = dict.contents.get(&500).unwrap();
    // the author keeps the name; only the color moved
    assert_eq!(info.name, "bob");
}

#[test]
fn update_to_end_waits_for_backward_fetch() {
    let mut dict = UserDict::new();
    let mut store = LoadedMessages::new(chan(11));
    store.add_complete(entry(5), None, &mut dict);
    store.after = LoadingState::Unloaded;
    store.before = LoadingState::Loading;
    let mut slot = Messages::Loaded(store);
    // no forward fetch while the backward one is in flight
    let (did, task) = slot.update_to_end();
    assert!(!did);
    assert!(task.is_none());
    match &slot {
        Messages::Loaded(v) => assert_eq!(v.after, LoadingState::Unloaded),
        _ => panic!("slot should stay loaded"),
    }
}

#[test]
fn prefetch_on_a_fresh_store_is_a_no_op() {
    // an empty store whose history is already complete asks for nothing
    let mut store = LoadedMessages::new(chan(11));
    assert!(store.update().is_none());
    assert_eq!(store.labels.len(), 0);
    assert_eq!(store.before, LoadingState::Finished);
}
