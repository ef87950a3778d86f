use chat_tui::message::{ChannelKind, ChannelRef};
use chat_tui::task::{Control, Product, Task, Worker};

fn chan(id: u64) -> ChannelRef {
    ChannelRef { id, guild: None, kind: ChannelKind::Private }
}

fn fetch(id: u64) -> Task {
    Task::GetNewMessages(chan(id))
}

#[test]
fn drain_checkpoint_waits_for_follow_ups() {
    let mut w = Worker::new();
    w.submit(fetch(1));
    w.control(Control::Drain);
    let batch = w.begin_batch();
    assert_eq!(batch.len(), 1);
    // the batch spawned a follow-up: no checkpoint yet
    let emit = w.finish_batch(vec![fetch(2)]);
    assert!(emit.is_none());
    // the follow-up finishes with nothing new: now the checkpoint comes
    let batch = w.begin_batch();
    assert_eq!(batch.len(), 1);
    let emit = w.finish_batch(Vec::new());
    assert!(matches!(emit, Some(Product::CanSave)));
    // exactly one checkpoint per drain request
    let batch = w.begin_batch();
    assert!(batch.is_empty());
    assert!(w.finish_batch(Vec::new()).is_none());
}

#[test]
fn drain_checkpoint_immediate_when_idle() {
    let mut w = Worker::new();
    w.control(Control::Drain);
    w.begin_batch();
    let emit = w.finish_batch(Vec::new());
    assert!(matches!(emit, Some(Product::CanSave)));
}

#[test]
fn kill_stops_the_worker() {
    let mut w = Worker::new();
    w.submit(fetch(1));
    w.control(Control::Kill);
    w.begin_batch();
    let emit = w.finish_batch(Vec::new());
    assert!(matches!(emit, Some(Product::Killed)));
    assert!(w.stopped);
    // a task submitted after the stop is dropped
    w.submit(fetch(2));
    assert!(w.queue.is_empty());
}

#[test]
fn checkpoint_only_when_nothing_pending() {
    let mut w = Worker::new();
    w.submit(fetch(1));
    w.submit(fetch(2));
    w.control(Control::Drain);
    let batch = w.begin_batch();
    assert_eq!(batch.len(), 2);
    // while the queue refills, no checkpoint is emitted
    w.submit(fetch(3));
    let emit = w.finish_batch(Vec::new());
    assert!(emit.is_none(), "a task was still queued");
    w.begin_batch();
    let emit = w.finish_batch(Vec::new());
    assert!(matches!(emit, Some(Product::CanSave)));
    assert!(w.queue.is_empty());
    assert_eq!(w.in_flight, 0);
}

#[test]
fn kill_answers_with_the_kill_acknowledgement() {
    // even with a drain pending, a completed kill answers as a kill
    let mut w = Worker::new();
    w.control(Control::Drain);
    w.control(Control::Kill);
    w.begin_batch();
    let emit = w.finish_batch(Vec::new());
    assert!(matches!(emit, Some(Product::Killed)));
    assert!(w.stopped);
}
