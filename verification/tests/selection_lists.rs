use chat_tui::categories::Categories;
use chat_tui::channels::Channels;
use chat_tui::message::{ChannelKind, ChannelRef};
use chat_tui::servers::{unread_marker, Servers, Unread};

fn chan(id: u64, guild: Option<u64>) -> ChannelRef {
    ChannelRef { id, guild, kind: ChannelKind::Guild }
}

fn five_categories() -> Categories {
    let mut cats = Categories::new("general", Some(7));
    for i in 0..4u64 {
        cats.add(format!("cat{}", i), None, None);
    }
    assert_eq!(cats.labels.len(), 5);
    cats
}

#[test]
fn insert_shifts_focus_and_selection() {
    // length 5, current 2, selected 4; insert at 1
    let mut cats = five_categories();
    cats.current = 2;
    cats.selected = 4;
    cats.add("inserted".to_string(), Some(1), None);
    assert_eq!(cats.labels.len(), 6);
    assert_eq!(cats.current, 3);
    assert_eq!(cats.selected, 5);
}

#[test]
fn remove_shifts_focus_and_selection() {
    // length 5, current 2, selected 4; remove position 0
    let mut cats = five_categories();
    cats.current = 2;
    cats.selected = 4;
    cats.remove(0);
    assert_eq!(cats.labels.len(), 4);
    assert_eq!(cats.current, 1);
    assert_eq!(cats.selected, 3);
}

#[test]
fn remove_clamps_at_top() {
    let mut cats = five_categories();
    cats.current = 0;
    cats.selected = 0;
    cats.remove(0);
    assert_eq!(cats.current, 0);
    assert_eq!(cats.selected, 0);
    assert_eq!(cats.labels.len(), 4);
}

#[test]
fn positions_stay_valid_under_mutations() {
    let mut cats = five_categories();
    cats.current = 4;
    cats.selected = 4;
    cats.add("a".to_string(), Some(0), None);
    cats.add("b".to_string(), Some(3), None);
    cats.remove(0);
    cats.remove(2);
    cats.remove(0);
    let len = cats.labels.len();
    assert!(len > 0);
    assert!(cats.current < len);
    assert!(cats.selected < len);
}

#[test]
fn navigation_clamps() {
    let mut cats = five_categories();
    assert_eq!(cats.up(), 0);
    assert_eq!(cats.down(), 1);
    assert_eq!(cats.down(), 2);
    cats.select();
    assert_eq!(cats.selected, 2);
    for _ in 0..10 {
        cats.down();
    }
    assert_eq!(cats.current, 4);
}

#[test]
fn channel_list_add_and_mark() {
    let mut chans = Channels::new(None);
    chans.add("general".to_string(), None, chan(11, Some(7)));
    assert_eq!(chans.labels.len(), 2);
    assert_eq!(chans.labels[1], "general");
    chans.mark(1, Unread::Mentions(3));
    assert!(matches!(chans.unread[1], Unread::Mentions(3)));
}

#[test]
fn server_tree_find_channel() {
    let mut servers = Servers::new();
    servers.add("workspace".to_string(), None, 7);
    // the new workspace sits at position 1, with one catch-all category
    servers.grab2(1, 0).add("general".to_string(), None, chan(11, Some(7)));
    let found = servers.find_channel(11, Some(7));
    assert_eq!(found, Some((1, 0, 1)));
    let missing = servers.find_channel(99, Some(7));
    assert_eq!(missing, None);
    let wrong_guild = servers.find_channel(11, Some(8));
    assert_eq!(wrong_guild, None);
}

#[test]
fn server_label_styled() {
    let mut servers = Servers::new();
    assert_eq!(servers.labels[0].to_string(), "\u{001B}[37mserverless channels");
    servers.color();
    assert_eq!(servers.labels[0].to_string(), "\u{001B}[31mserverless channels");
}

#[test]
fn server_navigation() {
    let mut servers = Servers::new();
    servers.add("one".to_string(), None, 1);
    servers.add("two".to_string(), None, 2);
    servers.down();
    servers.down();
    assert_eq!(servers.current, 2);
    servers.down();
    assert_eq!(servers.current, 2);
    servers.select();
    assert_eq!(servers.selected, 2);
    servers.up();
    assert_eq!(servers.current, 1);
}

#[test]
fn unread_markers_render() {
    assert_eq!(unread_marker(&Unread::Read), "    ");
    assert_eq!(unread_marker(&Unread::Unread), "(0) ");
    assert_eq!(unread_marker(&Unread::Mentions(3)), "(3) ");
    assert_eq!(unread_marker(&Unread::Mentions(25)), "(+) ");
    assert_eq!(unread_marker(&Unread::Gone), "!!! ");
}

#[test]
fn nested_accessors_commit_paths() {
    let mut servers = Servers::new();
    servers.add("workspace".to_string(), None, 7);
    servers.grab2(1, 0).add("general".to_string(), None, chan(11, Some(7)));
    servers.switch3(1, 0, 1);
    assert_eq!(servers.selected, 1);
    assert_eq!(servers.contents[1].selected, 0);
    assert_eq!(servers.contents[1].contents[0].selected, 1);
    assert!(servers.get3().id().map(|c| c.id) == Some(11));
    let last = servers.last3();
    assert!(last.id().map(|c| c.id) == Some(11));
    servers.switch2(0, 0);
    assert_eq!(servers.selected, 0);
}
