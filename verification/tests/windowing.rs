use chat_tui::render::Grid;
use chat_tui::viewport::window_start;

#[test]
fn focus_near_end_pins_to_bottom() {
    // viewport height 10, 100 items, focus 95
    assert_eq!(window_start(100, 95, 10), 90);
}

#[test]
fn short_list_pins_to_top() {
    assert_eq!(window_start(5, 3, 10), 0);
    assert_eq!(window_start(10, 0, 10), 0);
}

#[test]
fn focus_near_start_pins_to_top() {
    assert_eq!(window_start(100, 4, 10), 0);
    assert_eq!(window_start(100, 5, 10), 0);
}

#[test]
fn focus_in_middle_centers() {
    assert_eq!(window_start(100, 50, 10), 45);
    assert_eq!(window_start(100, 6, 10), 1);
}

#[test]
fn window_always_contains_focus() {
    for n in 1..40usize {
        for f in 0..n {
            for h in 1..15usize {
                let s = window_start(n, f, h);
                assert!(s <= f && f < s + h, "n={} f={} h={} s={}", n, f, h, s);
                assert!(s <= n.saturating_sub(h));
            }
        }
    }
}

#[test]
fn grid_columns() {
    let g = Grid::new(100, 30);
    assert_eq!(g.len_servers(), 20);
    assert_eq!(g.len_categories(), 20);
    assert_eq!(g.len_channels(), 20);
    assert_eq!(g.len_messages(), 40);
    assert_eq!(g.height(), 29);
    assert_eq!(g.total_across(), 100);
    assert!(g.servers_selected());
    assert!(!g.messages_selected());
}

#[test]
fn grid_wide_screen_caps_columns() {
    let g = Grid::new(400, 50);
    assert_eq!(g.len_servers(), 25);
    assert_eq!(g.border_2, 50);
    assert_eq!(g.border_3, 75);
    assert_eq!(g.len_messages(), 325);
}

#[test]
fn grid_resize() {
    let mut g = Grid::new(100, 30);
    g.update(2, 40, 200);
    assert_eq!(g.end_y, 40);
    assert_eq!(g.end_x, 200);
    assert_eq!(g.border_y, 28);
    assert_eq!(g.border_1, 25);
    g.set_lines(5);
    assert_eq!(g.border_y, 35);
    g.update_msg(1);
    assert_eq!(g.border_y, 39);
}
