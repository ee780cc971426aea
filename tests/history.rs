use chat_bar::history::{History, FOLLOW};
use chat_bar::msg::Msg;

fn chat(origin: &str, line: &str) -> Msg {
    Msg::new(origin.to_string()).set_content(line.to_string())
}

fn filled(n: usize) -> History {
    let mut h = History::new();
    for i in 0..n {
        h.append(chat("peer", &format!("m{i}")));
    }
    h
}

#[test]
fn appends_keep_count_and_order() {
    let mut h = History::new();
    assert_eq!(h.len(), 0);
    for (i, line) in ["a", "b", "c", "d"].iter().enumerate() {
        h.append(chat("peer", line));
        assert_eq!(h.len(), i + 1);
    }
    let lines: Vec<String> = (0..h.len()).map(|i| h.get(i).content[0].clone()).collect();
    assert_eq!(lines, vec!["a", "b", "c", "d"]);
}

#[test]
fn new_history_follows_latest() {
    let h = History::new();
    assert_eq!(h.cursor(), FOLLOW);
    assert!(h.visible(10).is_empty());
}

#[test]
fn append_at_tail_moves_cursor() {
    let mut h = filled(3);
    h.pin_to_tail();
    assert_eq!(h.cursor(), 3);
    h.append(chat("peer", "x"));
    assert_eq!(h.cursor(), 4);
}

#[test]
fn append_below_tail_keeps_cursor() {
    let mut h = filled(3);
    h.pin_to_tail();
    h.scroll_up();
    assert_eq!(h.cursor(), 2);
    h.append(chat("peer", "x"));
    assert_eq!(h.cursor(), 2);
    assert_eq!(h.len(), 4);
}

#[test]
fn append_while_following_keeps_following() {
    let mut h = filled(2);
    h.append(chat("peer", "x"));
    assert_eq!(h.cursor(), FOLLOW);
    assert_eq!(h.visible(10).len(), 3);
}

#[test]
fn scroll_stays_in_range() {
    let mut h = filled(4);
    h.scroll(-100);
    assert_eq!(h.cursor(), 4);
    h.scroll(-100);
    assert_eq!(h.cursor(), 0);
    h.scroll(2);
    assert_eq!(h.cursor(), 2);
    h.scroll(100);
    assert_eq!(h.cursor(), 4);
    h.scroll(i64::MIN);
    assert_eq!(h.cursor(), 0);
    h.scroll(i64::MAX);
    assert_eq!(h.cursor(), 4);
}

#[test]
fn up_from_follow_clamps_then_decrements() {
    let mut h = filled(5);
    assert_eq!(h.cursor(), FOLLOW);
    h.scroll_up();
    assert_eq!(h.cursor(), 5);
    h.scroll_up();
    assert_eq!(h.cursor(), 4);
    for _ in 0..10 {
        h.scroll_up();
    }
    assert_eq!(h.cursor(), 0);
    h.scroll_down();
    assert_eq!(h.cursor(), 1);
}

#[test]
fn down_from_follow_clamps_to_len() {
    let mut h = filled(5);
    h.scroll_down();
    assert_eq!(h.cursor(), 5);
}

#[test]
fn visible_is_newest_first_up_to_height() {
    let mut h = filled(5);
    let v: Vec<String> = h.visible(3).iter().map(|m| m.content[0].clone()).collect();
    assert_eq!(v, vec!["m4", "m3", "m2"]);
    h.pin_to_tail();
    h.scroll(-2);
    let v: Vec<String> = h.visible(10).iter().map(|m| m.content[0].clone()).collect();
    assert_eq!(v, vec!["m2", "m1", "m0"]);
    h.follow_latest();
    assert_eq!(h.cursor(), FOLLOW);
    assert_eq!(h.visible(0).len(), 0);
}
