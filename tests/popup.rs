use procview::popup::{
    centered_rect_absolute, msg_title_error, msg_title_key_bindings, popup_text_height, popup_width,
    Area, EventState, MsgPopup, PopupKey,
};

fn frame(width: u16, height: u16) -> Area {
    Area { x: 0, y: 0, width, height }
}

#[test]
fn titles() {
    assert_eq!(msg_title_error(), "Error");
    assert_eq!(msg_title_key_bindings(), "Keybindings");
}

#[test]
fn reopened_popup_starts_at_first_line() {
    let mut p = MsgPopup::new();
    p.show_error("line1\nline2");
    let lines = vec!["line1".to_string(), "line2".to_string()];
    p.scroll_lines(&lines, 1);
    assert_eq!(p.event(PopupKey::Down), EventState::Consumed);
    assert_eq!(p.scroll_top(), 1);
    p.dismiss();
    assert!(!p.is_visible());
    p.show_error("other");
    assert!(p.is_visible());
    assert_eq!(p.title(), "Error");
    assert_eq!(p.msg(), "other");
    assert_eq!(p.scroll_top(), 0);
}

#[test]
fn key_bindings_popup() {
    let mut p = MsgPopup::new();
    p.show_key_bindings("q quit");
    assert_eq!(p.title(), "Keybindings");
    assert_eq!(p.msg(), "q quit");
    assert!(p.is_visible());
}

#[test]
fn hidden_popup_takes_no_keys() {
    let mut p = MsgPopup::new();
    assert_eq!(p.event(PopupKey::Enter), EventState::NotConsumed);
    assert_eq!(p.event(PopupKey::Down), EventState::NotConsumed);
    assert!(!p.is_visible());
}

#[test]
fn confirm_closes_popup() {
    let mut p = MsgPopup::new();
    p.show_error("boom");
    assert_eq!(p.event(PopupKey::Other), EventState::NotConsumed);
    assert!(p.is_visible());
    assert_eq!(p.event(PopupKey::Enter), EventState::Consumed);
    assert!(!p.is_visible());
}

#[test]
fn popup_keys_scroll_within_bounds() {
    let mut p = MsgPopup::new();
    p.show_error("a\nb\nc");
    let lines = vec!["a".to_string(), "b".to_string(), "c".to_string()];
    let shown = p.scroll_lines(&lines, 2);
    assert_eq!(shown, vec!["a".to_string(), "b".to_string()]);
    assert_eq!(p.event(PopupKey::Up), EventState::Consumed);
    assert_eq!(p.scroll_top(), 0);
    p.event(PopupKey::Down);
    p.event(PopupKey::Down);
    assert_eq!(p.scroll_top(), 1);
    let shown = p.scroll_lines(&lines, 2);
    assert_eq!(shown, vec!["b".to_string(), "c".to_string()]);
}

#[test]
fn scroll_lines_clamps_when_text_shrinks() {
    let mut p = MsgPopup::new();
    p.show_error("x");
    let many: Vec<String> = (0..10).map(|i| format!("l{}", i)).collect();
    p.scroll_lines(&many, 3);
    for _ in 0..9 {
        p.event(PopupKey::Down);
    }
    assert_eq!(p.scroll_top(), 7);
    let few: Vec<String> = (0..5).map(|i| format!("l{}", i)).collect();
    let shown = p.scroll_lines(&few, 3);
    assert_eq!(p.scroll_top(), 2);
    assert_eq!(shown, vec!["l2".to_string(), "l3".to_string(), "l4".to_string()]);
}

#[test]
fn centered_rect() {
    assert_eq!(centered_rect_absolute(60, 25, frame(100, 40)), Area { x: 20, y: 7, width: 60, height: 25 });
    assert_eq!(centered_rect_absolute(60, 25, frame(50, 20)), Area { x: 0, y: 0, width: 50, height: 20 });
}

#[test]
fn width_of_popup() {
    assert_eq!(popup_width(10, 100), 60);
    assert_eq!(popup_width(70, 100), 72);
    assert_eq!(popup_width(200, 100), 100);
    assert_eq!(popup_width(200, 40), 60);
}

#[test]
fn text_height_of_popup() {
    assert_eq!(popup_text_height(100), 23);
    assert_eq!(popup_text_height(10), 8);
    assert_eq!(popup_text_height(1), 0);
}

#[test]
fn longest_line_in_bytes() {
    let mut p = MsgPopup::new();
    p.show_error("ab\nabcde\nabc");
    assert_eq!(p.max_line_len(), 5);
    p.show_error("é\r\nxy");
    assert_eq!(p.max_line_len(), 2);
}

#[test]
fn layout_of_hidden_popup_is_none() {
    let mut p = MsgPopup::new();
    assert!(p.layout(frame(100, 40)).is_none());
}

#[test]
fn layout_splits_message_lines() {
    let mut p = MsgPopup::new();
    p.show_error("one\ntwo\nthree");
    let l = p.layout(frame(100, 40)).unwrap();
    assert_eq!(l.area, Area { x: 20, y: 7, width: 60, height: 25 });
    assert_eq!(l.lines, vec!["one".to_string(), "two".to_string(), "three".to_string()]);
}

#[test]
fn layout_breaks_overlong_word() {
    let mut p = MsgPopup::new();
    let word = "a".repeat(100);
    p.show_error(&word);
    let l = p.layout(frame(60, 40)).unwrap();
    assert_eq!(l.area.width, 60);
    assert_eq!(l.lines, vec!["a".repeat(58), "a".repeat(42)]);
}

#[test]
fn layout_shows_window_of_long_text() {
    let mut p = MsgPopup::new();
    let text: Vec<String> = (0..30).map(|i| format!("row{}", i)).collect();
    p.show_error(&text.join("\n"));
    let l = p.layout(frame(100, 12)).unwrap();
    assert_eq!(l.lines.len(), 10);
    assert_eq!(l.lines[0], "row0");
    p.event(PopupKey::Down);
    let l = p.layout(frame(100, 12)).unwrap();
    assert_eq!(l.lines[0], "row1");
    assert_eq!(l.lines[9], "row10");
}

#[test]
fn layout_without_room_is_none() {
    let mut p = MsgPopup::new();
    p.show_error("text");
    assert!(p.layout(frame(1, 40)).is_none());
}

#[test]
fn layout_wraps_wide_characters_on_narrow_frame() {
    let mut p = MsgPopup::new();
    p.show_error("漢字漢字漢字");
    let l = p.layout(frame(5, 40)).unwrap();
    assert_eq!(l.area.width, 5);
    assert_eq!(
        l.lines,
        vec!["漢".to_string(), "字".to_string(), "漢".to_string(), "字".to_string(), "漢".to_string(), "字".to_string()]
    );
}

#[test]
fn layout_wraps_long_wide_line_on_wide_frame() {
    let mut p = MsgPopup::new();
    let text = "漢".repeat(1740);
    p.show_error(&text);
    let l = p.layout(frame(61, 40)).unwrap();
    assert_eq!(l.area.width, 61);
    assert_eq!(l.lines.len(), 23);
    assert_eq!(l.lines[0], "漢".repeat(29));
}
