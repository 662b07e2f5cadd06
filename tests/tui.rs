use procview::tui::Tui;

#[test]
fn select_next_wraps_to_start() {
    let mut t = Tui::new();
    t.update_process_table_number_of_items(5);
    t.select_next_row(3);
    assert_eq!(t.get_selected_row_index(), Some(3));
    t.select_next_row(4);
    assert_eq!(t.get_selected_row_index(), Some(0));
}

#[test]
fn select_next_wraps_once_not_modulo() {
    let mut t = Tui::new();
    t.update_process_table_number_of_items(5);
    t.select_next_row(12);
    assert_eq!(t.get_selected_row_index(), Some(0));
    t.select_next_row(4);
    assert_eq!(t.get_selected_row_index(), Some(4));
}

#[test]
fn select_previous_clamps_at_start() {
    let mut t = Tui::new();
    t.update_process_table_number_of_items(5);
    t.select_next_row(1);
    assert_eq!(t.get_selected_row_index(), Some(1));
    t.select_previous_row(4);
    assert_eq!(t.get_selected_row_index(), Some(0));
}

#[test]
fn select_previous_steps_back() {
    let mut t = Tui::new();
    t.update_process_table_number_of_items(10);
    t.select_next_row(7);
    t.select_previous_row(3);
    assert_eq!(t.get_selected_row_index(), Some(4));
}

#[test]
fn empty_list_selects_nothing_and_ignores_moves() {
    let mut t = Tui::new();
    t.update_process_table_number_of_items(4);
    t.select_next_row(2);
    t.update_process_table_number_of_items(0);
    assert_eq!(t.get_selected_row_index(), None);
    t.select_next_row(1);
    assert_eq!(t.get_selected_row_index(), None);
    t.select_previous_row(1);
    assert_eq!(t.get_selected_row_index(), None);
    assert_eq!(t.number_of_items(), 0);
}

#[test]
fn new_list_selects_first_row() {
    let mut t = Tui::new();
    assert_eq!(t.get_selected_row_index(), None);
    t.update_process_table_number_of_items(3);
    assert_eq!(t.get_selected_row_index(), Some(0));
    t.select_next_row(2);
    t.update_process_table_number_of_items(7);
    assert_eq!(t.get_selected_row_index(), Some(0));
}

#[test]
fn details_line_count() {
    let mut t = Tui::new();
    t.update_process_details_number_of_lines(10, None);
    assert_eq!(t.process_details_number_of_lines(), 1);
    t.update_process_details_number_of_lines(10, Some("abcdefghijklmnopqrstuvwxy"));
    assert_eq!(t.process_details_number_of_lines(), 5);
    t.update_process_details_number_of_lines(10, Some("abcdefghijklmnopqrstuvwxyz0123"));
    assert_eq!(t.process_details_number_of_lines(), 5);
    t.update_process_details_number_of_lines(10, Some(""));
    assert_eq!(t.process_details_number_of_lines(), 2);
    t.update_process_details_number_of_lines(0, Some("abc"));
    assert_eq!(t.process_details_number_of_lines(), 5);
    t.update_process_details_number_of_lines(2, Some("ééééé"));
    assert_eq!(t.process_details_number_of_lines(), 5);
}

#[test]
fn details_scroll_down_stops_when_rest_fits() {
    let mut t = Tui::new();
    t.update_process_table_number_of_items(3);
    t.update_process_details_number_of_lines(10, Some("0123456789012345678901234567890123456789"));
    assert_eq!(t.process_details_number_of_lines(), 6);
    t.process_details_down(4);
    assert_eq!(t.process_details_scroll_offset(), 1);
    t.process_details_down(4);
    assert_eq!(t.process_details_scroll_offset(), 2);
    t.process_details_down(4);
    assert_eq!(t.process_details_scroll_offset(), 2);
    t.process_details_up();
    assert_eq!(t.process_details_scroll_offset(), 1);
    t.process_details_up();
    t.process_details_up();
    assert_eq!(t.process_details_scroll_offset(), 0);
}

#[test]
fn selection_change_resets_details_scroll() {
    let mut t = Tui::new();
    t.update_process_table_number_of_items(3);
    t.update_process_details_number_of_lines(10, Some("0123456789012345678901234567890123456789"));
    t.process_details_down(2);
    t.process_details_down(2);
    assert_eq!(t.process_details_scroll_offset(), 2);
    t.select_next_row(1);
    assert_eq!(t.process_details_scroll_offset(), 0);
    t.process_details_down(2);
    t.select_previous_row(1);
    assert_eq!(t.process_details_scroll_offset(), 0);
    t.process_details_down(2);
    t.reset_process_details_scroll();
    assert_eq!(t.process_details_scroll_offset(), 0);
}

#[test]
fn table_top_follows_selection() {
    let mut t = Tui::new();
    t.update_process_table_number_of_items(100);
    t.select_next_row(45);
    assert_eq!(t.process_table_top(10), 36);
    t.select_previous_row(40);
    assert_eq!(t.process_table_top(10), 5);
    t.update_process_table_number_of_items(8);
    assert_eq!(t.process_table_top(10), 0);
}

#[test]
fn error_message_set_and_reset() {
    let mut t = Tui::new();
    assert_eq!(t.error_message(), None);
    t.set_error_message("cannot kill");
    assert_eq!(t.error_message(), Some("cannot kill"));
    t.reset_error_message();
    assert_eq!(t.error_message(), None);
}
