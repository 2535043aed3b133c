use serial_tui::ui::{export_dialog_area, fit_text, quick_send_window, tab_hint_area, terminal_window};

#[test]
fn fit_text_cuts_with_ellipsis() {
    assert_eq!(fit_text("hello", 10), "hello");
    assert_eq!(fit_text("hello", 5), "hello");
    assert_eq!(fit_text("hello", 4), "hel\u{2026}");
    assert_eq!(fit_text("hello", 1), "h");
    assert_eq!(fit_text("hello", 0), "");
    assert_eq!(fit_text("\u{4f60}\u{597d}\u{4e16}\u{754c}", 3), "\u{4f60}\u{597d}\u{2026}");
}

#[test]
fn terminal_window_follows_the_end() {
    assert_eq!(terminal_window(100, 12, 0), (90, 10));
    assert_eq!(terminal_window(100, 12, 5), (85, 10));
    assert_eq!(terminal_window(100, 12, 500), (0, 10));
    assert_eq!(terminal_window(5, 12, 0), (0, 10));
    assert_eq!(terminal_window(5, 1, 0), (5, 1));
}

#[test]
fn quick_send_window_keeps_selection_visible() {
    assert_eq!(quick_send_window(11, true, 0), (0, 5));
    assert_eq!(quick_send_window(11, true, 7), (3, 5));
    assert_eq!(quick_send_window(1, false, 2), (2, 1));
}

#[test]
fn tab_hint_in_top_right_corner() {
    assert_eq!(tab_hint_area(0, 1, 80, 20), Some((60, 1, 20, 6)));
    assert_eq!(tab_hint_area(0, 1, 19, 20), None);
    assert_eq!(tab_hint_area(0, 1, 20, 6), Some((0, 1, 20, 6)));
    assert_eq!(tab_hint_area(0, 1, 80, 5), None);
}

#[test]
fn export_dialog_is_centred() {
    assert_eq!(export_dialog_area(0, 0, 80, 24), Some((18, 8, 44, 7)));
    assert_eq!(export_dialog_area(2, 3, 45, 8), Some((2, 3, 44, 7)));
    assert_eq!(export_dialog_area(0, 0, 43, 24), None);
    assert_eq!(export_dialog_area(0, 0, 80, 6), None);
}
