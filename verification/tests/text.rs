use feed_ui::layout::Layout;
use feed_ui::selection::Selection;
use feed_ui::store::{Error, Timestamp};
use feed_ui::terminal::BoundingBox;
use feed_ui::text::{decimal_string, first_line_of, fit, push_decimal, push_spaces, push_zero_padded};

#[test]
fn decimal_of_small_and_large_numbers() {
    assert_eq!(decimal_string(0), "0");
    assert_eq!(decimal_string(7), "7");
    assert_eq!(decimal_string(10), "10");
    assert_eq!(decimal_string(1234567890), "1234567890");
    assert_eq!(decimal_string(u128::MAX), "340282366920938463463374607431768211455");
}

#[test]
fn push_decimal_appends() {
    let mut s = String::from("n=");
    push_decimal(&mut s, 42);
    assert_eq!(s, "n=42");
}

#[test]
fn zero_padding_fills_up_to_the_width() {
    let mut s = String::new();
    push_zero_padded(&mut s, 7, 2);
    assert_eq!(s, "07");
    let mut s = String::new();
    push_zero_padded(&mut s, 45, 4);
    assert_eq!(s, "0045");
    let mut s = String::new();
    push_zero_padded(&mut s, 0, 2);
    assert_eq!(s, "00");
}

#[test]
fn zero_padding_never_cuts() {
    let mut s = String::new();
    push_zero_padded(&mut s, 12345, 4);
    assert_eq!(s, "12345");
    let mut s = String::new();
    push_zero_padded(&mut s, 255, 2);
    assert_eq!(s, "255");
    let mut s = String::new();
    push_zero_padded(&mut s, 9, 0);
    assert_eq!(s, "9");
}

#[test]
fn push_spaces_appends_blanks() {
    let mut s = String::from("a");
    push_spaces(&mut s, 3);
    assert_eq!(s, "a   ");
    push_spaces(&mut s, 0);
    assert_eq!(s, "a   ");
}

#[test]
fn fit_pads_short_text() {
    assert_eq!(fit("abc", 5), "abc  ");
    assert_eq!(fit("", 2), "  ");
}

#[test]
fn fit_cuts_long_text() {
    assert_eq!(fit("abcdef", 4), "abcd");
    assert_eq!(fit("abc", 3), "abc");
    assert_eq!(fit("abc", 0), "");
}

#[test]
fn fit_counts_characters_not_bytes() {
    assert_eq!(fit("héllo wörld", 5), "héllo");
    assert_eq!(fit("é", 3), "é  ");
}

#[test]
fn first_line_stops_at_the_line_feed() {
    assert_eq!(first_line_of("one\ntwo\nthree"), "one");
    assert_eq!(first_line_of("no break"), "no break");
    assert_eq!(first_line_of("\nleading"), "");
    assert_eq!(first_line_of(""), "");
    assert_eq!(first_line_of("é\nü"), "é");
}

#[test]
fn timestamp_is_formatted_with_padding() {
    let t = Timestamp { year: 2022, month: 3, day: 9, hour: 7, minute: 5, second: 0 };
    assert_eq!(t.format(), "2022-03-09 07:05:00");
    let t = Timestamp { year: 987, month: 12, day: 31, hour: 23, minute: 59, second: 59 };
    assert_eq!(t.format(), "0987-12-31 23:59:59");
}

#[test]
fn error_messages() {
    assert_eq!(Error::AlreadyLoading.message(), "Cannot get lock");
    assert_eq!(Error::NoMorePages.message(), "No more pages");
    assert_eq!(Error::NotFound.message(), "Not found");
    assert_eq!(Error::ProviderError(String::from("rate limited")).message(), "rate limited");
}

#[test]
fn layout_splits_the_width() {
    let l = Layout::new(80, 24);
    assert_eq!(l.screen_cols, 80);
    assert_eq!(l.screen_rows, 24);
    assert_eq!(l.feed_pane_width, 40);
    assert_eq!(l.tweet_pane_width, 40);
    let l = Layout::new(81, 24);
    assert_eq!(l.feed_pane_width, 40);
    assert_eq!(l.tweet_pane_width, 41);
    let l = Layout::new(1, 1);
    assert_eq!(l.feed_pane_width, 0);
    assert_eq!(l.tweet_pane_width, 1);
    let l = Layout::new(u16::MAX, u16::MAX);
    assert_eq!(l.feed_pane_width as u32 + l.tweet_pane_width as u32, u16::MAX as u32);
}

#[test]
fn layout_regions() {
    let l = Layout::new(81, 24);
    assert_eq!(l.list_box(), BoundingBox { left: 0, top: 0, width: 40, height: 23 });
    assert_eq!(l.detail_box(), BoundingBox { left: 40, top: 0, width: 41, height: 23 });
    assert_eq!(l.status_box(), BoundingBox { left: 0, top: 23, width: 81, height: 1 });
}

#[test]
fn layout_of_a_screen_without_rows() {
    let l = Layout::new(10, 0);
    assert_eq!(l.list_box().height, 0);
    assert_eq!(l.detail_box().height, 0);
    assert_eq!(l.status_box(), BoundingBox { left: 0, top: 0, width: 10, height: 0 });
}

#[test]
fn selection_starts_at_the_top() {
    assert_eq!(Selection::new(), Selection { selected_index: 0, view_offset: 0 });
}

#[test]
fn selection_does_not_move_in_an_empty_feed() {
    let s = Selection::new();
    assert_eq!(s.move_by(1, 0, 10), s);
    assert_eq!(s.move_by(-1, 0, 10), s);
}

#[test]
fn selection_moves_within_the_window() {
    let s = Selection { selected_index: 2, view_offset: 0 };
    assert_eq!(s.move_by(1, 10, 5), Selection { selected_index: 3, view_offset: 0 });
    assert_eq!(s.move_by(-1, 10, 5), Selection { selected_index: 1, view_offset: 0 });
    assert_eq!(s.move_by(0, 10, 5), s);
}

#[test]
fn selection_stops_at_the_first_item() {
    let s = Selection { selected_index: 0, view_offset: 0 };
    assert_eq!(s.move_by(-1, 10, 5).selected_index, 0);
    assert_eq!(s.move_by(-100, 10, 5).selected_index, 0);
    assert_eq!(s.move_by(isize::MIN, 10, 5).selected_index, 0);
    let s = Selection { selected_index: 3, view_offset: 0 };
    assert_eq!(s.move_by(-7, 10, 5).selected_index, 0);
    assert_eq!(s.move_by(isize::MIN, 10, 5).selected_index, 0);
}

#[test]
fn selection_stops_at_the_last_item() {
    let s = Selection { selected_index: 9, view_offset: 5 };
    assert_eq!(s.move_by(1, 10, 5).selected_index, 9);
    assert_eq!(s.move_by(isize::MAX, 10, 5).selected_index, 9);
    let s = Selection { selected_index: 4, view_offset: 0 };
    assert_eq!(s.move_by(100, 10, 5).selected_index, 9);
    assert_eq!(s.move_by(5, 10, 5).selected_index, 9);
}

#[test]
fn window_snaps_up_to_the_selection() {
    let s = Selection { selected_index: 6, view_offset: 5 };
    assert_eq!(s.move_by(-3, 10, 4), Selection { selected_index: 3, view_offset: 3 });
}

#[test]
fn window_follows_the_selection_down() {
    let s = Selection { selected_index: 2, view_offset: 0 };
    assert_eq!(s.move_by(5, 10, 3), Selection { selected_index: 7, view_offset: 4 });
    assert_eq!(s.move_by(1, 10, 3), Selection { selected_index: 3, view_offset: 0 });
    assert_eq!(s.move_by(2, 10, 3), Selection { selected_index: 4, view_offset: 1 });
}

#[test]
fn window_holds_the_selection_after_every_move() {
    let len: usize = 25;
    let height: usize = 6;
    let mut s = Selection::new();
    let deltas: [isize; 12] = [1, 1, 3, 10, -2, -20, 7, 7, 7, 7, -1, 40];
    for delta in deltas {
        let before = s;
        s = s.move_by(delta, len, height);
        assert!(s.selected_index < len);
        assert!(s.view_offset <= s.selected_index);
        assert!(s.selected_index <= s.view_offset + height);
        if s.selected_index < before.view_offset + height {
            assert!(s.selected_index < s.view_offset + height);
        }
    }
}
