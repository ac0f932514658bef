use cinder_ui::playlist_pick::{content_h, hit_row, BOTTOM, ROW_H, TOP};

#[test]
fn hit_row_matches_the_drawn_rows() {
    assert_eq!(hit_row(5, 0, TOP + ROW_H / 2), Some(0));
    assert_eq!(hit_row(5, 0, TOP + ROW_H * 2 + ROW_H / 2), Some(2));
    assert_eq!(hit_row(5, 40, TOP + ROW_H * 2 + ROW_H / 2 - 40), Some(2));
}

#[test]
fn taps_off_the_list_hit_nothing() {
    assert_eq!(hit_row(3, 0, TOP - 1), None);
    assert_eq!(hit_row(3, 0, BOTTOM), None);
    assert_eq!(hit_row(3, 0, TOP + ROW_H * 3 + 2), None, "past the last row");
    assert_eq!(hit_row(0, 0, TOP + 2), None, "an empty list has no rows to hit");
}

#[test]
fn a_negative_scroll_counts_as_none_and_content_height_is_rows_times_pitch() {
    assert_eq!(hit_row(5, -300, TOP + ROW_H / 2), Some(0));
    assert_eq!(content_h(5), 320);
    assert_eq!(TOP, 99);
    assert_eq!(BOTTOM, 760);
}
