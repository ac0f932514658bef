use cinder_ui::panel::{H, W};
use cinder_ui::settings::{
    accent_hit, content_height, max_scroll_px, row_at, row_top_px, swatch_x, ui_scale_idx_at, ROW_ACCENT,
    ROW_MODEL, ROW_THEME, ROW_USB_MODE,
};

#[test]
fn accent_swatches_do_not_leak_into_other_rows() {
    for scroll in 0..=max_scroll_px() {
        for y in 0..H {
            for x in (0..W).step_by(3) {
                if accent_hit(x, y, scroll).is_some() {
                    assert_eq!(
                        row_at(y, scroll),
                        Some(ROW_ACCENT),
                        "swatch hit at ({x},{y}) scroll {scroll} is outside the Accent row"
                    );
                }
            }
        }
    }
}

#[test]
fn settings_scrolls_far_enough_to_reach_the_last_row() {
    assert!(max_scroll_px() > 0, "content is taller than the panel; it must scroll");
    assert!(
        content_height() - max_scroll_px() <= H,
        "bottom of the content is still off-screen at full scroll"
    );
}

#[test]
fn the_rows_sit_under_their_eyebrows() {
    assert_eq!(content_height(), 1199);
    assert_eq!(max_scroll_px(), 407);
    assert_eq!(row_top_px(ROW_THEME), 24);
    assert_eq!(row_top_px(8), 24 + 8 * 56 + 14 + 24);
    assert_eq!(row_top_px(ROW_MODEL), 24 + 8 * 56 + 14 + 24 + 8 * 56 + 14 + 24 + 56);
    assert_eq!(row_top_px(99), 0);
    assert_eq!(row_at(91 + 24 + 1, 0), Some(ROW_THEME));
    assert_eq!(row_at(91 + 10, 0), None, "the eyebrow is not a row");
    assert_eq!(row_at(91 + 510 + 4 * 56 + 3, 0), Some(ROW_USB_MODE));
}

#[test]
fn every_swatch_is_its_own_target() {
    for i in 0..6 {
        let y = 91 + 24 + 56 + 28;
        assert_eq!(accent_hit(swatch_x(i) + 15, y, 0), Some(i));
    }
    assert_eq!(swatch_x(0), 248);
    assert_eq!(accent_hit(100, 91 + 24 + 56 + 28, 0), None);
}

#[test]
fn the_scale_slider_snaps_to_the_nearest_tick() {
    assert_eq!(ui_scale_idx_at(0), 0);
    assert_eq!(ui_scale_idx_at(176), 0);
    assert_eq!(ui_scale_idx_at(176 + 196 / 2), 3);
    assert_eq!(ui_scale_idx_at(176 + 196), 6);
    assert_eq!(ui_scale_idx_at(479), 6);
}
