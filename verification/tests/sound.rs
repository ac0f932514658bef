use cinder_ui::sound::{
    ab_rect, bal_track_y, balance_at, balance_grab, balance_label, balance_reset_rect, balance_top, balance_x,
    hit_ab, hit_balance_reset, row_at, BALANCE_CENTRE, BALANCE_MAX, ROW_BALANCE,
};

#[test]
fn the_balance_reads_as_distance_from_the_centre() {
    assert_eq!(balance_label(50), "Centre");
    assert_eq!(balance_label(38), "L 12");
    assert_eq!(balance_label(0), "L 50");
    assert_eq!(balance_label(57), "R 7");
    assert_eq!(balance_label(500), "R 50");
}

#[test]
fn rows_band_down_the_screen_and_balance_is_the_tall_one() {
    assert_eq!(balance_top(), 91 + 6 * 64);
    assert_eq!(row_at(90), None);
    assert_eq!(row_at(91), Some(0));
    assert_eq!(row_at(91 + 5 * 64 + 63), Some(5));
    assert_eq!(row_at(balance_top()), Some(ROW_BALANCE));
    assert_eq!(row_at(balance_top() + 131), Some(ROW_BALANCE));
    assert_eq!(row_at(balance_top() + 132), None);
}

#[test]
fn the_slider_round_trips_and_snaps_to_the_centre() {
    for pos in 0..=BALANCE_MAX {
        let want = if pos.abs_diff(BALANCE_CENTRE) <= 3 { BALANCE_CENTRE } else { pos };
        assert_eq!(balance_at(balance_x(pos)), want, "pos {pos}");
    }
    assert_eq!(balance_at(-500), 0);
    assert_eq!(balance_at(479), BALANCE_MAX);
    assert_eq!(balance_x(BALANCE_CENTRE), 240);
}

#[test]
fn the_centre_button_and_the_grab_band() {
    let (rx, ry, rw, rh) = balance_reset_rect();
    assert!(hit_balance_reset(rx + rw / 2, ry + rh / 2));
    assert!(!hit_balance_reset(rx - 1, ry + rh / 2));
    let ty = bal_track_y();
    assert!(balance_grab(ty - 30) && balance_grab(ty + 34));
    assert!(!balance_grab(ty - 31) && !balance_grab(ty + 35));
}

#[test]
fn the_ab_switch_splits_in_the_gap() {
    let (x0, y0, w, h) = ab_rect(0);
    let (x1, _, _, _) = ab_rect(1);
    assert_eq!((x0, y0, w, h), (354, 34, 48, 44));
    assert_eq!(x1, 410);
    assert_eq!(hit_ab(x0 + 5, 50), Some(0));
    assert_eq!(hit_ab(x1 + 5, 50), Some(1));
    assert_eq!(hit_ab(x1 - 4, 50), Some(1));
    assert_eq!(hit_ab(x1 - 5, 50), Some(0));
    assert_eq!(hit_ab(x0 - 11, 50), None);
    assert_eq!(hit_ab(x0 + 5, 200), None);
}
