use cinder_ui::tone::{
    band_at, band_center_x, reset_at, value_at_y, BANDS, BAND_MAX, BAND_SLOT, BAND_STEP, BAND_X0, FIELD_BOTTOM,
    FIELD_MID, FIELD_TOP, FOOTER_TOP,
};

#[test]
fn every_band_is_hittable_across_its_column() {
    for b in 0..BANDS {
        let left = BAND_X0 + BAND_SLOT * b as i32;
        assert_eq!(band_at(left), Some(b), "left edge of band {b}");
        assert_eq!(band_at(left + BAND_SLOT / 2), Some(b), "middle of band {b}");
        assert_eq!(band_at(left + BAND_SLOT - 1), Some(b), "right edge of band {b}");
    }
    assert_eq!(band_at(BAND_X0 - 1), None, "left gutter");
    assert_eq!(band_at(BAND_X0 + BAND_SLOT * BANDS as i32), None, "right gutter");
}

#[test]
fn full_scale_knob_stays_inside_the_field() {
    let span = (FIELD_BOTTOM - FIELD_TOP) / 2 - 10;
    for &v in &[BAND_MAX, -BAND_MAX] {
        let knob_y = FIELD_MID - v as i32 * span / BAND_MAX as i32;
        assert!(knob_y > FIELD_TOP, "knob at {v} rides over the top of the field");
        assert!(knob_y < FIELD_BOTTOM, "knob at {v} rides under the bottom of the field");
    }
}

#[test]
fn the_step_reaches_the_end_of_the_range() {
    assert_eq!(BAND_MAX % BAND_STEP, 0);
    let mut v: i8 = 0;
    for _ in 0..(BAND_MAX / BAND_STEP) {
        v = (v + BAND_STEP).min(BAND_MAX);
    }
    assert_eq!(v, BAND_MAX);
}

#[test]
fn value_at_y_round_trips_through_the_knob_placement() {
    let span = (FIELD_BOTTOM - FIELD_TOP) / 2 - 10;
    let mut v = -BAND_MAX;
    while v <= BAND_MAX {
        let knob_y = FIELD_MID - v as i32 * span / BAND_MAX as i32;
        assert_eq!(value_at_y(knob_y), v, "round trip failed at {v}");
        v += BAND_STEP;
    }
}

#[test]
fn dragging_past_the_field_clamps() {
    assert_eq!(value_at_y(FIELD_TOP - 200), BAND_MAX);
    assert_eq!(value_at_y(FIELD_BOTTOM + 200), -BAND_MAX);
}

#[test]
fn reset_is_the_left_half_of_the_footer() {
    assert!(reset_at(20, FOOTER_TOP + 10));
    assert!(!reset_at(400, FOOTER_TOP + 10));
    assert!(!reset_at(20, FOOTER_TOP - 10));
}

#[test]
fn a_finger_between_steps_rounds_to_the_nearest_and_halves_go_outward() {
    assert_eq!(value_at_y(FIELD_MID), 0);
    assert_eq!(value_at_y(FIELD_MID - 8), 2, "raw 1 is half a step: away from zero");
    assert_eq!(value_at_y(FIELD_MID + 8), -2);
    assert_eq!(value_at_y(FIELD_MID - 7), 0, "raw 0");
    assert_eq!(band_center_x(1), 45 + 130 + 65);
}
