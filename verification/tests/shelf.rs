use cinder_ui::shelf::{
    hit, pin_button_center, slot_center_y, ShelfHit, CLEAR_X, PIN_BTN, SLOT0_Y, SLOTS, SLOT_DY, SLOT_H, TOP,
};

const EMPTY: [bool; SLOTS] = [false; SLOTS];
const FULL: [bool; SLOTS] = [true; SLOTS];

fn slot_mid(i: usize) -> i32 {
    SLOT0_Y + i as i32 * SLOT_DY + SLOT_H / 2
}

#[test]
fn empty_slot_pins_across_its_whole_width() {
    for x in [30, 200, 380, 400, 450] {
        assert_eq!(hit(x, slot_mid(1), EMPTY), ShelfHit::PinTo(1), "x={x}");
    }
}

#[test]
fn filled_slot_body_goes_and_only_the_cross_clears() {
    for x in [30, 200, 380, CLEAR_X - 1] {
        assert_eq!(hit(x, slot_mid(2), FULL), ShelfHit::Go(2), "x={x}");
    }
    assert_eq!(hit(CLEAR_X + 10, slot_mid(2), FULL), ShelfHit::Clear(2));
    assert_eq!(hit(455, slot_mid(0), FULL), ShelfHit::Clear(0));
}

#[test]
fn header_pin_targets_the_first_empty_slot() {
    let (px, py, pw, ph) = PIN_BTN;
    let (cx, cy) = (px + pw / 2, py + ph / 2);
    assert_eq!(hit(cx, cy, EMPTY), ShelfHit::PinTo(0));
    assert_eq!(hit(cx, cy, [true, false, false, false, false, false]), ShelfHit::PinTo(1));
    assert_eq!(hit(cx, cy, [true, true, false, false, false, false]), ShelfHit::PinTo(2));
    assert_eq!(hit(cx, cy, FULL), ShelfHit::PinTo(0));
}

#[test]
fn backdrop_and_close_dismiss_the_sheet() {
    assert_eq!(hit(240, 100, EMPTY), ShelfHit::Close);
    assert_eq!(hit(430, TOP + 24, EMPTY), ShelfHit::Close);
}

#[test]
fn all_six_slots_are_addressable_and_distinct() {
    let mut seen = Vec::new();
    for i in 0..SLOTS {
        let y = slot_center_y(i);
        assert!(y < 800, "slot {i} is off the bottom of the panel (y={y})");
        match hit(240, y, EMPTY) {
            ShelfHit::PinTo(n) => {
                assert_eq!(n, i, "slot {i} resolved to {n}");
                seen.push(n);
            }
            other => panic!("slot {i} at y={y} resolved to {other:?}"),
        }
    }
    assert_eq!(seen.len(), SLOTS);
    assert_eq!(hit(240, slot_center_y(2), FULL), ShelfHit::Go(2));
    assert_eq!(hit(440, slot_center_y(2), FULL), ShelfHit::Clear(2));
    let (pbx, pby) = pin_button_center();
    assert_eq!(hit(pbx, pby, EMPTY), ShelfHit::PinTo(0));
}

#[test]
fn a_tap_below_the_last_slot_hits_nothing() {
    assert_eq!(hit(240, SLOT0_Y + SLOTS as i32 * SLOT_DY + 5, EMPTY), ShelfHit::Nothing);
    assert_eq!(pin_button_center(), (416, 378));
}
