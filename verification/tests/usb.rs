use cinder_ui::usb_storage::{hit_off, OFF_BTN};
use cinder_ui::usbdac::hit_toggle;

#[test]
fn the_turn_off_button_is_centred_and_hittable() {
    let (bx, by, bw, bh) = OFF_BTN;
    assert_eq!(bx, (480 - 220) / 2);
    assert_eq!(by, 800 / 2 + 150);
    assert!(hit_off(bx + bw / 2, by + bh / 2));
    assert!(!hit_off(bx - 1, by + 1));
    assert!(!hit_off(bx + 1, by + bh));
}

#[test]
fn the_dac_switch_target_covers_its_caption() {
    assert!(hit_toggle(441, 65));
    assert!(hit_toggle(381, 43));
    assert!(!hit_toggle(380, 65));
    assert!(!hit_toggle(475, 65));
    assert!(!hit_toggle(441, 87));
}
