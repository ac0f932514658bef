use cinder_ui::pairing::{
    found_capacity, found_y0, hit, hit_prompt, PairHit, FORGET_W, LIST_Y0, MAX_PAIRED, PP_NO, PP_OK,
    PROMPT_NUMERIC, PROMPT_PASSKEY, ROW_H, SCAN_BTN,
};

#[test]
fn paired_rows_map_to_their_own_index_and_forget_is_the_drawn_button() {
    assert_eq!(hit(120, LIST_Y0 + 4, 2, 0), PairHit::Row(0));
    assert_eq!(hit(120, LIST_Y0 + ROW_H - 1, 2, 0), PairHit::Row(0));
    assert_eq!(hit(120, LIST_Y0 + ROW_H, 2, 0), PairHit::Row(1));
    assert_eq!(hit(458 - FORGET_W, LIST_Y0 + 4, 2, 0), PairHit::Forget(0));
    assert_eq!(hit(479, LIST_Y0 + ROW_H + 4, 2, 0), PairHit::Forget(1));
    assert_eq!(hit(458 - FORGET_W - 1, LIST_Y0 + 4, 2, 0), PairHit::Row(0));
}

#[test]
fn a_passkey_prompt_can_only_be_dismissed() {
    let (ox, oy, ow, oh) = PP_OK;
    let (nx, ny, nh) = (PP_NO.0, PP_NO.1, PP_NO.3);
    assert_eq!(hit_prompt(ox + ow / 2, oy + oh / 2, PROMPT_NUMERIC), PairHit::PromptConfirm);
    assert_eq!(hit_prompt(nx + 10, ny + nh / 2, PROMPT_NUMERIC), PairHit::PromptCancel);
    assert_eq!(hit_prompt(ox + ow / 2, oy + oh / 2, PROMPT_PASSKEY), PairHit::PromptCancel);
    assert_eq!(hit_prompt(nx + 10, ny + nh / 2, PROMPT_PASSKEY), PairHit::PromptCancel);
    assert_eq!(hit_prompt(240, 120, PROMPT_NUMERIC), PairHit::Nothing);
    assert_eq!(hit_prompt(240, LIST_Y0 + 4, PROMPT_NUMERIC), PairHit::Nothing);
}

#[test]
fn the_scan_button_is_hittable_and_does_not_overlap_the_list() {
    let (sx, sy, sw, sh) = SCAN_BTN;
    assert_eq!(hit(sx + sw / 2, sy + sh / 2, 2, 0), PairHit::Scan);
    assert_eq!(hit(sx - 1, sy + sh / 2, 2, 0), PairHit::Nothing);
    assert!(sy + sh < LIST_Y0, "the scan button must sit above the first row");
}

#[test]
fn found_rows_sit_below_the_paired_list_and_both_clip() {
    assert_eq!(hit(120, found_y0(2) + 4, 2, 3), PairHit::Pair(0));
    assert_eq!(hit(120, found_y0(2) + ROW_H + 4, 2, 3), PairHit::Pair(1));
    assert_eq!(hit(120, found_y0(0) + 4, 0, 3), PairHit::Pair(0));
    assert_ne!(found_y0(0), found_y0(2));
    assert_eq!(hit(120, found_y0(2) + 3 * ROW_H + 4, 2, 3), PairHit::Nothing);
    assert_eq!(hit(120, LIST_Y0 + 2 * ROW_H + 4, 2, 0), PairHit::Nothing);
    assert_eq!(hit(120, LIST_Y0 + MAX_PAIRED as i32 * ROW_H - 1, 99, 1), PairHit::Row(MAX_PAIRED - 1));
    assert_eq!(hit(120, found_y0(99) + 4, 99, 1), PairHit::Pair(0));
    assert!(found_capacity(99) >= 1, "there must always be room for at least one found device");
}

#[test]
fn the_found_section_starts_after_the_clipped_paired_rows() {
    assert_eq!(found_y0(0), 218 + 30 + 14);
    assert_eq!(found_y0(99), 218 + 4 * 62 + 30 + 14);
    assert_eq!(found_capacity(99), (736 - (218 + 4 * 62 + 44)) as usize / 62);
}
