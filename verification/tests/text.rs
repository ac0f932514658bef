use cinder_ui::text::{
    fallback_covers_script, font_index, resolve_order, FallbackChain, FallbackStep, Family, FontSlot, Source, TextScale,
    Weight, SCALE_DEFAULT_IDX, SCALE_STEPS,
};

#[test]
fn the_scale_clamps_to_its_steps_range() {
    let mut s = TextScale::new();
    assert_eq!(s.scale_pct(), 100);
    assert_eq!(s.scale_idx(), SCALE_DEFAULT_IDX);
    s.set_scale_pct(500);
    assert_eq!(s.scale_pct(), 140);
    s.set_scale_pct(10);
    assert_eq!(s.scale_pct(), 80);
}

#[test]
fn the_knob_reads_the_nearest_step_and_steps_round_trip() {
    let mut s = TextScale::new();
    for (i, &p) in SCALE_STEPS.iter().enumerate() {
        s.set_scale_idx(i);
        assert_eq!(s.scale_pct(), p);
        assert_eq!(s.scale_idx(), i);
    }
    s.set_scale_idx(99);
    assert_eq!(s.scale_pct(), 140);
    s.set_scale_pct(104);
    assert_eq!(s.scale_idx(), 2);
    s.set_scale_pct(105);
    assert_eq!(s.scale_idx(), 2, "a tie goes to the first nearest step");
    s.set_scale_pct(106);
    assert_eq!(s.scale_idx(), 3);
}

#[test]
fn each_fallback_is_opened_only_for_its_own_scripts() {
    assert!(fallback_covers_script(0, 'Ж'));
    assert!(!fallback_covers_script(0, 'A'));
    assert!(fallback_covers_script(1, 'あ'));
    assert!(fallback_covers_script(2, '한'));
    assert!(fallback_covers_script(3, '漢'));
    assert!(fallback_covers_script(4, 'ก'));
    assert!(!fallback_covers_script(5, 'ก'));
    assert!(!fallback_covers_script(1, '→'));
}

#[test]
fn ascii_is_always_the_font_asked_for() {
    assert_eq!(resolve_order(Family::Sans, Weight::Regular, 'A'), vec![Source::Primary]);
}

#[test]
fn a_symbol_never_reaches_the_device_chain() {
    let order = resolve_order(Family::Sans, Weight::Regular, '▸');
    assert_eq!(order[0], Source::Primary);
    assert!(!order.iter().any(|s| matches!(s, Source::Fallback(_))), "{order:?}");
    assert_eq!(order.len(), 1 + 6, "every other bundled face, once");
    assert_eq!(order[1], Source::Bundled(Family::Mono, Weight::Regular));
    assert!(!order.contains(&Source::Bundled(Family::Sans, Weight::Regular)));
}

#[test]
fn a_script_goes_to_its_own_fallbacks_before_the_other_bundled_faces() {
    let order = resolve_order(Family::Mono, Weight::Bold, '漢');
    assert_eq!(&order[..3], &[Source::Primary, Source::Fallback(1), Source::Fallback(3)]);
    assert_eq!(order[3], Source::Bundled(Family::Sans, Weight::Regular));
    assert!(!order.contains(&Source::Bundled(Family::Mono, Weight::Bold)));
    let cyr = resolve_order(Family::Sans, Weight::Bold, 'Ж');
    assert_eq!(&cyr[..2], &[Source::Primary, Source::Fallback(0)]);
}

#[test]
fn only_one_cjk_face_is_ever_resident_and_absent_fonts_are_not_read_again() {
    let mut c = FallbackChain::new();
    assert_eq!(c.begin(1), FallbackStep::Load);
    c.loaded(1, true);
    assert_eq!(c.begin(1), FallbackStep::Use);
    assert_eq!(c.begin(2), FallbackStep::Missing, "Korean is shut out while Japanese is resident");
    assert_eq!(c.slot(2), FontSlot::Absent);
    assert_eq!(c.begin(2), FallbackStep::Missing);
    assert_eq!(c.begin(0), FallbackStep::Load, "SST-Roman is not a CJK face");
    c.loaded(0, false);
    assert_eq!(c.begin(0), FallbackStep::Missing, "a missing file costs one read, ever");
    assert_eq!(c.begin(4), FallbackStep::Load);
}

#[test]
fn font_indices_are_stable() {
    assert_eq!(font_index(Family::Sans, Weight::Light), 0);
    assert_eq!(font_index(Family::Sans, Weight::ExtraBold), 3);
    assert_eq!(font_index(Family::Mono, Weight::SemiBold), 5);
    assert_eq!(font_index(Family::Mono, Weight::ExtraBold), 6);
}
