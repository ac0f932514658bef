use cinder_ui::theme::{dim_rgb, rgb, Accent, Rgb, Theme, NIGHT_DIM_PCT};

fn all() -> Vec<Accent> {
    (0..6).map(Accent::from_index).collect()
}

#[test]
fn out_of_range_index_falls_back_to_the_default() {
    assert_eq!(Accent::from_index(99), Accent::Amber);
    assert_eq!(Accent::from_index(Accent::COUNT), Accent::Amber);
    for (i, a) in Accent::ALL.iter().enumerate() {
        assert_eq!(Accent::from_index(i), *a);
        assert_eq!(a.index(), i);
    }
}

#[test]
fn amber_is_byte_identical_to_the_original_palette() {
    let d = Theme::day();
    assert_eq!(d.acc, rgb(0xf4651f));
    assert_eq!(d.acc_ink, rgb(0x1a0a02));
    assert_eq!(d.row_sel, rgb(0x1c1713));
    let n = Theme::night();
    assert_eq!(n.acc, rgb(dim_rgb(0x863810, NIGHT_DIM_PCT)));
    assert_eq!(n.acc_ink, rgb(0x000000), "ink ON the accent must not be dimmed too");
    assert_eq!(n.row_sel, rgb(dim_rgb(0x0f0c0a, NIGHT_DIM_PCT)));
}

fn lum(c: Rgb) -> u32 {
    c.r as u32 * 2 + c.g as u32 * 3 + c.b as u32
}

#[test]
fn the_night_ladder_dims_monotonically_and_keeps_its_ordering() {
    let base = Theme::night();
    let mut prev = u32::MAX;
    for (i, pct) in Theme::NIGHT_LEVEL_PCT.iter().enumerate().rev() {
        let t = Theme::night().scaled(*pct);
        let l = lum(t.ink);
        assert!(l <= prev, "level {} is not dimmer than the one above it", i + 1);
        prev = l;
        assert!(lum(t.ink) >= lum(t.dim), "ink fell below dim at level {}", i + 1);
        assert!(lum(t.dim) >= lum(t.faint), "dim fell below faint at level {}", i + 1);
        assert!(t.night, "scaling must not change what theme this is");
    }
    assert_eq!(lum(Theme::night().scaled(100).ink), lum(base.ink));
    assert!(lum(Theme::night().scaled(Theme::NIGHT_LEVEL_PCT[0]).ink) < lum(base.ink));
}

#[test]
fn night_is_dimmer_than_it_was_and_still_ordered() {
    let n = Theme::night();
    assert!(lum(n.ink) < lum(rgb(0x8d8170)), "night ink is no dimmer than before");
    assert!(lum(n.acc) < lum(rgb(0x863810)), "night accent is no dimmer than before");
    assert!(lum(n.ink) > lum(n.dim), "ink must stay above dim");
    assert!(lum(n.dim) > lum(n.faint), "dim must stay above faint");
    assert!(lum(n.ink) > lum(n.bg), "ink must stay readable against the background");
    assert_eq!(n.bg, rgb(0x000000), "night background must stay true black");
}

#[test]
fn accents_change_only_the_accent_tokens() {
    let base = Theme::day_with(Accent::Amber);
    for a in all() {
        let t = Theme::day_with(a);
        assert_eq!(t.bg, base.bg, "{a:?} moved bg");
        assert_eq!(t.panel, base.panel, "{a:?} moved panel");
        assert_eq!(t.line, base.line, "{a:?} moved line");
        assert_eq!(t.ink, base.ink, "{a:?} moved ink");
        assert_eq!(t.dim, base.dim, "{a:?} moved dim");
        assert_eq!(t.faint, base.faint, "{a:?} moved faint");
    }
}

#[test]
fn every_accent_is_distinct() {
    let all = all();
    for (i, a) in all.iter().enumerate() {
        for b in &all[i + 1..] {
            assert_ne!(a.swatch(false), b.swatch(false), "{a:?} and {b:?} look the same");
            assert_ne!(a.swatch(true), b.swatch(true), "{a:?}/{b:?} collide at night");
        }
    }
}

#[test]
fn night_accents_are_dimmer_than_day() {
    let lum = |c: Rgb| c.r as u32 * 30 + c.g as u32 * 59 + c.b as u32 * 11;
    for a in all() {
        assert!(lum(a.swatch(true)) < lum(a.swatch(false)), "{a:?} is not dimmer at night");
    }
}

#[test]
fn the_cycle_is_a_cycle() {
    let mut a = Accent::Amber;
    let mut seen = vec![a];
    for _ in 1..Accent::COUNT {
        a = a.next();
        assert!(!seen.contains(&a), "cycle repeated at {a:?}");
        seen.push(a);
    }
    assert_eq!(a.next(), Accent::Amber, "cycle did not wrap to the default");
}

#[test]
fn accent_names_and_the_default() {
    assert_eq!(Accent::Crimson.name(), "CRIMSON");
    assert_eq!(Accent::default(), Accent::Amber);
    assert_eq!(dim_rgb(0xffffff, 55), 0x8c8c8c);
}

#[test]
fn for_mode_picks_day_or_night_and_scale_color_dims_only_when_asked() {
    assert_eq!(Theme::for_mode(false, Accent::Mint), Theme::day_with(Accent::Mint));
    assert_eq!(Theme::for_mode(true, Accent::Mint), Theme::night_with(Accent::Mint));
    let white = rgb(0xffffff);
    assert_eq!(Theme::night().scale_color(white), white, "full brightness is a no-op");
    let dimmed = Theme::night().scaled(52);
    assert_eq!(dimmed.scale_color(white), rgb(0x848484));
}
