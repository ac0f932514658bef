use cinder_ui::onboarding::{footer_hint, PAGES};
use cinder_ui::now_playing::{hit_progress, permille_at, RAIL_W, RAIL_X0, RAIL_Y};

#[test]
fn the_rail_maps_to_permille_and_clamps_at_both_ends() {
    assert_eq!(permille_at(RAIL_X0), 0);
    assert_eq!(permille_at(RAIL_X0 + RAIL_W), 1000);
    assert_eq!(permille_at(RAIL_X0 + RAIL_W / 2), 500);
    assert_eq!(permille_at(0), 0);
    assert_eq!(permille_at(479), 1000);
    assert_eq!(permille_at(RAIL_X0 + 100), 231);
}

#[test]
fn the_touch_band_is_far_taller_than_the_rail() {
    assert_eq!(hit_progress(240, RAIL_Y), Some(500));
    assert_eq!(hit_progress(240, RAIL_Y - 18), Some(500));
    assert_eq!(hit_progress(240, RAIL_Y + 23), Some(500));
    assert_eq!(hit_progress(240, RAIL_Y - 19), None);
    assert_eq!(hit_progress(240, RAIL_Y + 24), None);
}

#[test]
fn the_onboarding_footer_says_how_to_skip_on_every_page() {
    for page in 0..PAGES {
        assert!(footer_hint(page).contains("SKIP"));
    }
    assert!(footer_hint(PAGES - 1).starts_with("TAP: START"));
    assert!(footer_hint(0).starts_with("TAP: NEXT"));
}
