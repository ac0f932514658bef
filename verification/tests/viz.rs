use cinder_ui::viz::{from_index, name, name_upper, size_box, size_from_index, size_name, VizKind, VizSize, COUNT, SIZE_COUNT};

#[test]
fn every_index_names_a_style_and_wraps() {
    assert_eq!(from_index(0), VizKind::Bars);
    assert_eq!(from_index(7), VizKind::Pulse);
    assert_eq!(from_index(COUNT), VizKind::Bars);
    assert_eq!(from_index(255), VizKind::Pulse);
    assert_eq!(name(4), "Segments");
    assert_eq!(name_upper(4), "SEGMENTS");
    assert_eq!(name_upper(9), "RIBBON");
}

#[test]
fn sizes_wrap_and_read_as_captions() {
    assert_eq!(size_from_index(0), VizSize::Off);
    assert_eq!(size_from_index(SIZE_COUNT + 1), VizSize::Veil);
    assert_eq!(size_name(2), "FULL");
    assert_eq!(size_name(3), "OFF");
}

#[test]
fn the_band_is_lower_at_night_and_off_draws_nothing() {
    assert_eq!(size_box(VizSize::Off, 500, false), None);
    assert_eq!(size_box(VizSize::Veil, 500, false), Some((436, 64, 0, 180)));
    assert_eq!(size_box(VizSize::Veil, 500, true), Some((472, 28, 0, 180)));
    assert_eq!(size_box(VizSize::Full, 500, false), Some((458, 42, 255, 255)));
    assert_eq!(size_box(VizSize::Full, 500, true), Some((484, 16, 255, 255)));
}
