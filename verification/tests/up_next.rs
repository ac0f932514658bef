use cinder_ui::up_next::{hit_clear_chip, hit_history_clear, hit_shuffle_chip, CLEAR_CHIP, SHUFFLE_CHIP};
use cinder_ui::up_next::{caption, layout, metrics, section_label, Section, Slot, HDR_H, LIST_BOTTOM, LIST_TOP, RH};

#[test]
fn at_matches_a_linear_scan_everywhere() {
    for (hist, len, cur) in [
        (100usize, 200usize, Some(100usize)),
        (0, 5, Some(0)),
        (39, 40, Some(39)),
        (0, 0, None),
        (12, 0, None),
        (0, 8, Some(4)),
    ] {
        let l = layout(hist, len, cur);
        for scroll in [0, 37, 500, l.max_scroll_px()] {
            for y in LIST_TOP - 2..LIST_BOTTOM + 2 {
                let want = if !(LIST_TOP..LIST_BOTTOM).contains(&y) {
                    None
                } else {
                    let cy = y - LIST_TOP + scroll.max(0);
                    l.slots.iter().find(|(s, top)| cy >= *top && cy < *top + s.h()).map(|(s, _)| *s)
                };
                assert_eq!(l.at(y, scroll), want, "y={y} scroll={scroll} hist={hist} len={len} cur={cur:?}");
            }
        }
    }
}

#[test]
fn metrics_matches_layout() {
    for hist in [0usize, 1, 7] {
        for len in [0usize, 1, 2, 5, 40] {
            let currents: Vec<Option<usize>> = std::iter::once(None).chain((0..len).map(Some)).collect();
            for cur in currents {
                let l = layout(hist, len, cur);
                let m = metrics(hist, len, cur);
                assert_eq!(m.content_h, l.content_h, "content_h at hist={hist} len={len} cur={cur:?}");
                assert_eq!(m.current_top, l.current_top, "current_top at hist={hist} len={len} cur={cur:?}");
                assert_eq!(m.follow_scroll(), l.follow_scroll());
                assert_eq!(m.max_scroll_px(), l.max_scroll_px());
                let mut y = 0;
                for (slot, top) in &l.slots {
                    assert_eq!(*top, y, "slots are not contiguous at {slot:?}");
                    y += slot.h();
                }
                assert_eq!(y, l.content_h);
                let upcoming = cur.map_or(0, |c| len - c - 1);
                assert_eq!(l.movable_len(), hist + upcoming);
                assert_eq!(l.drop_first(), hist, "history is never a destination");
                for i in 0..l.movable_len() {
                    let slot = l.movable_slot(i).expect("index inside the span has a slot");
                    assert_eq!(l.movable_index(slot), Some(i), "round trip failed at {i}");
                    assert!(l.top_of(slot).is_some(), "{slot:?} is not drawn");
                }
                assert_eq!(l.movable_slot(l.movable_len()), None);
                for (slot, _) in &l.slots {
                    let movable = matches!(slot, Slot::History(_) | Slot::Upcoming(_));
                    assert_eq!(l.movable_index(*slot).is_some(), movable, "{slot:?} disagrees about being movable");
                }
            }
        }
    }
}

#[test]
fn everything_after_the_playing_track_is_one_section() {
    let l = layout(2, 6, Some(1));
    let heads: Vec<Section> = l
        .slots
        .iter()
        .filter_map(|(s, _)| match s {
            Slot::Head(h) => Some(*h),
            _ => None,
        })
        .collect();
    assert_eq!(heads, vec![Section::History, Section::Now, Section::Next]);
    let up: Vec<Slot> = l.slots.iter().map(|(s, _)| *s).filter(|s| matches!(s, Slot::Upcoming(_))).collect();
    assert_eq!(up, (2..6).map(Slot::Upcoming).collect::<Vec<_>>());
    let l = layout(0, 6, Some(5));
    assert!(!l.slots.iter().any(|(s, _)| *s == Slot::Head(Section::Next)));
}

#[test]
fn a_float_over_a_row_lands_on_that_row_across_the_section_boundary() {
    for (hist, len, cur) in [(3usize, 20usize, Some(4usize)), (0, 9, Some(0)), (5, 6, Some(2))] {
        let l = layout(hist, len, cur);
        for i in 0..l.movable_len() {
            let slot = l.movable_slot(i).unwrap();
            let top = l.top_of(slot).unwrap();
            let float_top = LIST_TOP + top;
            let floor = l.drop_first() - usize::from(i < l.drop_first());
            let want = i.max(floor);
            assert_eq!(l.movable_slot_for(i, float_top, 0), want,
                       "float over {slot:?} resolved elsewhere (hist={hist} len={len} cur={cur:?})");
        }
        assert_eq!(l.movable_slot_for(l.movable_len(), LIST_TOP - 400, 0), l.drop_first());
        if l.drop_first() > 0 {
            assert_eq!(l.movable_slot_for(0, LIST_TOP - 400, 0), l.drop_first() - 1);
        }
    }
}

#[test]
fn the_first_visible_slot_is_found_by_search_not_by_walking() {
    let l = layout(100, 200, Some(100));
    let max = l.max_scroll_px();
    for scroll in [0, 1, RH - 1, RH, RH + 1, HDR_H, 500, 1234, max / 2, max] {
        let want = l.slots.iter().position(|(s, top)| top + s.h() > scroll).unwrap_or(l.slots.len());
        let got = l.slots.partition_point(|(s, top)| top + s.h() <= scroll);
        assert_eq!(got, want, "first visible slot disagrees at scroll={scroll}");
    }
}

#[test]
fn the_skipped_movable_row_count_is_computed_not_counted() {
    for hist in [0usize, 4, 9] {
        let l = layout(hist, 60, Some(30));
        let max = l.max_scroll_px();
        for scroll in 0..=max {
            let counted = l
                .slots
                .iter()
                .filter(|(s, top)| matches!(s, Slot::History(_) | Slot::Upcoming(_)) && top + s.h() <= scroll)
                .count();
            let computed = match l.history_top() {
                Some(ht) => (((scroll - ht).max(0) / RH) as usize).min(hist),
                None => 0,
            } + match l.upcoming_top() {
                Some(ut) => (((scroll - ut).max(0) / RH) as usize).min(l.upcoming_len()),
                None => 0,
            };
            assert_eq!(computed, counted, "hist={hist} scroll={scroll}");
        }
    }
}

#[test]
fn the_history_section_is_independent_of_the_sequence() {
    let l = layout(4, 0, None);
    assert_eq!(
        l.slots.iter().map(|(s, _)| *s).collect::<Vec<_>>(),
        vec![
            Slot::Head(Section::History),
            Slot::History(0), Slot::History(1), Slot::History(2), Slot::History(3),
        ],
    );
    let l = layout(0, 8, Some(4));
    assert!(!l.slots.iter().any(|(s, _)| matches!(s, Slot::History(_) | Slot::Head(Section::History))));
}

#[test]
fn the_caption_counts_what_is_left() {
    assert_eq!(caption(1, false), "1 TRACK LEFT");
    assert_eq!(caption(12, false), "12 TRACKS LEFT");
    assert_eq!(caption(12, true), "DRAG TO REORDER");
}

#[test]
fn the_header_chips_and_the_history_clear_are_their_own_targets() {
    let (cx, cy, cw, ch) = CLEAR_CHIP;
    assert!(hit_clear_chip(cx + cw / 2, cy + ch / 2));
    assert!(!hit_clear_chip(cx - 1, cy + ch / 2));
    let (sx, sy, sw, sh) = SHUFFLE_CHIP;
    assert!(hit_shuffle_chip(sx + sw / 2, sy + sh / 2));
    assert!(!hit_shuffle_chip(cx + cw / 2, cy + ch / 2), "the chips do not overlap");
    let l = layout(3, 5, Some(1));
    assert!(hit_history_clear(&l, 400, LIST_TOP + 10, 0), "on the PREVIOUSLY PLAYED heading");
    assert!(!hit_history_clear(&l, 100, LIST_TOP + 10, 0), "left of the control");
    assert!(!hit_history_clear(&l, 400, LIST_TOP + HDR_H + 10, 0), "a row below the heading");
    assert!(!hit_history_clear(&layout(0, 5, Some(1)), 400, LIST_TOP + 10, 0), "no history, no control");
}

#[test]
fn movable_rows_are_drawn_where_their_slots_sit() {
    let l = layout(2, 6, Some(1));
    for i in 0..l.movable_len() {
        let slot = l.movable_slot(i).unwrap();
        assert_eq!(l.movable_top(i), l.top_of(slot));
        assert!(slot.is_row());
    }
    assert_eq!(l.movable_top(l.movable_len()), None);
    assert!(!Slot::Head(Section::Now).is_row());
}

#[test]
fn the_next_heading_names_the_album_in_capitals() {
    assert_eq!(section_label(Section::Next, "Kind of Blue"), "NEXT FROM KIND OF BLUE");
    assert_eq!(section_label(Section::Next, ""), "NEXT UP");
    assert_eq!(section_label(Section::History, "x"), "PREVIOUSLY PLAYED");
    assert_eq!(section_label(Section::Now, "x"), "NOW PLAYING");
}
