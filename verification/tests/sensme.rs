use cinder_ui::panel::{shuffle_band_rect, LIST_BOTTOM};
use cinder_ui::sensme::{
    content_h, hit_play_band, hit_shuffle_band, list_top, max_scroll_px, play_band, row_at, row_top, rows,
    shuffle_band, subtitle, title, ChannelRow, Library, Row, BAND_Y, EMPTY_BODY, ROW_H, TOP,
};

fn lib() -> Library {
    Library {
        channels: vec![
            ChannelRow { id: 0, name: "Active".into(), tracks: vec![0, 2] },
            ChannelRow { id: 8, name: "Morning".into(), tracks: vec![1] },
        ],
        sensme_tracks: 3,
    }
}

#[test]
fn the_hit_test_agrees_with_the_rows_at_every_scroll() {
    let l = lib();
    for channel in [None, Some(0)] {
        let all = rows(&l, channel);
        assert!(!all.is_empty());
        for (r, want) in all.iter().enumerate() {
            for scroll in [0, 9, ROW_H, ROW_H * 2 - 1] {
                let y = row_top(r, channel, scroll) + ROW_H / 2;
                if (list_top(channel)..LIST_BOTTOM).contains(&y) {
                    assert_eq!(row_at(&l, channel, y, scroll), Some(*want),
                               "row {r} at scroll {scroll}, channel {channel:?}");
                }
            }
        }
        let past = row_top(all.len(), channel, 0) + ROW_H / 2;
        if past < LIST_BOTTOM {
            assert_eq!(row_at(&l, channel, past, 0), None);
        }
    }
}

#[test]
fn the_two_levels_have_the_rows_they_should() {
    let l = lib();
    assert_eq!(rows(&l, None), vec![Row::All, Row::Channel(0), Row::Channel(1)]);
    assert_eq!(rows(&l, Some(0)), vec![Row::Track(0), Row::Track(1)]);
    assert_eq!(rows(&l, Some(1)), vec![Row::Track(0)]);
    assert!(rows(&l, Some(9)).is_empty());
    assert_eq!(title(&l, Some(9)), "SensMe");
    assert_eq!(title(&l, Some(1)), "Morning");
    assert_eq!(subtitle(&l, Some(0)), "2 TRACKS");
    assert_eq!(subtitle(&l, Some(1)), "1 TRACK");
    assert_eq!(subtitle(&l, None), "");
}

#[test]
fn one_channel_does_not_get_a_shuffle_all_row() {
    let mut l = lib();
    l.channels.truncate(1);
    assert_eq!(rows(&l, None), vec![Row::Channel(0)]);
}

#[test]
fn nothing_analysed_is_an_explained_empty_screen() {
    let empty = Library { channels: Vec::new(), sensme_tracks: 0 };
    assert!(rows(&empty, None).is_empty());
    assert_eq!(max_scroll_px(&empty, None), 0);
    assert_eq!(content_h(&empty, None), 0);
    assert!(row_at(&empty, None, TOP + 10, 0).is_none());
    assert!(EMPTY_BODY.iter().any(|l| l.contains("Flint")));
    assert!(EMPTY_BODY.iter().any(|l| l.contains("Music Center")));
}

#[test]
fn the_band_halves_tile_the_band() {
    let (bx, by, bw, bh) = shuffle_band_rect(BAND_Y);
    let (px, py, pw, ph) = play_band();
    let (sx, sy, sw, sh) = shuffle_band();
    assert_eq!((px, py, ph), (bx, by, bh));
    assert_eq!((sy, sh), (by, bh));
    assert_eq!(px + pw, sx);
    assert_eq!(sx + sw, bx + bw);
    assert!(hit_play_band(px + 4, by + bh / 2));
    assert!(hit_shuffle_band(sx + 4, by + bh / 2));
    assert!(!hit_play_band(sx + 4, by + bh / 2));
    assert!(!hit_shuffle_band(px + 4, by + bh / 2));
    assert!(by + bh <= list_top(Some(0)));
}

#[test]
fn a_long_channel_scrolls_by_its_overflow() {
    let l = Library {
        channels: vec![ChannelRow { id: 1, name: "Lounge".into(), tracks: (0..20).collect() }],
        sensme_tracks: 20,
    };
    assert_eq!(list_top(Some(0)), 171);
    assert_eq!(content_h(&l, Some(0)), 20 * 62);
    assert_eq!(max_scroll_px(&l, Some(0)), 20 * 62 - (736 - 171));
    assert_eq!(subtitle(&l, Some(0)), "20 TRACKS");
}
