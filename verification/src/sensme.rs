//! SensMe channels — browsing Sony's own analysis of the library. Two levels, one screen: the
//! channel list, and one channel's tracks. The layout is expressed once, in `list_top` /
//! `row_top` / `row_at`, and both the renderer and the hit test read it.
use vstd::prelude::*;
use crate::panel::{HEADER_BOTTOM, LIST_BOTTOM, GUTTER, W, BAND_GAP, BAND_H, spec_in_rect, in_rect};
use crate::scale::TRACK_ROW_H;
use crate::strings::{dec, push_dec, push_str, owned};

verus! {

/// One channel as the library holds it: Sony's channel id, its name, and its member tracks (as
/// indices into the library's songs).
pub struct ChannelRow {
    pub id: u8,
    pub name: String,
    pub tracks: Vec<u32>,
}

/// What the SensMe screen reads of the library: the channels, and how many tracks carry an
/// analysis at all.
pub struct Library {
    pub channels: Vec<ChannelRow>,
    pub sensme_tracks: u32,
}

/// The channels of `lib` as its screens see them: each one's name and member count.
pub open spec fn channels_of(lib: &Library) -> Seq<(Seq<char>, nat)> {
    lib.channels@.map_values(|c: ChannelRow| (c.name@, c.tracks@.len()))
}

/// Screen-y of the first row of the channel list.
pub const TOP: i32 = HEADER_BOTTOM;
/// Row height: the same as every other track row.
pub const ROW_H: i32 = TRACK_ROW_H;
/// `y_below` for the channel page's PLAY | SHUFFLE band.
pub const BAND_Y: i32 = HEADER_BOTTOM;
/// Share of the band width, in percent, given to PLAY.
pub const PLAY_FRAC: i32 = 62;
/// The channel id that means "every analysed track", not one channel.
pub const ALL: u8 = 255;

/// What a visual row is.
#[derive(Clone, Copy, PartialEq, Eq, Debug, Structural)]
pub enum Row {
    /// Open `Library::channels[i]`.
    Channel(usize),
    /// Shuffle every analysed track — the channel list's first row.
    All,
    /// Play the open channel from its member `i`.
    Track(usize),
}

/// The rows of the level open: one channel's members, or the channel list — led by "shuffle
/// all" only when there is more than one channel to shuffle across.
pub open spec fn rows_of(chs: Seq<(Seq<char>, nat)>, channel: Option<usize>) -> Seq<Row> {
    match channel {
        Some(i) => if i < chs.len() {
            Seq::new(chs[i as int].1, |k: int| Row::Track(k as usize))
        } else {
            seq![]
        },
        None => (if chs.len() > 1 { seq![Row::All] } else { seq![] }) + Seq::new(
            chs.len(),
            |k: int| Row::Channel(k as usize),
        ),
    }
}

/// The rows of the level currently open.
pub fn rows(lib: &Library, channel: Option<usize>) -> (out: Vec<Row>)
    ensures
        out@ == rows_of(channels_of(lib), channel),
{
    let mut out: Vec<Row> = Vec::new();
    match channel {
        Some(i) => {
            if i < lib.channels.len() {
                let n = lib.channels[i].tracks.len();
                let mut k: usize = 0;
                while k < n
                    invariant
                        k <= n,
                        n == channels_of(lib)[i as int].1,
                        i < lib.channels@.len(),
                        out@ =~= Seq::new(k as nat, |j: int| Row::Track(j as usize)),
                    decreases n - k,
                {
                    out.push(Row::Track(k));
                    k += 1;
                }
            }
        },
        None => {
            let n = lib.channels.len();
            if n > 1 {
                out.push(Row::All);
            }
            let ghost head = out@;
            let mut k: usize = 0;
            while k < n
                invariant
                    k <= n,
                    n == lib.channels@.len(),
                    head == (if n > 1 { seq![Row::All] } else { Seq::<Row>::empty() }),
                    out@ =~= head + Seq::new(k as nat, |j: int| Row::Channel(j as usize)),
                decreases n - k,
            {
                out.push(Row::Channel(k));
                k += 1;
            }
        },
    }
    out
}

/// Top of the scrolling list: the channel page gives the band's height to it; the channel list
/// starts straight under the header.
pub open spec fn spec_list_top(channel: Option<usize>) -> int {
    match channel {
        Some(_) => BAND_Y + BAND_GAP + BAND_H + 8,
        None => TOP as int,
    }
}

/// Top of the scrolling list.
pub fn list_top(channel: Option<usize>) -> (y: i32)
    ensures
        y == spec_list_top(channel),
{
    match channel {
        Some(_) => {
            let (_, by, _, bh) = crate::panel::shuffle_band_rect(BAND_Y);
            by + bh + 8
        },
        None => TOP,
    }
}

/// Height of the open level's rows.
pub fn content_h(lib: &Library, channel: Option<usize>) -> (h: i32)
    requires
        rows_of(channels_of(lib), channel).len() * ROW_H <= i32::MAX,
    ensures
        h == rows_of(channels_of(lib), channel).len() * ROW_H,
{
    let n = rows(lib, channel).len();
    assert(ROW_H == 62);
    assert(n * 62 <= 2147483647);
    assert(n <= 34_636_833);
    let m = n as i32;
    m * ROW_H
}

/// How far the open level scrolls: its rows' height past the list window, or none.
pub open spec fn spec_max_scroll(lib: &Library, channel: Option<usize>) -> int {
    let over = rows_of(channels_of(lib), channel).len() * ROW_H - (LIST_BOTTOM - spec_list_top(channel));
    if over > 0 { over } else { 0 }
}

/// How far the open level scrolls.
pub fn max_scroll_px(lib: &Library, channel: Option<usize>) -> (m: i32)
    requires
        rows_of(channels_of(lib), channel).len() * ROW_H <= i32::MAX,
    ensures
        m == spec_max_scroll(lib, channel),
{
    let over = content_h(lib, channel) - (LIST_BOTTOM - list_top(channel));
    if over > 0 { over } else { 0 }
}

/// Screen-y of visual row `r` at `scroll`.
pub fn row_top(r: usize, channel: Option<usize>, scroll: i32) -> (y: i32)
    requires
        i32::MIN <= spec_list_top(channel) + r * ROW_H - scroll <= i32::MAX,
    ensures
        y == spec_list_top(channel) + r * ROW_H - scroll,
{
    let top = list_top(channel);
    assert(ROW_H == 62);
    assert(r * 62 <= 2147483647 + 2147483648);
    assert(r <= 100_000_000);
    let v: i64 = top as i64 + (r as i64) * (ROW_H as i64) - scroll as i64;
    v as i32
}

/// The row under `y` at `scroll` (a negative scroll counts as none): nothing above or below the
/// list window, or past the last row.
pub open spec fn spec_row_at(lib: &Library, channel: Option<usize>, y: int, scroll: int) -> Option<Row> {
    let top = spec_list_top(channel);
    let all = rows_of(channels_of(lib), channel);
    if !(top <= y < LIST_BOTTOM) {
        None
    } else {
        let r = (y - top + if scroll > 0 { scroll } else { 0 }) / (ROW_H as int);
        if r < all.len() { Some(all[r]) } else { None }
    }
}

/// Which row is under `y`?
pub fn row_at(lib: &Library, channel: Option<usize>, y: i32, scroll: i32) -> (r: Option<Row>)
    ensures
        r == spec_row_at(lib, channel, y as int, scroll as int),
{
    let top = list_top(channel);
    if !(top <= y && y < LIST_BOTTOM) {
        return None;
    }
    let s: i64 = if scroll > 0 { scroll as i64 } else { 0 };
    let r = (y as i64 - top as i64 + s) / ROW_H as i64;
    let all = rows(lib, channel);
    if (r as u64) < all.len() as u64 {
        Some(all[r as usize])
    } else {
        None
    }
}

/// The PLAY half of the channel page's band.
pub open spec fn spec_play_band() -> (i32, i32, i32, i32) {
    (GUTTER, (BAND_Y + BAND_GAP) as i32, ((W - 2 * GUTTER) * PLAY_FRAC / 100) as i32, BAND_H)
}

/// The SHUFFLE half: the rest of the band.
pub open spec fn spec_shuffle_band() -> (i32, i32, i32, i32) {
    let pw = (W - 2 * GUTTER) * PLAY_FRAC / 100;
    ((GUTTER + pw) as i32, (BAND_Y + BAND_GAP) as i32, (W - 2 * GUTTER - pw) as i32, BAND_H)
}

/// The PLAY half of the channel page's band.
pub fn play_band() -> (r: (i32, i32, i32, i32))
    ensures
        r == spec_play_band(),
{
    let (bx, by, bw, bh) = crate::panel::shuffle_band_rect(BAND_Y);
    (bx, by, bw * PLAY_FRAC / 100, bh)
}

/// The SHUFFLE half of the channel page's band.
pub fn shuffle_band() -> (r: (i32, i32, i32, i32))
    ensures
        r == spec_shuffle_band(),
{
    let (bx, by, bw, bh) = crate::panel::shuffle_band_rect(BAND_Y);
    let pw = bw * PLAY_FRAC / 100;
    (bx + pw, by, bw - pw, bh)
}

/// True if `(x, y)` is on the PLAY half of the channel page's band.
pub fn hit_play_band(x: i32, y: i32) -> (b: bool)
    ensures
        b == spec_in_rect(spec_play_band(), x as int, y as int),
{
    in_rect(play_band(), x, y)
}

/// True if `(x, y)` is on the SHUFFLE half.
pub fn hit_shuffle_band(x: i32, y: i32) -> (b: bool)
    ensures
        b == spec_in_rect(spec_shuffle_band(), x as int, y as int),
{
    in_rect(shuffle_band(), x, y)
}

/// The two halves tile the band exactly, side by side, and the band sits above the channel
/// page's list: a tap on the band is never also a row.
pub proof fn lemma_band_halves_tile()
    ensures
        spec_play_band().0 == GUTTER,
        spec_play_band().0 + spec_play_band().2 == spec_shuffle_band().0,
        spec_shuffle_band().0 + spec_shuffle_band().2 == W - GUTTER,
        spec_play_band().1 == spec_shuffle_band().1,
        spec_play_band().3 == spec_shuffle_band().3,
        spec_play_band().1 + spec_play_band().3 <= spec_list_top(Some(0usize)),
{
}

/// `1 TRACK`, `12 TRACKS`.
pub open spec fn count_text(n: nat) -> Seq<char> {
    if n == 1 { "1 TRACK"@ } else { dec(n) + " TRACKS"@ }
}

/// `1 TRACK`, `12 TRACKS`.
pub fn count_label(n: usize) -> (s: String)
    ensures
        s@ == count_text(n as nat),
{
    if n == 1 {
        return owned("1 TRACK");
    }
    let mut s = String::new();
    push_dec(&mut s, n as u64);
    push_str(&mut s, " TRACKS");
    s
}

/// The header title for the level open: the channel's name, or "SensMe" on the list (and for a
/// channel that no longer exists).
pub fn title(lib: &Library, channel: Option<usize>) -> (s: &str)
    ensures
        s@ == match channel {
            Some(i) => if i < channels_of(lib).len() { channels_of(lib)[i as int].0 } else { "SensMe"@ },
            None => "SensMe"@,
        },
{
    match channel {
        Some(i) => if i < lib.channels.len() { lib.channels[i].name.as_str() } else { "SensMe" },
        None => "SensMe",
    }
}

/// The header's right-hand caption: how many tracks the open channel holds; empty on the channel
/// list, where the rows carry their own counts.
pub fn subtitle(lib: &Library, channel: Option<usize>) -> (s: String)
    ensures
        s@ == match channel {
            Some(i) => if i < channels_of(lib).len() { count_text(channels_of(lib)[i as int].1) } else { seq![] },
            None => seq![],
        },
{
    match channel {
        Some(i) => if i < lib.channels.len() {
            count_label(lib.channels[i].tracks.len())
        } else {
            String::new()
        },
        None => String::new(),
    }
}

/// What the screen says when there is no analysis at all.
pub const EMPTY_TITLE: &'static str = "No analysed tracks";
/// And what produces an analysis.
pub const EMPTY_BODY: [&'static str; 3] = [
    "SensMe channels come from an analysis tag inside",
    "each file, written on a PC by Flint or by Sony's",
    "Music Center. Tag your files, then rescan.",
];

} // verus!
