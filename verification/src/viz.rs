//! Now Playing visualiser settings: which style is drawn, and how much of the cover it takes. Both
//! are persisted as small indices, read back modulo their count so any byte names a setting.
use vstd::prelude::*;

verus! {

/// The visualiser's style.
#[derive(Clone, Copy, PartialEq, Eq, Debug, Structural)]
pub enum VizKind {
    /// Classic spectrum bars rising from the baseline.
    Bars,
    /// One filled shape under a smooth contour.
    Ribbon,
    /// That contour alone, unfilled: the lowest-ink style there is.
    Line,
    /// Bars mirrored above and below a centre line.
    Mirror,
    /// LED VU-meter: each bar is stacked lit segments.
    Segments,
    /// A peak dot per column.
    Dots,
    /// An oscilloscope-style waveform line.
    Wave,
    /// One centred bar tracking overall level.
    Pulse,
}

/// How many styles there are.
pub const COUNT: u8 = 8;

/// The style at position `i` of the cycle, `i` taken modulo the count.
pub open spec fn kind_at(i: int) -> VizKind {
    let k = i % (COUNT as int);
    if k == 0 { VizKind::Bars }
    else if k == 1 { VizKind::Ribbon }
    else if k == 2 { VizKind::Line }
    else if k == 3 { VizKind::Mirror }
    else if k == 4 { VizKind::Segments }
    else if k == 5 { VizKind::Dots }
    else if k == 6 { VizKind::Wave }
    else { VizKind::Pulse }
}

/// The style a persisted index names.
pub fn from_index(i: u8) -> (k: VizKind)
    ensures
        k == kind_at(i as int),
{
    let k = i % COUNT;
    if k == 0 { VizKind::Bars }
    else if k == 1 { VizKind::Ribbon }
    else if k == 2 { VizKind::Line }
    else if k == 3 { VizKind::Mirror }
    else if k == 4 { VizKind::Segments }
    else if k == 5 { VizKind::Dots }
    else if k == 6 { VizKind::Wave }
    else { VizKind::Pulse }
}

/// A style's name as a row title.
pub open spec fn kind_name(k: VizKind) -> Seq<char> {
    match k {
        VizKind::Bars => "Bars"@,
        VizKind::Ribbon => "Ribbon"@,
        VizKind::Line => "Line"@,
        VizKind::Mirror => "Mirror"@,
        VizKind::Segments => "Segments"@,
        VizKind::Dots => "Dots"@,
        VizKind::Wave => "Wave"@,
        VizKind::Pulse => "Pulse"@,
    }
}

/// A style's name as a caption.
pub open spec fn kind_name_upper(k: VizKind) -> Seq<char> {
    match k {
        VizKind::Bars => "BARS"@,
        VizKind::Ribbon => "RIBBON"@,
        VizKind::Line => "LINE"@,
        VizKind::Mirror => "MIRROR"@,
        VizKind::Segments => "SEGMENTS"@,
        VizKind::Dots => "DOTS"@,
        VizKind::Wave => "WAVE"@,
        VizKind::Pulse => "PULSE"@,
    }
}

/// The caption name of the style index `i` names.
pub fn name_upper(i: u8) -> (s: &'static str)
    ensures
        s@ == kind_name_upper(kind_at(i as int)),
{
    match from_index(i) {
        VizKind::Bars => "BARS",
        VizKind::Ribbon => "RIBBON",
        VizKind::Line => "LINE",
        VizKind::Mirror => "MIRROR",
        VizKind::Segments => "SEGMENTS",
        VizKind::Dots => "DOTS",
        VizKind::Wave => "WAVE",
        VizKind::Pulse => "PULSE",
    }
}

/// The row-title name of the style index `i` names.
pub fn name(i: u8) -> (s: &'static str)
    ensures
        s@ == kind_name(kind_at(i as int)),
{
    match from_index(i) {
        VizKind::Bars => "Bars",
        VizKind::Ribbon => "Ribbon",
        VizKind::Line => "Line",
        VizKind::Mirror => "Mirror",
        VizKind::Segments => "Segments",
        VizKind::Dots => "Dots",
        VizKind::Wave => "Wave",
        VizKind::Pulse => "Pulse",
    }
}

/// How much of the cover the visualiser takes.
#[derive(Clone, Copy, PartialEq, Eq, Debug, Structural)]
pub enum VizSize {
    Off,
    Veil,
    Full,
}

/// How many sizes there are.
pub const SIZE_COUNT: u8 = 3;

/// The size at position `i` of the cycle, `i` taken modulo the count.
pub open spec fn size_at(i: int) -> VizSize {
    let k = i % (SIZE_COUNT as int);
    if k == 0 { VizSize::Off } else if k == 1 { VizSize::Veil } else { VizSize::Full }
}

/// The size a persisted index names.
pub fn size_from_index(i: u8) -> (s: VizSize)
    ensures
        s == size_at(i as int),
{
    let k = i % SIZE_COUNT;
    if k == 0 { VizSize::Off } else if k == 1 { VizSize::Veil } else { VizSize::Full }
}

/// A size's caption.
pub open spec fn size_caption(s: VizSize) -> Seq<char> {
    match s {
        VizSize::Off => "OFF"@,
        VizSize::Veil => "VEIL"@,
        VizSize::Full => "FULL"@,
    }
}

/// The caption of the size index `i` names.
pub fn size_name(i: u8) -> (s: &'static str)
    ensures
        s@ == size_caption(size_at(i as int)),
{
    match size_from_index(i) {
        VizSize::Off => "OFF",
        VizSize::Veil => "VEIL",
        VizSize::Full => "FULL",
    }
}

/// The band a size draws in, above `bottom`: `(top, height, alpha at top, alpha at bottom)`.
/// A veil fades in from transparent; full is opaque; night's bands are lower.
pub open spec fn size_band(size: VizSize, bottom: int, night: bool) -> Option<(int, int, u8, u8)> {
    match size {
        VizSize::Off => None,
        VizSize::Veil => {
            let h = if night { 28int } else { 64int };
            Some((bottom - h, h, 0u8, 180u8))
        },
        VizSize::Full => {
            let h = if night { 16int } else { 42int };
            Some((bottom - h, h, 255u8, 255u8))
        },
    }
}

/// How tall a size's band is (Off draws none).
pub open spec fn band_height(size: VizSize, night: bool) -> int {
    match size {
        VizSize::Off => 0,
        VizSize::Veil => if night { 28 } else { 64 },
        VizSize::Full => if night { 16 } else { 42 },
    }
}

/// The band a size draws in, above `bottom`.
pub fn size_box(size: VizSize, bottom: i32, night: bool) -> (r: Option<(i32, i32, u8, u8)>)
    requires
        bottom - band_height(size, night) >= i32::MIN,
    ensures
        match (r, size_band(size, bottom as int, night)) {
            (None, None) => true,
            (Some(b), Some(s)) => b.0 == s.0 && b.1 == s.1 && b.2 == s.2 && b.3 == s.3,
            _ => false,
        },
{
    let (h, a_top, a_bot): (i32, u8, u8) = match size {
        VizSize::Off => return None,
        VizSize::Veil => if night { (28, 0, 180) } else { (64, 0, 180) },
        VizSize::Full => if night { (16, 255, 255) } else { (42, 255, 255) },
    };
    Some((bottom - h, h, a_top, a_bot))
}

/// Both persisted indices cycle: any index and that index plus the count name the same setting.
pub proof fn lemma_indices_cycle(i: int)
    requires
        0 <= i,
    ensures
        kind_at(i) == kind_at(i + COUNT),
        size_at(i) == size_at(i + SIZE_COUNT),
{
}

} // verus!
