//! Text: the UI text scale (Settings ▸ UI scale), the type families and weights the renderers
//! name, and which device fallback font covers which script.
//!
//! The scale is one multiplier applied to every text size; row heights and hit-test geometry are
//! deliberately not scaled. It moves in seven discrete steps, because the glyph cache is keyed on
//! rasterised pixel size and a continuous scale would grow it without bound.
use vstd::prelude::*;

verus! {

/// Scale steps, in percent.
pub const SCALE_STEPS: [u32; 7] = [80, 90, 100, 110, 120, 130, 140];
/// Index into `SCALE_STEPS` for the native (100%) size — the default.
pub const SCALE_DEFAULT_IDX: usize = 2;

/// The steps, as a sequence.
pub open spec fn steps() -> Seq<u32> {
    seq![80u32, 90, 100, 110, 120, 130, 140]
}

/// How far `a` is from `b`.
pub open spec fn gap(a: int, b: int) -> int {
    if a >= b { a - b } else { b - a }
}

/// The step nearest `cur` among the first `n`: the first one at the least distance.
pub open spec fn nearest_among(cur: int, n: nat) -> int
    decreases n,
{
    if n <= 1 {
        0
    } else {
        let best = nearest_among(cur, (n - 1) as nat);
        if gap(steps()[n - 1] as int, cur) < gap(steps()[best] as int, cur) { n - 1 } else { best }
    }
}

/// The UI text scale: one percentage, always within the steps' range.
pub struct TextScale {
    pct: u32,
}

impl TextScale {
    /// The scale in percent.
    pub closed spec fn pct(&self) -> int {
        self.pct as int
    }

    #[verifier::type_invariant]
    closed spec fn in_range(&self) -> bool {
        80 <= self.pct <= 140
    }

    /// Native size, 100%.
    pub fn new() -> (s: TextScale)
        ensures
            s.pct() == 100,
    {
        TextScale { pct: 100 }
    }

    /// Set the scale in percent, clamped to the steps' range.
    pub fn set_scale_pct(&mut self, pct: u32)
        ensures
            final(self).pct() == if pct < 80 { 80 } else if pct > 140 { 140 } else { pct as int },
    {
        let lo = SCALE_STEPS[0];
        let hi = SCALE_STEPS[6];
        self.pct = if pct < lo { lo } else if pct > hi { hi } else { pct };
    }

    /// The scale in percent (100 = native).
    pub fn scale_pct(&self) -> (p: u32)
        ensures
            p == self.pct(),
            80 <= p <= 140,
    {
        proof { use_type_invariant(self); }
        self.pct
    }

    /// The step nearest the current scale (for the Settings slider knob).
    pub fn scale_idx(&self) -> (i: usize)
        ensures
            i == nearest_among(self.pct(), 7),
            i < 7,
    {
        let cur = self.pct;
        let mut best: usize = 0;
        let mut i: usize = 1;
        while i < 7
            invariant
                1 <= i <= 7,
                best < i,
                best == nearest_among(cur as int, i as nat),
            decreases 7 - i,
        {
            let s = SCALE_STEPS[i];
            let b = SCALE_STEPS[best];
            let ds = if s >= cur { s - cur } else { cur - s };
            let db = if b >= cur { b - cur } else { cur - b };
            if ds < db {
                best = i;
            }
            i += 1;
        }
        best
    }

    /// Apply step `idx` (clamped into range).
    pub fn set_scale_idx(&mut self, idx: usize)
        ensures
            final(self).pct() == steps()[if idx < 6 { idx as int } else { 6 }],
    {
        let i = if idx < 6 { idx } else { 6 };
        self.set_scale_pct(SCALE_STEPS[i]);
    }
}

/// Every step is a fixed point: setting step `i` and reading the knob back gives `i`.
pub proof fn lemma_step_round_trip(i: int)
    requires
        0 <= i < 7,
    ensures
        nearest_among(steps()[i] as int, 7) == i,
{
    let c = steps()[i] as int;
    assert(nearest_among(c, 1) == 0);
    assert(nearest_among(c, 2) == if i >= 1 { 1int } else { 0 });
    assert(nearest_among(c, 3) == if i >= 2 { 2int } else if i >= 1 { 1 } else { 0 });
    assert(nearest_among(c, 4) == if i >= 3 { 3int } else if i >= 2 { 2 } else if i >= 1 { 1 } else { 0 });
    assert(nearest_among(c, 5) == if i >= 4 { 4int } else if i >= 3 { 3 } else if i >= 2 { 2 } else if i >= 1 { 1 } else { 0 });
    assert(nearest_among(c, 6) == if i >= 5 { 5int } else if i >= 4 { 4 } else if i >= 3 { 3 } else if i >= 2 { 2 } else if i >= 1 { 1 } else { 0 });
}

/// A type family.
#[derive(Clone, Copy, PartialEq, Eq, Debug, Structural)]
pub enum Family {
    Sans,
    Mono,
}

/// A type weight.
#[derive(Clone, Copy, PartialEq, Eq, Debug, Structural)]
pub enum Weight {
    Light,
    Regular,
    SemiBold,
    Bold,
    ExtraBold,
}

/// Is `c` in a script that device fallback font `i` exists to provide? Each fallback is opened
/// only for its own scripts: 0 Latin-1/Extended, Greek and Cyrillic; 1 Japanese; 2 Hangul;
/// 3 Traditional Chinese ideographs; 4 Thai.
pub open spec fn covers(i: int, c: u32) -> bool {
    if i == 0 {
        (0x0080 <= c <= 0x024F) || (0x0370 <= c <= 0x03FF) || (0x0400 <= c <= 0x052F)
    } else if i == 1 {
        (0x3000 <= c <= 0x30FF) || (0x3400 <= c <= 0x9FFF) || (0xF900 <= c <= 0xFAFF) || (0xFF00
            <= c <= 0xFFEF)
    } else if i == 2 {
        (0x1100 <= c <= 0x11FF) || (0x3130 <= c <= 0x318F) || (0xA960 <= c <= 0xA97F) || (0xAC00
            <= c <= 0xD7FF)
    } else if i == 3 {
        (0x3400 <= c <= 0x9FFF) || (0xF900 <= c <= 0xFAFF)
    } else if i == 4 {
        0x0E00 <= c <= 0x0E7F
    } else {
        false
    }
}

/// Is `ch` in a script that fallback `i` is actually for?
pub fn fallback_covers_script(i: usize, ch: char) -> (b: bool)
    ensures
        b == covers(i as int, ch as u32),
{
    let c = ch as u32;
    if i == 0 {
        (0x0080 <= c && c <= 0x024F) || (0x0370 <= c && c <= 0x03FF) || (0x0400 <= c && c <= 0x052F)
    } else if i == 1 {
        (0x3000 <= c && c <= 0x30FF) || (0x3400 <= c && c <= 0x9FFF) || (0xF900 <= c && c <= 0xFAFF)
            || (0xFF00 <= c && c <= 0xFFEF)
    } else if i == 2 {
        (0x1100 <= c && c <= 0x11FF) || (0x3130 <= c && c <= 0x318F) || (0xA960 <= c && c <= 0xA97F)
            || (0xAC00 <= c && c <= 0xD7FF)
    } else if i == 3 {
        (0x3400 <= c && c <= 0x9FFF) || (0xF900 <= c && c <= 0xFAFF)
    } else if i == 4 {
        0x0E00 <= c && c <= 0x0E7F
    } else {
        false
    }
}


// ── Which font answers for a character ───────────────────────────────────────────────────────

/// Device fallback fonts, tried in this order for any character the bundled fonts lack. Sony's
/// proportional SST-Roman comes first so the CJK faces only ever get the scripts they are right
/// for.
pub const FALLBACK_FONTS: [&'static str; 5] = [
    "SST-Roman.otf",
    "SSTJpPro-Regular.otf",
    "NotoSansKR-Regular.otf",
    "DFPGothicPW5-BIG5HK-SONY-20140613.ttf",
    "NotoSansThai-Regular.ttf",
];

/// Where those live on the device.
pub const FALLBACK_DIR: &'static str = "/system/vendor/sony/lib/fonts";

/// The fallbacks whose parsed size is measured in tens of megabytes (Japanese, Korean,
/// Traditional Chinese). At most one of these is ever resident.
pub const CJK_FALLBACKS: [usize; 3] = [1, 2, 3];

/// Is fallback `i` one of the heavy CJK faces?
pub open spec fn is_cjk(i: int) -> bool {
    1 <= i <= 3
}

/// A fallback font's state for the session.
#[derive(Clone, Copy, PartialEq, Eq, Debug, Structural)]
pub enum FontSlot {
    /// Not asked for yet.
    Untried,
    /// Missing, unparseable, or shut out by another CJK face: never read again.
    Absent,
    /// Loaded and resident.
    Ready,
}

/// What asking for fallback `i` comes to.
#[derive(Clone, Copy, PartialEq, Eq, Debug, Structural)]
pub enum FallbackStep {
    /// It is resident: use it.
    Use,
    /// It is absent: there is nothing to use.
    Missing,
    /// Read and parse it now, then record the outcome with `FallbackChain::loaded`.
    Load,
}

/// No two CJK faces are resident at once.
pub open spec fn cjk_exclusive(slots: Seq<FontSlot>) -> bool {
    forall|i: int, j: int|
        #![trigger slots[i], slots[j]]
        is_cjk(i) && is_cjk(j) && slots[i] == FontSlot::Ready && slots[j] == FontSlot::Ready ==> i
            == j
}

/// The fallback chain's state: one slot per fallback font. At most one CJK face is ever ready —
/// each is tens of megabytes parsed, and two would exhaust the device's memory.
pub struct FallbackChain {
    slots: Vec<FontSlot>,
}

impl FallbackChain {
    /// The slots, as a sequence.
    pub closed spec fn slots(&self) -> Seq<FontSlot> {
        self.slots@
    }

    /// One slot per fallback font, and no two CJK faces resident at once.
    pub open spec fn wf(&self) -> bool {
        self.slots().len() == 5 && cjk_exclusive(self.slots())
    }

    /// Nothing tried yet.
    pub fn new() -> (c: FallbackChain)
        ensures
            c.slots() == seq![FontSlot::Untried, FontSlot::Untried, FontSlot::Untried, FontSlot::Untried, FontSlot::Untried],
            c.wf(),
    {
        let mut slots: Vec<FontSlot> = Vec::new();
        slots.push(FontSlot::Untried);
        slots.push(FontSlot::Untried);
        slots.push(FontSlot::Untried);
        slots.push(FontSlot::Untried);
        slots.push(FontSlot::Untried);
        FallbackChain { slots }
    }

    /// Is a CJK face other than `i` resident?
    pub closed spec fn other_cjk_ready(&self, i: int) -> bool {
        exists|j: int| is_cjk(j) && j != i && #[trigger] self.slots@[j] == FontSlot::Ready
    }

    /// What asking for fallback `i` comes to: a resident font is used, an absent one is not, and
    /// a CJK face asked for while another is resident is marked absent for the session instead
    /// of loaded. Anything else must be loaded.
    pub fn begin(&mut self, i: usize) -> (step: FallbackStep)
        requires
            i < 5,
            old(self).wf(),
        ensures
            old(self).slots()[i as int] == FontSlot::Ready ==> step == FallbackStep::Use
                && final(self).slots() == old(self).slots(),
            old(self).slots()[i as int] == FontSlot::Absent ==> step == FallbackStep::Missing
                && final(self).slots() == old(self).slots(),
            old(self).slots()[i as int] == FontSlot::Untried ==> if is_cjk(i as int) && old(self).other_cjk_ready(i as int) {
                step == FallbackStep::Missing && final(self).slots() == old(self).slots().update(
                    i as int,
                    FontSlot::Absent,
                )
            } else {
                step == FallbackStep::Load && final(self).slots() == old(self).slots()
            },
            final(self).wf(),
    {
        let cur = self.slots[i];
        match cur {
            FontSlot::Ready => FallbackStep::Use,
            FontSlot::Absent => FallbackStep::Missing,
            FontSlot::Untried => {
                if 1 <= i && i <= 3 {
                    let mut j: usize = 1;
                    let mut taken = false;
                    while j <= 3
                        invariant
                            1 <= j <= 4,
                            self.slots@.len() == 5,
                            taken == exists|k: int| 1 <= k < j && k != i && #[trigger] self.slots@[k] == FontSlot::Ready,
                        decreases 4 - j,
                    {
                        if j != i && self.slots[j] == FontSlot::Ready {
                            taken = true;
                        }
                        j += 1;
                    }
                    if taken {
                        self.slots.set(i, FontSlot::Absent);
                        return FallbackStep::Missing;
                    }
                }
                FallbackStep::Load
            },
        }
    }

    /// Record how loading fallback `i` went: resident, or absent for the rest of the session.
    pub fn loaded(&mut self, i: usize, ok: bool)
        requires
            i < 5,
            old(self).wf(),
            old(self).slots()[i as int] == FontSlot::Untried,
            is_cjk(i as int) ==> !old(self).other_cjk_ready(i as int),
        ensures
            final(self).slots() == old(self).slots().update(
                i as int,
                if ok { FontSlot::Ready } else { FontSlot::Absent },
            ),
            final(self).wf(),
    {
        self.slots.set(i, if ok { FontSlot::Ready } else { FontSlot::Absent });
    }

    /// The state of fallback `i`.
    pub fn slot(&self, i: usize) -> (s: FontSlot)
        requires
            i < 5,
            self.wf(),
        ensures
            s == self.slots()[i as int],
    {
        self.slots[i]
    }
}

/// Stable font index of a bundled family and weight (the glyph cache keys on it): the four Sans
/// faces are 0..=3, the three Mono faces 4..=6, and weights a family lacks use its nearest face.
pub open spec fn spec_font_index(fam: Family, w: Weight) -> u8 {
    match fam {
        Family::Sans => match w {
            Weight::Light | Weight::Regular => 0,
            Weight::SemiBold => 1,
            Weight::Bold => 2,
            Weight::ExtraBold => 3,
        },
        Family::Mono => match w {
            Weight::Light => 4,
            Weight::Regular | Weight::SemiBold => 5,
            Weight::Bold | Weight::ExtraBold => 6,
        },
    }
}

/// Stable font index of a bundled family and weight.
pub fn font_index(fam: Family, w: Weight) -> (i: u8)
    ensures
        i == spec_font_index(fam, w),
{
    match fam {
        Family::Sans => match w {
            Weight::Light | Weight::Regular => 0,
            Weight::SemiBold => 1,
            Weight::Bold => 2,
            Weight::ExtraBold => 3,
        },
        Family::Mono => match w {
            Weight::Light => 4,
            Weight::Regular | Weight::SemiBold => 5,
            Weight::Bold | Weight::ExtraBold => 6,
        },
    }
}

/// Where a glyph may come from.
#[derive(Clone, Copy, PartialEq, Eq, Debug, Structural)]
pub enum Source {
    /// The font asked for.
    Primary,
    /// Device fallback `i`.
    Fallback(usize),
    /// Another bundled face.
    Bundled(Family, Weight),
}

/// Every distinct bundled face, regular weights first, display weights last.
pub open spec fn bundled_at(k: int) -> (Family, Weight) {
    if k == 0 { (Family::Sans, Weight::Regular) }
    else if k == 1 { (Family::Mono, Weight::Regular) }
    else if k == 2 { (Family::Sans, Weight::SemiBold) }
    else if k == 3 { (Family::Sans, Weight::Bold) }
    else if k == 4 { (Family::Mono, Weight::Bold) }
    else if k == 5 { (Family::Mono, Weight::Light) }
    else { (Family::Sans, Weight::ExtraBold) }
}

fn bundled_exec(k: usize) -> (r: (Family, Weight))
    ensures
        r == bundled_at(k as int),
{
    if k == 0 { (Family::Sans, Weight::Regular) }
    else if k == 1 { (Family::Mono, Weight::Regular) }
    else if k == 2 { (Family::Sans, Weight::SemiBold) }
    else if k == 3 { (Family::Sans, Weight::Bold) }
    else if k == 4 { (Family::Mono, Weight::Bold) }
    else if k == 5 { (Family::Mono, Weight::Light) }
    else { (Family::Sans, Weight::ExtraBold) }
}

/// The device fallbacks among the first `n` that are for `c`'s script, in chain order.
pub open spec fn chain_for(c: u32, n: nat) -> Seq<Source>
    decreases n,
{
    if n == 0 {
        seq![]
    } else {
        chain_for(c, (n - 1) as nat) + if covers(n - 1, c) { seq![Source::Fallback((n - 1) as usize)] } else { seq![] }
    }
}

/// The bundled faces among the first `n` other than `(fam, w)`, in bundled order.
pub open spec fn others_for(fam: Family, w: Weight, n: nat) -> Seq<Source>
    decreases n,
{
    if n == 0 {
        seq![]
    } else {
        others_for(fam, w, (n - 1) as nat) + if bundled_at(n - 1) == (fam, w) {
            seq![]
        } else {
            seq![Source::Bundled(bundled_at(n - 1).0, bundled_at(n - 1).1)]
        }
    }
}

/// Where to look for `ch` in a `(fam, w)` run, in order; the first that has the glyph answers,
/// and when none does the font asked for draws its `.notdef`. ASCII is always the font asked
/// for. After it come the device fallbacks for the character's script only — a symbol never
/// loads one — and last the other bundled faces, already in memory.
pub open spec fn spec_resolve_order(fam: Family, w: Weight, ch: char) -> Seq<Source> {
    if (ch as u32) < 0x80 {
        seq![Source::Primary]
    } else {
        seq![Source::Primary] + chain_for(ch as u32, 5) + others_for(fam, w, 7)
    }
}

/// Where to look for `ch` in a `(fam, w)` run, in order.
pub fn resolve_order(fam: Family, w: Weight, ch: char) -> (v: Vec<Source>)
    ensures
        v@ == spec_resolve_order(fam, w, ch),
{
    let mut v: Vec<Source> = Vec::new();
    v.push(Source::Primary);
    if (ch as u32) < 0x80 {
        return v;
    }
    let mut i: usize = 0;
    while i < 5
        invariant
            i <= 5,
            (ch as u32) >= 0x80,
            v@ == seq![Source::Primary] + chain_for(ch as u32, i as nat),
        decreases 5 - i,
    {
        if fallback_covers_script(i, ch) {
            v.push(Source::Fallback(i));
        }
        assert(v@ =~= seq![Source::Primary] + chain_for(ch as u32, (i + 1) as nat));
        i += 1;
    }
    let ghost chain = v@;
    let mut k: usize = 0;
    while k < 7
        invariant
            k <= 7,
            v@ == chain + others_for(fam, w, k as nat),
        decreases 7 - k,
    {
        let (f2, w2) = bundled_exec(k);
        if !(f2 == fam && w2 == w) {
            v.push(Source::Bundled(f2, w2));
        }
        assert(v@ =~= chain + others_for(fam, w, (k + 1) as nat));
        k += 1;
    }
    v
}


/// The first `n` fallbacks, for a character fallback 0 covers, start with fallback 0.
proof fn lemma_chain_starts_with_roman(c: u32, n: nat)
    requires
        n >= 1,
        covers(0, c),
    ensures
        chain_for(c, n).len() >= 1,
        chain_for(c, n)[0] == Source::Fallback(0),
    decreases n,
{
    if n == 1 {
        assert(chain_for(c, 0) =~= seq![]);
    } else {
        lemma_chain_starts_with_roman(c, (n - 1) as nat);
    }
}

/// Fallback 0 (SST-Roman) covers Latin-1 and Latin Extended, Greek and Cyrillic. So a character
/// from any of them that the primary face lacks is looked for there next, before any other font.
pub proof fn lemma_roman_fallback_covers_european_scripts(fam: Family, w: Weight, ch: char)
    requires
        (0x0080 <= ch as u32 <= 0x024F) || (0x0370 <= ch as u32 <= 0x03FF) || (0x0400 <= ch as u32 <= 0x052F),
    ensures
        covers(0, ch as u32),
        spec_resolve_order(fam, w, ch).len() >= 2,
        spec_resolve_order(fam, w, ch)[0] == Source::Primary,
        spec_resolve_order(fam, w, ch)[1] == Source::Fallback(0),
{
    lemma_chain_starts_with_roman(ch as u32, 5);
    let s = seq![Source::Primary] + chain_for(ch as u32, 5) + others_for(fam, w, 7);
    assert(s[1] == chain_for(ch as u32, 5)[0]);
}

} // verus!
