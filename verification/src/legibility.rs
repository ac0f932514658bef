//! Readability rules for palettes: WCAG relative luminance and contrast, in exact integer
//! arithmetic, and the floors a palette's colours have to clear.
//!
//! Luminance is kept in units of 1e-11 (so 1.0 is `LUM_ONE`), built from the sRGB linearisation
//! of each channel in units of 1e-7. A contrast ratio `(L1 + 0.05) / (L2 + 0.05)` is kept as its
//! numerator and denominator, so every comparison is a cross-multiplication and nothing rounds
//! until a number is printed.
use vstd::prelude::*;
use crate::strings::{dec, digit_char, push_dec, push_str};
use crate::theme::{Accent, Rgb, Tokens, accent_at, accent_name, theme_of};

verus! {

/// The sRGB transfer curve, inverted: the linear light of each 8-bit channel value, in units of
/// 1e-7 (so 255 gives 10_000_000).
pub const LIN: [u32; 256] = [
    0, 3035, 6071, 9106, 12141, 15176, 18212, 21247, 24282, 27317,
    30353, 33465, 36765, 40247, 43914, 47770, 51815, 56054, 60488, 65121,
    69954, 74990, 80232, 85681, 91341, 97212, 103298, 109601, 116122, 122865,
    129830, 137021, 144438, 152085, 159963, 168074, 176420, 185002, 193824, 202886,
    212190, 221739, 231534, 241576, 251869, 262412, 273209, 284260, 295568, 307134,
    318960, 331048, 343398, 356013, 368895, 382044, 395462, 409152, 423114, 437350,
    451862, 466651, 481718, 497066, 512695, 528607, 544803, 561285, 578054, 595112,
    612461, 630100, 648033, 666259, 684782, 703601, 722719, 742136, 761854, 781874,
    802198, 822827, 843762, 865005, 886556, 908417, 930590, 953075, 975874, 998987,
    1022417, 1046165, 1070231, 1094617, 1119324, 1144354, 1169707, 1195384, 1221388, 1247718,
    1274377, 1301365, 1328683, 1356333, 1384316, 1412633, 1441285, 1470273, 1499598, 1529262,
    1559265, 1589608, 1620294, 1651322, 1682694, 1714411, 1746474, 1778884, 1811642, 1844750,
    1878208, 1912017, 1946178, 1980693, 2015563, 2050787, 2086369, 2122308, 2158605, 2195262,
    2232280, 2269659, 2307401, 2345506, 2383976, 2422812, 2462014, 2501583, 2541521, 2581829,
    2622507, 2663556, 2704978, 2746773, 2788943, 2831488, 2874409, 2917707, 2961383, 3005438,
    3049873, 3094690, 3139887, 3185468, 3231432, 3277781, 3324516, 3371637, 3419144, 3467041,
    3515326, 3564002, 3613068, 3662526, 3712377, 3762622, 3813260, 3864295, 3915725, 3967552,
    4019778, 4072402, 4125426, 4178851, 4232677, 4286905, 4341537, 4396572, 4452012, 4507858,
    4564110, 4620770, 4677838, 4735315, 4793202, 4851499, 4910209, 4969330, 5028865, 5088813,
    5149177, 5209956, 5271152, 5332764, 5394795, 5457245, 5520114, 5583404, 5647115, 5711249,
    5775805, 5840784, 5906188, 5972018, 6038274, 6104956, 6172066, 6239604, 6307572, 6375969,
    6444797, 6514056, 6583748, 6653873, 6724432, 6795425, 6866853, 6938718, 7011019, 7083758,
    7156935, 7230551, 7304608, 7379104, 7454042, 7529422, 7605245, 7681512, 7758222, 7835378,
    7912980, 7991027, 8069523, 8148466, 8227857, 8307699, 8387990, 8468732, 8549926, 8631572,
    8713671, 8796224, 8879231, 8962694, 9046612, 9130986, 9215819, 9301109, 9386857, 9473065,
    9559733, 9646863, 9734453, 9822506, 9911021, 10000000,
];

/// Relative luminance 1.0, in the units `luminance` returns.
pub const LUM_ONE: u64 = 100_000_000_000;
/// The 0.05 of flare both sides of a WCAG contrast ratio carry, in luminance units.
pub const FLARE: u64 = 5_000_000_000;

/// Linear light of one channel, in units of 1e-7.
pub open spec fn lin(c: u8) -> int {
    LIN@[c as int] as int
}

/// WCAG relative luminance of `c`, in units of 1e-11.
pub open spec fn lum(c: Rgb) -> int {
    2126 * lin(c.r) + 7152 * lin(c.g) + 722 * lin(c.b)
}

/// The larger side of the contrast ratio between `a` and `b`: the brighter luminance plus flare.
pub open spec fn ratio_hi(a: Rgb, b: Rgb) -> int {
    if lum(a) >= lum(b) { lum(a) + FLARE } else { lum(b) + FLARE }
}

/// The smaller side: the darker luminance plus flare.
pub open spec fn ratio_lo(a: Rgb, b: Rgb) -> int {
    if lum(a) >= lum(b) { lum(b) + FLARE } else { lum(a) + FLARE }
}

/// The contrast ratio between `a` and `b`.
pub open spec fn ratio_of(a: Rgb, b: Rgb) -> Ratio {
    Ratio { hi: ratio_hi(a, b) as u64, lo: ratio_lo(a, b) as u64 }
}

/// A contrast ratio `hi / lo`, kept exact.
#[derive(Clone, Copy, PartialEq, Eq, Debug, Structural)]
pub struct Ratio {
    pub hi: u64,
    pub lo: u64,
}

/// `hi / lo >= need / 100`.
pub open spec fn meets(r: Ratio, need: u32) -> bool {
    100 * r.hi >= need * r.lo
}

/// `x / y < z / w`, for positive denominators.
pub open spec fn less(x: Ratio, y: Ratio) -> bool {
    x.hi * y.lo < y.hi * x.lo
}

/// The ratio in hundredths, rounded half up, as it is printed.
pub open spec fn hundredths(r: Ratio) -> int {
    (200 * r.hi + r.lo) / (2 * r.lo)
}

/// `h` hundredths printed with two decimals: `4.50`.
pub open spec fn fmt2(h: nat) -> Seq<char> {
    dec(h / 100) + "."@ + seq![digit_char(((h / 10) % 10) as int), digit_char((h % 10) as int)]
}

/// `t` thousandths printed with three decimals: `0.021`.
pub open spec fn fmt3(t: nat) -> Seq<char> {
    dec(t / 1000) + "."@ + seq![
        digit_char(((t / 100) % 10) as int),
        digit_char(((t / 10) % 10) as int),
        digit_char((t % 10) as int),
    ]
}

/// WCAG relative luminance of `c`, 0 (black) to `LUM_ONE` (white).
pub fn luminance(c: Rgb) -> (l: u64)
    ensures
        l == lum(c),
        l <= 10000 * 0xffff_ffff,
{
    let r = LIN[c.r as usize] as u64;
    let g = LIN[c.g as usize] as u64;
    let b = LIN[c.b as usize] as u64;
    2126 * r + 7152 * g + 722 * b
}

/// WCAG contrast ratio between two colours, in either order.
pub fn contrast(a: Rgb, b: Rgb) -> (r: Ratio)
    ensures
        r == ratio_of(a, b),
        r.lo >= FLARE,
        r.hi >= r.lo,
        r.hi <= 0x1_0000_0000_0000,
{
    let la = luminance(a);
    let lb = luminance(b);
    if la >= lb {
        Ratio { hi: la + FLARE, lo: lb + FLARE }
    } else {
        Ratio { hi: lb + FLARE, lo: la + FLARE }
    }
}

proof fn lemma_wide_product(a: u64, b: u64)
    ensures
        (a as int) * (b as int) <= 0xffff_ffff_ffff_ffff * 0xffff_ffff_ffff_ffff,
{
    assert((a as int) * (b as int) <= 0xffff_ffff_ffff_ffff * 0xffff_ffff_ffff_ffff)
        by (nonlinear_arith)
        requires
            a <= 0xffff_ffff_ffff_ffff,
            b <= 0xffff_ffff_ffff_ffff,
    ;
}

/// Does `r` reach `need` hundredths?
fn reaches(r: Ratio, need: u32) -> (b: bool)
    requires
        r.lo >= FLARE,
        r.hi <= 0x1_0000_0000_0000,
    ensures
        b == meets(r, need),
{
    proof { lemma_wide_product(need as u64, r.lo); }
    100 * (r.hi as u128) >= (need as u128) * (r.lo as u128)
}

/// Is `x` a smaller ratio than `y`?
fn below(x: Ratio, y: Ratio) -> (b: bool)
    ensures
        b == less(x, y),
{
    proof {
        lemma_wide_product(x.hi, y.lo);
        lemma_wide_product(y.hi, x.lo);
    }
    (x.hi as u128) * (y.lo as u128) < (y.hi as u128) * (x.lo as u128)
}

/// `r` in hundredths, rounded half up.
fn round_hundredths(r: Ratio) -> (h: u64)
    requires
        FLARE <= r.lo <= r.hi <= 0x1_0000_0000_0000,
    ensures
        h == hundredths(r),
{
    let n: u128 = 200 * (r.hi as u128) + r.lo as u128;
    let d: u128 = 2 * (r.lo as u128);
    let q = n / d;
    assert(q <= n) by (nonlinear_arith)
        requires
            d >= 1,
            q == n / d,
    ;
    (q as u64)
}

/// Appends `h` hundredths with two decimals.
fn push_fixed2(s: &mut String, h: u64)
    ensures
        final(s)@ == old(s)@ + fmt2(h as nat),
{
    push_dec(s, h / 100);
    push_str(s, ".");
    s.push(crate::strings::digit_of((h / 10) % 10));
    s.push(crate::strings::digit_of(h % 10));
    proof { reveal_strlit("."); }
    assert(s@ =~= old(s)@ + fmt2(h as nat));
}


/// Luminance in thousandths, rounded half up, as it is printed.
pub open spec fn thousandths(l: int) -> int {
    (l + 50_000_000) / 100_000_000
}

/// Appends `t` thousandths with three decimals.
fn push_fixed3(s: &mut String, t: u64)
    ensures
        final(s)@ == old(s)@ + fmt3(t as nat),
{
    push_dec(s, t / 1000);
    push_str(s, ".");
    s.push(crate::strings::digit_of((t / 100) % 10));
    s.push(crate::strings::digit_of((t / 10) % 10));
    s.push(crate::strings::digit_of(t % 10));
    proof { reveal_strlit("."); }
    assert(s@ =~= old(s)@ + fmt3(t as nat));
}

// ── The floors ──────────────────────────────────────────────────────────────────────────────

/// Contrast floors for one mode, as WCAG ratios in hundredths (`450` is 4.5:1).
#[derive(Clone, Copy, PartialEq, Eq, Debug, Structural)]
pub struct Floors {
    /// Primary text, against the background and against panels.
    pub ink: u32,
    /// Secondary text.
    pub dim: u32,
    /// Tertiary text: mono values, captions.
    pub faint: u32,
    /// The accent against the background and the row wash, and the ink drawn on the accent.
    pub accent: u32,
}

/// The brightest a night background may be: relative luminance 0.02, about `#272727`.
pub const NIGHT_BG_MAX: u64 = 2_000_000_000;

/// The floors of one mode.
///
/// Day: ink and dim are WCAG AA (4.5 for text, 3.0 for large text and controls). Cinder
/// measures 15.9 / 6.2 / 2.9, and its weakest accent (crimson) 4.2 against its own row wash.
///
/// Night: night exists to emit as little light as a readable screen can, and Cinder's own night
/// measures 2.26 / 1.54 / 1.25, with accents down to 1.28. These floors sit a margin under that,
/// so any night at least as legible as Cinder's passes and one that is not is refused.
pub open spec fn floors(night: bool) -> Floors {
    if night {
        Floors { ink: 190, dim: 135, faint: 112, accent: 120 }
    } else {
        Floors { ink: 450, dim: 300, faint: 180, accent: 300 }
    }
}

impl Floors {
    /// The floors of one mode.
    pub fn of_mode(night: bool) -> (f: Floors)
        ensures
            f == floors(night),
    {
        if night {
            Floors { ink: 190, dim: 135, faint: 112, accent: 120 }
        } else {
            Floors { ink: 450, dim: 300, faint: 180, accent: 300 }
        }
    }
}

/// The word a message names the mode by.
pub open spec fn mode_word(night: bool) -> Seq<char> {
    if night { "night"@ } else { "day"@ }
}

/// A list of one message when `c` holds, else none.
pub open spec fn opt(c: bool, m: Seq<char>) -> Seq<Seq<char>> {
    if c { seq![m] } else { seq![] }
}

/// `day.ink on day.bg`.
pub open spec fn pair_text(m: Seq<char>, a: Seq<char>, b: Seq<char>) -> Seq<char> {
    m + "."@ + a + " on "@ + m + "."@ + b
}

/// `<what>: contrast 1.23, needs at least 4.50`.
pub open spec fn floor_text(what: Seq<char>, r: Ratio, need: u32) -> Seq<char> {
    what + ": contrast "@ + fmt2(hundredths(r) as nat) + ", needs at least "@ + fmt2(need as nat)
}

/// The four floors the neutrals of one mode must clear: ink, dim and faint on the background,
/// and ink on the panel.
#[verifier::opaque]
pub open spec fn floor_problems(t: Tokens, night: bool) -> Seq<Seq<char>> {
    let m = mode_word(night);
    let f = floors(night);
    let th = theme_of(t, night, Accent::Amber);
    let ink = ratio_of(th.ink, th.bg);
    let dim = ratio_of(th.dim, th.bg);
    let faint = ratio_of(th.faint, th.bg);
    let panel = ratio_of(th.ink, th.panel);
    opt(!meets(ink, f.ink), floor_text(pair_text(m, "ink"@, "bg"@), ink, f.ink))
        + opt(!meets(dim, f.dim), floor_text(pair_text(m, "dim"@, "bg"@), dim, f.dim))
        + opt(!meets(faint, f.faint), floor_text(pair_text(m, "faint"@, "bg"@), faint, f.faint))
        + opt(!meets(panel, f.ink), floor_text(pair_text(m, "ink"@, "panel"@), panel, f.ink))
}

/// The ordering of one mode's text colours, ink over dim over faint, and at night the
/// background's brightness.
#[verifier::opaque]
pub open spec fn order_problems(t: Tokens, night: bool) -> Seq<Seq<char>> {
    let m = mode_word(night);
    let th = theme_of(t, night, Accent::Amber);
    let ink = ratio_of(th.ink, th.bg);
    let dim = ratio_of(th.dim, th.bg);
    let faint = ratio_of(th.faint, th.bg);
    opt(
        !less(dim, ink),
        m + ".dim stands out as much as "@ + m + ".ink ("@ + fmt2(hundredths(dim) as nat)
            + " vs "@ + fmt2(hundredths(ink) as nat) + ") \u{2014} dim is for secondary text"@,
    ) + opt(
        !less(faint, dim),
        m + ".faint stands out as much as "@ + m + ".dim ("@ + fmt2(hundredths(faint) as nat)
            + " vs "@ + fmt2(hundredths(dim) as nat) + ")"@,
    ) + opt(
        night && lum(th.bg) > NIGHT_BG_MAX,
        "night.bg is too bright for night mode (luminance "@ + fmt3(thousandths(lum(th.bg)) as nat)
            + ", at most 0.02)"@,
    )
}

/// What the neutrals of one mode fail, in order. They do not depend on the accent, so any
/// accent resolves them.
pub open spec fn neutral_problems(t: Tokens, night: bool) -> Seq<Seq<char>> {
    floor_problems(t, night) + order_problems(t, night)
}

/// The three accent measurements, `k` = 0, 1, 2: the accent on the background, the ink drawn on
/// the accent, and the accent on the row wash.
pub open spec fn measure(t: Tokens, night: bool, a: Accent, k: int) -> Ratio {
    let th = theme_of(t, night, a);
    if k == 0 {
        ratio_of(th.acc, th.bg)
    } else if k == 1 {
        ratio_of(th.acc_ink, th.acc)
    } else {
        ratio_of(th.acc, th.row_sel)
    }
}

/// The worst of the first `n` accents for measurement `k`: the first one at the minimum.
pub open spec fn worst(t: Tokens, night: bool, k: int, n: nat) -> Accent
    decreases n,
{
    if n <= 1 {
        Accent::Amber
    } else {
        let w = worst(t, night, k, (n - 1) as nat);
        let x = accent_at(n - 1);
        if less(measure(t, night, x, k), measure(t, night, w, k)) { x } else { w }
    }
}

/// How many accents a palette answers for: its own, or every one the picker offers.
pub open spec fn scope(t: Tokens) -> nat {
    if t.accent is Some { 1 } else { 6 }
}

/// What measurement `k` looks at.
pub open spec fn what_word(k: int) -> Seq<char> {
    if k == 1 { "accent_ink"@ } else { "accent"@ }
}

/// What measurement `k` looks at it against.
pub open spec fn on_word(k: int) -> Seq<char> {
    if k == 0 { "bg"@ } else if k == 1 { "accent"@ } else { "row_select"@ }
}

/// What measurement `k` fails in one mode, as at most one sentence covering every accent in
/// scope.
#[verifier::opaque]
pub open spec fn accent_problem(t: Tokens, night: bool, k: int) -> Seq<Seq<char>> {
    let m = mode_word(night);
    let f = floors(night);
    let a = worst(t, night, k, scope(t));
    let got = measure(t, night, a, k);
    opt(
        !meets(got, f.accent),
        if t.accent is Some {
            floor_text(pair_text(m, what_word(k), on_word(k)), got, f.accent)
        } else {
            m + ": the built-in "@ + accent_name(a) + " accent measures "@ + fmt2(
                hundredths(got) as nat,
            ) + " for "@ + what_word(k) + " on "@ + on_word(k) + " (needs "@ + fmt2(f.accent as nat)
                + ") \u{2014} give the palette an accent of its own (all six accent keys)"@
        },
    )
}

/// Everything one mode fails.
pub open spec fn mode_problems(t: Tokens, night: bool) -> Seq<Seq<char>> {
    neutral_problems(t, night) + accent_problem(t, night, 0) + accent_problem(t, night, 1)
        + accent_problem(t, night, 2)
}

/// Everything about `t` that would make the UI hard to read, one sentence each, day first.
pub open spec fn problems_of(t: Tokens) -> Seq<Seq<char>> {
    mode_problems(t, false) + mode_problems(t, true)
}

/// The texts of a list of strings.
pub open spec fn views(v: Seq<String>) -> Seq<Seq<char>> {
    v.map_values(|s: String| s@)
}

/// Appends one message.
pub fn push_msg(out: &mut Vec<String>, m: String)
    ensures
        views(final(out)@) == views(old(out)@).push(m@),
{
    out.push(m);
    assert(views(out@) =~= views(old(out)@).push(m@));
}


fn mode_str(night: bool) -> (s: &'static str)
    ensures
        s@ == mode_word(night),
{
    if night { "night" } else { "day" }
}

/// `day.ink on day.bg`, built.
fn pair_string(night: bool, a: &str, b: &str) -> (s: String)
    ensures
        s@ == pair_text(mode_word(night), a@, b@),
{
    let m = mode_str(night);
    let mut s = String::new();
    push_str(&mut s, m);
    push_str(&mut s, ".");
    push_str(&mut s, a);
    push_str(&mut s, " on ");
    push_str(&mut s, m);
    push_str(&mut s, ".");
    push_str(&mut s, b);
    assert(s@ =~= pair_text(mode_word(night), a@, b@));
    s
}

/// `<what>: contrast 1.23, needs at least 4.50`, built.
fn floor_string(what: String, r: Ratio, need: u32) -> (s: String)
    requires
        FLARE <= r.lo <= r.hi <= 0x1_0000_0000_0000,
    ensures
        s@ == floor_text(what@, r, need),
{
    let mut s = what;
    push_str(&mut s, ": contrast ");
    push_fixed2(&mut s, round_hundredths(r));
    push_str(&mut s, ", needs at least ");
    push_fixed2(&mut s, need as u64);
    assert(s@ =~= floor_text(what@, r, need));
    s
}

/// The contrast pairs `neutral_problems` measures: ink, dim and faint on the background, and ink
/// on the panel.
fn neutral_floors(t: &Tokens, night: bool, out: &mut Vec<String>)
    ensures
        views(final(out)@) == views(old(out)@) + floor_problems(*t, night),
{
    reveal(floor_problems);
    let ghost m = mode_word(night);
    let f = Floors::of_mode(night);
    let th = t.theme(night, Accent::Amber);
    let ink = contrast(th.ink, th.bg);
    let dim = contrast(th.dim, th.bg);
    let faint = contrast(th.faint, th.bg);
    let panel = contrast(th.ink, th.panel);
    let ghost o1 = opt(!meets(ink, f.ink), floor_text(pair_text(m, "ink"@, "bg"@), ink, f.ink));
    let ghost o2 = opt(!meets(dim, f.dim), floor_text(pair_text(m, "dim"@, "bg"@), dim, f.dim));
    let ghost o3 = opt(!meets(faint, f.faint), floor_text(pair_text(m, "faint"@, "bg"@), faint, f.faint));
    let ghost o4 = opt(!meets(panel, f.ink), floor_text(pair_text(m, "ink"@, "panel"@), panel, f.ink));
    if !reaches(ink, f.ink) {
        push_msg(out, floor_string(pair_string(night, "ink", "bg"), ink, f.ink));
    }
    assert(views(out@) =~= views(old(out)@) + o1);
    if !reaches(dim, f.dim) {
        push_msg(out, floor_string(pair_string(night, "dim", "bg"), dim, f.dim));
    }
    assert(views(out@) =~= views(old(out)@) + o1 + o2);
    if !reaches(faint, f.faint) {
        push_msg(out, floor_string(pair_string(night, "faint", "bg"), faint, f.faint));
    }
    assert(views(out@) =~= views(old(out)@) + o1 + o2 + o3);
    if !reaches(panel, f.ink) {
        push_msg(out, floor_string(pair_string(night, "ink", "panel"), panel, f.ink));
    }
    assert(views(out@) =~= views(old(out)@) + o1 + o2 + o3 + o4);
}


/// The ordering checks of `order_problems`, made.
fn neutral_order(t: &Tokens, night: bool, out: &mut Vec<String>)
    ensures
        views(final(out)@) == views(old(out)@) + order_problems(*t, night),
{
    reveal(order_problems);
    let ghost m = mode_word(night);
    let mode = mode_str(night);
    let th = t.theme(night, Accent::Amber);
    let ink = contrast(th.ink, th.bg);
    let dim = contrast(th.dim, th.bg);
    let faint = contrast(th.faint, th.bg);
    let ghost o1 = opt(
        !less(dim, ink),
        m + ".dim stands out as much as "@ + m + ".ink ("@ + fmt2(hundredths(dim) as nat)
            + " vs "@ + fmt2(hundredths(ink) as nat) + ") \u{2014} dim is for secondary text"@,
    );
    let ghost o2 = opt(
        !less(faint, dim),
        m + ".faint stands out as much as "@ + m + ".dim ("@ + fmt2(hundredths(faint) as nat)
            + " vs "@ + fmt2(hundredths(dim) as nat) + ")"@,
    );
    let ghost l = lum(th.bg);
    let ghost o3 = opt(
        night && l > NIGHT_BG_MAX,
        "night.bg is too bright for night mode (luminance "@ + fmt3(thousandths(l) as nat)
            + ", at most 0.02)"@,
    );
    if !below(dim, ink) {
        let mut s = String::new();
        push_str(&mut s, mode);
        push_str(&mut s, ".dim stands out as much as ");
        push_str(&mut s, mode);
        push_str(&mut s, ".ink (");
        push_fixed2(&mut s, round_hundredths(dim));
        push_str(&mut s, " vs ");
        push_fixed2(&mut s, round_hundredths(ink));
        push_str(&mut s, ") \u{2014} dim is for secondary text");
        push_msg(out, s);
    }
    assert(views(out@) =~= views(old(out)@) + o1);
    if !below(faint, dim) {
        let mut s = String::new();
        push_str(&mut s, mode);
        push_str(&mut s, ".faint stands out as much as ");
        push_str(&mut s, mode);
        push_str(&mut s, ".dim (");
        push_fixed2(&mut s, round_hundredths(faint));
        push_str(&mut s, " vs ");
        push_fixed2(&mut s, round_hundredths(dim));
        push_str(&mut s, ")");
        push_msg(out, s);
    }
    assert(views(out@) =~= views(old(out)@) + o1 + o2);
    if night {
        let bg = luminance(th.bg);
        if bg > NIGHT_BG_MAX {
            let mut s = String::new();
            push_str(&mut s, "night.bg is too bright for night mode (luminance ");
            push_fixed3(&mut s, (bg + 50_000_000) / 100_000_000);
            push_str(&mut s, ", at most 0.02)");
            push_msg(out, s);
        }
    }
    assert(views(out@) =~= views(old(out)@) + o1 + o2 + o3);
}

/// Measurement `k` of `t`'s theme in one mode with accent `a`.
fn measure_of(t: &Tokens, night: bool, a: Accent, k: usize) -> (r: Ratio)
    ensures
        r == measure(*t, night, a, k as int),
        FLARE <= r.lo <= r.hi <= 0x1_0000_0000_0000,
{
    let th = t.theme(night, a);
    if k == 0 {
        contrast(th.acc, th.bg)
    } else if k == 1 {
        contrast(th.acc_ink, th.acc)
    } else {
        contrast(th.acc, th.row_sel)
    }
}

/// The worst accent in scope for measurement `k`, and what it measures.
fn worst_accent(t: &Tokens, night: bool, k: usize) -> (r: (Accent, Ratio))
    ensures
        r.0 == worst(*t, night, k as int, scope(*t)),
        r.1 == measure(*t, night, r.0, k as int),
        FLARE <= r.1.lo <= r.1.hi <= 0x1_0000_0000_0000,
{
    let n: usize = if t.accent.is_some() { 1 } else { 6 };
    let mut best = Accent::Amber;
    let mut got = measure_of(t, night, best, k);
    let mut i: usize = 1;
    while i < n
        invariant
            n == scope(*t),
            1 <= i <= n,
            best == worst(*t, night, k as int, i as nat),
            got == measure(*t, night, best, k as int),
            FLARE <= got.lo <= got.hi <= 0x1_0000_0000_0000,
        decreases n - i,
    {
        let a = Accent::from_index(i);
        let x = measure_of(t, night, a, k);
        if below(x, got) {
            best = a;
            got = x;
        }
        i += 1;
    }
    (best, got)
}

fn what_str(k: usize) -> (s: &'static str)
    ensures
        s@ == what_word(k as int),
{
    if k == 1 { "accent_ink" } else { "accent" }
}

fn on_str(k: usize) -> (s: &'static str)
    ensures
        s@ == on_word(k as int),
{
    if k == 0 { "bg" } else if k == 1 { "accent" } else { "row_select" }
}

/// Measurement `k` held to its floor.
fn accent_check(t: &Tokens, night: bool, k: usize, out: &mut Vec<String>)
    ensures
        views(final(out)@) == views(old(out)@) + accent_problem(*t, night, k as int),
{
    reveal(accent_problem);
    let f = Floors::of_mode(night);
    let (a, got) = worst_accent(t, night, k);
    if !reaches(got, f.accent) {
        let s = if t.accent.is_some() {
            floor_string(pair_string(night, what_str(k), on_str(k)), got, f.accent)
        } else {
            let mut s = String::new();
            push_str(&mut s, mode_str(night));
            push_str(&mut s, ": the built-in ");
            push_str(&mut s, a.name());
            push_str(&mut s, " accent measures ");
            push_fixed2(&mut s, round_hundredths(got));
            push_str(&mut s, " for ");
            push_str(&mut s, what_str(k));
            push_str(&mut s, " on ");
            push_str(&mut s, on_str(k));
            push_str(&mut s, " (needs ");
            push_fixed2(&mut s, f.accent as u64);
            push_str(&mut s, ") \u{2014} give the palette an accent of its own (all six accent keys)");
            s
        };
        push_msg(out, s);
    }
    assert(views(out@) =~= views(old(out)@) + accent_problem(*t, night, k as int));
}

/// Everything one mode fails, checked.
fn mode_checks(t: &Tokens, night: bool, out: &mut Vec<String>)
    ensures
        views(final(out)@) == views(old(out)@) + mode_problems(*t, night),
{
    neutral_floors(t, night, out);
    neutral_order(t, night, out);
    accent_check(t, night, 0, out);
    accent_check(t, night, 1, out);
    accent_check(t, night, 2, out);
    assert(views(out@) =~= views(old(out)@) + mode_problems(*t, night));
}

/// Everything about `t` that would make the UI hard to read, one sentence each. Empty = fine.
///
/// Measured on the colours as they reach the panel, after the night dim. A palette without an
/// accent of its own is checked against every built-in accent, because the picker offers all six.
pub fn problems(t: &Tokens) -> (out: Vec<String>)
    ensures
        views(out@) == problems_of(*t),
{
    let mut out: Vec<String> = Vec::new();
    mode_checks(t, false, &mut out);
    mode_checks(t, true, &mut out);
    assert(views(out@) =~= problems_of(*t));
    out
}


/// Contrast is the same in either order, never below 1:1, and 1:1 exactly for a colour against
/// itself.
pub proof fn lemma_contrast_symmetric(a: Rgb, b: Rgb)
    ensures
        ratio_of(a, b) == ratio_of(b, a),
        ratio_hi(a, b) == ratio_hi(b, a),
        ratio_lo(a, b) == ratio_lo(b, a),
        ratio_hi(a, b) >= ratio_lo(a, b),
        ratio_hi(a, a) == ratio_lo(a, a),
{
}



/// Tokens with nothing hard to read about them clear every neutral floor in both modes, whatever
/// accent is picked: ink, dim and faint on the background, each at its own floor, and ink on the
/// panels at the ink floor (panels carry primary text too).
pub proof fn lemma_readable_tokens_clear_the_neutral_floors(t: Tokens, night: bool, a: Accent)
    requires
        problems_of(t).len() == 0,
    ensures
        meets(ratio_of(theme_of(t, night, a).ink, theme_of(t, night, a).bg), floors(night).ink),
        meets(ratio_of(theme_of(t, night, a).dim, theme_of(t, night, a).bg), floors(night).dim),
        meets(ratio_of(theme_of(t, night, a).faint, theme_of(t, night, a).bg), floors(night).faint),
        meets(ratio_of(theme_of(t, night, a).ink, theme_of(t, night, a).panel), floors(night).ink),
{
    reveal(floor_problems);
    crate::theme::lemma_accent_moves_only_accent_tokens(t, night, a, Accent::Amber);
    assert(mode_problems(t, night).len() == 0);
    assert(neutral_problems(t, night).len() == 0);
    assert(floor_problems(t, night).len() == 0);
}

} // verus!
