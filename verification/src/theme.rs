//! Cinder's design tokens. Two themes, Day and Night, times six accents.
//!
//! The neutrals (bg / panel / line / ink / dim / faint) are the Cinder identity and do not change
//! with the accent. What the user picks is the **accent**: the one saturated colour. Each accent
//! carries its own `row_sel` (the wash behind a highlighted row) and `acc_ink` (what is drawn ON
//! an accent fill), because both are contrast decisions rather than arithmetic.
use vstd::prelude::*;

verus! {

/// A colour as the panel takes it: one byte per channel.
#[derive(Clone, Copy, PartialEq, Eq, Debug, Structural)]
pub struct Rgb {
    pub r: u8,
    pub g: u8,
    pub b: u8,
}

/// Red, green and blue of `0xRRGGBB`.
pub open spec fn rgb_of(hex: u32) -> Rgb {
    Rgb { r: ((hex / 65536) % 256) as u8, g: ((hex / 256) % 256) as u8, b: (hex % 256) as u8 }
}

/// The colour `0xRRGGBB`.
pub fn rgb(hex: u32) -> (c: Rgb)
    ensures
        c == rgb_of(hex),
{
    Rgb { r: ((hex / 65536) % 256) as u8, g: ((hex / 256) % 256) as u8, b: (hex % 256) as u8 }
}

/// One channel scaled toward black by `pct`/100.
pub open spec fn scale_channel(c: u8, pct: u32) -> u8 {
    ((c as int * pct as int) / 100) as u8
}

/// `0xRRGGBB` scaled toward black by `pct`/100, per channel.
pub open spec fn dim_hex(c: u32, pct: u32) -> u32 {
    let r = ((c / 65536) % 256) * pct / 100;
    let g = ((c / 256) % 256) * pct / 100;
    let b = (c % 256) * pct / 100;
    (r * 65536 + g * 256 + b) as u32
}

proof fn lemma_scaled_byte(a: int, pct: int)
    requires
        0 <= a < 256,
        0 <= pct <= 100,
    ensures
        0 <= a * pct <= 25500,
        0 <= a * pct / 100 <= 255,
        a * pct / 100 <= a,
{
    assert(0 <= a * pct <= a * 100) by (nonlinear_arith)
        requires
            0 <= a < 256,
            0 <= pct <= 100,
    ;
}

/// Scale an `0xRRGGBB` toward black by `pct`/100, per channel.
pub fn dim_rgb(c: u32, pct: u32) -> (r: u32)
    requires
        pct <= 100,
    ensures
        r == dim_hex(c, pct),
        rgb_of(r) == (Rgb {
            r: scale_channel(rgb_of(c).r, pct),
            g: scale_channel(rgb_of(c).g, pct),
            b: scale_channel(rgb_of(c).b, pct),
        }),
{
    let cr = (c / 65536) % 256;
    let cg = (c / 256) % 256;
    let cb = c % 256;
    proof {
        lemma_scaled_byte(cr as int, pct as int);
        lemma_scaled_byte(cg as int, pct as int);
        lemma_scaled_byte(cb as int, pct as int);
    }
    let r: u32 = cr * pct / 100;
    let g: u32 = cg * pct / 100;
    let b: u32 = cb * pct / 100;
    let out = r * 65536 + g * 256 + b;
    assert(out / 65536 % 256 == r && out / 256 % 256 == g && out % 256 == b) by (nonlinear_arith)
        requires
            out == r * 65536 + g * 256 + b,
            r <= 255,
            g <= 255,
            b <= 255,
    ;
    out
}

/// The user-selectable accent colour. `Amber` is Cinder's own and the default.
#[derive(Copy, Clone, PartialEq, Eq, Debug, Structural)]
pub enum Accent {
    Amber,
    Crimson,
    Violet,
    Azure,
    Mint,
    Bone,
}

/// One accent's colours: `(acc, acc_ink, row_sel)` for day, then the same three for night.
#[derive(Clone, Copy, PartialEq, Eq, Debug, Structural)]
pub struct AccentTokens {
    pub acc: u32,
    pub acc_ink: u32,
    pub row_sel: u32,
}

/// The built-in accents' colours, as `(day, night)`. Night values are written before the night
/// dim.
pub open spec fn accent_tokens(a: Accent) -> (AccentTokens, AccentTokens) {
    match a {
        Accent::Amber => (
            AccentTokens { acc: 0xf4651f, acc_ink: 0x1a0a02, row_sel: 0x1c1713 },
            AccentTokens { acc: 0x863810, acc_ink: 0x000000, row_sel: 0x0f0c0a },
        ),
        Accent::Crimson => (
            AccentTokens { acc: 0xe0392f, acc_ink: 0x1a0403, row_sel: 0x1c1214 },
            AccentTokens { acc: 0x7a1f1a, acc_ink: 0x000000, row_sel: 0x0f0a0b },
        ),
        Accent::Violet => (
            AccentTokens { acc: 0x9a6ff0, acc_ink: 0x0b0618, row_sel: 0x15141f },
            AccentTokens { acc: 0x553d84, acc_ink: 0x000000, row_sel: 0x0b0a10 },
        ),
        Accent::Azure => (
            AccentTokens { acc: 0x2f8fe0, acc_ink: 0x020a16, row_sel: 0x12161f },
            AccentTokens { acc: 0x1a4e7a, acc_ink: 0x000000, row_sel: 0x0a0b10 },
        ),
        Accent::Mint => (
            AccentTokens { acc: 0x2fc98a, acc_ink: 0x02120c, row_sel: 0x121a17 },
            AccentTokens { acc: 0x1a6e4c, acc_ink: 0x000000, row_sel: 0x0a0e0c },
        ),
        Accent::Bone => (
            AccentTokens { acc: 0xd8d2c8, acc_ink: 0x0d0c0b, row_sel: 0x1a1917 },
            AccentTokens { acc: 0x77736e, acc_ink: 0x000000, row_sel: 0x0e0d0c },
        ),
    }
}

/// The built-in accent's colours, as `(day, night)`.
pub fn builtin_accent(a: Accent) -> (r: (AccentTokens, AccentTokens))
    ensures
        r == accent_tokens(a),
{
    match a {
        Accent::Amber => (
            AccentTokens { acc: 0xf4651f, acc_ink: 0x1a0a02, row_sel: 0x1c1713 },
            AccentTokens { acc: 0x863810, acc_ink: 0x000000, row_sel: 0x0f0c0a },
        ),
        Accent::Crimson => (
            AccentTokens { acc: 0xe0392f, acc_ink: 0x1a0403, row_sel: 0x1c1214 },
            AccentTokens { acc: 0x7a1f1a, acc_ink: 0x000000, row_sel: 0x0f0a0b },
        ),
        Accent::Violet => (
            AccentTokens { acc: 0x9a6ff0, acc_ink: 0x0b0618, row_sel: 0x15141f },
            AccentTokens { acc: 0x553d84, acc_ink: 0x000000, row_sel: 0x0b0a10 },
        ),
        Accent::Azure => (
            AccentTokens { acc: 0x2f8fe0, acc_ink: 0x020a16, row_sel: 0x12161f },
            AccentTokens { acc: 0x1a4e7a, acc_ink: 0x000000, row_sel: 0x0a0b10 },
        ),
        Accent::Mint => (
            AccentTokens { acc: 0x2fc98a, acc_ink: 0x02120c, row_sel: 0x121a17 },
            AccentTokens { acc: 0x1a6e4c, acc_ink: 0x000000, row_sel: 0x0a0e0c },
        ),
        Accent::Bone => (
            AccentTokens { acc: 0xd8d2c8, acc_ink: 0x0d0c0b, row_sel: 0x1a1917 },
            AccentTokens { acc: 0x77736e, acc_ink: 0x000000, row_sel: 0x0e0d0c },
        ),
    }
}

/// Position of an accent in the cycle (and swatch) order.
pub open spec fn accent_index(a: Accent) -> nat {
    match a {
        Accent::Amber => 0,
        Accent::Crimson => 1,
        Accent::Violet => 2,
        Accent::Azure => 3,
        Accent::Mint => 4,
        Accent::Bone => 5,
    }
}

/// The accent at cycle position `i`; anything out of range is the default.
pub open spec fn accent_at(i: int) -> Accent {
    if i == 1 {
        Accent::Crimson
    } else if i == 2 {
        Accent::Violet
    } else if i == 3 {
        Accent::Azure
    } else if i == 4 {
        Accent::Mint
    } else if i == 5 {
        Accent::Bone
    } else {
        Accent::Amber
    }
}

/// Short display name of an accent.
pub open spec fn accent_name(a: Accent) -> Seq<char> {
    match a {
        Accent::Amber => "AMBER"@,
        Accent::Crimson => "CRIMSON"@,
        Accent::Violet => "VIOLET"@,
        Accent::Azure => "AZURE"@,
        Accent::Mint => "MINT"@,
        Accent::Bone => "BONE"@,
    }
}

impl Default for Accent {
    fn default() -> (a: Accent)
        ensures
            a == Accent::Amber,
    {
        Accent::Amber
    }
}

impl Accent {
    /// How many accents there are — the cycle length, and the number of swatches Settings draws.
    pub const COUNT: usize = 6;

    /// All accents in cycle/swatch order.
    pub const ALL: [Accent; 6] = [
        Accent::Amber,
        Accent::Crimson,
        Accent::Violet,
        Accent::Azure,
        Accent::Mint,
        Accent::Bone,
    ];

    /// Index into the cycle. Also what gets persisted.
    pub fn index(self) -> (i: usize)
        ensures
            i == accent_index(self),
    {
        match self {
            Accent::Amber => 0,
            Accent::Crimson => 1,
            Accent::Violet => 2,
            Accent::Azure => 3,
            Accent::Mint => 4,
            Accent::Bone => 5,
        }
    }

    /// From a persisted or hand-edited index. Out of range falls back to the default rather than
    /// failing.
    pub fn from_index(i: usize) -> (a: Accent)
        ensures
            a == accent_at(i as int),
    {
        if i == 1 {
            Accent::Crimson
        } else if i == 2 {
            Accent::Violet
        } else if i == 3 {
            Accent::Azure
        } else if i == 4 {
            Accent::Mint
        } else if i == 5 {
            Accent::Bone
        } else {
            Accent::Amber
        }
    }

    /// Short display name for the Settings row ("AMBER", "MINT", …).
    pub fn name(self) -> (s: &'static str)
        ensures
            s@ == accent_name(self),
    {
        match self {
            Accent::Amber => "AMBER",
            Accent::Crimson => "CRIMSON",
            Accent::Violet => "VIOLET",
            Accent::Azure => "AZURE",
            Accent::Mint => "MINT",
            Accent::Bone => "BONE",
        }
    }

    /// The accent colour itself, in the given theme mode (night's before the night dim, as
    /// Settings paints its swatches).
    pub fn swatch(self, night: bool) -> (c: Rgb)
        ensures
            c == rgb_of(if night { accent_tokens(self).1.acc } else { accent_tokens(self).0.acc }),
    {
        let (d, n) = builtin_accent(self);
        rgb(if night { n.acc } else { d.acc })
    }

    /// Next accent in the cycle (wraps).
    pub fn next(self) -> (a: Accent)
        ensures
            a == accent_at(((accent_index(self) + 1) % 6) as int),
    {
        Self::from_index((self.index() + 1) % Self::COUNT)
    }
}

/// The six neutral colours of one mode.
#[derive(Clone, Copy, PartialEq, Eq, Debug, Structural)]
pub struct Neutrals {
    pub bg: u32,
    pub panel: u32,
    pub line: u32,
    pub ink: u32,
    pub dim: u32,
    pub faint: u32,
}

/// A whole palette's tokens: the neutrals for day and for night (night's before the night dim),
/// and — only when the palette brings one — an accent of its own, `(day, night)`.
#[derive(Clone, Copy, PartialEq, Eq, Debug)]
pub struct Tokens {
    pub day: Neutrals,
    pub night: Neutrals,
    pub accent: Option<(AccentTokens, AccentTokens)>,
}

/// Cinder's own palette.
pub open spec fn cinder() -> Tokens {
    Tokens {
        day: Neutrals {
            bg: 0x0d0c0b,
            panel: 0x13110f,
            line: 0x221f1b,
            ink: 0xece7df,
            dim: 0x95908a,
            faint: 0x5f5a52,
        },
        night: Neutrals {
            bg: 0x000000,
            panel: 0x0a0908,
            line: 0x161310,
            ink: 0x8d8170,
            dim: 0x5b5347,
            faint: 0x3b362d,
        },
        accent: None,
    }
}

/// Cinder's own palette.
pub fn cinder_tokens() -> (t: Tokens)
    ensures
        t == cinder(),
{
    Tokens {
        day: Neutrals {
            bg: 0x0d0c0b,
            panel: 0x13110f,
            line: 0x221f1b,
            ink: 0xece7df,
            dim: 0x95908a,
            faint: 0x5f5a52,
        },
        night: Neutrals {
            bg: 0x000000,
            panel: 0x0a0908,
            line: 0x161310,
            ink: 0x8d8170,
            dim: 0x5b5347,
            faint: 0x3b362d,
        },
        accent: None,
    }
}

/// How much of the night palette's light to keep, as a percentage.
pub const NIGHT_DIM_PCT: u32 = 55;

/// The resolved colours a screen draws with.
#[derive(Clone, Copy, PartialEq, Eq, Debug, Structural)]
pub struct Theme {
    pub bg: Rgb,
    pub panel: Rgb,
    pub line: Rgb,
    pub ink: Rgb,
    pub dim: Rgb,
    pub faint: Rgb,
    pub acc: Rgb,
    pub acc_ink: Rgb,
    /// Fill behind the highlighted list/menu row.
    pub row_sel: Rgb,
    pub night: bool,
    /// Night's extra dimming, as a percentage, 100 = none.
    pub dim_pct: u32,
}

/// The theme a palette resolves to in one mode with one accent. A palette with an accent of its
/// own ignores the picker. Night scales every colour by `NIGHT_DIM_PCT` except `acc_ink`, the
/// dark half of the accent pair.
pub open spec fn theme_of(t: Tokens, night: bool, a: Accent) -> Theme {
    let acc = match t.accent {
        Some(p) => p,
        None => accent_tokens(a),
    };
    if night {
        let d = |c: u32| rgb_of(dim_hex(c, NIGHT_DIM_PCT));
        Theme {
            bg: d(t.night.bg),
            panel: d(t.night.panel),
            line: d(t.night.line),
            ink: d(t.night.ink),
            dim: d(t.night.dim),
            faint: d(t.night.faint),
            acc: d(acc.1.acc),
            acc_ink: rgb_of(acc.1.acc_ink),
            row_sel: d(acc.1.row_sel),
            night: true,
            dim_pct: 100,
        }
    } else {
        Theme {
            bg: rgb_of(t.day.bg),
            panel: rgb_of(t.day.panel),
            line: rgb_of(t.day.line),
            ink: rgb_of(t.day.ink),
            dim: rgb_of(t.day.dim),
            faint: rgb_of(t.day.faint),
            acc: rgb_of(acc.0.acc),
            acc_ink: rgb_of(acc.0.acc_ink),
            row_sel: rgb_of(acc.0.row_sel),
            night: false,
            dim_pct: 100,
        }
    }
}

impl Tokens {
    /// The theme these tokens give in one mode with one accent.
    pub fn theme(&self, night: bool, a: Accent) -> (th: Theme)
        ensures
            th == theme_of(*self, night, a),
    {
        let acc = match self.accent {
            Some(p) => p,
            None => builtin_accent(a),
        };
        if night {
            let n = self.night;
            Theme {
                bg: rgb(dim_rgb(n.bg, NIGHT_DIM_PCT)),
                panel: rgb(dim_rgb(n.panel, NIGHT_DIM_PCT)),
                line: rgb(dim_rgb(n.line, NIGHT_DIM_PCT)),
                ink: rgb(dim_rgb(n.ink, NIGHT_DIM_PCT)),
                dim: rgb(dim_rgb(n.dim, NIGHT_DIM_PCT)),
                faint: rgb(dim_rgb(n.faint, NIGHT_DIM_PCT)),
                acc: rgb(dim_rgb(acc.1.acc, NIGHT_DIM_PCT)),
                acc_ink: rgb(acc.1.acc_ink),
                row_sel: rgb(dim_rgb(acc.1.row_sel, NIGHT_DIM_PCT)),
                night: true,
                dim_pct: 100,
            }
        } else {
            let d = self.day;
            Theme {
                bg: rgb(d.bg),
                panel: rgb(d.panel),
                line: rgb(d.line),
                ink: rgb(d.ink),
                dim: rgb(d.dim),
                faint: rgb(d.faint),
                acc: rgb(acc.0.acc),
                acc_ink: rgb(acc.0.acc_ink),
                row_sel: rgb(acc.0.row_sel),
                night: false,
                dim_pct: 100,
            }
        }
    }
}

/// One colour scaled toward black by `pct`/100.
pub open spec fn scale_rgb(c: Rgb, pct: u32) -> Rgb {
    Rgb { r: scale_channel(c.r, pct), g: scale_channel(c.g, pct), b: scale_channel(c.b, pct) }
}

fn scale_one(c: Rgb, pct: u32) -> (r: Rgb)
    requires
        pct < 100,
    ensures
        r == scale_rgb(c, pct),
{
    proof {
        lemma_scaled_byte(c.r as int, pct as int);
        lemma_scaled_byte(c.g as int, pct as int);
        lemma_scaled_byte(c.b as int, pct as int);
    }
    Rgb {
        r: ((c.r as u32) * pct / 100) as u8,
        g: ((c.g as u32) * pct / 100) as u8,
        b: ((c.b as u32) * pct / 100) as u8,
    }
}

impl Theme {
    /// Day palette with Cinder's own amber.
    pub fn day() -> (t: Theme)
        ensures
            t == theme_of(cinder(), false, Accent::Amber),
    {
        Self::day_with(Accent::Amber)
    }

    /// Night palette with Cinder's own amber.
    pub fn night() -> (t: Theme)
        ensures
            t == theme_of(cinder(), true, Accent::Amber),
    {
        Self::night_with(Accent::Amber)
    }

    /// Cinder's day palette with accent `a`.
    pub fn day_with(a: Accent) -> (t: Theme)
        ensures
            t == theme_of(cinder(), false, a),
    {
        cinder_tokens().theme(false, a)
    }

    /// Cinder's night palette with accent `a`.
    pub fn night_with(a: Accent) -> (t: Theme)
        ensures
            t == theme_of(cinder(), true, a),
    {
        cinder_tokens().theme(true, a)
    }

    /// The theme for a (mode, accent) pair — what the navigator actually calls.
    pub fn for_mode(night: bool, a: Accent) -> (t: Theme)
        ensures
            t == theme_of(cinder(), night, a),
    {
        if night {
            Self::night_with(a)
        } else {
            Self::day_with(a)
        }
    }

    /// How far the night palette is scaled toward black for each brightness level, 1..=5.
    pub const NIGHT_LEVEL_PCT: [u32; 5] = [22, 34, 52, 74, 100];

    /// Scale the whole palette toward black by `pct`/100. The background and the mode flag are
    /// left alone; `dim_pct` records the scale for colours the palette did not supply.
    pub fn scaled(self, pct: u32) -> (t: Theme)
        ensures
            pct >= 100 ==> t == self,
            pct < 100 ==> t == (Theme {
                bg: self.bg,
                panel: scale_rgb(self.panel, pct),
                line: scale_rgb(self.line, pct),
                ink: scale_rgb(self.ink, pct),
                dim: scale_rgb(self.dim, pct),
                faint: scale_rgb(self.faint, pct),
                acc: scale_rgb(self.acc, pct),
                acc_ink: scale_rgb(self.acc_ink, pct),
                row_sel: scale_rgb(self.row_sel, pct),
                night: self.night,
                dim_pct: pct,
            }),
    {
        if pct >= 100 {
            return self;
        }
        Theme {
            bg: self.bg,
            panel: scale_one(self.panel, pct),
            line: scale_one(self.line, pct),
            ink: scale_one(self.ink, pct),
            dim: scale_one(self.dim, pct),
            faint: scale_one(self.faint, pct),
            acc: scale_one(self.acc, pct),
            acc_ink: scale_one(self.acc_ink, pct),
            row_sel: scale_one(self.row_sel, pct),
            night: self.night,
            dim_pct: pct,
        }
    }

    /// Apply the night dim to a colour the palette did not provide (album art, an accent swatch,
    /// anything raw). No-op at full brightness.
    pub fn scale_color(&self, c: Rgb) -> (r: Rgb)
        ensures
            self.dim_pct >= 100 ==> r == c,
            self.dim_pct < 100 ==> r == scale_rgb(c, self.dim_pct),
    {
        if self.dim_pct >= 100 {
            return c;
        }
        scale_one(c, self.dim_pct)
    }
}


// ── Laws ────────────────────────────────────────────────────────────────────────────────────────

/// The persisted index round-trips: an accent's index names that accent, and every index in the
/// cycle is the index of the accent it names.
pub proof fn lemma_accent_index_round_trip(a: Accent, i: int)
    ensures
        accent_at(accent_index(a) as int) == a,
        0 <= i < 6 ==> accent_index(accent_at(i)) == i,
        !(0 <= i < 6) ==> accent_at(i) == Accent::Amber,
{
}

/// Cycling visits all six accents and comes home: six steps return to the start, and no fewer
/// do.
pub proof fn lemma_accent_cycle(a: Accent)
    ensures
        ({
            let n1 = accent_at(((accent_index(a) + 1) % 6) as int);
            let n2 = accent_at(((accent_index(n1) + 1) % 6) as int);
            let n3 = accent_at(((accent_index(n2) + 1) % 6) as int);
            let n4 = accent_at(((accent_index(n3) + 1) % 6) as int);
            let n5 = accent_at(((accent_index(n4) + 1) % 6) as int);
            let n6 = accent_at(((accent_index(n5) + 1) % 6) as int);
            &&& n6 == a
            &&& n1 != a && n2 != a && n3 != a && n4 != a && n5 != a
        }),
{
}

/// Neutrals are the identity: choosing another accent moves only the accent tokens.
pub proof fn lemma_accent_moves_only_accent_tokens(t: Tokens, night: bool, a: Accent, b: Accent)
    ensures
        theme_of(t, night, a).bg == theme_of(t, night, b).bg,
        theme_of(t, night, a).panel == theme_of(t, night, b).panel,
        theme_of(t, night, a).line == theme_of(t, night, b).line,
        theme_of(t, night, a).ink == theme_of(t, night, b).ink,
        theme_of(t, night, a).dim == theme_of(t, night, b).dim,
        theme_of(t, night, a).faint == theme_of(t, night, b).faint,
        theme_of(t, night, a).night == night,
{
}

/// A palette with an accent of its own ignores the picker.
pub proof fn lemma_pinned_accent_ignores_picker(t: Tokens, night: bool, a: Accent)
    requires
        t.accent is Some,
    ensures
        theme_of(t, night, a) == theme_of(t, night, Accent::Amber),
{
}

/// Dimming is monotone: a smaller percentage never gives a brighter channel, and a channel
/// brighter than another stays at least as bright after both are scaled by the same amount —
/// so the palette's ordering (ink over dim over faint) survives every rung of the night ladder.
pub proof fn lemma_scale_is_monotone(c: u8, d: u8, p: u32, q: u32)
    requires
        p <= q <= 100,
    ensures
        scale_channel(c, p) <= scale_channel(c, q),
        d <= c ==> scale_channel(d, p) <= scale_channel(c, p),
        scale_channel(c, p) <= c,
{
    lemma_scaled_byte(c as int, p as int);
    lemma_scaled_byte(c as int, q as int);
    lemma_scaled_byte(d as int, p as int);
    assert(c as int * p as int <= c as int * q as int) by (nonlinear_arith)
        requires
            p <= q,
    ;
    vstd::arithmetic::div_mod::lemma_div_is_ordered(c as int * p as int, c as int * q as int, 100);
    if d <= c {
        assert(d as int * p as int <= c as int * p as int) by (nonlinear_arith)
            requires
                d <= c,
        ;
        vstd::arithmetic::div_mod::lemma_div_is_ordered(d as int * p as int, c as int * p as int, 100);
    }
}

} // verus!
