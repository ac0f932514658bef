//! Palettes: Cinder's colours as a text file instead of compiled-in constants.
//!
//! A palette is the six neutral colours for day and for night, plus — only if it needs one — an
//! accent of its own. One `key = value` per line, `#` starts a comment, every key is optional and
//! falls back to Cinder's own value:
//!
//! ```text
//! name      = Slate
//! day.bg    = #0e1116
//! night.ink = #8a93a0
//! ```
//!
//! Night values are written before the night dim, the way the built-in ones are. A palette that
//! would be hard to read is refused, with the reasons, instead of loaded.
use vstd::prelude::*;
use vstd::string::*;
use crate::strings::{chars_of, slice_chars};
use crate::theme::{AccentTokens, Neutrals, Tokens, cinder, cinder_tokens};
use crate::legibility::{problems_of, views, push_msg};
pub use crate::legibility::{contrast, luminance, problems, Floors};
use crate::strings::{dec, push_dec, push_str, push_chars, chars_eq, same_chars, string_of, owned};

verus! {

/// The built-in palette's id — what the settings file stores when no palette file is chosen.
pub const BUILTIN_ID: &'static str = "cinder";
/// The built-in palette's name on the Settings row.
pub const BUILTIN_NAME: &'static str = "Cinder";
/// The folder palettes are read from, next to the settings file.
pub const DIR_NAME: &'static str = "cinder_palettes";
/// File extension, compared ASCII-case-insensitively.
pub const EXTENSION: &'static str = "palette";
/// A palette is a few hundred bytes. Anything past this is not one.
pub const MAX_BYTES: u64 = 16 * 1024;
/// How many palettes load.
pub const MAX_FILES: usize = 32;
/// Longest display name, in characters.
pub const MAX_NAME: usize = 16;
/// Longest id (the file name without `.palette`).
pub const MAX_ID: usize = 32;

/// The neutral keys, in `Neutrals` field order. Each is written `day.<key>` and `night.<key>`.
pub const NEUTRAL_KEYS: [&'static str; 6] = ["bg", "panel", "line", "ink", "dim", "faint"];
/// The six accent keys: all of them, or none.
pub const ACCENT_KEYS: [&'static str; 6] = [
    "day.accent",
    "day.accent_ink",
    "day.row_select",
    "night.accent",
    "night.accent_ink",
    "night.row_select",
];

/// The `i`-th neutral key.
pub open spec fn neutral_key(i: int) -> Seq<char> {
    if i == 0 { "bg"@ }
    else if i == 1 { "panel"@ }
    else if i == 2 { "line"@ }
    else if i == 3 { "ink"@ }
    else if i == 4 { "dim"@ }
    else { "faint"@ }
}

/// The `i`-th accent key.
pub open spec fn accent_key(i: int) -> Seq<char> {
    if i == 0 { "day.accent"@ }
    else if i == 1 { "day.accent_ink"@ }
    else if i == 2 { "day.row_select"@ }
    else if i == 3 { "night.accent"@ }
    else if i == 4 { "night.accent_ink"@ }
    else { "night.row_select"@ }
}

fn neutral_key_str(i: usize) -> (s: &'static str)
    requires
        i < 6,
    ensures
        s@ == neutral_key(i as int),
{
    if i == 0 { "bg" }
    else if i == 1 { "panel" }
    else if i == 2 { "line" }
    else if i == 3 { "ink" }
    else if i == 4 { "dim" }
    else { "faint" }
}

fn accent_key_str(i: usize) -> (s: &'static str)
    requires
        i < 6,
    ensures
        s@ == accent_key(i as int),
{
    if i == 0 { "day.accent" }
    else if i == 1 { "day.accent_ink" }
    else if i == 2 { "day.row_select" }
    else if i == 3 { "night.accent" }
    else if i == 4 { "night.accent_ink" }
    else { "night.row_select" }
}

// ── Characters ──────────────────────────────────────────────────────────────────────────────

/// Unicode White_Space, as `char::is_whitespace` has it.
pub open spec fn is_ws(c: char) -> bool {
    let u = c as u32;
    (9 <= u <= 13) || u == 32 || u == 0x85 || u == 0xa0 || u == 0x1680 || (0x2000 <= u <= 0x200a)
        || u == 0x2028 || u == 0x2029 || u == 0x202f || u == 0x205f || u == 0x3000
}

/// Unicode general category Cc, as `char::is_control` has it.
pub open spec fn is_control(c: char) -> bool {
    let u = c as u32;
    u <= 0x1f || (0x7f <= u <= 0x9f)
}

/// An ASCII hexadecimal digit.
pub open spec fn is_hex(c: char) -> bool {
    ('0' <= c <= '9') || ('a' <= c <= 'f') || ('A' <= c <= 'F')
}

/// The value of an ASCII hexadecimal digit.
pub open spec fn hex_digit(c: char) -> int {
    if '0' <= c <= '9' {
        c as u32 - '0' as u32
    } else if 'a' <= c <= 'f' {
        c as u32 - 'a' as u32 + 10
    } else {
        c as u32 - 'A' as u32 + 10
    }
}

/// The value of a run of hexadecimal digits.
pub open spec fn hex_value(s: Seq<char>) -> int
    decreases s.len(),
{
    if s.len() == 0 { 0 } else { hex_value(s.drop_last()) * 16 + hex_digit(s.last()) }
}

/// ASCII lowercase of one character; anything else is unchanged.
pub open spec fn ascii_lower(c: char) -> char {
    if 'A' <= c <= 'Z' { ((c as u32) + 32) as char } else { c }
}

/// `s` with leading whitespace removed.
pub open spec fn trim_start(s: Seq<char>) -> Seq<char>
    decreases s.len(),
{
    if s.len() > 0 && is_ws(s[0]) { trim_start(s.drop_first()) } else { s }
}

/// `s` with trailing whitespace removed.
pub open spec fn trim_end(s: Seq<char>) -> Seq<char>
    decreases s.len(),
{
    if s.len() > 0 && is_ws(s.last()) { trim_end(s.drop_last()) } else { s }
}

/// `s` with whitespace removed from both ends.
pub open spec fn trim(s: Seq<char>) -> Seq<char> {
    trim_end(trim_start(s))
}

fn is_ws_char(c: char) -> (b: bool)
    ensures
        b == is_ws(c),
{
    let u = c as u32;
    (9 <= u && u <= 13) || u == 32 || u == 0x85 || u == 0xa0 || u == 0x1680 || (0x2000 <= u && u
        <= 0x200a) || u == 0x2028 || u == 0x2029 || u == 0x202f || u == 0x205f || u == 0x3000
}

fn is_control_char(c: char) -> (b: bool)
    ensures
        b == is_control(c),
{
    let u = c as u32;
    u <= 0x1f || (0x7f <= u && u <= 0x9f)
}

fn is_hex_char(c: char) -> (b: bool)
    ensures
        b == is_hex(c),
{
    ('0' <= c && c <= '9') || ('a' <= c && c <= 'f') || ('A' <= c && c <= 'F')
}

fn lower_char(c: char) -> (r: char)
    ensures
        r == ascii_lower(c),
{
    if 'A' <= c && c <= 'Z' {
        let u = c as u32 + 32;
        assert(0x61 <= u <= 0x7a);
        u as u8 as char
    } else {
        c
    }
}

/// The bounds `[a, b)` of `v[lo..hi]` with whitespace trimmed from both ends.
pub(crate) fn trim_range(v: &[char], lo: usize, hi: usize) -> (r: (usize, usize))
    requires
        lo <= hi <= v@.len(),
    ensures
        lo <= r.0 <= r.1 <= hi,
        v@.subrange(r.0 as int, r.1 as int) == trim(v@.subrange(lo as int, hi as int)),
{
    let mut a = lo;
    while a < hi && is_ws_char(v[a])
        invariant
            lo <= a <= hi <= v@.len(),
            trim_start(v@.subrange(lo as int, hi as int)) == trim_start(v@.subrange(a as int, hi as int)),
        decreases hi - a,
    {
        assert(v@.subrange(a as int, hi as int).drop_first() =~= v@.subrange(a + 1, hi as int));
        a += 1;
    }
    assert(trim_start(v@.subrange(a as int, hi as int)) == v@.subrange(a as int, hi as int));
    let mut b = hi;
    while b > a && is_ws_char(v[b - 1])
        invariant
            lo <= a <= b <= hi <= v@.len(),
            trim(v@.subrange(lo as int, hi as int)) == trim_end(v@.subrange(a as int, b as int)),
        decreases b - a,
    {
        assert(v@.subrange(a as int, b as int).drop_last() =~= v@.subrange(a as int, b - 1));
        b -= 1;
    }
    (a, b)
}

/// The value of a run of hexadecimal digits, computed.
fn hex_of(v: &[char]) -> (n: u32)
    requires
        v@.len() == 6,
        forall|i: int| 0 <= i < 6 ==> is_hex(#[trigger] v@[i]),
    ensures
        n == hex_value(v@),
        n <= 0xffffff,
{
    let mut n: u32 = 0;
    let mut i: usize = 0;
    while i < 6
        invariant
            v@.len() == 6,
            forall|j: int| 0 <= j < 6 ==> is_hex(#[trigger] v@[j]),
            i <= 6,
            n == hex_value(v@.subrange(0, i as int)),
            n < pow16(i as nat),
            pow16(i as nat) <= 0x1000000,
        decreases 6 - i,
    {
        let c = v[i];
        let d: u32 = if '0' <= c && c <= '9' {
            c as u32 - '0' as u32
        } else if 'a' <= c && c <= 'f' {
            c as u32 - 'a' as u32 + 10
        } else {
            c as u32 - 'A' as u32 + 10
        };
        assert(v@.subrange(0, i + 1).drop_last() =~= v@.subrange(0, i as int));
        proof { lemma_pow16_step(i as nat); }
        n = n * 16 + d;
        i += 1;
    }
    assert(v@.subrange(0, 6) =~= v@);
    n
}

proof fn lemma_pow16_step(i: nat)
    requires
        i < 6,
    ensures
        pow16(i + 1) == 16 * pow16(i),
        pow16(i + 1) <= 0x1000000,
{
    assert(pow16(0) == 1);
    assert(pow16(1) == 16);
    assert(pow16(2) == 256);
    assert(pow16(3) == 4096);
    assert(pow16(4) == 65536);
    assert(pow16(5) == 1048576);
    assert(pow16(6) == 16777216);
}

/// 16 to the power `i`.
pub open spec fn pow16(i: nat) -> int
    decreases i,
{
    if i == 0 { 1 } else { 16 * pow16((i - 1) as nat) }
}

// ── Values ──────────────────────────────────────────────────────────────────────────────────

/// The digits of a colour value: the value without one leading `#`.
pub open spec fn hex_part(v: Seq<char>) -> Seq<char> {
    if v.len() > 0 && v[0] == '#' { v.drop_first() } else { v }
}

/// Every character of `s` is a hexadecimal digit.
pub open spec fn all_hex(s: Seq<char>) -> bool {
    forall|i: int| 0 <= i < s.len() ==> is_hex(#[trigger] s[i])
}

/// `#1a2b3c` or `1a2b3c`, and nothing else.
pub open spec fn colour_of(v: Seq<char>) -> Option<u32> {
    if hex_part(v).len() == 6 && all_hex(hex_part(v)) {
        Some(hex_value(hex_part(v)) as u32)
    } else {
        None
    }
}

/// `#1a2b3c` or `1a2b3c`, and nothing else. A palette is read by people as often as by the
/// player, and one spelling reads more easily than four.
pub fn parse_colour(v: &str) -> (r: Option<u32>)
    ensures
        r == colour_of(v@),
{
    let c = chars_of(v);
    parse_colour_chars(&c)
}

fn parse_colour_chars(v: &[char]) -> (r: Option<u32>)
    ensures
        r == colour_of(v@),
{
    let start: usize = if v.len() > 0 && v[0] == '#' { 1 } else { 0 };
    let hex = slice_chars(v, start, v.len());
    assert(hex@ == hex_part(v@));
    if hex.len() != 6 {
        return None;
    }
    let mut i: usize = 0;
    while i < 6
        invariant
            hex@ == hex_part(v@),
            hex@.len() == 6,
            i <= 6,
            forall|j: int| 0 <= j < i ==> is_hex(#[trigger] hex@[j]),
        decreases 6 - i,
    {
        if !is_hex_char(hex[i]) {
            assert(!is_hex(hex@[i as int]));
            assert(!all_hex(hex@));
            return None;
        }
        i += 1;
    }
    Some(hex_of(&hex))
}

/// A usable palette id: 1 to `MAX_ID` lowercase letters, digits, `-` and `_`.
pub open spec fn id_ok(id: Seq<char>) -> bool {
    &&& 0 < id.len() <= MAX_ID
    &&& forall|i: int|
        0 <= i < id.len() ==> ('a' <= #[trigger] id[i] <= 'z') || ('0' <= id[i] <= '9') || id[i]
            == '-' || id[i] == '_'
}

fn id_char(c: char) -> (b: bool)
    ensures
        b == (('a' <= c <= 'z') || ('0' <= c <= '9') || c == '-' || c == '_'),
{
    ('a' <= c && c <= 'z') || ('0' <= c && c <= '9') || c == '-' || c == '_'
}

/// Is `id` a usable palette id?
pub fn valid_id(id: &str) -> (b: bool)
    ensures
        b == id_ok(id@),
{
    let v = chars_of(id);
    if v.len() == 0 || v.len() > MAX_ID {
        return false;
    }
    let mut i: usize = 0;
    while i < v.len()
        invariant
            v@ == id@,
            0 < v@.len() <= MAX_ID,
            i <= v@.len(),
            forall|j: int|
                0 <= j < i ==> ('a' <= #[trigger] v@[j] <= 'z') || ('0' <= v@[j] <= '9') || v@[j]
                    == '-' || v@[j] == '_',
        decreases v.len() - i,
    {
        if !id_char(v[i]) {
            assert(!(('a' <= v@[i as int] <= 'z') || ('0' <= v@[i as int] <= '9') || v@[i as int] == '-' || v@[i as int] == '_'));
            return false;
        }
        i += 1;
    }
    true
}

/// The last position of `c` in `s`, if any.
pub open spec fn last_index_of(s: Seq<char>, c: char) -> Option<int>
    decreases s.len(),
{
    if s.len() == 0 {
        None
    } else if s.last() == c {
        Some(s.len() - 1)
    } else {
        last_index_of(s.drop_last(), c)
    }
}

/// The first position of `c` in `s`, if any.
pub open spec fn first_index_of(s: Seq<char>, c: char) -> Option<int>
    decreases s.len(),
{
    if s.len() == 0 {
        None
    } else if s[0] == c {
        Some(0)
    } else {
        match first_index_of(s.drop_first(), c) {
            Some(i) => Some(i + 1),
            None => None,
        }
    }
}

proof fn lemma_last_index(s: Seq<char>, c: char, i: int)
    requires
        0 <= i < s.len(),
        s[i] == c,
        forall|j: int| i < j < s.len() ==> s[j] != c,
    ensures
        last_index_of(s, c) == Some(i),
    decreases s.len(),
{
    if i < s.len() - 1 {
        lemma_last_index(s.drop_last(), c, i);
    }
}

proof fn lemma_no_last_index(s: Seq<char>, c: char)
    requires
        forall|j: int| 0 <= j < s.len() ==> s[j] != c,
    ensures
        last_index_of(s, c) is None,
    decreases s.len(),
{
    if s.len() > 0 {
        lemma_no_last_index(s.drop_last(), c);
    }
}

/// `first_index_of` finds the first `c`: at `i` when everything before `i` differs from it.
pub proof fn lemma_first_index(s: Seq<char>, c: char, i: int)
    requires
        0 <= i <= s.len(),
        i < s.len() ==> s[i] == c,
        forall|j: int| 0 <= j < i ==> s[j] != c,
    ensures
        first_index_of(s, c) == if i < s.len() { Some(i) } else { None },
    decreases s.len(),
{
    if s.len() > 0 && i > 0 {
        lemma_first_index(s.drop_first(), c, i - 1);
    }
}

/// Where the last `c` of `v` is, computed.
fn find_last(v: &[char], c: char) -> (r: Option<usize>)
    ensures
        r matches Some(i) ==> i < v@.len() && last_index_of(v@, c) == Some(i as int),
        r is None ==> last_index_of(v@, c) is None,
{
    let mut i = v.len();
    while i > 0
        invariant
            i <= v@.len(),
            forall|j: int| i <= j < v@.len() ==> v@[j] != c,
        decreases i,
    {
        if v[i - 1] == c {
            proof { lemma_last_index(v@, c, i - 1); }
            return Some(i - 1);
        }
        i -= 1;
    }
    proof { lemma_no_last_index(v@, c); }
    None
}

/// Where the first `c` of `v[lo..hi]` is (relative to `lo`), computed.
pub(crate) fn find_first(v: &[char], lo: usize, hi: usize, c: char) -> (r: Option<usize>)
    requires
        lo <= hi <= v@.len(),
    ensures
        r matches Some(i) ==> first_index_of(v@.subrange(lo as int, hi as int), c) == Some(i as int) && i < hi - lo,
        r is None ==> first_index_of(v@.subrange(lo as int, hi as int), c) is None,
{
    let mut i = lo;
    while i < hi
        invariant
            lo <= i <= hi <= v@.len(),
            forall|j: int| lo <= j < i ==> v@[j] != c,
        decreases hi - i,
    {
        if v[i] == c {
            proof { lemma_first_index(v@.subrange(lo as int, hi as int), c, i - lo); }
            return Some(i - lo);
        }
        i += 1;
    }
    proof { lemma_first_index(v@.subrange(lo as int, hi as int), c, hi - lo); }
    None
}

/// `slate.palette` → `slate`: the part before the last `.`, when what follows it is the
/// extension in any ASCII case. Hidden files (a leading `.`) are not palettes.
pub open spec fn stem_of(s: Seq<char>) -> Option<Seq<char>> {
    match last_index_of(s, '.') {
        Some(d) => {
            let stem = s.take(d);
            let ext = s.skip(d + 1);
            if ext.len() == 7 && (forall|i: int| 0 <= i < 7 ==> ascii_lower(#[trigger] ext[i]) == EXTENSION@[i])
                && stem.len() > 0 && stem[0] != '.' {
                Some(stem)
            } else {
                None
            }
        },
        None => None,
    }
}

/// `slate.palette` → `slate`.
pub fn palette_stem(file: &str) -> (r: Option<&str>)
    ensures
        r matches Some(s) ==> stem_of(file@) == Some(s@),
        r is None ==> stem_of(file@) is None,
{
    let v = chars_of(file);
    let found = find_last(&v, '.');
    if found.is_none() {
        return None;
    }
    let d = found.unwrap();
    let len = v.len();
    let ext = slice_chars(&v, d + 1, len);
    assert(ext@ == v@.skip(d + 1));
    let n = ext.len();
    if n != 7 {
        return None;
    }
    proof { reveal_strlit("palette"); }
    let mut i: usize = 0;
    while i < 7
        invariant
            v@ == file@,
            d < v@.len(),
            last_index_of(v@, '.') == Some(d as int),
            ext@ == v@.skip(d + 1),
            ext@.len() == 7,
            i <= 7,
            EXTENSION@.len() == 7,
            forall|j: int| 0 <= j < i ==> ascii_lower(#[trigger] ext@[j]) == EXTENSION@[j],
        decreases 7 - i,
    {
        if lower_char(ext[i]) != EXTENSION.get_char(i) {
            assert(ascii_lower(ext@[i as int]) != EXTENSION@[i as int]);
            return None;
        }
        i += 1;
    }
    if d == 0 || v[0] == '.' {
        return None;
    }
    assert(v@.take(d as int)[0] == v@[0]);
    Some(file.substring_char(0, d))
}


/// Where `first_index_of` points: a `c`, with none before it.
pub proof fn lemma_first_index_props(s: Seq<char>, c: char)
    ensures
        first_index_of(s, c) matches Some(i) ==> 0 <= i < s.len() && s[i] == c && forall|j: int|
            0 <= j < i ==> s[j] != c,
    decreases s.len(),
{
    if s.len() > 0 && s[0] != c {
        lemma_first_index_props(s.drop_first(), c);
        if let Some(i) = first_index_of(s.drop_first(), c) {
            assert forall|j: int| 0 <= j < i + 1 implies s[j] != c by {
                if j > 0 {
                    assert(s[j] == s.drop_first()[j - 1]);
                }
            }
        }
    }
}

// ── Keys ────────────────────────────────────────────────────────────────────────────────────

/// Where a key's colour goes.
#[derive(Clone, Copy, PartialEq, Eq, Debug, Structural)]
pub enum Slot {
    /// A neutral of day or night, by its index in `NEUTRAL_KEYS`.
    Neutral { night: bool, field: usize },
    /// One of the six accent keys, by its index in `ACCENT_KEYS`.
    Accent(usize),
}

/// The index of the accent key `k`, if it is one.
pub open spec fn accent_slot(k: Seq<char>) -> Option<usize> {
    if k == accent_key(0) { Some(0) }
    else if k == accent_key(1) { Some(1) }
    else if k == accent_key(2) { Some(2) }
    else if k == accent_key(3) { Some(3) }
    else if k == accent_key(4) { Some(4) }
    else if k == accent_key(5) { Some(5) }
    else { None }
}

/// The index of the neutral key `f`, if it is one.
pub open spec fn neutral_slot(f: Seq<char>) -> Option<usize> {
    if f == neutral_key(0) { Some(0) }
    else if f == neutral_key(1) { Some(1) }
    else if f == neutral_key(2) { Some(2) }
    else if f == neutral_key(3) { Some(3) }
    else if f == neutral_key(4) { Some(4) }
    else if f == neutral_key(5) { Some(5) }
    else { None }
}

/// Where the key `k` puts its colour: an accent key, or `day.` / `night.` and a neutral key,
/// split at the first `.`.
pub open spec fn slot_of(k: Seq<char>) -> Option<Slot> {
    match accent_slot(k) {
        Some(i) => Some(Slot::Accent(i)),
        None => match first_index_of(k, '.') {
            None => None,
            Some(d) => {
                let mode = k.take(d);
                let field = k.skip(d + 1);
                match neutral_slot(field) {
                    Some(f) => if mode == "day"@ {
                        Some(Slot::Neutral { night: false, field: f })
                    } else if mode == "night"@ {
                        Some(Slot::Neutral { night: true, field: f })
                    } else {
                        None
                    },
                    None => None,
                }
            },
        },
    }
}

fn key_is(v: &[char], i: usize, keys_accent: bool) -> (b: bool)
    requires
        i < 6,
    ensures
        b == (v@ == if keys_accent { accent_key(i as int) } else { neutral_key(i as int) }),
{
    if keys_accent {
        chars_eq(v, accent_key_str(i))
    } else {
        chars_eq(v, neutral_key_str(i))
    }
}

fn find_key(v: &[char], keys_accent: bool) -> (r: Option<usize>)
    ensures
        r == if keys_accent { accent_slot(v@) } else { neutral_slot(v@) },
{
    let mut i: usize = 0;
    while i < 6
        invariant
            i <= 6,
            forall|j: int| 0 <= j < i ==> v@ != (if keys_accent { accent_key(j) } else { neutral_key(j) }),
        decreases 6 - i,
    {
        if key_is(v, i, keys_accent) {
            return Some(i);
        }
        i += 1;
    }
    None
}

/// Where the key `k` puts its colour.
fn key_slot(k: &[char]) -> (r: Option<Slot>)
    ensures
        r == slot_of(k@),
{
    if let Some(i) = find_key(k, true) {
        return Some(Slot::Accent(i));
    }
    let n = k.len();
    let d = match find_first(k, 0, n, '.') {
        Some(d) => d,
        None => {
            assert(k@.subrange(0, n as int) =~= k@);
            return None;
        },
    };
    assert(k@.subrange(0, n as int) =~= k@);
    let mode = slice_chars(k, 0, d);
    let field = slice_chars(k, d + 1, n);
    assert(mode@ =~= k@.take(d as int));
    assert(field@ =~= k@.skip(d + 1));
    match find_key(&field, false) {
        Some(f) => if chars_eq(&mode, "day") {
            Some(Slot::Neutral { night: false, field: f })
        } else if chars_eq(&mode, "night") {
            Some(Slot::Neutral { night: true, field: f })
        } else {
            None
        },
        None => None,
    }
}

/// `n` with the neutral at index `field` set to `c`.
pub open spec fn with_neutral(n: Neutrals, field: usize, c: u32) -> Neutrals {
    if field == 0 { Neutrals { bg: c, ..n } }
    else if field == 1 { Neutrals { panel: c, ..n } }
    else if field == 2 { Neutrals { line: c, ..n } }
    else if field == 3 { Neutrals { ink: c, ..n } }
    else if field == 4 { Neutrals { dim: c, ..n } }
    else { Neutrals { faint: c, ..n } }
}

fn set_neutral(n: &mut Neutrals, field: usize, c: u32)
    ensures
        *final(n) == with_neutral(*old(n), field, c),
{
    if field == 0 { n.bg = c; }
    else if field == 1 { n.panel = c; }
    else if field == 2 { n.line = c; }
    else if field == 3 { n.ink = c; }
    else if field == 4 { n.dim = c; }
    else { n.faint = c; }
}


// ── Reading a file ──────────────────────────────────────────────────────────────────────────

/// Where reading a palette file has got to: the tokens so far (Cinder's until a key says
/// otherwise), the name if one was given, the keys seen, the six accent keys' values, and the
/// problems found.
pub struct Reading {
    pub tokens: Tokens,
    pub name: Option<Seq<char>>,
    pub seen: Seq<Seq<char>>,
    pub accent: Seq<Option<u32>>,
    pub errs: Seq<Seq<char>>,
}

/// `st` with one more problem.
pub open spec fn with_err(st: Reading, m: Seq<char>) -> Reading {
    Reading { errs: st.errs.push(m), ..st }
}

/// `line 3: `
pub open spec fn line_text(n: nat) -> Seq<char> {
    "line "@ + dec(n) + ": "@
}

/// A line that is not `key = value`.
pub open spec fn expected_text(n: nat) -> Seq<char> {
    line_text(n) + "expected `key = value`"@
}

/// A key given twice.
pub open spec fn twice_text(n: nat, k: Seq<char>) -> Seq<char> {
    line_text(n) + "`"@ + k + "` is set twice"@
}

/// A name that is empty, too long or holds control characters.
pub open spec fn name_text(n: nat) -> Seq<char> {
    line_text(n) + "`name` must be 1 to 16 characters"@
}

/// A key that is not one.
pub open spec fn unknown_text(n: nat, k: Seq<char>) -> Seq<char> {
    line_text(n) + "unknown key `"@ + k + "`"@
}

/// A value that is not a colour.
pub open spec fn wants_text(n: nat, k: Seq<char>, v: Seq<char>) -> Seq<char> {
    line_text(n) + "`"@ + k + "` wants a colour like #1a2b3c, got `"@ + v + "`"@
}

/// A usable display name: 1 to `MAX_NAME` characters, none of them a control character.
pub open spec fn name_ok(v: Seq<char>) -> bool {
    0 < v.len() <= MAX_NAME && forall|i: int| 0 <= i < v.len() ==> !is_control(#[trigger] v[i])
}

/// The key `k` with the value `v`, on line `n`, read into `st`. Checked in this order: a key
/// already seen, then `name`, then an unknown key, then a value that is not a colour. A key
/// counts as seen from its first line on, whatever that line's fate.
#[verifier::opaque]
pub open spec fn read_entry(st: Reading, n: nat, k: Seq<char>, v: Seq<char>) -> Reading {
    if st.seen.contains(k) {
        with_err(st, twice_text(n, k))
    } else {
        let st = Reading { seen: st.seen.push(k), ..st };
        if k == "name"@ {
            if name_ok(v) { Reading { name: Some(v), ..st } } else { with_err(st, name_text(n)) }
        } else {
            match slot_of(k) {
                None => with_err(st, unknown_text(n, k)),
                Some(slot) => match colour_of(v) {
                    None => with_err(st, wants_text(n, k, v)),
                    Some(c) => match slot {
                        Slot::Neutral { night, field } => if night {
                            Reading {
                                tokens: Tokens { night: with_neutral(st.tokens.night, field, c), ..st.tokens },
                                ..st
                            }
                        } else {
                            Reading {
                                tokens: Tokens { day: with_neutral(st.tokens.day, field, c), ..st.tokens },
                                ..st
                            }
                        },
                        Slot::Accent(i) => Reading { accent: st.accent.update(i as int, Some(c)), ..st },
                    },
                },
            }
        }
    }
}

/// Line `n` of a file, read into `st`. Blank lines and `#` comments are skipped; the rest split
/// at the first `=` into a key and a value, each trimmed.
#[verifier::opaque]
pub open spec fn read_line(st: Reading, n: nat, raw: Seq<char>) -> Reading {
    let line = trim(raw);
    if line.len() == 0 || line[0] == '#' {
        st
    } else {
        match first_index_of(line, '=') {
            None => with_err(st, expected_text(n)),
            Some(e) => read_entry(st, n, trim(line.take(e)), trim(line.skip(e + 1))),
        }
    }
}

/// The text `s`, whose first line is line `n`, read line by line into `st`. Lines end at `\n`;
/// a `\r` before it is whitespace the trim removes.
pub open spec fn read_from(st: Reading, n: nat, s: Seq<char>) -> Reading
    decreases s.len(),
{
    if s.len() == 0 {
        st
    } else {
        match first_index_of(s, '\n') {
            None => read_line(st, n, s),
            Some(i) => {
                proof { lemma_first_index_props(s, '\n'); }
                read_from(read_line(st, n, s.take(i)), n + 1, s.skip(i + 1))
            },
        }
    }
}


/// `line 3: `, built.
fn line_prefix(n: u64) -> (s: String)
    ensures
        s@ == line_text(n as nat),
{
    let mut s = String::new();
    push_str(&mut s, "line ");
    push_dec(&mut s, n);
    push_str(&mut s, ": ");
    s
}

/// Is `v` a usable display name?
fn valid_name(v: &[char]) -> (b: bool)
    ensures
        b == name_ok(v@),
{
    if v.len() == 0 || v.len() > MAX_NAME {
        return false;
    }
    let mut i: usize = 0;
    while i < v.len()
        invariant
            0 < v@.len() <= MAX_NAME,
            i <= v@.len(),
            forall|j: int| 0 <= j < i ==> !is_control(#[trigger] v@[j]),
        decreases v.len() - i,
    {
        if is_control_char(v[i]) {
            assert(is_control(v@[i as int]));
            return false;
        }
        i += 1;
    }
    true
}

/// Reading a file, as it is carried out.
struct Reader {
    tokens: Tokens,
    name: Option<Vec<char>>,
    seen: Vec<Vec<char>>,
    accent: Vec<Option<u32>>,
    errs: Vec<String>,
}

/// The texts of a list of character vectors.
pub open spec fn texts(v: Seq<Vec<char>>) -> Seq<Seq<char>> {
    v.map_values(|c: Vec<char>| c@)
}

impl Reader {
    /// What this reader stands for.
    spec fn state(&self) -> Reading {
        Reading {
            tokens: self.tokens,
            name: match self.name {
                Some(v) => Some(v@),
                None => None,
            },
            seen: texts(self.seen@),
            accent: self.accent@,
            errs: views(self.errs@),
        }
    }

    fn note(&mut self, m: String)
        ensures
            final(self).state() == with_err(old(self).state(), m@),
            final(self).accent@.len() == old(self).accent@.len(),
    {
        push_msg(&mut self.errs, m);
    }

    fn has_seen(&self, k: &[char]) -> (b: bool)
        ensures
            b == self.state().seen.contains(k@),
    {
        let mut i: usize = 0;
        while i < self.seen.len()
            invariant
                i <= self.seen@.len(),
                forall|j: int| 0 <= j < i ==> texts(self.seen@)[j] != k@,
            decreases self.seen.len() - i,
        {
            if same_chars(&self.seen[i], k) {
                assert(texts(self.seen@)[i as int] == k@);
                return true;
            }
            i += 1;
        }
        false
    }

    /// The key `k` with the value `v`, on line `n`, read.
    fn read_entry(&mut self, n: u64, k: Vec<char>, v: Vec<char>)
        requires
            old(self).accent@.len() == 6,
        ensures
            final(self).state() == read_entry(old(self).state(), n as nat, k@, v@),
            final(self).accent@.len() == 6,
    {
        reveal(read_entry);
        if self.has_seen(&k) {
            let mut m = line_prefix(n);
            push_str(&mut m, "`");
            push_chars(&mut m, &k);
            push_str(&mut m, "` is set twice");
            self.note(m);
            return;
        }
        let ghost k_view = k@;
        let ghost before = self.state();
        self.seen.push(k.clone());
        assert(texts(self.seen@) =~= before.seen.push(k_view));
        let ghost st = Reading { seen: before.seen.push(k_view), ..before };
        assert(self.state() == st);
        if chars_eq(&k, "name") {
            if valid_name(&v) {
                self.name = Some(v);
            } else {
                let mut m = line_prefix(n);
                push_str(&mut m, "`name` must be 1 to 16 characters");
                self.note(m);
            }
            return;
        }
        let slot = match key_slot(&k) {
            Some(slot) => slot,
            None => {
                let mut m = line_prefix(n);
                push_str(&mut m, "unknown key `");
                push_chars(&mut m, &k);
                push_str(&mut m, "`");
                self.note(m);
                return;
            },
        };
        let c = match parse_colour_chars(&v) {
            Some(c) => c,
            None => {
                let mut m = line_prefix(n);
                push_str(&mut m, "`");
                push_chars(&mut m, &k);
                push_str(&mut m, "` wants a colour like #1a2b3c, got `");
                push_chars(&mut m, &v);
                push_str(&mut m, "`");
                self.note(m);
                return;
            },
        };
        match slot {
            Slot::Neutral { night, field } => {
                if night {
                    set_neutral(&mut self.tokens.night, field, c);
                } else {
                    set_neutral(&mut self.tokens.day, field, c);
                }
            },
            Slot::Accent(i) => {
                self.accent.set(i, Some(c));
            },
        }
    }
}


impl Reader {
    /// Line `n`, the characters `body[lo..hi]`, read.
    fn read_line(&mut self, n: u64, body: &[char], lo: usize, hi: usize)
        requires
            lo <= hi <= body@.len(),
            old(self).accent@.len() == 6,
        ensures
            final(self).state() == read_line(old(self).state(), n as nat, body@.subrange(lo as int, hi as int)),
            final(self).accent@.len() == 6,
    {
        reveal(read_line);
        let ghost raw = body@.subrange(lo as int, hi as int);
        let (a, b) = trim_range(body, lo, hi);
        let ghost line = trim(raw);
        assert(line == body@.subrange(a as int, b as int));
        if a == b || body[a] == '#' {
            return;
        }
        let e = match find_first(body, a, b, '=') {
            Some(e) => e,
            None => {
                let mut m = line_prefix(n);
                push_str(&mut m, "expected `key = value`");
                self.note(m);
                return;
            },
        };
        let (ka, kb) = trim_range(body, a, a + e);
        let (va, vb) = trim_range(body, a + e + 1, b);
        assert(line.take(e as int) =~= body@.subrange(a as int, (a + e) as int));
        assert(line.skip(e + 1) =~= body@.subrange((a + e + 1) as int, b as int));
        let k = slice_chars(body, ka, kb);
        let v = slice_chars(body, va, vb);
        self.read_entry(n, k, v);
    }
}

/// Cinder's tokens, no name, nothing seen, no accent keys and the id's own problems: where
/// reading a file with id `id` starts.
pub open spec fn start(id: Seq<char>) -> Reading {
    Reading {
        tokens: cinder(),
        name: None,
        seen: seq![],
        accent: seq![None, None, None, None, None, None],
        errs: id_errs(id),
    }
}

/// What is wrong with the id itself: unusable, or the built-in's.
pub open spec fn id_errs(id: Seq<char>) -> Seq<Seq<char>> {
    if !id_ok(id) {
        seq![
            "`"@ + id
                + "` cannot be a palette name: use lowercase letters, digits, - and _ (at most 32)"@,
        ]
    } else if id == BUILTIN_ID@ {
        seq!["`cinder` is the built-in palette \u{2014} rename the file"@]
    } else {
        seq![]
    }
}

/// The accent keys among the first `n` that were not given, in `ACCENT_KEYS` order.
pub open spec fn missing_keys(acc: Seq<Option<u32>>, n: nat) -> Seq<Seq<char>>
    decreases n,
{
    if n == 0 {
        seq![]
    } else {
        missing_keys(acc, (n - 1) as nat) + if acc[n - 1] is None {
            seq![accent_key(n - 1)]
        } else {
            seq![]
        }
    }
}

/// `parts` joined by `sep`.
pub open spec fn join_by(parts: Seq<Seq<char>>, sep: Seq<char>) -> Seq<char>
    decreases parts.len(),
{
    if parts.len() == 0 {
        seq![]
    } else if parts.len() == 1 {
        parts[0]
    } else {
        join_by(parts.drop_last(), sep) + sep + parts.last()
    }
}

/// `parts` joined by `, `.
pub open spec fn join(parts: Seq<Seq<char>>) -> Seq<char> {
    join_by(parts, ", "@)
}

/// All six accent keys given: the palette's own accent, `(day, night)`.
pub open spec fn own_accent(acc: Seq<Option<u32>>) -> (AccentTokens, AccentTokens) {
    (
        AccentTokens { acc: acc[0]->0, acc_ink: acc[1]->0, row_sel: acc[2]->0 },
        AccentTokens { acc: acc[3]->0, acc_ink: acc[4]->0, row_sel: acc[5]->0 },
    )
}

/// The accent keys settled once the file is read: all six make the palette's own accent, none
/// leaves the picker's, and anything between is a problem naming the missing ones.
pub open spec fn finish(st: Reading) -> Reading {
    if forall|i: int| 0 <= i < 6 ==> #[trigger] st.accent[i] is Some {
        Reading { tokens: Tokens { accent: Some(own_accent(st.accent)), ..st.tokens }, ..st }
    } else if forall|i: int| 0 <= i < 6 ==> #[trigger] st.accent[i] is None {
        st
    } else {
        with_err(
            st,
            "an accent of its own needs all six accent keys \u{2014} missing "@ + join(
                missing_keys(st.accent, 6),
            ),
        )
    }
}

/// What reading the file `body` as the palette `id` gives: every problem with its syntax, in
/// order, or — when there is none — its name and tokens, or what makes them hard to read.
pub open spec fn parse_of(id: Seq<char>, body: Seq<char>) -> Result<(Seq<char>, Tokens), Seq<Seq<char>>> {
    let st = finish(read_from(start(id), 1, body));
    if st.errs.len() > 0 {
        Err(st.errs)
    } else if problems_of(st.tokens).len() > 0 {
        Err(problems_of(st.tokens))
    } else {
        Ok((
            match st.name {
                Some(nm) => nm,
                None => id,
            },
            st.tokens,
        ))
    }
}


/// The id's own problems, built.
fn id_problems(id: &str) -> (out: Vec<String>)
    ensures
        views(out@) == id_errs(id@),
{
    let mut out: Vec<String> = Vec::new();
    if !valid_id(id) {
        let mut m = owned("`");
        push_str(&mut m, id);
        push_str(&mut m, "` cannot be a palette name: use lowercase letters, digits, - and _ (at most 32)");
        push_msg(&mut out, m);
    } else if chars_eq(&chars_of(id), BUILTIN_ID) {
        push_msg(&mut out, owned("`cinder` is the built-in palette \u{2014} rename the file"));
    }
    assert(views(out@) =~= id_errs(id@));
    out
}

/// The missing accent keys joined, built: `day.row_select, night.accent`.
fn missing_list(acc: &Vec<Option<u32>>) -> (s: String)
    requires
        acc@.len() == 6,
    ensures
        s@ == join(missing_keys(acc@, 6)),
{
    let mut s = String::new();
    let mut count: usize = 0;
    let mut i: usize = 0;
    while i < 6
        invariant
            acc@.len() == 6,
            i <= 6,
            count == missing_keys(acc@, i as nat).len(),
            count <= i,
            s@ == join(missing_keys(acc@, i as nat)),
        decreases 6 - i,
    {
        let ghost before = missing_keys(acc@, i as nat);
        if acc[i].is_none() {
            if count > 0 {
                push_str(&mut s, ", ");
            }
            push_str(&mut s, accent_key_str(i));
            count += 1;
            assert(missing_keys(acc@, (i + 1) as nat) =~= before.push(accent_key(i as int)));
            assert(missing_keys(acc@, (i + 1) as nat).drop_last() =~= before);
        } else {
            assert(missing_keys(acc@, (i + 1) as nat) =~= before);
        }
        i += 1;
    }
    s
}

impl Reader {
    /// The accent keys settled.
    fn finish(&mut self)
        requires
            old(self).accent@.len() == 6,
        ensures
            final(self).state() == finish(old(self).state()),
    {
        let mut given: usize = 0;
        let mut i: usize = 0;
        while i < 6
            invariant
                self.accent@.len() == 6,
                i <= 6,
                given <= i,
                given == i ==> forall|j: int| 0 <= j < i ==> #[trigger] self.accent@[j] is Some,
                given == 0 ==> forall|j: int| 0 <= j < i ==> #[trigger] self.accent@[j] is None,
                0 < given < i ==> !(forall|j: int| 0 <= j < 6 ==> #[trigger] self.accent@[j] is Some)
                    && !(forall|j: int| 0 <= j < 6 ==> #[trigger] self.accent@[j] is None),
                given < i ==> exists|j: int| 0 <= j < i && #[trigger] self.accent@[j] is None,
                given > 0 ==> exists|j: int| 0 <= j < i && #[trigger] self.accent@[j] is Some,
            decreases 6 - i,
        {
            if self.accent[i].is_some() {
                given += 1;
            }
            i += 1;
        }
        if given == 6 {
            let own = (
                AccentTokens {
                    acc: self.accent[0].unwrap(),
                    acc_ink: self.accent[1].unwrap(),
                    row_sel: self.accent[2].unwrap(),
                },
                AccentTokens {
                    acc: self.accent[3].unwrap(),
                    acc_ink: self.accent[4].unwrap(),
                    row_sel: self.accent[5].unwrap(),
                },
            );
            self.tokens.accent = Some(own);
        } else if given > 0 {
            let mut m = owned("an accent of its own needs all six accent keys \u{2014} missing ");
            let list = missing_list(&self.accent);
            push_chars(&mut m, &chars_of(list.as_str()));
            self.note(m);
        }
    }
}


/// A loaded palette.
#[derive(Clone, Debug, PartialEq)]
pub struct Palette {
    /// The file name without the extension, lowercased: `Slate.palette` is `slate`. This is what
    /// the settings file stores.
    pub id: String,
    /// What Settings shows: the file's `name =`, or the id when it has none.
    pub name: String,
    pub tokens: Tokens,
}

/// Every line of `body[pos..]`, the first of them line `n`, read into `r`.
fn read_lines(r: &mut Reader, v: &Vec<char>)
    requires
        old(r).accent@.len() == 6,
    ensures
        final(r).state() == read_from(old(r).state(), 1, v@),
        final(r).accent@.len() == 6,
{
    let len = v.len();
    let mut pos: usize = 0;
    let mut n: usize = 1;
    assert(v@.skip(0) =~= v@);
    while pos < len
        invariant
            len == v@.len(),
            pos <= len,
            1 <= n <= pos + 1,
            r.accent@.len() == 6,
            read_from(old(r).state(), 1, v@) == read_from(r.state(), n as nat, v@.skip(pos as int)),
        decreases len - pos,
    {
        let ghost rest = v@.skip(pos as int);
        let ghost st = r.state();
        assert(v@.subrange(pos as int, len as int) =~= rest);
        proof { lemma_first_index_props(rest, '\n'); }
        match find_first(v, pos, len, '\n') {
            None => {
                assert(read_from(st, n as nat, rest) == read_line(st, n as nat, rest));
                r.read_line(n as u64, v, pos, len);
                pos = len;
                assert(v@.skip(pos as int) =~= seq![]);
            },
            Some(i) => {
                assert(rest.take(i as int) =~= v@.subrange(pos as int, (pos + i) as int));
                assert(read_from(st, n as nat, rest) == read_from(
                    read_line(st, n as nat, rest.take(i as int)),
                    (n + 1) as nat,
                    rest.skip(i + 1),
                ));
                r.read_line(n as u64, v, pos, pos + i);
                assert(rest.skip(i + 1) =~= v@.skip((pos + i + 1) as int));
                pos = pos + i + 1;
                if pos < len {
                    n = n + 1;
                } else {
                    assert(v@.skip(pos as int) =~= seq![]);
                    assert(read_from(r.state(), (n + 1) as nat, seq![]) == r.state());
                    assert(read_from(r.state(), n as nat, seq![]) == r.state());
                }
            },
        }
    }
}

impl Palette {
    /// Cinder's own palette, as a `Palette`.
    pub fn builtin() -> (p: Palette)
        ensures
            p.id@ == BUILTIN_ID@,
            p.name@ == BUILTIN_NAME@,
            p.tokens == cinder(),
    {
        Palette { id: owned(BUILTIN_ID), name: owned(BUILTIN_NAME), tokens: cinder_tokens() }
    }

    /// Parse and check one palette file. `id` is the file name without its extension.
    ///
    /// Every problem is reported, not just the first: someone fixing a palette by copying it
    /// back and forth over USB should not have to discover its errors one round trip at a time.
    pub fn parse(id: &str, body: &str) -> (r: Result<Palette, Vec<String>>)
        ensures
            match r {
                Ok(p) => p.id@ == id@ && parse_of(id@, body@) == Ok::<(Seq<char>, Tokens), Seq<Seq<char>>>((p.name@, p.tokens)),
                Err(e) => parse_of(id@, body@) == Err::<(Seq<char>, Tokens), Seq<Seq<char>>>(views(e@)),
            },
    {
        let v = chars_of(body);
        let mut accent: Vec<Option<u32>> = Vec::new();
        accent.push(None);
        accent.push(None);
        accent.push(None);
        accent.push(None);
        accent.push(None);
        accent.push(None);
        let mut r = Reader {
            tokens: cinder_tokens(),
            name: None,
            seen: Vec::new(),
            accent,
            errs: id_problems(id),
        };
        assert(texts(r.seen@) =~= seq![]);
        assert(r.accent@ =~= seq![None, None, None, None, None, None]);
        assert(r.state() == start(id@));
        read_lines(&mut r, &v);
        r.finish();
        if r.errs.len() > 0 {
            return Err(r.errs);
        }
        let found = problems(&r.tokens);
        if found.len() > 0 {
            return Err(found);
        }
        let name = match r.name {
            Some(nm) => string_of(&nm),
            None => owned(id),
        };
        Ok(Palette { id: owned(id), name, tokens: r.tokens })
    }
}


// ── The folder ──────────────────────────────────────────────────────────────────────────────

/// `s` with ASCII letters lowercased.
pub open spec fn lower_text(s: Seq<char>) -> Seq<char> {
    Seq::new(s.len(), |i: int| ascii_lower(s[i]))
}

/// `s` with ASCII letters lowercased, built.
fn lower_chars(s: &[char]) -> (r: Vec<char>)
    ensures
        r@ == lower_text(s@),
{
    let mut r: Vec<char> = Vec::new();
    let mut i: usize = 0;
    while i < s.len()
        invariant
            i <= s@.len(),
            r@ =~= lower_text(s@.take(i as int)),
        decreases s.len() - i,
    {
        r.push(lower_char(s[i]));
        i += 1;
        assert(r@ =~= lower_text(s@.take(i as int)));
    }
    assert(s@.take(i as int) =~= s@);
    r
}

/// Is `a` before `b` in code point order, character by character, a prefix first? This is the
/// order of `str`'s `Ord`: UTF-8 compares bytewise the way code points compare.
pub open spec fn lex_lt(a: Seq<char>, b: Seq<char>) -> bool
    decreases a.len(),
{
    if a.len() == 0 {
        b.len() > 0
    } else if b.len() == 0 {
        false
    } else if a[0] != b[0] {
        a[0] < b[0]
    } else {
        lex_lt(a.drop_first(), b.drop_first())
    }
}

proof fn lemma_lex_irreflexive(a: Seq<char>)
    ensures
        !lex_lt(a, a),
    decreases a.len(),
{
    if a.len() > 0 {
        lemma_lex_irreflexive(a.drop_first());
    }
}

proof fn lemma_lex_asymmetric(a: Seq<char>, b: Seq<char>)
    ensures
        lex_lt(a, b) ==> !lex_lt(b, a),
    decreases a.len(),
{
    if a.len() > 0 && b.len() > 0 && a[0] == b[0] {
        lemma_lex_asymmetric(a.drop_first(), b.drop_first());
    }
}

proof fn lemma_lex_transitive(a: Seq<char>, b: Seq<char>, c: Seq<char>)
    ensures
        lex_lt(a, b) && lex_lt(b, c) ==> lex_lt(a, c),
    decreases a.len(),
{
    if a.len() > 0 && b.len() > 0 && c.len() > 0 {
        lemma_lex_transitive(a.drop_first(), b.drop_first(), c.drop_first());
    }
}

proof fn lemma_lex_total(a: Seq<char>, b: Seq<char>)
    ensures
        a != b ==> lex_lt(a, b) || lex_lt(b, a),
    decreases a.len(),
{
    if a.len() > 0 && b.len() > 0 && a[0] == b[0] {
        lemma_lex_total(a.drop_first(), b.drop_first());
        if a.drop_first() == b.drop_first() {
            assert(a =~= seq![a[0]] + a.drop_first());
            assert(b =~= seq![b[0]] + b.drop_first());
        }
    } else if a.len() == 0 && b.len() == 0 {
        assert(a =~= b);
    }
}

/// A palette file in the folder: its id (the stem, lowercased), its file name, and where it was
/// listed.
pub type Entry = (Seq<char>, Seq<char>, int);

/// Cycle order: by id, then by file name, then by listing position.
pub open spec fn entry_leq(x: Entry, y: Entry) -> bool {
    lex_lt(x.0, y.0) || (x.0 == y.0 && (lex_lt(x.1, y.1) || (x.1 == y.1 && x.2 <= y.2)))
}

/// `entry_leq` is a total order.
pub proof fn lemma_entry_order_total()
    ensures
        vstd::relations::total_ordering(|x: Entry, y: Entry| entry_leq(x, y)),
{
    let leq = |x: Entry, y: Entry| entry_leq(x, y);
    assert forall|x: Entry| #[trigger] leq(x, x) by {
        lemma_lex_irreflexive(x.0);
    }
    assert forall|x: Entry, y: Entry| #[trigger] leq(x, y) && #[trigger] leq(y, x) implies x == y by {
        lemma_lex_asymmetric(x.0, y.0);
        lemma_lex_asymmetric(x.1, y.1);
    }
    assert forall|x: Entry, y: Entry, z: Entry| #[trigger] leq(x, y) && #[trigger] leq(y, z) implies leq(x, z) by {
        lemma_lex_transitive(x.0, y.0, z.0);
        lemma_lex_transitive(x.1, y.1, z.1);
    }
    assert forall|x: Entry, y: Entry| #[trigger] leq(x, y) || #[trigger] leq(y, x) by {
        lemma_lex_total(x.0, y.0);
        lemma_lex_total(x.1, y.1);
    }
}

/// The palette files among the first `n` listed: everything with a palette stem, as an entry.
pub open spec fn entries(files: Seq<(String, Result<String, String>)>, n: nat) -> Seq<Entry>
    decreases n,
{
    if n == 0 {
        seq![]
    } else {
        entries(files, (n - 1) as nat) + match stem_of(files[n - 1].0@) {
            Some(stem) => seq![(lower_text(stem), files[n - 1].0@, n - 1)],
            None => seq![],
        }
    }
}


/// Cycle order, as a relation.
pub open spec fn cycle_order() -> spec_fn(Entry, Entry) -> bool {
    |x: Entry, y: Entry| entry_leq(x, y)
}

/// An entry as it is carried out: id, file name, listing position.
pub open spec fn entry_view(e: (Vec<char>, Vec<char>, usize)) -> Entry {
    (e.0@, e.1@, e.2 as int)
}

/// The entries a list of carried-out entries stands for.
pub open spec fn entry_views(v: Seq<(Vec<char>, Vec<char>, usize)>) -> Seq<Entry> {
    v.map_values(|e: (Vec<char>, Vec<char>, usize)| entry_view(e))
}

/// Is `a` before `b`?
fn lex_less(a: &[char], b: &[char]) -> (r: bool)
    ensures
        r == lex_lt(a@, b@),
{
    let mut i: usize = 0;
    assert(a@.skip(0) =~= a@);
    assert(b@.skip(0) =~= b@);
    while i < a.len() && i < b.len()
        invariant
            i <= a@.len(),
            i <= b@.len(),
            lex_lt(a@, b@) == lex_lt(a@.skip(i as int), b@.skip(i as int)),
        decreases a.len() - i,
    {
        if a[i] != b[i] {
            return a[i] < b[i];
        }
        assert(a@.skip(i as int).drop_first() =~= a@.skip(i + 1));
        assert(b@.skip(i as int).drop_first() =~= b@.skip(i + 1));
        i += 1;
    }
    i < b.len()
}

/// Does `x` come no later than `y` in cycle order?
fn entry_le(x: &(Vec<char>, Vec<char>, usize), y: &(Vec<char>, Vec<char>, usize)) -> (r: bool)
    ensures
        r == entry_leq(entry_view(*x), entry_view(*y)),
{
    if lex_less(&x.0, &y.0) {
        return true;
    }
    if !same_chars(&x.0, &y.0) {
        return false;
    }
    if lex_less(&x.1, &y.1) {
        return true;
    }
    same_chars(&x.1, &y.1) && x.2 <= y.2
}

/// The palette files of the folder listing, in cycle order.
fn sorted_entries(files: &Vec<(String, Result<String, String>)>) -> (out: Vec<(Vec<char>, Vec<char>, usize)>)
    ensures
        entry_views(out@) == entries(files@, files@.len()).sort_by(cycle_order()),
        forall|k: int| 0 <= k < out@.len() ==> (#[trigger] out@[k]).2 < files@.len(),
{
    proof { lemma_entry_order_total(); }
    let ghost leq = cycle_order();
    let mut out: Vec<(Vec<char>, Vec<char>, usize)> = Vec::new();
    let mut i: usize = 0;
    assert(entry_views(out@) =~= entries(files@, 0));
    while i < files.len()
        invariant
            i <= files@.len(),
            vstd::relations::total_ordering(leq),
            leq == cycle_order(),
            vstd::relations::sorted_by(entry_views(out@), leq),
            entry_views(out@).to_multiset() == entries(files@, i as nat).to_multiset(),
            forall|k: int| 0 <= k < out@.len() ==> (#[trigger] out@[k]).2 < i,
        decreases files.len() - i,
    {
        let ghost before = entry_views(out@);
        let name = chars_of(files[i].0.as_str());
        let stem = palette_stem(files[i].0.as_str());
        if let Some(st) = stem {
            let id = lower_chars(&chars_of(st));
            let x = (id, name, i);
            let mut p: usize = 0;
            while p < out.len() && entry_le(&out[p], &x)
                invariant
                    p <= out@.len(),
                    forall|j: int| 0 <= j < p ==> entry_leq(#[trigger] entry_view(out@[j]), entry_view(x)),
                decreases out.len() - p,
            {
                p += 1;
            }
            let ghost vx = entry_view(x);
            out.insert(p, x);
            assert(entry_views(out@) =~= before.insert(p as int, vx));
            proof {
                vstd::seq_lib::to_multiset_insert(before, p as int, vx);
                vstd::seq_lib::to_multiset_build(entries(files@, i as nat), vx);
                assert(entries(files@, (i + 1) as nat) =~= entries(files@, i as nat).push(vx));
                let after = entry_views(out@);
                assert forall|a: int, b: int| 0 <= a < b < after.len() implies #[trigger] leq(after[a], after[b]) by {
                    if b < p {
                        assert(leq(before[a], before[b]));
                    } else if b == p {
                        assert(entry_leq(entry_view(out@[a]), vx));
                    } else if a == p {
                        // x is not after before[p], so it comes before it, and before[p] before the rest
                        assert(!leq(before[p as int], vx));
                        assert(leq(vx, before[p as int]));
                        if b - 1 > p {
                            assert(leq(before[p as int], before[b - 1]));
                        }
                    } else if a < p {
                        assert(leq(before[a], before[b - 1]));
                    } else {
                        assert(leq(before[a - 1], before[b - 1]));
                    }
                }
            }
        } else {
            assert(entries(files@, (i + 1) as nat) =~= entries(files@, i as nat));
        }
        i += 1;
    }
    proof {
        let e = entries(files@, files@.len());
        assert(entries(files@, i as nat) == e);
        e.lemma_sort_by_ensures(leq);
        vstd::seq_lib::lemma_sorted_unique(entry_views(out@), e.sort_by(leq), leq);
    }
    out
}


/// A loaded palette, as the loader's contract speaks of it: id, name, tokens.
pub type Loaded = (Seq<char>, Seq<char>, Tokens);

/// What a palette stands for.
pub open spec fn palette_view(p: Palette) -> Loaded {
    (p.id@, p.name@, p.tokens)
}

/// What a list of palettes stands for.
pub open spec fn palette_views(v: Seq<Palette>) -> Seq<Loaded> {
    v.map_values(|p: Palette| palette_view(p))
}

/// Is `id` already among the loaded palettes?
pub open spec fn id_taken(list: Seq<Loaded>, id: Seq<char>) -> bool {
    exists|k: int| 0 <= k < list.len() && (#[trigger] list[k]).0 == id
}

/// One palette file handled, in cycle order: a second file for an id is skipped, as is anything
/// past `MAX_FILES`; a file that could not be read or does not parse is skipped with its reasons;
/// the rest load.
pub open spec fn load_entry(
    files: Seq<(String, Result<String, String>)>,
    st: (Seq<Loaded>, Seq<Seq<char>>),
    e: Entry,
) -> (Seq<Loaded>, Seq<Seq<char>>) {
    let (list, skipped) = st;
    let (id, file, at) = e;
    if id_taken(list, id) {
        (list, skipped.push(file + ": another file already uses the name `"@ + id + "`"@))
    } else if list.len() == MAX_FILES {
        (list, skipped.push(file + ": only the first 32 palettes are loaded"@))
    } else {
        match files[at].1 {
            Err(err) => (list, skipped.push(file + ": could not be read ("@ + err@ + ")"@)),
            Ok(body) => match parse_of(id, body@) {
                Ok((name, tokens)) => (list.push((id, name, tokens)), skipped),
                Err(problems) => (list, skipped.push(file + ": "@ + join_by(problems, "; "@))),
            },
        }
    }
}

/// The entries `es` handled in order, starting from `st`.
pub open spec fn load_all(
    files: Seq<(String, Result<String, String>)>,
    es: Seq<Entry>,
    st: (Seq<Loaded>, Seq<Seq<char>>),
) -> (Seq<Loaded>, Seq<Seq<char>>)
    decreases es.len(),
{
    if es.len() == 0 {
        st
    } else {
        load_all(files, es.drop_first(), load_entry(files, st, es[0]))
    }
}

/// What a folder listing loads to: its palette files in cycle order, handled one by one.
pub open spec fn loaded(files: Seq<(String, Result<String, String>)>) -> (Seq<Loaded>, Seq<Seq<char>>) {
    load_all(files, entries(files, files.len()).sort_by(cycle_order()), (seq![], seq![]))
}

/// `parts` joined by `sep`, built.
fn join_strings(parts: &Vec<String>, sep: &str) -> (s: String)
    ensures
        s@ == join_by(views(parts@), sep@),
{
    let mut s = String::new();
    let mut i: usize = 0;
    while i < parts.len()
        invariant
            i <= parts@.len(),
            s@ == join_by(views(parts@).take(i as int), sep@),
        decreases parts.len() - i,
    {
        let ghost before = views(parts@).take(i as int);
        if i > 0 {
            push_str(&mut s, sep);
        }
        push_str(&mut s, parts[i].as_str());
        i += 1;
        assert(views(parts@).take(i as int).drop_last() =~= before);
    }
    assert(views(parts@).take(i as int) =~= views(parts@));
    s
}

/// Is a palette with the id `id` among `list`?
fn has_id(list: &Vec<Palette>, id: &[char]) -> (b: bool)
    ensures
        b == id_taken(palette_views(list@), id@),
{
    let mut k: usize = 0;
    while k < list.len()
        invariant
            k <= list@.len(),
            forall|j: int| 0 <= j < k ==> (#[trigger] palette_views(list@)[j]).0 != id@,
        decreases list.len() - k,
    {
        if same_chars(&chars_of(list[k].id.as_str()), id) {
            assert(palette_views(list@)[k as int].0 == id@);
            return true;
        }
        k += 1;
    }
    false
}

/// Turn what a palette folder holds into the loaded set, in cycle order, plus one line per file
/// that did not load and why.
///
/// `files` is `(file name, contents or the read error)`, in whatever order the directory listed
/// them. Anything that is not a `.palette` is ignored without comment. The result is in cycle
/// order, so it does not depend on the order the directory happens to list entries in.
pub fn load_files(files: Vec<(String, Result<String, String>)>) -> (r: (Vec<Palette>, Vec<String>))
    ensures
        (palette_views(r.0@), views(r.1@)) == loaded(files@),
{
    let sorted = sorted_entries(&files);
    let ghost es = entry_views(sorted@);
    let mut list: Vec<Palette> = Vec::new();
    let mut skipped: Vec<String> = Vec::new();
    let mut k: usize = 0;
    assert(es.skip(0) =~= es);
    assert(palette_views(list@) =~= seq![]);
    assert(views(skipped@) =~= seq![]);
    while k < sorted.len()
        invariant
            k <= sorted@.len(),
            es == entry_views(sorted@),
            es == entries(files@, files@.len()).sort_by(cycle_order()),
            forall|j: int| 0 <= j < sorted@.len() ==> (#[trigger] sorted@[j]).2 < files@.len(),
            loaded(files@) == load_all(files@, es.skip(k as int), (palette_views(list@), views(skipped@))),
        decreases sorted.len() - k,
    {
        let ghost st = (palette_views(list@), views(skipped@));
        assert(es.skip(k as int).drop_first() =~= es.skip(k + 1));
        assert(es.skip(k as int)[0] == entry_view(sorted@[k as int]));
        let e = &sorted[k];
        let file = string_of(&e.1);
        if has_id(&list, &e.0) {
            let mut m = file;
            push_str(&mut m, ": another file already uses the name `");
            push_chars(&mut m, &e.0);
            push_str(&mut m, "`");
            push_msg(&mut skipped, m);
        } else if list.len() == MAX_FILES {
            let mut m = file;
            push_str(&mut m, ": only the first 32 palettes are loaded");
            push_msg(&mut skipped, m);
        } else {
            match &files[e.2].1 {
                Err(err) => {
                    let mut m = file;
                    push_str(&mut m, ": could not be read (");
                    push_str(&mut m, err.as_str());
                    push_str(&mut m, ")");
                    push_msg(&mut skipped, m);
                },
                Ok(body) => {
                    let id = string_of(&e.0);
                    match Palette::parse(id.as_str(), body.as_str()) {
                        Ok(p) => {
                            list.push(p);
                            assert(palette_views(list@) =~= st.0.push(palette_view(p)));
                        },
                        Err(problems) => {
                            let mut m = file;
                            push_str(&mut m, ": ");
                            let joined = join_strings(&problems, "; ");
                            push_str(&mut m, joined.as_str());
                            push_msg(&mut skipped, m);
                        },
                    }
                },
            }
        }
        k += 1;
    }
    (list, skipped)
}


// ── Laws ────────────────────────────────────────────────────────────────────────────────────

/// Every problem is reported, not just the first: reading more lines only ever adds problems
/// after the ones already found.
pub proof fn lemma_problems_accumulate(st: Reading, n: nat, s: Seq<char>)
    ensures
        read_from(st, n, s).errs.len() >= st.errs.len(),
        read_from(st, n, s).errs.subrange(0, st.errs.len() as int) == st.errs,
    decreases s.len(),
{
    reveal(read_line);
    reveal(read_entry);
    if s.len() > 0 {
        lemma_first_index_props(s, '\n');
        match first_index_of(s, '\n') {
            None => {
                assert(read_line(st, n, s).errs.subrange(0, st.errs.len() as int) =~= st.errs);
            },
            Some(i) => {
                let next = read_line(st, n, s.take(i));
                assert(next.errs.subrange(0, st.errs.len() as int) =~= st.errs);
                lemma_problems_accumulate(next, n + 1, s.skip(i + 1));
                let last = read_from(next, n + 1, s.skip(i + 1));
                assert(last.errs.subrange(0, st.errs.len() as int) =~= last.errs.subrange(
                    0,
                    next.errs.len() as int,
                ).subrange(0, st.errs.len() as int));
            },
        }
    }
}

/// Accent keys are all or nothing: once a file is read, either it gave all six (and they are its
/// accent), or none (and the picker's accent stays), or it is refused for the ones it left out.
pub proof fn lemma_accent_all_or_nothing(st: Reading)
    requires
        st.accent.len() == 6,
    ensures
        finish(st).errs.len() == st.errs.len() ==> (
            (forall|i: int| 0 <= i < 6 ==> #[trigger] st.accent[i] is Some) && finish(st).tokens.accent
                == Some(own_accent(st.accent)))
            || ((forall|i: int| 0 <= i < 6 ==> #[trigger] st.accent[i] is None) && finish(st).tokens
                == st.tokens),
        finish(st).errs.len() != st.errs.len() ==> finish(st).errs.len() == st.errs.len() + 1
            && (exists|i: int| 0 <= i < 6 && #[trigger] st.accent[i] is Some) && (exists|j: int|
            0 <= j < 6 && #[trigger] st.accent[j] is None),
{
}

/// What a palette that loads is: a usable id that is not the built-in's, and tokens with
/// nothing hard to read about them. A file with any syntax problem never loads.
pub proof fn lemma_loaded_palettes_are_readable(id: Seq<char>, body: Seq<char>)
    ensures
        parse_of(id, body) matches Ok((name, t)) ==> id_ok(id) && id != BUILTIN_ID@
            && problems_of(t).len() == 0,
        finish(read_from(start(id), 1, body)).errs.len() > 0 ==> parse_of(id, body) == Err::<
            (Seq<char>, Tokens),
            Seq<Seq<char>>,
        >(finish(read_from(start(id), 1, body)).errs),
{
    let st = start(id);
    lemma_problems_accumulate(st, 1, body);
    let read = read_from(st, 1, body);
    if id_errs(id).len() > 0 {
        assert(read.errs.len() >= 1);
        assert(finish(read).errs.len() >= read.errs.len());
    }
    if !id_ok(id) || id == BUILTIN_ID@ {
        assert(id_errs(id).len() == 1);
    }
}

/// No two palettes the folder loads share an id, and no more than `MAX_FILES` load.
pub proof fn lemma_loaded_ids_are_distinct(
    files: Seq<(String, Result<String, String>)>,
    es: Seq<Entry>,
    st: (Seq<Loaded>, Seq<Seq<char>>),
)
    requires
        st.0.len() <= MAX_FILES,
        forall|a: int, b: int| 0 <= a < b < st.0.len() ==> (#[trigger] st.0[a]).0 != (#[trigger] st.0[b]).0,
    ensures
        load_all(files, es, st).0.len() <= MAX_FILES,
        forall|a: int, b: int|
            0 <= a < b < load_all(files, es, st).0.len() ==> (#[trigger] load_all(files, es, st).0[a]).0
                != (#[trigger] load_all(files, es, st).0[b]).0,
    decreases es.len(),
{
    if es.len() > 0 {
        let next = load_entry(files, st, es[0]);
        assert forall|a: int, b: int| 0 <= a < b < next.0.len() implies (#[trigger] next.0[a]).0
            != (#[trigger] next.0[b]).0 by {
            if next.0.len() > st.0.len() && b == st.0.len() {
                assert(!id_taken(st.0, es[0].0));
                assert(next.0[b].0 == es[0].0);
                assert(st.0[a].0 != es[0].0);
            } else {
                assert(next.0[a] == st.0[a] && next.0[b] == st.0[b]);
            }
        }
        lemma_loaded_ids_are_distinct(files, es.drop_first(), next);
    }
}

/// What a folder loads: at most `MAX_FILES` palettes, no two with the same id, each one a
/// palette that parses and reads well.
pub proof fn lemma_folder_loads_distinct_ids(files: Seq<(String, Result<String, String>)>)
    ensures
        loaded(files).0.len() <= MAX_FILES,
        forall|a: int, b: int|
            0 <= a < b < loaded(files).0.len() ==> (#[trigger] loaded(files).0[a]).0 != (
            #[trigger] loaded(files).0[b]).0,
{
    lemma_loaded_ids_are_distinct(
        files,
        entries(files, files.len()).sort_by(cycle_order()),
        (seq![], seq![]),
    );
}


/// How many files of a listing are palette files (their names end in the palette extension).
pub open spec fn palette_file_count(files: Seq<(String, Result<String, String>)>) -> nat {
    entries(files, files.len()).len()
}

/// Loading a folder: whatever order the directory lists its (distinctly named) files in, the
/// same palettes load and the same files are skipped; the palettes come in increasing id order,
/// no two with the same id, at most `MAX_FILES` of them; and every palette file either loads or
/// is skipped with its reasons, while other files are ignored.
pub proof fn lemma_folder_load_law(
    files: Seq<(String, Result<String, String>)>,
    files2: Seq<(String, Result<String, String>)>,
)
    requires
        names_distinct(files),
        names_distinct(files2),
        files2.to_multiset() == files.to_multiset(),
    ensures
        loaded(files2) == loaded(files),
        ids_increasing(loaded(files).0),
        loaded(files).0.len() <= MAX_FILES,
        loaded(files).0.len() + loaded(files).1.len() == palette_file_count(files),
{
    lemma_load_ignores_listing_order(files, files2);
    lemma_folder_load_is_ordered_and_complete(files);
    lemma_folder_loads_distinct_ids(files);
}

/// `a` is before `b`, or is `b`.
pub open spec fn lex_le(a: Seq<char>, b: Seq<char>) -> bool {
    lex_lt(a, b) || a == b
}

/// The ids of `list` strictly increase.
pub open spec fn ids_increasing(list: Seq<Loaded>) -> bool {
    forall|a: int, b: int| 0 <= a < b < list.len() ==> lex_lt(#[trigger] list[a].0, #[trigger] list[b].0)
}

/// Handling entries adds one line, to the list or to the skipped, per entry.
proof fn lemma_load_all_counts(
    files: Seq<(String, Result<String, String>)>,
    es: Seq<Entry>,
    st: (Seq<Loaded>, Seq<Seq<char>>),
)
    ensures
        load_all(files, es, st).0.len() + load_all(files, es, st).1.len() == st.0.len() + st.1.len()
            + es.len(),
    decreases es.len(),
{
    if es.len() > 0 {
        lemma_load_all_counts(files, es.drop_first(), load_entry(files, st, es[0]));
    }
}

/// Handling entries in cycle order keeps the loaded ids strictly increasing.
proof fn lemma_load_all_sorted(
    files: Seq<(String, Result<String, String>)>,
    es: Seq<Entry>,
    st: (Seq<Loaded>, Seq<Seq<char>>),
)
    requires
        vstd::relations::sorted_by(es, cycle_order()),
        ids_increasing(st.0),
        forall|a: int, j: int| 0 <= a < st.0.len() && 0 <= j < es.len() ==> lex_le(#[trigger] st.0[a].0, #[trigger] es[j].0),
    ensures
        ids_increasing(load_all(files, es, st).0),
    decreases es.len(),
{
    if es.len() > 0 {
        let e = es[0];
        let next = load_entry(files, st, e);
        assert(next.0 == st.0 || (next.0 == st.0.push((e.0, next.0.last().1, next.0.last().2)) && !id_taken(st.0, e.0)));
        if next.0 != st.0 {
            assert forall|a: int, b: int| 0 <= a < b < next.0.len() implies lex_lt(#[trigger] next.0[a].0, #[trigger] next.0[b].0) by {
                if b == st.0.len() {
                    assert(lex_le(st.0[a].0, es[0].0));
                    if st.0[a].0 == e.0 {
                        assert(id_taken(st.0, e.0));
                    }
                }
            }
        }
        let rest = es.drop_first();
        assert forall|i: int, j: int| 0 <= i < j < rest.len() implies #[trigger] (cycle_order())(rest[i], rest[j]) by {
            assert((cycle_order())(es[i + 1], es[j + 1]));
        }
        assert forall|a: int, j: int| 0 <= a < next.0.len() && 0 <= j < rest.len() implies lex_le(#[trigger] next.0[a].0, #[trigger] rest[j].0) by {
            assert((cycle_order())(es[0], es[j + 1]));
            assert(lex_le(e.0, rest[j].0));
            if a < st.0.len() {
                assert(lex_le(st.0[a].0, es[0].0));
                lemma_lex_transitive(st.0[a].0, e.0, rest[j].0);
            }
        }
        lemma_load_all_sorted(files, rest, next);
    }
}

/// What a folder loads is in cycle order, ids strictly increasing (so no id twice), and every
/// palette file in the listing is accounted for: it loaded, or it has a line saying why not.
pub proof fn lemma_folder_load_is_ordered_and_complete(files: Seq<(String, Result<String, String>)>)
    ensures
        ids_increasing(loaded(files).0),
        loaded(files).0.len() + loaded(files).1.len() == entries(files, files.len()).len(),
{
    let es0 = entries(files, files.len());
    let es = es0.sort_by(cycle_order());
    lemma_entry_order_total();
    es0.lemma_sort_by_ensures(cycle_order());
    lemma_load_all_sorted(files, es, (seq![], seq![]));
    lemma_load_all_counts(files, es, (seq![], seq![]));
    assert(es.len() == es0.len()) by {
        broadcast use vstd::seq_lib::to_multiset_len;
        assert(es.to_multiset().len() == es0.to_multiset().len());
    }
}

/// The id a palette file name gives: its stem, lowercased.
pub open spec fn id_of_name(n: Seq<char>) -> Seq<char> {
    match stem_of(n) {
        Some(s) => lower_text(s),
        None => seq![],
    }
}

/// Cycle order on file names: by the id they give, then by the name.
pub open spec fn name_order() -> spec_fn(Seq<char>, Seq<char>) -> bool {
    |a: Seq<char>, b: Seq<char>| lex_lt(id_of_name(a), id_of_name(b)) || (id_of_name(a) == id_of_name(b) && lex_le(a, b))
}

/// The names of a run of entries.
pub open spec fn entry_names(es: Seq<Entry>) -> Seq<Seq<char>> {
    es.map_values(|e: Entry| e.1)
}

/// No two files of the listing share a name.
pub open spec fn names_distinct(files: Seq<(String, Result<String, String>)>) -> bool {
    forall|i: int, j: int| 0 <= i < j < files.len() ==> (#[trigger] files[i]).0@ != (#[trigger] files[j]).0@
}

/// What the entries of the first `n` files are: palette files of the listing, each with its id,
/// name and place; and every palette file among them has its entry.
proof fn lemma_entries_shape(files: Seq<(String, Result<String, String>)>, n: nat)
    requires
        n <= files.len(),
    ensures
        forall|j: int| 0 <= j < entries(files, n).len() ==> {
            let e = #[trigger] entries(files, n)[j];
            &&& 0 <= e.2 < n
            &&& e.1 == files[e.2].0@
            &&& stem_of(e.1) is Some
            &&& e.0 == id_of_name(e.1)
        },
        forall|i: int| 0 <= i < n && stem_of(files[i].0@) is Some ==> exists|j: int|
            0 <= j < entries(files, n).len() && (#[trigger] entries(files, n)[j]).2 == i,
        forall|a: int, b: int| 0 <= a < b < entries(files, n).len() ==> (#[trigger] entries(files, n)[a]).2
            < (#[trigger] entries(files, n)[b]).2,
    decreases n,
{
    if n > 0 {
        lemma_entries_shape(files, (n - 1) as nat);
        let prev = entries(files, (n - 1) as nat);
        let cur = entries(files, n);
        assert forall|i: int| 0 <= i < n && stem_of(files[i].0@) is Some implies exists|j: int|
            0 <= j < cur.len() && (#[trigger] cur[j]).2 == i by {
            if i < n - 1 {
                let j = choose|j: int| 0 <= j < prev.len() && (#[trigger] prev[j]).2 == i;
                assert(cur[j] == prev[j]);
            } else {
                assert(cur[prev.len() as int].2 == i);
            }
        }
    }
}

/// In a listing with distinct names, two entries with the same name are the same entry.
proof fn lemma_entry_names_distinct(files: Seq<(String, Result<String, String>)>)
    requires
        names_distinct(files),
    ensures
        entry_names(entries(files, files.len())).no_duplicates(),
{
    lemma_entries_shape(files, files.len());
    let es = entries(files, files.len());
    assert forall|a: int, b: int| 0 <= a < b < es.len() implies entry_names(es)[a] != entry_names(es)[b] by {
        assert(es[a].2 < es[b].2);
    }
}

/// `name_order` is a total order.
proof fn lemma_name_order_total()
    ensures
        vstd::relations::total_ordering(name_order()),
{
    let leq = name_order();
    assert forall|x: Seq<char>| #[trigger] leq(x, x) by {}
    assert forall|x: Seq<char>, y: Seq<char>| #[trigger] leq(x, y) && #[trigger] leq(y, x) implies x == y by {
        lemma_lex_asymmetric(id_of_name(x), id_of_name(y));
        lemma_lex_asymmetric(x, y);
    }
    assert forall|x: Seq<char>, y: Seq<char>, z: Seq<char>| #[trigger] leq(x, y) && #[trigger] leq(y, z) implies leq(x, z) by {
        lemma_lex_transitive(id_of_name(x), id_of_name(y), id_of_name(z));
        lemma_lex_transitive(x, y, z);
    }
    assert forall|x: Seq<char>, y: Seq<char>| #[trigger] leq(x, y) || #[trigger] leq(y, x) by {
        lemma_lex_total(id_of_name(x), id_of_name(y));
        lemma_lex_total(x, y);
    }
}

/// The names of a listing's palette files in cycle order: sorted by name, each once, and exactly
/// the names of its palette files; and every sorted entry is one of its entries.
proof fn lemma_sorted_names(files: Seq<(String, Result<String, String>)>)
    requires
        names_distinct(files),
    ensures
        ({
            let s = entries(files, files.len()).sort_by(cycle_order());
            &&& vstd::relations::sorted_by(entry_names(s), name_order())
            &&& entry_names(s).no_duplicates()
            &&& forall|n: Seq<char>| entry_names(s).contains(n) <==> (stem_of(n) is Some && exists|i: int|
                0 <= i < files.len() && (#[trigger] files[i]).0@ == n)
            &&& forall|j: int| 0 <= j < s.len() ==> entries(files, files.len()).contains(#[trigger] s[j])
            &&& forall|j: int| 0 <= j < s.len() ==> 0 <= (#[trigger] s[j]).2 < files.len() && s[j].1
                == files[s[j].2].0@ && s[j].0 == id_of_name(s[j].1)
        }),
{
    let es = entries(files, files.len());
    let s = es.sort_by(cycle_order());
    lemma_entry_order_total();
    es.lemma_sort_by_ensures(cycle_order());
    lemma_entries_shape(files, files.len());
    lemma_entry_names_distinct(files);
    assert forall|j: int| 0 <= j < s.len() implies es.contains(#[trigger] s[j]) by {
        broadcast use vstd::seq_lib::to_multiset_contains;
        assert(s.contains(s[j]));
        assert(s.to_multiset().count(s[j]) > 0);
    }
    // every entry of `s` is an entry of the listing, so its id is its name's
    assert forall|j: int| 0 <= j < s.len() implies (#[trigger] s[j]).0 == id_of_name(s[j].1) && s[j].1 == files[s[j].2].0@ && 0 <= s[j].2 < files.len() by {
        assert(es.contains(s[j]));
        let k = choose|k: int| 0 <= k < es.len() && es[k] == s[j];
        assert(es[k] == s[j]);
    }
    assert forall|a: int, b: int| 0 <= a < b < entry_names(s).len() implies #[trigger] (name_order())(
        entry_names(s)[a],
        entry_names(s)[b],
    ) by {
        assert((cycle_order())(s[a], s[b]));
    }
    // entries are distinct (their places differ), so the sorted run has no repeats either
    assert(es.no_duplicates()) by {
        assert forall|a: int, b: int| 0 <= a < es.len() && 0 <= b < es.len() && a != b implies es[a] != es[b] by {
            if a < b { assert(es[a].2 < es[b].2); } else { assert(es[b].2 < es[a].2); }
        }
    }
    es.lemma_multiset_has_no_duplicates();
    assert(s.no_duplicates()) by {
        s.lemma_multiset_has_no_duplicates_conv();
    }
    assert forall|a: int, b: int| 0 <= a < b < s.len() implies entry_names(s)[a] != entry_names(s)[b] by {
        if s[a].1 == s[b].1 {
            if s[a].2 < s[b].2 {
                assert(files[s[a].2].0@ == files[s[b].2].0@);
            } else if s[b].2 < s[a].2 {
                assert(files[s[b].2].0@ == files[s[a].2].0@);
            }
            assert(s[a] == s[b]);
        }
    }
    assert forall|n: Seq<char>| entry_names(s).contains(n) <==> (stem_of(n) is Some && exists|i: int|
        0 <= i < files.len() && (#[trigger] files[i]).0@ == n) by {
        if entry_names(s).contains(n) {
            let j = choose|j: int| 0 <= j < entry_names(s).len() && entry_names(s)[j] == n;
            assert(files[s[j].2].0@ == n);
            assert(es.contains(s[j]));
            let k = choose|k: int| 0 <= k < es.len() && es[k] == s[j];
            assert(es[k] == s[j]);
        }
        if stem_of(n) is Some && exists|i: int| 0 <= i < files.len() && (#[trigger] files[i]).0@ == n {
            let i = choose|i: int| 0 <= i < files.len() && (#[trigger] files[i]).0@ == n;
            let j = choose|j: int| 0 <= j < es.len() && (#[trigger] es[j]).2 == i;
            assert(es[j].1 == n);
            assert(es.contains(es[j]));
            assert(s.contains(es[j])) by {
                broadcast use vstd::seq_lib::to_multiset_contains;
                assert(es.to_multiset().count(es[j]) > 0);
            }
            let k = choose|k: int| 0 <= k < s.len() && s[k] == es[j];
            assert(entry_names(s)[k] == n);
        }
    }
}


/// Handling two runs of entries that agree, place by place, on id, file name and file gives the
/// same result.
proof fn lemma_load_all_same(
    files: Seq<(String, Result<String, String>)>,
    files2: Seq<(String, Result<String, String>)>,
    x: Seq<Entry>,
    y: Seq<Entry>,
    st: (Seq<Loaded>, Seq<Seq<char>>),
)
    requires
        x.len() == y.len(),
        forall|j: int| 0 <= j < x.len() ==> {
            &&& (#[trigger] x[j]).0 == y[j].0
            &&& x[j].1 == y[j].1
            &&& 0 <= x[j].2 < files.len()
            &&& 0 <= y[j].2 < files2.len()
            &&& files[x[j].2] == files2[y[j].2]
        },
    ensures
        load_all(files, x, st) == load_all(files2, y, st),
    decreases x.len(),
{
    if x.len() > 0 {
        assert(x[0].0 == y[0].0);
        assert(load_entry(files, st, x[0]) == load_entry(files2, st, y[0]));
        assert forall|j: int| 0 <= j < x.drop_first().len() implies {
            &&& (#[trigger] x.drop_first()[j]).0 == y.drop_first()[j].0
            &&& x.drop_first()[j].1 == y.drop_first()[j].1
            &&& 0 <= x.drop_first()[j].2 < files.len()
            &&& 0 <= y.drop_first()[j].2 < files2.len()
            &&& files[x.drop_first()[j].2] == files2[y.drop_first()[j].2]
        } by {
            assert(x[j + 1].0 == y[j + 1].0);
        }
        lemma_load_all_same(files, files2, x.drop_first(), y.drop_first(), load_entry(files, st, x[0]));
    }
}

/// What a folder loads does not depend on the order the directory lists it in: for a listing
/// with no name twice, any reordering of it loads the same palettes and reports the same lines.
pub proof fn lemma_load_ignores_listing_order(
    files: Seq<(String, Result<String, String>)>,
    files2: Seq<(String, Result<String, String>)>,
)
    requires
        names_distinct(files),
        names_distinct(files2),
        files2.to_multiset() == files.to_multiset(),
    ensures
        loaded(files2) == loaded(files),
{
    broadcast use vstd::seq_lib::to_multiset_contains;

    lemma_entry_order_total();
    let s1 = entries(files, files.len()).sort_by(cycle_order());
    let s2 = entries(files2, files2.len()).sort_by(cycle_order());
    lemma_sorted_names(files);
    lemma_sorted_names(files2);
    let n1 = entry_names(s1);
    let n2 = entry_names(s2);
    // the same names, each once
    assert forall|n: Seq<char>| n1.contains(n) <==> n2.contains(n) by {
        if exists|i: int| 0 <= i < files.len() && (#[trigger] files[i]).0@ == n {
            let i = choose|i: int| 0 <= i < files.len() && (#[trigger] files[i]).0@ == n;
            assert(files.contains(files[i]));
            assert(files.to_multiset().count(files[i]) > 0);
            assert(files2.to_multiset().count(files[i]) > 0);
            assert(files2.contains(files[i]));
            let k = choose|k: int| 0 <= k < files2.len() && files2[k] == files[i];
            assert(files2[k].0@ == n);
        }
        if exists|i: int| 0 <= i < files2.len() && (#[trigger] files2[i]).0@ == n {
            let i = choose|i: int| 0 <= i < files2.len() && (#[trigger] files2[i]).0@ == n;
            assert(files2.contains(files2[i]));
            assert(files2.to_multiset().count(files2[i]) > 0);
            assert(files.to_multiset().count(files2[i]) > 0);
            assert(files.contains(files2[i]));
            let k = choose|k: int| 0 <= k < files.len() && files[k] == files2[i];
            assert(files[k].0@ == n);
        }
    }
    n1.lemma_multiset_has_no_duplicates();
    n2.lemma_multiset_has_no_duplicates();
    assert(n1.to_multiset() =~= n2.to_multiset()) by {
        assert forall|n: Seq<char>| n1.to_multiset().count(n) == n2.to_multiset().count(n) by {
            if n1.contains(n) {
                assert(n1.to_multiset().contains(n));
                assert(n2.to_multiset().contains(n));
            }
        }
    }
    lemma_name_order_total();
    vstd::seq_lib::lemma_sorted_unique(n1, n2, name_order());
    assert(s1.len() == s2.len()) by {
        assert(n1.len() == s1.len());
        assert(n2.len() == s2.len());
    }
    assert forall|j: int| 0 <= j < s1.len() implies {
        &&& (#[trigger] s1[j]).0 == s2[j].0
        &&& s1[j].1 == s2[j].1
        &&& 0 <= s1[j].2 < files.len()
        &&& 0 <= s2[j].2 < files2.len()
        &&& files[s1[j].2] == files2[s2[j].2]
    } by {
        assert(n1[j] == n2[j]);
        let f2 = files2[s2[j].2];
        assert(files2.contains(f2));
        assert(files2.to_multiset().count(f2) > 0);
        assert(files.to_multiset().count(f2) > 0);
        assert(files.contains(f2));
        let k = choose|k: int| 0 <= k < files.len() && files[k] == f2;
        if k < s1[j].2 {
            assert(files[k].0@ == files[s1[j].2].0@);
        } else if k > s1[j].2 {
            assert(files[s1[j].2].0@ == files[k].0@);
        }
    }
    lemma_load_all_same(files, files2, s1, s2, (seq![], seq![]));
}

/// Neutral `f` of `n`, in `NEUTRAL_KEYS` order.
pub open spec fn neutral_field(n: Neutrals, f: int) -> u32 {
    if f == 0 { n.bg }
    else if f == 1 { n.panel }
    else if f == 2 { n.line }
    else if f == 3 { n.ink }
    else if f == 4 { n.dim }
    else { n.faint }
}

/// The neutrals of one mode.
pub open spec fn side(t: Tokens, night: bool) -> Neutrals {
    if night { t.night } else { t.day }
}

/// The key that sets neutral `f` of one mode: `day.bg`, `night.ink`.
pub open spec fn neutral_key_of(night: bool, f: int) -> Seq<char> {
    (if night { "night"@ } else { "day"@ }) + seq!['.'] + neutral_key(f)
}

/// A key that lands on a neutral is that neutral's key.
proof fn lemma_neutral_slot_is_its_key(k: Seq<char>, night: bool, f: usize)
    requires
        slot_of(k) == Some(Slot::Neutral { night, field: f }),
    ensures
        k == neutral_key_of(night, f as int),
{
    lemma_first_index_props(k, '.');
    let d = first_index_of(k, '.')->0;
    assert(k =~= k.take(d) + seq!['.'] + k.skip(d + 1));
}

/// Reading one entry changes at most the neutral its key names, and only once that key counts
/// as seen; nothing seen is ever forgotten.
proof fn lemma_entry_keeps_unset(st: Reading, n: nat, k: Seq<char>, v: Seq<char>, night: bool, f: int)
    requires
        0 <= f < 6,
    ensures
        forall|x: Seq<char>| st.seen.contains(x) ==> #[trigger] read_entry(st, n, k, v).seen.contains(x),
        !read_entry(st, n, k, v).seen.contains(neutral_key_of(night, f)) ==> neutral_field(
            side(read_entry(st, n, k, v).tokens, night),
            f,
        ) == neutral_field(side(st.tokens, night), f),
{
    reveal(read_entry);
    let r = read_entry(st, n, k, v);
    if !st.seen.contains(k) {
        assert(r.seen == st.seen.push(k));
        assert(r.seen[st.seen.len() as int] == k);
        assert(r.seen.contains(k));
        assert forall|x: Seq<char>| st.seen.contains(x) implies #[trigger] r.seen.contains(x) by {
            let i = choose|i: int| 0 <= i < st.seen.len() && st.seen[i] == x;
            assert(r.seen[i] == x);
        }
        if k != "name"@ {
            if let Some(Slot::Neutral { night: n2, field: f2 }) = slot_of(k) {
                lemma_neutral_slot_is_its_key(k, n2, f2);
            }
        }
    }
}

/// Reading one line keeps what it does not name, as reading its entry does.
proof fn lemma_line_keeps_unset(st: Reading, n: nat, raw: Seq<char>, night: bool, f: int)
    requires
        0 <= f < 6,
    ensures
        forall|x: Seq<char>| st.seen.contains(x) ==> #[trigger] read_line(st, n, raw).seen.contains(x),
        !read_line(st, n, raw).seen.contains(neutral_key_of(night, f)) ==> neutral_field(
            side(read_line(st, n, raw).tokens, night),
            f,
        ) == neutral_field(side(st.tokens, night), f),
{
    reveal(read_line);
    let line = trim(raw);
    if !(line.len() == 0 || line[0] == '#') {
        if let Some(e) = first_index_of(line, '=') {
            lemma_entry_keeps_unset(st, n, trim(line.take(e)), trim(line.skip(e + 1)), night, f);
        }
    }
}

/// Every key is optional: a neutral whose key no line of the text gave keeps the value it
/// started with.
pub proof fn lemma_unset_keys_keep_their_value(st: Reading, n: nat, s: Seq<char>, night: bool, f: int)
    requires
        0 <= f < 6,
    ensures
        forall|x: Seq<char>| st.seen.contains(x) ==> #[trigger] read_from(st, n, s).seen.contains(x),
        !read_from(st, n, s).seen.contains(neutral_key_of(night, f)) ==> neutral_field(
            side(read_from(st, n, s).tokens, night),
            f,
        ) == neutral_field(side(st.tokens, night), f),
    decreases s.len(),
{
    if s.len() > 0 {
        lemma_first_index_props(s, '\n');
        match first_index_of(s, '\n') {
            None => {
                lemma_line_keeps_unset(st, n, s, night, f);
            },
            Some(i) => {
                let next = read_line(st, n, s.take(i));
                lemma_line_keeps_unset(st, n, s.take(i), night, f);
                lemma_unset_keys_keep_their_value(next, n + 1, s.skip(i + 1), night, f);
            },
        }
    }
}

/// A loaded palette falls back to Cinder for every neutral its file does not set.
pub proof fn lemma_missing_keys_inherit_cinder(id: Seq<char>, body: Seq<char>, night: bool, f: int)
    requires
        0 <= f < 6,
    ensures
        parse_of(id, body) matches Ok((name, t)) ==> (!read_from(start(id), 1, body).seen.contains(
            neutral_key_of(night, f),
        ) ==> neutral_field(side(t, night), f) == neutral_field(side(cinder(), night), f)),
{
    lemma_unset_keys_keep_their_value(start(id), 1, body, night, f);
}


/// A palette that loads is legible: in both modes and with any accent picked, its ink, dim and
/// faint clear their floors against the background, and its ink clears the ink floor against the
/// panels.
pub proof fn lemma_loaded_palettes_clear_the_neutral_floors(id: Seq<char>, body: Seq<char>, night: bool, a: crate::theme::Accent)
    ensures
        parse_of(id, body) matches Ok((name, t)) ==> ({
            let th = crate::theme::theme_of(t, night, a);
            let f = crate::legibility::floors(night);
            &&& crate::legibility::meets(crate::legibility::ratio_of(th.ink, th.bg), f.ink)
            &&& crate::legibility::meets(crate::legibility::ratio_of(th.dim, th.bg), f.dim)
            &&& crate::legibility::meets(crate::legibility::ratio_of(th.faint, th.bg), f.faint)
            &&& crate::legibility::meets(crate::legibility::ratio_of(th.ink, th.panel), f.ink)
        }),
{
    lemma_loaded_palettes_are_readable(id, body);
    if let Ok((name, t)) = parse_of(id, body) {
        crate::legibility::lemma_readable_tokens_clear_the_neutral_floors(t, night, a);
    }
}

} // verus!
