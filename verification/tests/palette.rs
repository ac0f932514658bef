use cinder_ui::palette::{palette_stem, valid_id, BUILTIN_ID, BUILTIN_NAME};
use cinder_ui::legibility::problems;
use cinder_ui::palette::{load_files, parse_colour, Palette, MAX_FILES, MAX_ID};
use cinder_ui::theme::{cinder_tokens, Accent};

/// Cinder's own colours, written out as a palette file.
const REFERENCE: &str = "# cinder.palette \u{2014} Cinder's own colours: copy this file to start a palette of your own
name = Cinder

day.bg    = #0d0c0b
day.panel = #13110f
day.line  = #221f1b
day.ink   = #ece7df
day.dim   = #95908a
day.faint = #5f5a52

night.bg    = #000000
night.panel = #0a0908
night.line  = #161310
night.ink   = #8d8170
night.dim   = #5b5347
night.faint = #3b362d
";

/// A cooler dark palette that keeps the built-in accents.
const SLATE: &str = "# slate.palette
name = Slate

day.bg    = #0e1116
day.panel = #141821
day.line  = #232a35
day.ink   = #e6eaf0
day.dim   = #8a93a0
day.faint = #5a6270

night.bg    = #000000
night.panel = #090a0c
night.line  = #14171c
night.ink   = #8a93a0
night.dim   = #565d68
night.faint = #383d45
";

/// A light palette: its background is pale, so it brings its own accent.
const PAPER: &str = "# paper.palette
name = Paper

day.bg    = #f4f1ea
day.panel = #ebe6dc
day.line  = #d6cfc2
day.ink   = #1c1a17
day.dim   = #5a554e
day.faint = #8a847b
day.accent     = #b0401a
day.accent_ink = #ffffff
day.row_select = #e4dccd

night.accent     = #863810
night.accent_ink = #000000
night.row_select = #0f0c0a
";

fn ok(id: &str, body: &str) -> Palette {
    Palette::parse(id, body).unwrap_or_else(|e| panic!("{id} should load:\n  {}", e.join("\n  ")))
}

fn refused(id: &str, body: &str) -> Vec<String> {
    Palette::parse(id, body).expect_err("should have been refused")
}

#[test]
fn the_reference_file_reproduces_cinder_exactly() {
    let p = ok("reference", REFERENCE);
    assert_eq!(p.tokens, cinder_tokens());
    assert_eq!(p.name, "Cinder");
}

#[test]
fn every_shipped_palette_loads() {
    ok("slate", SLATE);
    assert!(ok("paper", PAPER).tokens.accent.is_some(), "paper is light, so it must bring its own accent");
}

#[test]
fn cinder_passes_its_own_rules_with_every_accent() {
    assert_eq!(problems(&cinder_tokens()), Vec::<String>::new());
}

#[test]
fn missing_keys_inherit_cinder() {
    let p = ok("almost", "day.bg = #101010\n");
    let c = cinder_tokens();
    assert_eq!(p.tokens.day.bg, 0x101010);
    assert_eq!(p.tokens.day.ink, c.day.ink);
    assert_eq!(p.tokens.night, c.night);
    assert_eq!(p.tokens.accent, None);
    assert_eq!(p.name, "almost", "no name means the id");
}

#[test]
fn a_pinned_accent_ignores_the_picker() {
    let p = ok("paper", PAPER);
    for i in 0..6 {
        let a = Accent::from_index(i);
        assert_eq!(p.tokens.theme(false, a), p.tokens.theme(false, Accent::Amber));
        assert_eq!(p.tokens.theme(true, a), p.tokens.theme(true, Accent::Amber));
    }
}

#[test]
fn syntax_errors_name_their_line_and_all_of_them_are_reported() {
    let e = refused(
        "broken",
        "name = Fine\nday.backround = #000000\nday.ink = pink\nnot a line\nday.dim = #111111\nday.dim = #222222\n",
    );
    let all = e.join("\n");
    assert!(all.contains("line 2: unknown key `day.backround`"), "{all}");
    assert!(all.contains("line 3: `day.ink` wants a colour"), "{all}");
    assert!(all.contains("line 4: expected `key = value`"), "{all}");
    assert!(all.contains("line 6: `day.dim` is set twice"), "{all}");
}

#[test]
fn colours_take_one_spelling() {
    assert_eq!(parse_colour("#1a2B3c"), Some(0x1a2b3c));
    assert_eq!(parse_colour("1a2b3c"), Some(0x1a2b3c));
    for bad in ["#123", "#1234567", "rgb(1,2,3)", "#gg0000", ""] {
        assert_eq!(parse_colour(bad), None, "{bad}");
    }
}

#[test]
fn accent_keys_are_all_or_nothing() {
    let e = refused("half", "day.accent = #ff0000\nday.accent_ink = #000000\n");
    let all = e.join("\n");
    assert!(all.contains("missing day.row_select, night.accent, night.accent_ink, night.row_select"), "{all}");
}

#[test]
fn unreadable_text_is_refused() {
    let e = refused("murk", "day.ink = #141210\n");
    assert!(e.iter().any(|l| l.starts_with("day.ink on day.bg")), "{e:?}");
}

#[test]
fn dim_may_not_outshine_ink() {
    let e = refused("inverted", "day.ink = #95908a\nday.dim = #ece7df\n");
    assert!(e.iter().any(|l| l.contains("day.dim stands out as much as day.ink")), "{e:?}");
}

#[test]
fn a_bright_night_is_refused() {
    let e = refused("glare", "night.bg = #808080\n");
    assert!(e.iter().any(|l| l.starts_with("night.bg is too bright")), "{e:?}");
}

#[test]
fn a_light_palette_without_an_accent_is_told_to_bring_one() {
    let body: Vec<&str> =
        PAPER.lines().filter(|l| !l.contains("accent") && !l.contains("row_select")).collect();
    let e = refused("paperish", &body.join("\n"));
    assert!(e.iter().any(|l| l.contains("accent of its own")), "{e:?}");
}

#[test]
fn the_builtin_id_and_unusable_ids_are_refused() {
    assert!(refused("cinder", "").join("\n").contains("built-in"));
    assert!(Palette::parse("Has Space", "").is_err());
    assert!(Palette::parse("", "").is_err());
    assert!(Palette::parse(&"x".repeat(MAX_ID + 1), "").is_err());
}

#[test]
fn a_folder_loads_sorted_and_deduplicated_and_says_what_it_skipped() {
    let files = vec![
        ("zeta.palette".to_string(), Ok("name = Zeta\n".to_string())),
        ("Alpha.PALETTE".to_string(), Ok(String::new())),
        ("alpha.palette".to_string(), Ok(String::new())),
        ("notes.txt".to_string(), Ok("ignored".to_string())),
        ("._alpha.palette".to_string(), Ok("macOS metadata".to_string())),
        ("broken.palette".to_string(), Ok("day.ink = #0d0c0b\n".to_string())),
        ("gone.palette".to_string(), Err("I/O error".to_string())),
        ("cinder.palette".to_string(), Ok(REFERENCE.to_string())),
    ];
    let (list, skipped) = load_files(files);
    let ids: Vec<&str> = list.iter().map(|p| p.id.as_str()).collect();
    assert_eq!(ids, ["alpha", "zeta"]);
    let all = skipped.join("\n");
    assert!(all.contains("alpha.palette: another file already uses the name `alpha`"), "{all}");
    assert!(all.contains("broken.palette: day.ink on day.bg"), "{all}");
    assert!(all.contains("gone.palette: could not be read (I/O error)"), "{all}");
    assert!(all.contains("cinder.palette: `cinder` is the built-in palette"), "{all}");
    assert_eq!(skipped.len(), 4, "{all}");
}

#[test]
fn only_the_first_max_files_load() {
    let files = (0..MAX_FILES + 3).map(|i| (format!("p{i:02}.palette"), Ok(String::new()))).collect();
    let (list, skipped) = load_files(files);
    assert_eq!(list.len(), MAX_FILES);
    assert_eq!(skipped.len(), 3);
}

#[test]
fn the_builtin_palette_is_cinder_and_stems_are_palette_files() {
    let b = Palette::builtin();
    assert_eq!((b.id.as_str(), b.name.as_str()), (BUILTIN_ID, BUILTIN_NAME));
    assert_eq!(b.tokens, cinder_tokens());
    assert_eq!(palette_stem("slate.palette"), Some("slate"));
    assert_eq!(palette_stem("Slate.PaLeTtE"), Some("Slate"));
    assert_eq!(palette_stem("a.b.palette"), Some("a.b"));
    assert_eq!(palette_stem("._slate.palette"), None);
    assert_eq!(palette_stem(".palette"), None);
    assert_eq!(palette_stem("slate.txt"), None);
    assert_eq!(palette_stem("slate"), None);
    assert!(valid_id("my-palette_2"));
    assert!(!valid_id("My"));
    assert!(!valid_id(&"x".repeat(MAX_ID + 1)));
}

#[test]
fn refusals_carry_exact_numbers() {
    let e = refused("murk", "day.ink = #141210\n");
    assert_eq!(e[0], "day.ink on day.bg: contrast 1.05, needs at least 4.50");
    let e = refused("glare", "night.bg = #808080\n");
    assert!(e.contains(&"night.bg is too bright for night mode (luminance 0.061, at most 0.02)".to_string()), "{e:?}");
    let e = refused("name", "name = \n");
    assert_eq!(e, vec!["line 1: `name` must be 1 to 16 characters".to_string()]);
    let p = ok("named", "  # comment\r\n\r\nname =   Dusk  \r\n");
    assert_eq!(p.name, "Dusk");
}

#[test]
fn a_folder_loads_the_same_whatever_order_it_is_listed_in() {
    let listing = || {
        vec![
            ("zeta.palette".to_string(), Ok("name = Zeta\n".to_string())),
            ("Alpha.PALETTE".to_string(), Ok(String::new())),
            ("alpha.palette".to_string(), Ok(String::new())),
            ("notes.txt".to_string(), Ok("ignored".to_string())),
            ("gone.palette".to_string(), Err("I/O error".to_string())),
        ]
    };
    let mut reversed = listing();
    reversed.reverse();
    let (a, sa) = load_files(listing());
    let (b, sb) = load_files(reversed);
    let ids = |l: &Vec<Palette>| l.iter().map(|p| p.id.clone()).collect::<Vec<_>>();
    assert_eq!(ids(&a), ids(&b));
    assert_eq!(sa, sb);
    // every palette file is accounted for: four of them, two loaded and two skipped
    assert_eq!(a.len() + sa.len(), 4);
}
