//! Navigation: the device's buttons, its screens, what the shell is asked to do, the Menu's rows,
//! the tokens a Shelf pin is persisted with, and `App`, the state machine that turns button
//! presses and swipes into screen transitions and playback actions, together with the device
//! state and the play queue it holds.
use vstd::prelude::*;
mod buttons;
mod gesture;
mod reorder;
mod touch;
use crate::strings::{dec, dec2, idec, int_of, all_digits, is_digit, digits_value, digit_of_char, push_dec, push_int, push_str, push_chars, owned, chars_of, chars_eq, string_of, parse_int, slice_chars};
use crate::overlay::{VOL_MAX, BT_VOL_MAX, VOL_FRAMES};
use crate::viz::{COUNT as VIZ_COUNT, SIZE_COUNT, VizSize, size_at};
use crate::theme::{Accent, accent_at, accent_index};
use crate::pairing::{PairedDevice, Prompt};
use crate::text::{TextScale, nearest_among, steps};
use crate::up_next::{RowDrag, Slot, layout_fits, current_top_px, content_px, follow_of, content_y, slot_at_point};
use crate::shelf::{SLOTS as SHELF_SLOTS, ShelfHit, shelf_hit};
use crate::panel::{W, H, STATUS_H, HEADER_BOTTOM, spec_in_rect};
use crate::pairing::{PairHit, prompt_hit, pair_hit};
use crate::usb_storage::OFF_BTN;
use crate::up_next::{CLEAR_CHIP, SHUFFLE_CHIP, GRIP_X0, GRIP_X1};
use crate::settings::{
    spec_accent_hit, spec_row_at as spec_settings_row_at, spec_ui_scale_idx_at, ui_scale_idx_at, SLIDER_X0,
    spec_content_height,
};
use crate::sound::spec_row_at as spec_sound_row_at;
use crate::now_playing::{in_circle, hit_circle, spec_permille_at, RAIL_HIT_TOP, RAIL_HIT_BOT};
use crate::settings::{
    ROWS as SETTINGS_ROWS, ROW_ACCENT, ROW_BATTERY, ROW_BOOT_STOCK, ROW_BRIGHTNESS, ROW_POWER_OFF, ROW_RESTART,
    ROW_SCREEN_OFF, ROW_SLEEP, ROW_THEME, ROW_UI_SCALE, ROW_USB_MODE, ROW_VIZ, ROW_VIZ_ANIM,
};
use crate::sound::ROWS as SOUND_ROWS;
use crate::onboarding::PAGES as ONBOARDING_PAGES;
use crate::palette::{first_index_of, lemma_first_index, lemma_first_index_props, trim, trim_start, trim_end, is_ws, texts, trim_range, find_first};

verus! {

/// A hardware button.
#[derive(Clone, Copy, PartialEq, Eq, Debug, Structural)]
pub enum Button {
    Up,
    Down,
    Left,
    Right,
    Select,
    Back,
    Option,
    Play,
    Home,
    VolUp,
    VolDown,
    Power,
    Next,
    Prev,
}

/// A screen of the UI.
#[derive(Clone, Copy, PartialEq, Eq, Debug, Structural)]
pub enum Screen {
    Lock,
    NowPlaying,
    Menu,
    Library,
    Album,
    Artist,
    Playlist,
    UpNext,
    Eq,
    Sound,
    Bluetooth,
    Pairing,
    Settings,
    Fm,
    UsbDac,
    Receiver,
    Onboarding,
    UsbStorage,
    Shelf,
}

/// What the Library's accent band shuffles.
#[derive(Clone, Copy, PartialEq, Eq, Debug, Structural)]
pub enum ShuffleScope {
    AllSongs,
    ByAlbum,
    ByArtist,
    Playlist,
}

/// Where a swipe-queued track goes.
#[derive(Clone, Copy, PartialEq, Eq, Debug, Structural)]
pub enum QueueAt {
    Next,
    Later,
}

/// A library tab.
#[derive(Clone, Copy, PartialEq, Eq, Debug, Structural)]
pub enum Tab {
    Songs,
    Albums,
    Artists,
    Playlists,
}

/// What the UI asks the shell to do.
#[derive(Clone, Copy, PartialEq, Eq, Debug)]
pub enum Action {
    PlayPause,
    Next,
    Prev,
    NextAlbum,
    PrevAlbum,
    VolUp,
    VolDown,
    /// Play the library track with this database object id.
    PlayIndex(i64),
    /// Play a whole playlist from the top.
    PlayPlaylist(i64),
    /// The accent band on each Library tab — shuffle within that scope.
    Shuffle(ShuffleScope),
    ShuffleArtist(usize),
    ShufflePlaylist(i64),
    ThemeChanged(bool),
    Sleep,
    EnterUsbMsc,
    /// Leave USB mass-storage: the shell remounts the volume and restores the USB mode.
    ExitUsbMsc,
    /// The shell applies the band gains to the sound DSP.
    EqChanged([i8; 10]),
    /// The shell turns the Bluetooth transmitter on or off.
    BtToggle(bool),
    BtDisconnect,
    BtConnectDevice(usize),
    BtForgetDevice(usize),
    BtPairedRefresh,
    BtScanToggle(bool),
    BtPairDevice(usize),
    BtPromptConfirm,
    BtPromptCancel,
    BatteryCareChanged(bool),
    SoundChanged,
    /// A/B: true = bypass the whole chain (B), false = re-enable it (A).
    SoundBypass(bool),
    /// Arm or cancel the sleep timer, in minutes (0 = off).
    SleepTimer(u32),
    ShuffleToggle,
    RepeatCycle,
    QueueChanged,
    Restart,
    PowerOff,
    BtCodecChanged,
    BtEnhancedChanged,
    UsbDacToggle(bool),
    Seek(u16),
    PlayQueueAt(usize),
    UiScaleChanged,
    /// Panel brightness level 1..5.
    BrightnessChanged(u8),
    /// Idle screen-off timeout in seconds (0 = off).
    ScreenOffTimer(u32),
    BootToStock,
    ToggleLiked,
}

/// The Menu's rows: the screen each opens, its icon, its title, and its subtitle. An empty
/// subtitle is one the Menu fills from live state; a non-empty one is always true.
pub const MENU: [(Screen, &'static str, &'static str, &'static str); 11] = [
    (Screen::NowPlaying, "note", "Now Playing", ""),
    (Screen::Library, "library", "Library", ""),
    (Screen::UpNext, "queue", "Up Next", ""),
    (Screen::Fm, "radio", "FM Radio", ""),
    (Screen::Eq, "eq", "Equalizer", ""),
    (Screen::Sound, "sound", "Sound Settings", ""),
    (Screen::Bluetooth, "bt", "Bluetooth", ""),
    (Screen::UsbDac, "usb", "USB-DAC", ""),
    (Screen::Receiver, "rx", "BT Receiver", "Off"),
    (Screen::Settings, "settings", "Settings", "System \u{b7} Storage \u{b7} About"),
    (Screen::Onboarding, "note", "Help & Controls", "Button map \u{b7} features"),
];

/// The screen-off timer's choices, in seconds (0 = off).
pub const SCREEN_OFF_PRESETS: [u32; 5] = [0, 15, 30, 60, 120];

/// A screen-off timeout as it reads: `OFF`, `15 SEC`, `2 MIN`, `1:30`.
pub open spec fn screen_off_text(secs: nat) -> Seq<char> {
    if secs == 0 {
        "OFF"@
    } else if secs < 60 {
        dec(secs) + " SEC"@
    } else if secs % 60 == 0 {
        dec(secs / 60) + " MIN"@
    } else {
        dec(secs / 60) + ":"@ + dec2(secs % 60)
    }
}

/// A screen-off timeout as it reads.
pub fn screen_off_label(secs: u32) -> (s: String)
    ensures
        s@ == screen_off_text(secs as nat),
{
    if secs == 0 {
        return owned("OFF");
    }
    let mut s = String::new();
    if secs < 60 {
        push_dec(&mut s, secs as u64);
        push_str(&mut s, " SEC");
    } else if secs % 60 == 0 {
        push_dec(&mut s, (secs / 60) as u64);
        push_str(&mut s, " MIN");
    } else {
        push_dec(&mut s, (secs / 60) as u64);
        push_str(&mut s, ":");
        let r = secs % 60;
        if r < 10 {
            push_str(&mut s, "0");
            let ghost before = s@;
            push_dec(&mut s, r as u64);
            proof { reveal_strlit("0"); }
            assert(s@ =~= old_before_pad(before, r as nat));
        } else {
            push_dec(&mut s, r as u64);
        }
    }
    s
}

/// Text `before` (ending in the pad zero) followed by the digit of `r`.
spec fn old_before_pad(before: Seq<char>, r: nat) -> Seq<char> {
    before + dec(r)
}

/// Can a Shelf pin hold this screen? The places you browse to and come back to; not the lock
/// screen, the Menu, the modal flows or the Shelf itself.
pub open spec fn spec_pinnable(s: Screen) -> bool {
    match s {
        Screen::NowPlaying | Screen::Library | Screen::Album | Screen::Artist | Screen::Playlist
        | Screen::UpNext | Screen::Eq | Screen::Sound | Screen::Bluetooth | Screen::Settings
        | Screen::Fm | Screen::UsbDac | Screen::Receiver => true,
        _ => false,
    }
}

/// Can a Shelf pin hold this screen?
pub fn pinnable(s: Screen) -> (b: bool)
    ensures
        b == spec_pinnable(s),
{
    match s {
        Screen::NowPlaying | Screen::Library | Screen::Album | Screen::Artist | Screen::Playlist
        | Screen::UpNext | Screen::Eq | Screen::Sound | Screen::Bluetooth | Screen::Settings
        | Screen::Fm | Screen::UsbDac | Screen::Receiver => true,
        _ => false,
    }
}

/// The short stable token a screen is persisted as. Tokens are part of the settings file's
/// format: a screen that cannot be pinned is stored as Now Playing's.
pub open spec fn token_of(s: Screen) -> Seq<char> {
    match s {
        Screen::NowPlaying => "np"@,
        Screen::Library => "lib"@,
        Screen::Album => "album"@,
        Screen::Artist => "artist"@,
        Screen::Playlist => "playlist"@,
        Screen::UpNext => "queue"@,
        Screen::Eq => "eq"@,
        Screen::Sound => "sound"@,
        Screen::Bluetooth => "bt"@,
        Screen::Settings => "settings"@,
        Screen::Fm => "fm"@,
        Screen::UsbDac => "usbdac"@,
        Screen::Receiver => "rx"@,
        _ => "np"@,
    }
}

/// The token a screen is persisted as.
pub fn screen_token(s: Screen) -> (t: &'static str)
    ensures
        t@ == token_of(s),
{
    match s {
        Screen::NowPlaying => "np",
        Screen::Library => "lib",
        Screen::Album => "album",
        Screen::Artist => "artist",
        Screen::Playlist => "playlist",
        Screen::UpNext => "queue",
        Screen::Eq => "eq",
        Screen::Sound => "sound",
        Screen::Bluetooth => "bt",
        Screen::Settings => "settings",
        Screen::Fm => "fm",
        Screen::UsbDac => "usbdac",
        Screen::Receiver => "rx",
        _ => "np",
    }
}

/// The screens that have a token of their own, in token order.
pub open spec fn tokened(i: int) -> Screen {
    if i == 0 { Screen::NowPlaying }
    else if i == 1 { Screen::Library }
    else if i == 2 { Screen::Album }
    else if i == 3 { Screen::Artist }
    else if i == 4 { Screen::Playlist }
    else if i == 5 { Screen::UpNext }
    else if i == 6 { Screen::Eq }
    else if i == 7 { Screen::Sound }
    else if i == 8 { Screen::Bluetooth }
    else if i == 9 { Screen::Settings }
    else if i == 10 { Screen::Fm }
    else if i == 11 { Screen::UsbDac }
    else { Screen::Receiver }
}

/// The screen a persisted token names, if it names one.
pub open spec fn screen_of(t: Seq<char>) -> Option<Screen> {
    if exists|i: int| 0 <= i < 13 && token_of(#[trigger] tokened(i)) == t {
        Some(tokened(choose|i: int| 0 <= i < 13 && token_of(#[trigger] tokened(i)) == t))
    } else {
        None
    }
}

/// The screen a persisted token names, if it names one.
pub fn screen_from_token(t: &str) -> (r: Option<Screen>)
    ensures
        r == screen_of(t@),
{
    let v = chars_of(t);
    let mut i: usize = 0;
    while i < 13
        invariant
            i <= 13,
            v@ == t@,
            forall|j: int| 0 <= j < i ==> token_of(#[trigger] tokened(j)) != t@,
        decreases 13 - i,
    {
        let s = tokened_exec(i);
        if chars_eq(&v, screen_token(s)) {
            proof { lemma_tokens_distinct(i as int); }
            return Some(s);
        }
        i += 1;
    }
    None
}

fn tokened_exec(i: usize) -> (s: Screen)
    ensures
        s == tokened(i as int),
{
    if i == 0 { Screen::NowPlaying }
    else if i == 1 { Screen::Library }
    else if i == 2 { Screen::Album }
    else if i == 3 { Screen::Artist }
    else if i == 4 { Screen::Playlist }
    else if i == 5 { Screen::UpNext }
    else if i == 6 { Screen::Eq }
    else if i == 7 { Screen::Sound }
    else if i == 8 { Screen::Bluetooth }
    else if i == 9 { Screen::Settings }
    else if i == 10 { Screen::Fm }
    else if i == 11 { Screen::UsbDac }
    else { Screen::Receiver }
}

/// What tells the tokens apart: their length and first character.
spec fn token_key(i: int) -> (nat, char) {
    if i == 0 { (2, 'n') }
    else if i == 1 { (3, 'l') }
    else if i == 2 { (5, 'a') }
    else if i == 3 { (6, 'a') }
    else if i == 4 { (8, 'p') }
    else if i == 5 { (5, 'q') }
    else if i == 6 { (2, 'e') }
    else if i == 7 { (5, 's') }
    else if i == 8 { (2, 'b') }
    else if i == 9 { (8, 's') }
    else if i == 10 { (2, 'f') }
    else if i == 11 { (6, 'u') }
    else { (2, 'r') }
}

proof fn lemma_token_key(j: int)
    requires
        0 <= j < 13,
    ensures
        token_of(tokened(j)).len() == token_key(j).0,
        token_of(tokened(j))[0] == token_key(j).1,
{
    reveal_strlit("np");
    reveal_strlit("lib");
    reveal_strlit("album");
    reveal_strlit("artist");
    reveal_strlit("playlist");
    reveal_strlit("queue");
    reveal_strlit("eq");
    reveal_strlit("sound");
    reveal_strlit("bt");
    reveal_strlit("settings");
    reveal_strlit("fm");
    reveal_strlit("usbdac");
    reveal_strlit("rx");
}

/// No two tokened screens share a token.
proof fn lemma_tokens_distinct(i: int)
    requires
        0 <= i < 13,
    ensures
        forall|j: int| 0 <= j < 13 && token_of(#[trigger] tokened(j)) == token_of(tokened(i)) ==> j == i,
{
    lemma_token_key(i);
    assert forall|j: int| 0 <= j < 13 && token_of(#[trigger] tokened(j)) == token_of(tokened(i)) implies j == i by {
        lemma_token_key(j);
    }
}

/// A pin round-trips through the settings file: every pinnable screen's token reads back as
/// that screen, and no token names a screen that cannot be pinned.
pub proof fn lemma_token_round_trip(s: Screen, t: Seq<char>)
    ensures
        spec_pinnable(s) ==> screen_of(token_of(s)) == Some(s),
        screen_of(t) matches Some(r) ==> spec_pinnable(r) && token_of(r) == t,
{
    if spec_pinnable(s) {
        let i: int = match s {
            Screen::NowPlaying => 0,
            Screen::Library => 1,
            Screen::Album => 2,
            Screen::Artist => 3,
            Screen::Playlist => 4,
            Screen::UpNext => 5,
            Screen::Eq => 6,
            Screen::Sound => 7,
            Screen::Bluetooth => 8,
            Screen::Settings => 9,
            Screen::Fm => 10,
            Screen::UsbDac => 11,
            _ => 12,
        };
        assert(tokened(i) == s);
        lemma_tokens_distinct(i);
    }
}

/// The token a library tab is persisted as.
pub open spec fn tab_token_of(t: Tab) -> Seq<char> {
    match t {
        Tab::Songs => "songs"@,
        Tab::Albums => "albums"@,
        Tab::Artists => "artists"@,
        Tab::Playlists => "playlists"@,
    }
}

/// The token a library tab is persisted as.
pub fn tab_token(t: Tab) -> (s: &'static str)
    ensures
        s@ == tab_token_of(t),
{
    match t {
        Tab::Songs => "songs",
        Tab::Albums => "albums",
        Tab::Artists => "artists",
        Tab::Playlists => "playlists",
    }
}

/// The tab a persisted token names; anything unknown is Albums, the Library's default.
pub open spec fn tab_of(t: Seq<char>) -> Tab {
    if t == "songs"@ {
        Tab::Songs
    } else if t == "artists"@ {
        Tab::Artists
    } else if t == "playlists"@ {
        Tab::Playlists
    } else {
        Tab::Albums
    }
}

/// The tab a persisted token names.
pub fn tab_from_token(t: &str) -> (r: Tab)
    ensures
        r == tab_of(t@),
{
    let v = chars_of(t);
    if chars_eq(&v, "songs") {
        Tab::Songs
    } else if chars_eq(&v, "artists") {
        Tab::Artists
    } else if chars_eq(&v, "playlists") {
        Tab::Playlists
    } else {
        Tab::Albums
    }
}

/// The tab after `t` in the Library's tab strip (wraps).
pub open spec fn spec_next_tab(t: Tab) -> Tab {
    match t {
        Tab::Songs => Tab::Albums,
        Tab::Albums => Tab::Artists,
        Tab::Artists => Tab::Playlists,
        Tab::Playlists => Tab::Songs,
    }
}

/// The tab before `t` (wraps).
pub open spec fn spec_prev_tab(t: Tab) -> Tab {
    match t {
        Tab::Songs => Tab::Playlists,
        Tab::Albums => Tab::Songs,
        Tab::Artists => Tab::Albums,
        Tab::Playlists => Tab::Artists,
    }
}

/// The tab after `t` (wraps).
pub fn next_tab(t: Tab) -> (r: Tab)
    ensures
        r == spec_next_tab(t),
{
    match t {
        Tab::Songs => Tab::Albums,
        Tab::Albums => Tab::Artists,
        Tab::Artists => Tab::Playlists,
        Tab::Playlists => Tab::Songs,
    }
}

/// The tab before `t` (wraps).
pub fn prev_tab(t: Tab) -> (r: Tab)
    ensures
        r == spec_prev_tab(t),
{
    match t {
        Tab::Songs => Tab::Playlists,
        Tab::Albums => Tab::Songs,
        Tab::Artists => Tab::Albums,
        Tab::Playlists => Tab::Artists,
    }
}

/// Swiping the tab strip one way undoes swiping it the other, and four steps come home.
pub proof fn lemma_tab_cycle(t: Tab)
    ensures
        spec_prev_tab(spec_next_tab(t)) == t,
        spec_next_tab(spec_prev_tab(t)) == t,
        spec_next_tab(spec_next_tab(spec_next_tab(spec_next_tab(t)))) == t,
        spec_next_tab(t) != t,
{
}

/// A tab's name on the tab strip.
pub open spec fn tab_title(t: Tab) -> Seq<char> {
    match t {
        Tab::Songs => "Songs"@,
        Tab::Albums => "Albums"@,
        Tab::Artists => "Artists"@,
        Tab::Playlists => "Playlists"@,
    }
}

/// A tab's name on the tab strip.
pub fn tab_name(t: Tab) -> (s: &'static str)
    ensures
        s@ == tab_title(t),
{
    match t {
        Tab::Songs => "Songs",
        Tab::Albums => "Albums",
        Tab::Artists => "Artists",
        Tab::Playlists => "Playlists",
    }
}

/// A screen's title: its Menu row's title, or the app's name for a screen the Menu does not
/// list.
pub open spec fn screen_title_of(s: Screen) -> Seq<char> {
    match s {
        Screen::NowPlaying => "Now Playing"@,
        Screen::Library => "Library"@,
        Screen::UpNext => "Up Next"@,
        Screen::Fm => "FM Radio"@,
        Screen::Eq => "Equalizer"@,
        Screen::Sound => "Sound Settings"@,
        Screen::Bluetooth => "Bluetooth"@,
        Screen::UsbDac => "USB-DAC"@,
        Screen::Receiver => "BT Receiver"@,
        Screen::Settings => "Settings"@,
        Screen::Onboarding => "Help & Controls"@,
        _ => "Cinder"@,
    }
}

/// A screen's title, taken from the Menu table.
pub fn screen_title(s: Screen) -> (t: &'static str)
    ensures
        t@ == screen_title_of(s),
{
    let mut i: usize = 0;
    while i < 11
        invariant
            i <= 11,
            forall|j: int| 0 <= j < i ==> MENU@[j].0 != s,
        decreases 11 - i,
    {
        if MENU[i].0 == s {
            return MENU[i].2;
        }
        i += 1;
    }
    "Cinder"
}

/// Every tab round-trips through its token.
pub proof fn lemma_tab_round_trip(t: Tab)
    ensures
        tab_of(tab_token_of(t)) == t,
{
    reveal_strlit("songs");
    reveal_strlit("albums");
    reveal_strlit("artists");
    reveal_strlit("playlists");
    assert("songs"@.len() == 5);
    assert("albums"@.len() == 6);
    assert("artists"@.len() == 7);
    assert("playlists"@.len() == 9);
}


// ── Shelf pins in the settings file ─────────────────────────────────────────────────────────

/// A pinned place, with its full route context, so restoring it lands where you were: same tab,
/// same sort, same scroll, same open accordion.
#[derive(Clone, PartialEq, Debug)]
pub struct ShelfPin {
    pub screen: Screen,
    pub lib_tab: Tab,
    pub lib_sort: usize,
    pub album_sort: usize,
    pub album_expanded: Option<usize>,
    pub lib_scroll_px: i32,
    pub album_view: usize,
    pub album_scroll_px: i32,
    pub artist_view: usize,
    pub playlist_view: usize,
    pub title: String,
    pub sub: String,
}

/// A pin as its contract speaks of it: the same fields, its two texts as character sequences.
pub struct PinFields {
    pub screen: Screen,
    pub lib_tab: Tab,
    pub lib_sort: usize,
    pub album_sort: usize,
    pub album_expanded: Option<usize>,
    pub lib_scroll_px: i32,
    pub album_view: usize,
    pub album_scroll_px: i32,
    pub artist_view: usize,
    pub playlist_view: usize,
    pub title: Seq<char>,
    pub sub: Seq<char>,
}

/// What a pin stands for.
pub open spec fn pin_view(p: ShelfPin) -> PinFields {
    PinFields {
        screen: p.screen,
        lib_tab: p.lib_tab,
        lib_sort: p.lib_sort,
        album_sort: p.album_sort,
        album_expanded: p.album_expanded,
        lib_scroll_px: p.lib_scroll_px,
        album_view: p.album_view,
        album_scroll_px: p.album_scroll_px,
        artist_view: p.artist_view,
        playlist_view: p.playlist_view,
        title: p.title@,
        sub: p.sub@,
    }
}

/// What a pin slot holds.
pub open spec fn pin_slot(p: Option<ShelfPin>) -> Option<PinFields> {
    match p {
        Some(q) => Some(pin_view(q)),
        None => None,
    }
}

/// Every Shelf slot empty.
fn empty_pins() -> (v: Vec<Option<ShelfPin>>)
    ensures
        v@.len() == SHELF_SLOTS,
        forall|i: int| 0 <= i < SHELF_SLOTS ==> v@[i] is None,
{
    let mut v: Vec<Option<ShelfPin>> = Vec::new();
    while v.len() < SHELF_SLOTS
        invariant
            v@.len() <= SHELF_SLOTS,
            forall|i: int| 0 <= i < v@.len() ==> v@[i] is None,
        decreases SHELF_SLOTS - v@.len(),
    {
        v.push(None);
    }
    v
}

/// A pin's text with the record's separators (`|` and line breaks) turned into spaces.
pub open spec fn clean(s: Seq<char>) -> Seq<char> {
    Seq::new(s.len(), |i: int| if s[i] == '|' || s[i] == '\n' { ' ' } else { s[i] })
}

/// `fs` joined by `|`.
pub open spec fn join_bar(fs: Seq<Seq<char>>) -> Seq<char>
    decreases fs.len(),
{
    if fs.len() == 0 {
        seq![]
    } else if fs.len() == 1 {
        fs[0]
    } else {
        fs[0] + seq!['|'] + join_bar(fs.drop_first())
    }
}

/// `s` split at every `|`, as `str::split` splits it: one field more than there are bars.
pub open spec fn fields_of(s: Seq<char>) -> Seq<Seq<char>>
    decreases s.len(),
{
    match first_index_of(s, '|') {
        None => seq![s],
        Some(i) => {
            proof { lemma_first_index_props(s, '|'); }
            seq![s.take(i)] + fields_of(s.skip(i + 1))
        },
    }
}

/// The twelve fields of a pin's record, in order.
pub open spec fn pin_fields(p: PinFields) -> Seq<Seq<char>> {
    seq![
        token_of(p.screen),
        tab_token_of(p.lib_tab),
        idec(p.lib_sort as int),
        idec(p.album_sort as int),
        idec(
            match p.album_expanded {
                Some(e) => (e as i64) as int,
                None => -1,
            },
        ),
        idec(p.lib_scroll_px as int),
        idec(p.album_view as int),
        idec(p.album_scroll_px as int),
        idec(p.artist_view as int),
        idec(p.playlist_view as int),
        clean(p.title),
        clean(p.sub),
    ]
}

/// A pin's record in the settings file: its fields joined by `|`.
pub open spec fn pin_record(p: PinFields) -> Seq<char> {
    join_bar(pin_fields(p))
}

/// A numeric field as the reader takes it: trimmed and read as an `i64`, or 0.
pub open spec fn num_of(f: Seq<char>) -> int {
    match int_of(trim(f)) {
        Some(v) => v,
        None => 0,
    }
}

/// `v` floored at 0.
pub open spec fn floor0(v: int) -> int {
    if v > 0 { v } else { 0 }
}

/// What a record reads back as, given how many sorts each list offers: nothing for a short
/// record or an unknown screen; otherwise each number is read (0 when it is not one), floored
/// at 0 and the two sorts capped at their last choice, `-1` (any negative) for no open album,
/// and the texts as they stand.
pub open spec fn pin_of(s: Seq<char>, sorts: usize, album_sorts: usize) -> Option<PinFields> {
    let f = fields_of(s);
    if f.len() < 12 {
        None
    } else {
        match screen_of(f[0]) {
            None => None,
            Some(screen) => {
                let ls = floor0(num_of(f[2])) as usize;
                let als = floor0(num_of(f[3])) as usize;
                let exp = num_of(f[4]);
                Some(PinFields {
                    screen,
                    lib_tab: tab_of(f[1]),
                    lib_sort: if ls < sorts - 1 { ls } else { (sorts - 1) as usize },
                    album_sort: if als < album_sorts - 1 { als } else { (album_sorts - 1) as usize },
                    album_expanded: if exp < 0 { None } else { Some(exp as usize) },
                    lib_scroll_px: floor0(num_of(f[5])) as i32,
                    album_view: floor0(num_of(f[6])) as usize,
                    album_scroll_px: floor0(num_of(f[7])) as i32,
                    artist_view: floor0(num_of(f[8])) as usize,
                    playlist_view: floor0(num_of(f[9])) as usize,
                    title: f[10],
                    sub: f[11],
                })
            },
        }
    }
}

/// Appends `t` with the record's separators turned into spaces.
fn push_clean(s: &mut String, t: &str)
    ensures
        final(s)@ == old(s)@ + clean(t@),
{
    let v = chars_of(t);
    let mut i: usize = 0;
    while i < v.len()
        invariant
            v@ == t@,
            i <= v@.len(),
            s@ == old(s)@ + clean(t@).subrange(0, i as int),
        decreases v.len() - i,
    {
        let c = v[i];
        s.push(if c == '|' || c == '\n' { ' ' } else { c });
        i += 1;
        assert(s@ =~= old(s)@ + clean(t@).subrange(0, i as int));
    }
    assert(clean(t@).subrange(0, i as int) =~= clean(t@));
}

/// Joining one more field adds a bar and the field.
proof fn lemma_join_push(fs: Seq<Seq<char>>, x: Seq<char>)
    requires
        fs.len() >= 1,
    ensures
        join_bar(fs.push(x)) == join_bar(fs) + seq!['|'] + x,
    decreases fs.len(),
{
    if fs.len() == 1 {
        assert(fs.push(x).drop_first() =~= seq![x]);
        assert(join_bar(seq![x]) == x);
        assert(join_bar(fs) == fs[0]);
        assert(join_bar(fs.push(x)) =~= fs[0] + seq!['|'] + x);
    } else {
        assert(fs.push(x).drop_first() =~= fs.drop_first().push(x));
        lemma_join_push(fs.drop_first(), x);
        assert(join_bar(fs.push(x)) =~= join_bar(fs) + seq!['|'] + x);
    }
}

/// Appends a bar and the literal `t` to a record whose fields so far are `acc`.
fn push_text_field(s: &mut String, t: &str, Ghost(acc): Ghost<Seq<Seq<char>>>)
    requires
        acc.len() >= 1,
        old(s)@ == join_bar(acc),
    ensures
        final(s)@ == join_bar(acc.push(t@)),
{
    s.push('|');
    push_str(s, t);
    proof { lemma_join_push(acc, t@); }
    assert(s@ =~= join_bar(acc) + seq!['|'] + t@);
}

/// Appends a bar and the number `v` to a record whose fields so far are `acc`.
fn push_int_field(s: &mut String, v: i64, Ghost(acc): Ghost<Seq<Seq<char>>>)
    requires
        acc.len() >= 1,
        old(s)@ == join_bar(acc),
    ensures
        final(s)@ == join_bar(acc.push(idec(v as int))),
{
    s.push('|');
    push_int(s, v);
    proof { lemma_join_push(acc, idec(v as int)); }
    assert(s@ =~= join_bar(acc) + seq!['|'] + idec(v as int));
}

/// Appends a bar and the count `v` to a record whose fields so far are `acc`.
fn push_count_field(s: &mut String, v: usize, Ghost(acc): Ghost<Seq<Seq<char>>>)
    requires
        acc.len() >= 1,
        old(s)@ == join_bar(acc),
    ensures
        final(s)@ == join_bar(acc.push(idec(v as int))),
{
    s.push('|');
    push_dec(s, v as u64);
    proof { lemma_join_push(acc, idec(v as int)); }
    assert(s@ =~= join_bar(acc) + seq!['|'] + idec(v as int));
}

/// Appends a bar and the cleaned text `t` to a record whose fields so far are `acc`.
fn push_clean_field(s: &mut String, t: &str, Ghost(acc): Ghost<Seq<Seq<char>>>)
    requires
        acc.len() >= 1,
        old(s)@ == join_bar(acc),
    ensures
        final(s)@ == join_bar(acc.push(clean(t@))),
{
    s.push('|');
    push_clean(s, t);
    proof { lemma_join_push(acc, clean(t@)); }
    assert(s@ =~= join_bar(acc) + seq!['|'] + clean(t@));
}

/// A pin's record for the settings file: its fields joined by `|`, with the separators in its
/// two texts turned into spaces so the record always splits back into the same twelve fields.
pub fn shelf_pin_encode(p: &ShelfPin) -> (s: String)
    ensures
        s@ == pin_record(pin_view(*p)),
{
    let ghost fs = pin_fields(pin_view(*p));
    let mut s = String::new();
    push_str(&mut s, screen_token(p.screen));
    assert(s@ =~= join_bar(fs.take(1)));
    push_text_field(&mut s, tab_token(p.lib_tab), Ghost(fs.take(1)));
    assert(fs.take(1).push(fs[1]) =~= fs.take(2));
    push_count_field(&mut s, p.lib_sort, Ghost(fs.take(2)));
    assert(fs.take(2).push(idec(p.lib_sort as int)) =~= fs.take(3));
    push_count_field(&mut s, p.album_sort, Ghost(fs.take(3)));
    assert(fs.take(3).push(idec(p.album_sort as int)) =~= fs.take(4));
    let exp: i64 = match p.album_expanded {
        Some(e) => e as i64,
        None => -1,
    };
    push_int_field(&mut s, exp, Ghost(fs.take(4)));
    assert(fs.take(4).push(idec(exp as int)) =~= fs.take(5));
    push_int_field(&mut s, p.lib_scroll_px as i64, Ghost(fs.take(5)));
    assert(fs.take(5).push(idec(p.lib_scroll_px as i64 as int)) =~= fs.take(6));
    push_count_field(&mut s, p.album_view, Ghost(fs.take(6)));
    assert(fs.take(6).push(idec(p.album_view as int)) =~= fs.take(7));
    push_int_field(&mut s, p.album_scroll_px as i64, Ghost(fs.take(7)));
    assert(fs.take(7).push(idec(p.album_scroll_px as i64 as int)) =~= fs.take(8));
    push_count_field(&mut s, p.artist_view, Ghost(fs.take(8)));
    assert(fs.take(8).push(idec(p.artist_view as int)) =~= fs.take(9));
    push_count_field(&mut s, p.playlist_view, Ghost(fs.take(9)));
    assert(fs.take(9).push(idec(p.playlist_view as int)) =~= fs.take(10));
    push_clean_field(&mut s, p.title.as_str(), Ghost(fs.take(10)));
    assert(fs.take(10).push(clean(p.title@)) =~= fs.take(11));
    push_clean_field(&mut s, p.sub.as_str(), Ghost(fs.take(11)));
    assert(fs.take(11).push(clean(p.sub@)) =~= fs);
    s
}


/// `v` split at every `|`, computed.
fn split_fields(v: &Vec<char>) -> (out: Vec<Vec<char>>)
    ensures
        texts(out@) == fields_of(v@),
{
    let len = v.len();
    let mut out: Vec<Vec<char>> = Vec::new();
    let mut pos: usize = 0;
    assert(v@.skip(0) =~= v@);
    assert(texts(out@) =~= seq![]);
    loop
        invariant_except_break
            pos <= len,
            len == v@.len(),
            fields_of(v@) == texts(out@) + fields_of(v@.skip(pos as int)),
        ensures
            texts(out@) == fields_of(v@),
        decreases len - pos,
    {
        let ghost rest = v@.skip(pos as int);
        assert(v@.subrange(pos as int, len as int) =~= rest);
        proof { lemma_first_index_props(rest, '|'); }
        match find_first(v, pos, len, '|') {
            None => {
                let f = slice_chars(v, pos, len);
                assert(fields_of(rest) == seq![rest]);
                let ghost before = texts(out@);
                out.push(f);
                assert(texts(out@) =~= before.push(rest));
                assert(fields_of(v@) =~= texts(out@));
                break;
            },
            Some(i) => {
                let f = slice_chars(v, pos, pos + i);
                assert(f@ =~= rest.take(i as int));
                assert(rest.skip(i + 1) =~= v@.skip((pos + i + 1) as int));
                let ghost before = texts(out@);
                out.push(f);
                assert(texts(out@) =~= before.push(rest.take(i as int)));
                assert(fields_of(v@) =~= texts(out@) + fields_of(v@.skip((pos + i + 1) as int)));
                pos = pos + i + 1;
            },
        }
    }
    out
}

/// A numeric field as the reader takes it, computed.
fn field_num(f: &Vec<char>) -> (n: i64)
    ensures
        n == num_of(f@),
{
    let (a, b) = trim_range(f, 0, f.len());
    assert(f@.subrange(0, f@.len() as int) =~= f@);
    let t = slice_chars(f, a, b);
    match parse_int(&t) {
        Some(x) => x,
        None => 0,
    }
}

/// Read a pin back from its record. A malformed or short record gives no pin rather than an
/// error — a hand-edited settings file must never keep the player from booting. `sorts` and
/// `album_sorts` are how many orders the Songs and Albums lists offer.
pub fn shelf_pin_decode(s: &str, sorts: usize, album_sorts: usize) -> (r: Option<ShelfPin>)
    requires
        sorts >= 1,
        album_sorts >= 1,
    ensures
        match r {
            Some(p) => pin_of(s@, sorts, album_sorts) == Some(pin_view(p)),
            None => pin_of(s@, sorts, album_sorts) is None,
        },
{
    let v = chars_of(s);
    let f = split_fields(&v);
    if f.len() < 12 {
        return None;
    }
    let head = string_of(&f[0]);
    let screen = match screen_from_token(head.as_str()) {
        Some(sc) => sc,
        None => return None,
    };
    let tab = tab_from_token(string_of(&f[1]).as_str());
    let ls = field_num(&f[2]);
    let als = field_num(&f[3]);
    let exp = field_num(&f[4]);
    let lsp = field_num(&f[5]);
    let av = field_num(&f[6]);
    let asp = field_num(&f[7]);
    let arv = field_num(&f[8]);
    let pv = field_num(&f[9]);
    let ls0 = (if ls > 0 { ls } else { 0 }) as usize;
    let als0 = (if als > 0 { als } else { 0 }) as usize;
    let p = ShelfPin {
        screen,
        lib_tab: tab,
        lib_sort: if ls0 < sorts - 1 { ls0 } else { sorts - 1 },
        album_sort: if als0 < album_sorts - 1 { als0 } else { album_sorts - 1 },
        album_expanded: if exp < 0 { None } else { Some(exp as usize) },
        lib_scroll_px: (if lsp > 0 { lsp } else { 0 }) as i32,
        album_view: (if av > 0 { av } else { 0 }) as usize,
        album_scroll_px: (if asp > 0 { asp } else { 0 }) as i32,
        artist_view: (if arv > 0 { arv } else { 0 }) as usize,
        playlist_view: (if pv > 0 { pv } else { 0 }) as usize,
        title: string_of(&f[10]),
        sub: string_of(&f[11]),
    };
    Some(p)
}


/// No `|` anywhere in `s`.
pub open spec fn bar_free(s: Seq<char>) -> bool {
    forall|i: int| 0 <= i < s.len() ==> s[i] != '|'
}

/// Splitting what was joined gives back the fields, as long as none of them holds a bar.
proof fn lemma_split_join(fs: Seq<Seq<char>>)
    requires
        fs.len() >= 1,
        forall|k: int| 0 <= k < fs.len() ==> bar_free(#[trigger] fs[k]),
    ensures
        fields_of(join_bar(fs)) == fs,
    decreases fs.len(),
{
    let s = join_bar(fs);
    if fs.len() == 1 {
        assert(bar_free(fs[0]));
        lemma_first_index(s, '|', s.len() as int);
        assert(fields_of(s) =~= fs);
    } else {
        let f0 = fs[0];
        assert(bar_free(f0));
        let rest = join_bar(fs.drop_first());
        assert(s == f0 + seq!['|'] + rest);
        assert(s[f0.len() as int] == '|');
        lemma_first_index(s, '|', f0.len() as int);
        assert(s.take(f0.len() as int) =~= f0);
        assert(s.skip(f0.len() as int + 1) =~= rest);
        assert forall|k: int| 0 <= k < fs.drop_first().len() implies bar_free(#[trigger] fs.drop_first()[k]) by {
            assert(fs.drop_first()[k] == fs[k + 1]);
        }
        lemma_split_join(fs.drop_first());
        assert(fields_of(s) =~= seq![f0] + fs.drop_first());
        assert(fs =~= seq![f0] + fs.drop_first());
    }
}

/// The decimal numeral of `n`: digits only, at least one, worth `n`.
proof fn lemma_dec_digits(n: nat)
    ensures
        dec(n).len() >= 1,
        all_digits(dec(n)),
        digits_value(dec(n)) == n,
    decreases n,
{
    let d = (n % 10) as int;
    assert(digit_of_char(crate::strings::digit_char(d)) == d);
    if n >= 10 {
        lemma_dec_digits(n / 10);
        assert(dec(n).drop_last() =~= dec(n / 10));
        assert(dec(n).last() == crate::strings::digit_char(d));
    } else {
        assert(dec(n).drop_last() =~= Seq::<char>::empty());
        assert(digits_value(Seq::<char>::empty()) == 0);
    }
}

/// A signed numeral reads back as its number, and holds no bar and no whitespace at its ends.
proof fn lemma_idec_reads_back(v: int)
    requires
        i64::MIN <= v <= i64::MAX,
    ensures
        int_of(trim(idec(v))) == Some(v),
        bar_free(idec(v)),
{
    let t = idec(v);
    if v < 0 {
        lemma_dec_digits((-v) as nat);
        assert(t.drop_first() =~= dec((-v) as nat));
    } else {
        lemma_dec_digits(v as nat);
    }
    assert(!is_ws(t[0]));
    assert(!is_ws(t.last()));
    assert(trim_start(t) == t);
    assert(trim_end(t) == t);
}

/// A screen's token and a tab's token hold no bar.
proof fn lemma_tokens_bar_free(s: Screen, t: Tab)
    ensures
        bar_free(token_of(s)),
        bar_free(tab_token_of(t)),
{
    reveal_strlit("np");
    reveal_strlit("lib");
    reveal_strlit("album");
    reveal_strlit("artist");
    reveal_strlit("playlist");
    reveal_strlit("queue");
    reveal_strlit("eq");
    reveal_strlit("sound");
    reveal_strlit("bt");
    reveal_strlit("settings");
    reveal_strlit("fm");
    reveal_strlit("usbdac");
    reveal_strlit("rx");
    reveal_strlit("songs");
    reveal_strlit("albums");
    reveal_strlit("artists");
    reveal_strlit("playlists");
}

/// A pin survives the settings file: reading back the record written for it gives the same pin,
/// its texts with the record's separators turned into spaces — for any pinnable screen, sorts
/// within the lists' choices, and numbers the reader can hold.
pub proof fn lemma_pin_round_trip(p: PinFields, sorts: usize, album_sorts: usize)
    requires
        spec_pinnable(p.screen),
        p.lib_sort < sorts,
        p.album_sort < album_sorts,
        p.lib_scroll_px >= 0,
        p.album_scroll_px >= 0,
        p.album_view <= i64::MAX,
        p.artist_view <= i64::MAX,
        p.playlist_view <= i64::MAX,
        p.lib_sort <= i64::MAX,
        p.album_sort <= i64::MAX,
        p.album_expanded matches Some(e) ==> e <= i64::MAX,
    ensures
        pin_of(pin_record(p), sorts, album_sorts) == Some(PinFields { title: clean(p.title), sub: clean(p.sub), ..p }),
{
    let fs = pin_fields(p);
    let exp: int = match p.album_expanded {
        Some(e) => (e as i64) as int,
        None => -1,
    };
    lemma_tokens_bar_free(p.screen, p.lib_tab);
    lemma_idec_reads_back(p.lib_sort as int);
    lemma_idec_reads_back(p.album_sort as int);
    lemma_idec_reads_back(exp);
    lemma_idec_reads_back(p.lib_scroll_px as int);
    lemma_idec_reads_back(p.album_view as int);
    lemma_idec_reads_back(p.album_scroll_px as int);
    lemma_idec_reads_back(p.artist_view as int);
    lemma_idec_reads_back(p.playlist_view as int);
    assert(bar_free(clean(p.title)));
    assert(bar_free(clean(p.sub)));
    assert forall|k: int| 0 <= k < fs.len() implies bar_free(#[trigger] fs[k]) by {
        if k == 4 {
            assert(fs[4] == idec(exp));
        }
    }
    lemma_split_join(fs);
    lemma_token_round_trip(p.screen, token_of(p.screen));
    lemma_tab_round_trip(p.lib_tab);
    let f = fields_of(pin_record(p));
    assert(f == fs);
    assert(num_of(f[2]) == p.lib_sort);
    assert(num_of(f[4]) == exp);
}


// ── The player's device state ────────────────────────────────────────────────────────────────

/// The sleep timer's choices, in minutes (0 = off).
pub const SLEEP_PRESETS: [u32; 5] = [0, 15, 30, 45, 60];

/// The screen-off choices, as a sequence.
pub open spec fn screen_off_presets() -> Seq<u32> {
    seq![0u32, 15, 30, 60, 120]
}

/// The sleep timer's choices, as a sequence.
pub open spec fn sleep_presets() -> Seq<u32> {
    seq![0u32, 15, 30, 45, 60]
}

/// Is `secs` one of the screen-off choices?
pub open spec fn is_screen_off_preset(secs: u32) -> bool {
    exists|i: int| 0 <= i < 5 && #[trigger] screen_off_presets()[i] == secs
}

/// What the UI holds of the device: the two volume levels and which one the rocker moves, the
/// Bluetooth link as last reported, the EQ gains and effect toggles, the sleep timer, the
/// screen-off timer, the backlight level and the level it comes back to, the accent, and what is
/// playing.
pub struct DeviceView {
    pub route: RouteView,
    pub cursors: Cursors,
    pub ui_scale: int,
    pub sound: SoundView,
    pub link: LinkView,
    pub devices: DevicesView,
    pub prefs: PrefsView,
    pub viz: VizView,
    pub play: PlayView,
}

/// A device row as the Bluetooth screen lists it: name, kind, and whether it is connected.
pub open spec fn device_row(d: PairedDevice) -> (Seq<char>, Seq<char>, bool) {
    (d.name@, d.kind@, d.connected)
}

/// The Bluetooth screen's lists as the shell last pushed them: the paired devices and the ones a
/// scan found (each in the order the shell indexes them), whether a scan is running, the pairing
/// prompt showing if any (its kind, the peer's name, the code), and the paired row armed to forget
/// or being connected, if any.
pub struct DevicesView {
    pub paired: Seq<(Seq<char>, Seq<char>, bool)>,
    pub found: Seq<(Seq<char>, Seq<char>, bool)>,
    pub scanning: bool,
    pub prompt: Option<(u8, Seq<char>, u32)>,
    pub forget_armed: Option<usize>,
    pub connecting: Option<usize>,
}

/// A question a modal card is asking.
#[derive(Clone, Copy, PartialEq, Eq, Debug, Structural)]
pub enum Ask {
    /// The Power menu (restart, power off, cancel).
    PowerMenu,
    Restart,
    PowerOff,
    /// Playing something new with tracks queued by hand: replace the queue, or keep it.
    QueueOnPlay,
}

/// How long a toast stays up, in frames.
pub const TOAST_FRAMES: u8 = 110;

/// How long the queue chip rides the row it was flicked from, in frames.
pub const QUEUE_ANIM_FRAMES: u8 = 24;

/// Where the UI is: the route stack (the screen on top is showing), whether the Hold switch has
/// locked it, the modal question up if any and the track waiting on its answer, whether the
/// Shelf sheet is open, whether the player is playing, the volume HUD's countdown, whether a
/// boot-to-stock is armed, night mode, the introduction's page, the toast showing and its
/// countdown, the queue chip's animation (the row it rides and its countdown), and the Shelf's pin
/// slots.
pub struct RouteView {
    pub stack: Seq<Screen>,
    pub locked: bool,
    pub confirm: Option<Ask>,
    pub pending_song: Option<i64>,
    pub shelf_open: bool,
    pub playing: bool,
    pub vol_overlay: u8,
    pub boot_stock_armed: bool,
    pub night: bool,
    pub onboarding_page: usize,
    pub toast: Seq<char>,
    pub toast_frames: u8,
    pub queue_anim_y: i32,
    pub queue_anim_frames: u8,
    pub pins: Seq<Option<PinFields>>,
}

/// The cursors and list positions of each screen: the Menu, Settings, Sound and EQ rows, the EQ
/// preset, the Library tab with its cursor, scroll and sort orders, the open album and the track
/// cursors of the album, playlist and artist pages, the artist and playlist open, the Settings
/// scroll, and Up Next's scroll, reorder drag, follow
/// flag and last-seen current row, the Now Playing page, and the horizontal scrub in flight with
/// the rail position it has reached.
#[derive(Clone, Copy, PartialEq, Debug)]
pub struct Cursors {
    pub menu_idx: usize,
    pub settings_sel: usize,
    pub sound_sel: usize,
    pub snd_ab_bypass: bool,
    pub eq_sel: usize,
    pub eq_preset: usize,
    pub lib_tab: Tab,
    pub lib_idx: usize,
    pub lib_scroll_px: i32,
    pub lib_sort: usize,
    pub album_sort: usize,
    pub album_expanded: Option<usize>,
    pub album_view: usize,
    pub album_track_idx: usize,
    pub album_scroll_px: i32,
    pub artist_view: usize,
    pub playlist_view: usize,
    pub playlist_track_idx: usize,
    pub artist_track_idx: usize,
    pub settings_scroll_px: i32,
    pub queue_scroll_px: i32,
    pub queue_drag: Option<RowDrag>,
    pub queue_follow: bool,
    pub up_next_cur: Option<usize>,
    pub np_page: u8,
    pub scrub: Scrub,
    pub scrub_permille: u16,
}

/// The audio side: the two volume levels and which one the rocker moves, the EQ gains, and the
/// effect toggles.
pub struct SoundView {
    pub volume: u8,
    pub bt_volume: u8,
    pub bt_route: bool,
    pub eq_bands: [i8; 10],
    pub snd_dsee: bool,
    pub snd_vinyl: bool,
    pub snd_vpt: bool,
    pub snd_dc: bool,
    pub snd_norm: bool,
    pub snd_clear: bool,
}

/// The connections: the Bluetooth switch, the codec preference and LDAC quality tier (indexes
/// into the Bluetooth screen's lists, 0 = LDAC and Auto), the link as last reported, enhanced
/// mode, and USB-DAC.
pub struct LinkView {
    pub bt_on: bool,
    pub bt_codec: u8,
    pub bt_ldac_quality: u8,
    pub bt_connected: Option<Seq<char>>,
    pub bt_link_known: bool,
    pub bt_enhanced: bool,
    pub bt_enhanced_supported: bool,
    pub usb_dac_on: bool,
}

/// The persisted preferences the Settings rows show: storage text, the two timers, the first-run
/// flag, battery care, liked count, the backlight and the level it comes back to, the accent.
pub struct PrefsView {
    pub storage: Seq<char>,
    pub sleep_min: u32,
    pub sleep_idx: usize,
    pub onboarding_seen: bool,
    pub battery_care: bool,
    pub screen_off_idx: usize,
    pub screen_off_s: u32,
    pub liked_count: usize,
    pub brightness: u8,
    pub brightness_restore: u8,
    pub accent: Accent,
}

/// The visualiser: which of its kinds is drawn, and its size (0 = off).
pub struct VizView {
    pub kind: u8,
    pub size: u8,
}

/// What is playing: the playback context (the sequence that was started, by track object id)
/// with the position in it, the user's own queue of picks (which plays first), whether the next
/// play keeps those picks, and the shuffle generator's seed.
pub struct PlayView {
    pub context: Seq<i64>,
    pub context_idx: usize,
    pub queue: Seq<i64>,
    pub queue_keep: bool,
    pub shuffle_seed: u64,
}

/// Every cursor at its start: the Library on its Albums tab, the EQ on its fourth preset, and Up
/// Next following playback.
pub open spec fn boot_cursors() -> Cursors {
    Cursors {
        menu_idx: 0,
        settings_sel: 0,
        sound_sel: 0,
        snd_ab_bypass: false,
        eq_sel: 0,
        eq_preset: 3,
        lib_tab: Tab::Albums,
        lib_idx: 0,
        lib_scroll_px: 0,
        lib_sort: 0,
        album_sort: 0,
        album_expanded: None,
        album_view: 0,
        album_track_idx: 0,
        album_scroll_px: 0,
        artist_view: 0,
        playlist_view: 0,
        playlist_track_idx: 0,
        artist_track_idx: 0,
        settings_scroll_px: 0,
        queue_scroll_px: 0,
        queue_drag: None,
        queue_follow: true,
        up_next_cur: None,
        np_page: 0,
        scrub: Scrub::Idle,
        scrub_permille: 0,
    }
}

/// The state at boot: locked on the Lock screen with no modal up and the Shelf closed, playing,
/// day mode, every cursor at its start, the text at native size; volume 15 on both routes, the
/// 3.5 mm route active, the link not yet reported and no devices listed, enhanced mode on and
/// supported, every effect off, both timers off, backlight 4, the default accent, Bluetooth on,
/// USB-DAC off, the first visualiser at its small size, nothing playing and nothing queued; the
/// EQ at `eq_bands`.
pub open spec fn boot_state(eq_bands: [i8; 10]) -> DeviceView {
    DeviceView {
        route: RouteView {
            stack: seq![Screen::Lock],
            locked: true,
            confirm: None,
            pending_song: None,
            shelf_open: false,
            playing: true,
            vol_overlay: 0,
            boot_stock_armed: false,
            night: false,
            onboarding_page: 0,
            toast: Seq::empty(),
            toast_frames: 0,
            queue_anim_y: 0,
            queue_anim_frames: 0,
            pins: Seq::new(SHELF_SLOTS as nat, |i: int| None),
        },
        cursors: boot_cursors(),
        ui_scale: 100,
        sound: SoundView {
            volume: 15,
            bt_volume: 15,
            bt_route: false,
            eq_bands: eq_bands,
            snd_dsee: false,
            snd_vinyl: false,
            snd_vpt: false,
            snd_dc: false,
            snd_norm: false,
            snd_clear: false,
        },
        link: LinkView {
            bt_on: true,
            bt_codec: 0,
            bt_ldac_quality: 0,
            bt_connected: None,
            bt_link_known: false,
            bt_enhanced: true,
            bt_enhanced_supported: true,
            usb_dac_on: false,
        },
        devices: DevicesView {
            paired: Seq::empty(),
            found: Seq::empty(),
            scanning: false,
            prompt: None,
            forget_armed: None,
            connecting: None,
        },
        prefs: PrefsView {
            storage: Seq::empty(),
            sleep_min: 0,
            sleep_idx: 0,
            onboarding_seen: false,
            battery_care: false,
            screen_off_idx: 0,
            screen_off_s: 0,
            liked_count: 0,
            brightness: 4,
            brightness_restore: 4,
            accent: Accent::Amber,
        },
        viz: VizView { kind: 0, size: 1 },
        play: PlayView {
            context: Seq::empty(),
            context_idx: 0,
            queue: Seq::empty(),
            queue_keep: false,
            shuffle_seed: 0x9E3779B97F4A7C15,
        },
    }
}

impl DeviceView {
    /// Every level on its own scale; the timers on one of their choices; the backlight at most
    /// 5, and the level it comes back to never dark; every row cursor on a row.
    pub open spec fn valid(self) -> bool {
        &&& self.sound.volume <= VOL_MAX
        &&& self.sound.bt_volume <= BT_VOL_MAX
        &&& self.prefs.sleep_idx < 5
        &&& self.prefs.screen_off_idx < 5
        &&& self.prefs.screen_off_s == screen_off_presets()[self.prefs.screen_off_idx as int]
        &&& self.prefs.brightness <= 5
        &&& 1 <= self.prefs.brightness_restore <= 5
        &&& self.cursors.menu_idx < 11
        &&& self.cursors.settings_sel < SETTINGS_ROWS
        &&& self.cursors.sound_sel < SOUND_ROWS
        &&& self.cursors.eq_sel < 10
        &&& self.route.onboarding_page < ONBOARDING_PAGES
        &&& self.route.pins.len() == SHELF_SLOTS
    }
}

/// The volume the HUD draws, on the 0..`VOL_MAX` scale whichever route is active: Bluetooth's
/// steps are stretched over it.
pub open spec fn hud_volume(v: DeviceView) -> int {
    if v.sound.bt_route {
        (v.sound.bt_volume as int * VOL_MAX as int) / BT_VOL_MAX as int
    } else {
        v.sound.volume as int
    }
}

/// One press on a level of scale `max`, saturating at both ends.
pub open spec fn step_level(l: u8, max: u8, up: bool) -> u8 {
    if up { if l < max { (l + 1) as u8 } else { max } } else { if l > 0 { (l - 1) as u8 } else { 0 } }
}

/// One rocker press on the level the active route owns.
pub open spec fn stepped(v: DeviceView, up: bool) -> DeviceView {
    if v.sound.bt_route {
        DeviceView {
            sound: SoundView { bt_volume: step_level(v.sound.bt_volume, BT_VOL_MAX, up), ..v.sound },
            ..v
        }
    } else {
        DeviceView {
            sound: SoundView { volume: step_level(v.sound.volume, VOL_MAX, up), ..v.sound },
            ..v
        }
    }
}

/// One press on a level of scale `max`.
fn step_level_exec(l: u8, max: u8, up: bool) -> (r: u8)
    ensures
        r == step_level(l, max, up),
{
    if up { if l < max { l + 1 } else { max } } else { if l > 0 { l - 1 } else { 0 } }
}

/// The player's device state as the UI holds it: what the shell pushes in after reading the
/// hardware, and what it reads back to apply or persist.
pub struct App {
    route: Route,
    cursors: Cursors,
    ui_scale: TextScale,
    sound: Sound,
    link: Link,
    devices: Devices,
    prefs: Prefs,
    viz_kind: u8,
    viz_size: u8,
    play: Play,
}

/// Where the UI is.
struct Route {
    stack: Vec<Screen>,
    locked: bool,
    confirm: Option<Ask>,
    pending_song: Option<i64>,
    shelf_open: bool,
    playing: bool,
    vol_overlay: u8,
    boot_stock_armed: bool,
    night: bool,
    onboarding_page: usize,
    toast: String,
    toast_frames: u8,
    queue_anim_y: i32,
    queue_anim_frames: u8,
    pins: Vec<Option<ShelfPin>>,
}

impl View for Route {
    type V = RouteView;

    closed spec fn view(&self) -> RouteView {
        RouteView {
            stack: self.stack@,
            locked: self.locked,
            confirm: self.confirm,
            pending_song: self.pending_song,
            shelf_open: self.shelf_open,
            playing: self.playing,
            vol_overlay: self.vol_overlay,
            boot_stock_armed: self.boot_stock_armed,
            night: self.night,
            onboarding_page: self.onboarding_page,
            toast: self.toast@,
            toast_frames: self.toast_frames,
            queue_anim_y: self.queue_anim_y,
            queue_anim_frames: self.queue_anim_frames,
            pins: self.pins@.map_values(|p: Option<ShelfPin>| pin_slot(p)),
        }
    }
}

/// The audio side of the device state.
struct Sound {
    volume: u8,
    bt_volume: u8,
    bt_route: bool,
    eq_bands: [i8; 10],
    snd_dsee: bool,
    snd_vinyl: bool,
    snd_vpt: bool,
    snd_dc: bool,
    snd_norm: bool,
    snd_clear: bool,
}

/// The connections.
struct Link {
    bt_on: bool,
    bt_codec: u8,
    bt_ldac_quality: u8,
    bt_connected: Option<String>,
    bt_link_known: bool,
    bt_enhanced: bool,
    bt_enhanced_supported: bool,
    usb_dac_on: bool,
}

/// The Bluetooth screen's lists.
struct Devices {
    paired: Vec<PairedDevice>,
    found: Vec<PairedDevice>,
    scanning: bool,
    prompt: Option<Prompt>,
    forget_armed: Option<usize>,
    connecting: Option<usize>,
}

/// The persisted preferences.
struct Prefs {
    storage: String,
    sleep_min: u32,
    sleep_idx: usize,
    onboarding_seen: bool,
    battery_care: bool,
    screen_off_idx: usize,
    liked_count: usize,
    brightness: u8,
    brightness_restore: u8,
    accent: Accent,
}

/// What is playing.
struct Play {
    context: Vec<i64>,
    context_idx: usize,
    queue: Vec<i64>,
    queue_keep: bool,
    shuffle_seed: u64,
}

impl View for Sound {
    type V = SoundView;

    closed spec fn view(&self) -> SoundView {
        SoundView {
            volume: self.volume,
            bt_volume: self.bt_volume,
            bt_route: self.bt_route,
            eq_bands: self.eq_bands,
            snd_dsee: self.snd_dsee,
            snd_vinyl: self.snd_vinyl,
            snd_vpt: self.snd_vpt,
            snd_dc: self.snd_dc,
            snd_norm: self.snd_norm,
            snd_clear: self.snd_clear,
        }
    }
}

impl View for Link {
    type V = LinkView;

    closed spec fn view(&self) -> LinkView {
        LinkView {
            bt_on: self.bt_on,
            bt_codec: self.bt_codec,
            bt_ldac_quality: self.bt_ldac_quality,
            bt_connected: match self.bt_connected {
                Some(s) => Some(s@),
                None => None,
            },
            bt_link_known: self.bt_link_known,
            bt_enhanced: self.bt_enhanced,
            bt_enhanced_supported: self.bt_enhanced_supported,
            usb_dac_on: self.usb_dac_on,
        }
    }
}

impl View for Devices {
    type V = DevicesView;

    closed spec fn view(&self) -> DevicesView {
        DevicesView {
            paired: self.paired@.map_values(|d: PairedDevice| device_row(d)),
            found: self.found@.map_values(|d: PairedDevice| device_row(d)),
            scanning: self.scanning,
            prompt: match self.prompt {
                Some(p) => Some((p.kind, p.name@, p.code)),
                None => None,
            },
            forget_armed: self.forget_armed,
            connecting: self.connecting,
        }
    }
}

impl View for Prefs {
    type V = PrefsView;

    closed spec fn view(&self) -> PrefsView {
        PrefsView {
            storage: self.storage@,
            sleep_min: self.sleep_min,
            sleep_idx: self.sleep_idx,
            onboarding_seen: self.onboarding_seen,
            battery_care: self.battery_care,
            screen_off_idx: self.screen_off_idx,
            screen_off_s: screen_off_presets()[self.screen_off_idx as int],
            liked_count: self.liked_count,
            brightness: self.brightness,
            brightness_restore: self.brightness_restore,
            accent: self.accent,
        }
    }
}

impl View for Play {
    type V = PlayView;

    closed spec fn view(&self) -> PlayView {
        PlayView {
            context: self.context@,
            context_idx: self.context_idx,
            queue: self.queue@,
            queue_keep: self.queue_keep,
            shuffle_seed: self.shuffle_seed,
        }
    }
}

impl View for App {
    type V = DeviceView;

    closed spec fn view(&self) -> DeviceView {
        DeviceView {
            route: self.route@,
            cursors: self.cursors,
            ui_scale: self.ui_scale.pct(),
            sound: self.sound@,
            link: self.link@,
            devices: self.devices@,
            prefs: self.prefs@,
            viz: VizView { kind: self.viz_kind, size: self.viz_size },
            play: self.play@,
        }
    }
}

impl App {
    /// The state at boot (see `boot_state`): locked on the Lock screen, no modal, the Shelf
    /// closed. The EQ starts from `eq_bands`.
    pub fn new(eq_bands: [i8; 10]) -> (a: App)
        ensures
            a@ == boot_state(eq_bands),
            a@.valid(),
    {
        let a = App {
            route: Route {
                stack: vec![Screen::Lock],
                locked: true,
                confirm: None,
                pending_song: None,
                shelf_open: false,
                playing: true,
                vol_overlay: 0,
                boot_stock_armed: false,
                night: false,
                onboarding_page: 0,
                toast: String::new(),
                toast_frames: 0,
                queue_anim_y: 0,
                queue_anim_frames: 0,
                pins: empty_pins(),
            },
            cursors: Cursors {
                menu_idx: 0,
                settings_sel: 0,
                sound_sel: 0,
                snd_ab_bypass: false,
                eq_sel: 0,
                eq_preset: 3,
                lib_tab: Tab::Albums,
                lib_idx: 0,
                lib_scroll_px: 0,
                lib_sort: 0,
                album_sort: 0,
                album_expanded: None,
                album_view: 0,
                album_track_idx: 0,
                album_scroll_px: 0,
                artist_view: 0,
                playlist_view: 0,
                playlist_track_idx: 0,
                artist_track_idx: 0,
                settings_scroll_px: 0,
                queue_scroll_px: 0,
                queue_drag: None,
                queue_follow: true,
                up_next_cur: None,
                np_page: 0,
                scrub: Scrub::Idle,
                scrub_permille: 0,
            },
            ui_scale: TextScale::new(),
            sound: Sound {
                volume: 15,
                bt_volume: 15,
                bt_route: false,
                eq_bands,
                snd_dsee: false,
                snd_vinyl: false,
                snd_vpt: false,
                snd_dc: false,
                snd_norm: false,
                snd_clear: false,
            },
            link: Link {
                bt_on: true,
                bt_codec: 0,
                bt_ldac_quality: 0,
                bt_connected: None,
                bt_link_known: false,
                bt_enhanced: true,
                bt_enhanced_supported: true,
                usb_dac_on: false,
            },
            devices: Devices {
                paired: Vec::new(),
                found: Vec::new(),
                scanning: false,
                prompt: None,
                forget_armed: None,
                connecting: None,
            },
            prefs: Prefs {
                storage: String::new(),
                sleep_min: 0,
                sleep_idx: 0,
                onboarding_seen: false,
                battery_care: false,
                screen_off_idx: 0,
                liked_count: 0,
                brightness: 4,
                brightness_restore: 4,
                accent: Accent::Amber,
            },
            viz_kind: 0,
            viz_size: 1,
            play: Play {
                context: Vec::new(),
                context_idx: 0,
                queue: Vec::new(),
                queue_keep: false,
                shuffle_seed: 0x9E3779B97F4A7C15,
            },
        };
        assert(a@.route.stack =~= seq![Screen::Lock]);
        assert(a@.route.toast =~= Seq::empty());
        assert(a@.route.pins =~= Seq::new(SHELF_SLOTS as nat, |i: int| None::<PinFields>));
        assert(a@.devices.paired =~= Seq::empty());
        assert(a@.devices.found =~= Seq::empty());
        a
    }

    /// Sync the 3.5 mm level to the device's real one, clamped to the scale.
    pub fn set_volume(&mut self, level: u8)
        requires
            old(self)@.valid(),
        ensures
            final(self)@ == (DeviceView {
                sound: SoundView {
                    volume: if level < VOL_MAX { level } else { VOL_MAX },
                    ..old(self)@.sound
                },
                ..old(self)@
            }),
            final(self)@.valid(),
    {
        self.sound.volume = if level < VOL_MAX { level } else { VOL_MAX };
    }

    /// The 3.5 mm level.
    pub fn volume(&self) -> (l: u8)
        requires
            self@.valid(),
        ensures
            l == self@.sound.volume,
            l <= VOL_MAX,
    {
        self.sound.volume
    }

    /// The 3.5 mm level, 0..`VOL_MAX`, as the shell writes it to the mixer. It stays that level
    /// while Bluetooth is the route.
    pub fn volume_level(&self) -> (l: u8)
        requires
            self@.valid(),
        ensures
            l == self@.sound.volume,
            l <= VOL_MAX,
    {
        self.sound.volume
    }

    /// One rocker press on whichever level the active route owns.
    pub fn vol_step(&mut self, up: bool)
        requires
            old(self)@.valid(),
        ensures
            final(self)@ == stepped(old(self)@, up),
            final(self)@.valid(),
    {
        if self.sound.bt_route {
            self.sound.bt_volume = step_level_exec(self.sound.bt_volume, BT_VOL_MAX, up);
        } else {
            self.sound.volume = step_level_exec(self.sound.volume, VOL_MAX, up);
        }
    }

    /// The level the HUD draws, always on the 0..`VOL_MAX` scale.
    pub fn display_volume(&self) -> (l: u8)
        requires
            self@.valid(),
        ensures
            l == hud_volume(self@),
            l <= VOL_MAX,
    {
        if self.sound.bt_route {
            let scaled: u16 = (self.sound.bt_volume as u16 * VOL_MAX as u16) / BT_VOL_MAX as u16;
            assert(scaled <= VOL_MAX) by (nonlinear_arith)
                requires
                    scaled == (self.sound.bt_volume as int * 120) / 64,
                    self.sound.bt_volume <= 64,
            ;
            scaled as u8
        } else {
            self.sound.volume
        }
    }

    /// The Bluetooth route's own level, in sink steps.
    pub fn bt_volume_level(&self) -> (l: u8)
        requires
            self@.valid(),
        ensures
            l == self@.sound.bt_volume,
            l <= BT_VOL_MAX,
    {
        self.sound.bt_volume
    }

    /// Set the Bluetooth level, clamped to its scale.
    pub fn set_bt_volume(&mut self, level: u8)
        requires
            old(self)@.valid(),
        ensures
            final(self)@ == (DeviceView {
                sound: SoundView {
                    bt_volume: if level < BT_VOL_MAX { level } else { BT_VOL_MAX },
                    ..old(self)@.sound
                },
                ..old(self)@
            }),
            final(self)@.valid(),
    {
        self.sound.bt_volume = if level < BT_VOL_MAX { level } else { BT_VOL_MAX };
    }

    /// Is Bluetooth the active route?
    pub fn bt_route(&self) -> (b: bool)
        ensures
            b == self@.sound.bt_route,
    {
        self.sound.bt_route
    }

    /// Which route the rocker follows from the next press on. Neither level changes.
    pub fn set_bt_route(&mut self, on: bool)
        requires
            old(self)@.valid(),
        ensures
            final(self)@ == (DeviceView {
                sound: SoundView { bt_route: on, ..old(self)@.sound },
                ..old(self)@
            }),
            final(self)@.valid(),
    {
        self.sound.bt_route = on;
    }
}


/// What a reported peer name leaves the link as: a non-empty name is a peer, anything else none.
pub open spec fn reported_peer(name: Option<&str>) -> Option<Seq<char>> {
    match name {
        Some(n) => if n@.len() > 0 { Some(n@) } else { None },
        None => None,
    }
}

/// A band gain clamped to the editable ±6 dB.
pub open spec fn clamp_band(b: i8) -> i8 {
    if b < -6 { -6i8 } else if b > 6 { 6i8 } else { b }
}

/// Each band gain clamped to ±6 dB.
pub open spec fn clamped_bands(bands: Seq<i8>) -> Seq<i8> {
    bands.map_values(|b: i8| clamp_band(b))
}

/// The effect toggles as a byte: DSEE, Vinyl, VPT, DC-Phase, Normalizer, ClearAudio+ from the
/// lowest bit up.
pub open spec fn flags_byte(v: DeviceView) -> int {
    let s = v.sound;
    (if s.snd_dsee { 1int } else { 0 }) + (if s.snd_vinyl { 2int } else { 0 }) + (if s.snd_vpt { 4int } else { 0 })
        + (if s.snd_dc { 8int } else { 0 }) + (if s.snd_norm { 16int } else { 0 }) + (if s.snd_clear {
        32int
    } else {
        0
    })
}

/// The sleep timer's row as it reads: `OFF`, or the minutes left.
pub open spec fn sleep_text(min: u32) -> Seq<char> {
    if min == 0 { "OFF"@ } else { dec(min as nat) + " MIN"@ }
}

/// Where a restored screen-off value lands in the choices: its own position, or OFF's.
pub open spec fn snapped_index(secs: u32) -> usize {
    if secs == 15 { 1 } else if secs == 30 { 2 } else if secs == 60 { 3 } else if secs == 120 { 4 } else { 0 }
}

/// The backlight's next stop on the Settings row: 1 to 5, then off, then 1 again.
pub open spec fn next_brightness(b: u8) -> u8 {
    if b == 0 { 1 } else if b == 5 { 0 } else { (b + 1) as u8 }
}


/// The Sleep row's next choice, wrapping back to OFF.
pub open spec fn sleep_cycled(v: DeviceView) -> DeviceView {
    let i = (v.prefs.sleep_idx + 1) % 5;
    DeviceView { prefs: PrefsView { sleep_idx: i as usize, sleep_min: sleep_presets()[i], ..v.prefs }, ..v }
}

/// The battery-care setting flipped.
pub open spec fn battery_toggled(v: DeviceView) -> DeviceView {
    DeviceView { prefs: PrefsView { battery_care: !v.prefs.battery_care, ..v.prefs }, ..v }
}

/// The Screen-off row's next choice, wrapping back to OFF.
pub open spec fn screen_off_cycled(v: DeviceView) -> DeviceView {
    let i = (v.prefs.screen_off_idx + 1) % 5;
    DeviceView { prefs: PrefsView { screen_off_idx: i as usize, screen_off_s: screen_off_presets()[i], ..v.prefs }, ..v }
}

/// The backlight's next stop; a visible one also becomes the level to come back to.
pub open spec fn brightness_cycled(v: DeviceView) -> DeviceView {
    let n = next_brightness(v.prefs.brightness);
    DeviceView {
        prefs: PrefsView {
            brightness: n,
            brightness_restore: if n != 0 { n } else { v.prefs.brightness_restore },
            ..v.prefs
        },
        ..v
    }
}

/// The next visualiser kind, wrapping.
pub open spec fn viz_cycled(v: DeviceView) -> DeviceView {
    DeviceView { viz: VizView { kind: ((v.viz.kind + 1) % (VIZ_COUNT as int)) as u8, ..v.viz }, ..v }
}

/// The next visualiser size, wrapping.
pub open spec fn viz_size_cycled(v: DeviceView) -> DeviceView {
    DeviceView { viz: VizView { size: ((v.viz.size + 1) % (SIZE_COUNT as int)) as u8, ..v.viz }, ..v }
}

/// The backlight's next stop.
fn next_brightness_exec(b: u8) -> (n: u8)
    requires
        b <= 5,
    ensures
        n == next_brightness(b),
        n <= 5,
{
    if b == 0 { 1 } else if b == 5 { 0 } else { b + 1 }
}

/// A restored backlight level, clamped to the visible 1..5.
pub open spec fn clamp_brightness(level: u8) -> u8 {
    if level < 1 { 1 } else if level > 5 { 5 } else { level }
}

impl App {
    /// Push the connected peer's name (none, or an empty name, for no peer). True when the Bluetooth
    /// screen must repaint: the peer changed, or this is the first report.
    pub fn set_bt_connected(&mut self, name: Option<&str>) -> (changed: bool)
        requires
            old(self)@.valid(),
        ensures
            final(self)@ == (DeviceView {
                link: LinkView {
                    bt_connected: reported_peer(name),
                    bt_link_known: true,
                    ..old(self)@.link
                },
                ..old(self)@
            }),
            changed == (reported_peer(name) != old(self)@.link.bt_connected || !old(self)@.link.bt_link_known),
            final(self)@.valid(),
    {
        let next: Option<String> = match name {
            Some(n) => if n.is_empty() { None } else { Some(owned(n)) },
            None => None,
        };
        let same = match (&next, &self.link.bt_connected) {
            (Some(a), Some(b)) => *a == *b,
            (None, None) => true,
            _ => false,
        };
        let changed = !same || !self.link.bt_link_known;
        self.link.bt_connected = next;
        self.link.bt_link_known = true;
        changed
    }

    /// The connected peer's name, if any.
    pub fn bt_connected(&self) -> (r: Option<&str>)
        ensures
            match r {
                Some(t) => self@.link.bt_connected == Some(t@),
                None => self@.link.bt_connected is None,
            },
    {
        match &self.link.bt_connected {
            Some(s) => Some(s.as_str()),
            None => None,
        }
    }

    /// Has the shell reported the link at least once? Until then "no peer" would be a guess.
    pub fn bt_link_known(&self) -> (b: bool)
        ensures
            b == self@.link.bt_link_known,
    {
        self.link.bt_link_known
    }

    /// Absolute-volume ("enhanced") mode, the user's preference.
    pub fn bt_enhanced(&self) -> (b: bool)
        ensures
            b == self@.link.bt_enhanced,
    {
        self.link.bt_enhanced
    }

    /// Restore the enhanced-mode preference.
    pub fn set_bt_enhanced(&mut self, on: bool)
        requires
            old(self)@.valid(),
        ensures
            final(self)@ == (DeviceView {
                link: LinkView { bt_enhanced: on, ..old(self)@.link },
                ..old(self)@
            }),
            final(self)@.valid(),
    {
        self.link.bt_enhanced = on;
    }

    /// Report whether the sink supports enhanced mode. True only when that changed.
    pub fn set_bt_enhanced_supported(&mut self, on: bool) -> (changed: bool)
        requires
            old(self)@.valid(),
        ensures
            final(self)@ == (DeviceView {
                link: LinkView { bt_enhanced_supported: on, ..old(self)@.link },
                ..old(self)@
            }),
            changed == (old(self)@.link.bt_enhanced_supported != on),
            final(self)@.valid(),
    {
        let changed = self.link.bt_enhanced_supported != on;
        self.link.bt_enhanced_supported = on;
        changed
    }

    /// The ten EQ gains, in dB, for the shell to apply to the DSP.
    pub fn eq_bands(&self) -> (b: [i8; 10])
        ensures
            b == self@.sound.eq_bands,
    {
        self.sound.eq_bands
    }

    /// Restore the EQ gains, each clamped to ±6 dB.
    pub fn set_eq_bands(&mut self, bands: [i8; 10])
        requires
            old(self)@.valid(),
        ensures
            final(self)@ == (DeviceView {
                sound: SoundView { eq_bands: final(self)@.sound.eq_bands, ..old(self)@.sound },
                ..old(self)@
            }),
            final(self)@.sound.eq_bands@ == clamped_bands(bands@),
            final(self)@.valid(),
    {
        let mut out = bands;
        let mut i: usize = 0;
        while i < 10
            invariant
                i <= 10,
                out@.len() == 10,
                forall|j: int| 0 <= j < i ==> out@[j] == clamp_band(bands@[j]),
                forall|j: int| i <= j < 10 ==> out@[j] == bands@[j],
            decreases 10 - i,
        {
            let b = out[i];
            out[i] = if b < -6 { -6 } else if b > 6 { 6 } else { b };
            i += 1;
        }
        assert(out@ =~= clamped_bands(bands@));
        self.sound.eq_bands = out;
    }

    /// Restore the effect toggles from a byte (see `sound_flags` for the bit order).
    pub fn set_sound_flags(&mut self, f: u8)
        requires
            old(self)@.valid(),
        ensures
            final(self)@ == (DeviceView {
                sound: SoundView {
                    snd_dsee: f & 1 != 0,
                    snd_vinyl: f & 2 != 0,
                    snd_vpt: f & 4 != 0,
                    snd_dc: f & 8 != 0,
                    snd_norm: f & 16 != 0,
                    snd_clear: f & 32 != 0,
                    ..old(self)@.sound
                },
                ..old(self)@
            }),
            final(self)@.valid(),
    {
        self.sound.snd_dsee = f & 1 != 0;
        self.sound.snd_vinyl = f & 2 != 0;
        self.sound.snd_vpt = f & 4 != 0;
        self.sound.snd_dc = f & 8 != 0;
        self.sound.snd_norm = f & 16 != 0;
        self.sound.snd_clear = f & 32 != 0;
    }

    /// The effect toggles as a byte, for the shell to apply: bit 0 DSEE, 1 Vinyl, 2 VPT,
    /// 3 DC-Phase, 4 Normalizer, 5 ClearAudio+.
    pub fn sound_flags(&self) -> (f: u8)
        ensures
            f == flags_byte(self@),
    {
        let mut f: u8 = 0;
        if self.sound.snd_dsee { f = f + 1; }
        if self.sound.snd_vinyl { f = f + 2; }
        if self.sound.snd_vpt { f = f + 4; }
        if self.sound.snd_dc { f = f + 8; }
        if self.sound.snd_norm { f = f + 16; }
        if self.sound.snd_clear { f = f + 32; }
        f
    }

    /// The Storage row's text, "used / total", or a dash until the shell reports it.
    pub fn storage_label(&self) -> (s: &str)
        ensures
            s@ == if self@.prefs.storage.len() == 0 { "\u{2014}"@ } else { self@.prefs.storage },
    {
        if self.prefs.storage.as_str().is_empty() { "\u{2014}" } else { self.prefs.storage.as_str() }
    }

    /// Push the Storage row's text.
    pub fn set_storage(&mut self, label: &str)
        requires
            old(self)@.valid(),
        ensures
            final(self)@ == (DeviceView {
                prefs: PrefsView { storage: label@, ..old(self)@.prefs },
                ..old(self)@
            }),
            final(self)@.valid(),
    {
        self.prefs.storage = owned(label);
    }

    /// Minutes left on the sleep timer (0 = off).
    pub fn sleep_min(&self) -> (m: u32)
        ensures
            m == self@.prefs.sleep_min,
    {
        self.prefs.sleep_min
    }

    /// Push the live countdown. When it reaches 0 the row's cycle starts again from OFF.
    pub fn set_sleep_min(&mut self, m: u32)
        requires
            old(self)@.valid(),
        ensures
            final(self)@ == (DeviceView {
                prefs: PrefsView {
                    sleep_min: m,
                    sleep_idx: if m == 0 { 0 } else { old(self)@.prefs.sleep_idx },
                    ..old(self)@.prefs
                },
                ..old(self)@
            }),
            final(self)@.valid(),
    {
        self.prefs.sleep_min = m;
        if m == 0 {
            self.prefs.sleep_idx = 0;
        }
    }

    /// What the Sleep row shows: `OFF`, or `N MIN`.
    pub fn sleep_label(&self) -> (s: String)
        ensures
            s@ == sleep_text(self@.prefs.sleep_min),
    {
        if self.prefs.sleep_min == 0 {
            owned("OFF")
        } else {
            let mut s = String::new();
            push_dec(&mut s, self.prefs.sleep_min as u64);
            push_str(&mut s, " MIN");
            s
        }
    }

    /// The Sleep row's Select: the next choice, wrapping back to OFF; the shell arms that timer.
    pub fn cycle_sleep(&mut self) -> (a: Action)
        requires
            old(self)@.valid(),
        ensures
            final(self)@ == sleep_cycled(old(self)@),
            a == Action::SleepTimer(final(self)@.prefs.sleep_min),
            final(self)@.valid(),
    {
        self.prefs.sleep_idx = (self.prefs.sleep_idx + 1) % 5;
        self.prefs.sleep_min = SLEEP_PRESETS[self.prefs.sleep_idx];
        Action::SleepTimer(self.prefs.sleep_min)
    }

    /// Has the first-run introduction been seen?
    pub fn onboarding_seen(&self) -> (b: bool)
        ensures
            b == self@.prefs.onboarding_seen,
    {
        self.prefs.onboarding_seen
    }

    /// Restore whether the introduction has been seen.
    pub fn set_onboarding_seen(&mut self, v: bool)
        requires
            old(self)@.valid(),
        ensures
            final(self)@ == (DeviceView {
                prefs: PrefsView { onboarding_seen: v, ..old(self)@.prefs },
                ..old(self)@
            }),
            final(self)@.valid(),
    {
        self.prefs.onboarding_seen = v;
    }

    /// The battery-care setting the UI wants.
    pub fn battery_care(&self) -> (b: bool)
        ensures
            b == self@.prefs.battery_care,
    {
        self.prefs.battery_care
    }

    /// Push the device's real battery-care setting.
    pub fn set_battery_care(&mut self, on: bool)
        requires
            old(self)@.valid(),
        ensures
            final(self)@ == (DeviceView {
                prefs: PrefsView { battery_care: on, ..old(self)@.prefs },
                ..old(self)@
            }),
            final(self)@.valid(),
    {
        self.prefs.battery_care = on;
    }

    /// The Battery row's Select: flip the setting; the shell applies it.
    pub fn toggle_battery_care(&mut self) -> (a: Action)
        requires
            old(self)@.valid(),
        ensures
            final(self)@ == battery_toggled(old(self)@),
            a == Action::BatteryCareChanged(final(self)@.prefs.battery_care),
            final(self)@.valid(),
    {
        self.prefs.battery_care = !self.prefs.battery_care;
        Action::BatteryCareChanged(self.prefs.battery_care)
    }

    /// The idle screen-off timeout, in seconds (0 = off).
    pub fn screen_off_s(&self) -> (s: u32)
        requires
            self@.valid(),
        ensures
            s == self@.prefs.screen_off_s,
    {
        SCREEN_OFF_PRESETS[self.prefs.screen_off_idx]
    }

    /// Restore the screen-off timeout. A value that is not one of the choices falls back to OFF,
    /// so the row never shows something its cycle cannot return to.
    pub fn set_screen_off_s(&mut self, secs: u32)
        requires
            old(self)@.valid(),
        ensures
            final(self)@ == (DeviceView {
                prefs: PrefsView {
                    screen_off_idx: snapped_index(secs),
                    screen_off_s: screen_off_presets()[snapped_index(secs) as int],
                    ..old(self)@.prefs
                },
                ..old(self)@
            }),
            final(self)@.valid(),
    {
        let mut i: usize = 0;
        while i < 5 && SCREEN_OFF_PRESETS[i] != secs
            invariant
                i <= 5,
                forall|j: int| 0 <= j < i ==> screen_off_presets()[j] != secs,
            decreases 5 - i,
        {
            i += 1;
        }
        let idx = if i < 5 { i } else { 0 };
        assert(idx == snapped_index(secs));
        self.prefs.screen_off_idx = idx;
    }

    /// The Screen-off row's Select: the next choice, wrapping back to OFF.
    pub fn cycle_screen_off(&mut self) -> (a: Action)
        requires
            old(self)@.valid(),
        ensures
            final(self)@ == screen_off_cycled(old(self)@),
            a == Action::ScreenOffTimer(final(self)@.prefs.screen_off_s),
            final(self)@.valid(),
    {
        self.prefs.screen_off_idx = (self.prefs.screen_off_idx + 1) % 5;
        Action::ScreenOffTimer(SCREEN_OFF_PRESETS[self.prefs.screen_off_idx])
    }

    /// Push how many tracks are liked.
    pub fn set_liked_count(&mut self, n: usize)
        requires
            old(self)@.valid(),
        ensures
            final(self)@ == (DeviceView {
                prefs: PrefsView { liked_count: n, ..old(self)@.prefs },
                ..old(self)@
            }),
            final(self)@.valid(),
    {
        self.prefs.liked_count = n;
    }

    /// How many tracks are liked.
    pub fn liked_count(&self) -> (n: usize)
        ensures
            n == self@.prefs.liked_count,
    {
        self.prefs.liked_count
    }

    /// The backlight level, 0 (off) to 5.
    pub fn brightness(&self) -> (b: u8)
        requires
            self@.valid(),
        ensures
            b == self@.prefs.brightness,
            b <= 5,
    {
        self.prefs.brightness
    }

    /// The level to persist and to come back to: never 0.
    pub fn brightness_restore(&self) -> (b: u8)
        requires
            self@.valid(),
        ensures
            b == self@.prefs.brightness_restore,
            1 <= b <= 5,
    {
        self.prefs.brightness_restore
    }

    /// Any input while the backlight is off brings it back to the last visible level. True only
    /// when it was off, so the shell writes the backlight only when it must.
    pub fn brightness_wake(&mut self) -> (changed: bool)
        requires
            old(self)@.valid(),
        ensures
            changed == (old(self)@.prefs.brightness == 0),
            final(self)@ == if changed {
                DeviceView {
                    prefs: PrefsView {
                        brightness: old(self)@.prefs.brightness_restore,
                        ..old(self)@.prefs
                    },
                    ..old(self)@
                }
            } else {
                old(self)@
            },
            final(self)@.valid(),
    {
        if self.prefs.brightness != 0 {
            return false;
        }
        let r = self.prefs.brightness_restore;
        self.prefs.brightness = if r < 1 { 1 } else if r > 5 { 5 } else { r };
        true
    }

    /// Restore a persisted level, clamped to the visible 1..5: a 0 in a settings file means a
    /// visible panel, never a dark one.
    pub fn set_brightness(&mut self, level: u8)
        requires
            old(self)@.valid(),
        ensures
            final(self)@ == (DeviceView {
                prefs: PrefsView {
                    brightness: clamp_brightness(level),
                    brightness_restore: clamp_brightness(level),
                    ..old(self)@.prefs
                },
                ..old(self)@
            }),
            final(self)@.valid(),
    {
        let b = if level < 1 { 1 } else if level > 5 { 5 } else { level };
        self.prefs.brightness = b;
        self.prefs.brightness_restore = b;
    }

    /// The Brightness row's Select: 1 to 5, then backlight off, then 1. A visible level also
    /// becomes the one to come back to.
    #[verifier::rlimit(40)]
    pub fn cycle_brightness(&mut self) -> (a: Action)
        requires
            old(self)@.valid(),
        ensures
            final(self)@ == brightness_cycled(old(self)@),
            a == Action::BrightnessChanged(final(self)@.prefs.brightness),
            final(self)@.valid(),
    {
        let n = next_brightness_exec(self.prefs.brightness);
        self.prefs.brightness = n;
        if n != 0 {
            self.prefs.brightness_restore = n;
        }
        Action::BrightnessChanged(n)
    }

    /// The accent's place in the cycle, which is what gets persisted.
    pub fn accent(&self) -> (i: u8)
        ensures
            i == accent_index(self@.prefs.accent),
    {
        self.prefs.accent.index() as u8
    }

    /// Restore a persisted accent; an index out of range falls back to the default.
    pub fn set_accent(&mut self, i: u8)
        requires
            old(self)@.valid(),
        ensures
            final(self)@ == (DeviceView {
                prefs: PrefsView { accent: accent_at(i as int), ..old(self)@.prefs },
                ..old(self)@
            }),
            final(self)@.valid(),
    {
        self.prefs.accent = Accent::from_index(i as usize);
    }
}




impl App {
    /// Is the Bluetooth switch on?
    pub fn bt_on(&self) -> (b: bool)
        ensures
            b == self@.link.bt_on,
    {
        self.link.bt_on
    }

    /// Match the Bluetooth switch to the radio's real state. No action: the radio is already so.
    pub fn set_bt_on(&mut self, on: bool)
        requires
            old(self)@.valid(),
        ensures
            final(self)@ == (DeviceView {
                link: LinkView { bt_on: on, ..old(self)@.link },
                ..old(self)@
            }),
            final(self)@.valid(),
    {
        self.link.bt_on = on;
    }

    /// Is USB-DAC mode engaged?
    pub fn usb_dac_on(&self) -> (b: bool)
        ensures
            b == self@.link.usb_dac_on,
    {
        self.link.usb_dac_on
    }

    /// Match the USB-DAC switch to the gadget's real mode. No action: re-applying it would flip the
    /// USB mode for real.
    pub fn set_usb_dac(&mut self, on: bool)
        requires
            old(self)@.valid(),
        ensures
            final(self)@ == (DeviceView {
                link: LinkView { usb_dac_on: on, ..old(self)@.link },
                ..old(self)@
            }),
            final(self)@.valid(),
    {
        self.link.usb_dac_on = on;
    }

    /// Which visualiser is drawn.
    pub fn viz_kind(&self) -> (k: u8)
        ensures
            k == self@.viz.kind,
    {
        self.viz_kind
    }

    /// Is the visualiser showing at all?
    pub fn viz_on(&self) -> (b: bool)
        ensures
            b == (self@.viz.size != 0),
    {
        self.viz_size != 0
    }

    /// The visualiser's size (0 = off).
    pub fn viz_size(&self) -> (i: u8)
        ensures
            i == self@.viz.size,
    {
        self.viz_size
    }

    /// Restore the visualiser's size, wrapped onto the sizes there are.
    pub fn set_viz_size(&mut self, i: u8)
        requires
            old(self)@.valid(),
        ensures
            final(self)@ == (DeviceView {
                viz: VizView { size: i % SIZE_COUNT, ..old(self)@.viz },
                ..old(self)@
            }),
            final(self)@.valid(),
    {
        self.viz_size = i % SIZE_COUNT;
    }

    /// Restore which visualiser is drawn, wrapped onto the kinds there are.
    pub fn set_viz_kind(&mut self, k: u8)
        requires
            old(self)@.valid(),
        ensures
            final(self)@ == (DeviceView {
                viz: VizView { kind: k % VIZ_COUNT, ..old(self)@.viz },
                ..old(self)@
            }),
            final(self)@.valid(),
    {
        self.viz_kind = k % VIZ_COUNT;
    }

    /// Restore an on/off setting written before there were sizes: on was the only size there
    /// was, FULL (the last of the sizes); off is off.
    pub fn set_viz_on(&mut self, on: bool)
        requires
            old(self)@.valid(),
        ensures
            final(self)@ == (DeviceView {
                viz: VizView { size: if on { (SIZE_COUNT - 1) as u8 } else { 0 }, ..old(self)@.viz },
                ..old(self)@
            }),
            size_at(final(self)@.viz.size as int) == (if on { VizSize::Full } else { VizSize::Off }),
            final(self)@.valid(),
    {
        self.viz_size = if on { SIZE_COUNT - 1 } else { 0 };
    }

    /// The Visualiser row's Select: the next kind, wrapping.
    pub fn cycle_viz(&mut self)
        requires
            old(self)@.valid(),
        ensures
            final(self)@ == viz_cycled(old(self)@),
            final(self)@.valid(),
    {
        self.viz_kind = ((self.viz_kind as u16 + 1) % VIZ_COUNT as u16) as u8;
    }

    /// The visualiser-size row's Select: the next size, wrapping.
    pub fn cycle_viz_size(&mut self)
        requires
            old(self)@.valid(),
        ensures
            final(self)@ == viz_size_cycled(old(self)@),
            final(self)@.valid(),
    {
        self.viz_size = ((self.viz_size as u16 + 1) % SIZE_COUNT as u16) as u8;
    }
}


impl App {
    /// Start a new paired list. The shell then adds one row per device, in the order it will
    /// index them; the row armed to forget and the row being connected belonged to the old order,
    /// so both are dropped.
    pub fn bt_paired_clear(&mut self)
        requires
            old(self)@.valid(),
        ensures
            final(self)@ == (DeviceView {
                devices: DevicesView {
                    paired: Seq::empty(),
                    forget_armed: None,
                    connecting: None,
                    ..old(self)@.devices
                },
                ..old(self)@
            }),
            final(self)@.valid(),
    {
        self.devices.paired = Vec::new();
        self.devices.forget_armed = None;
        self.devices.connecting = None;
        assert(self@.devices.paired =~= Seq::empty());
    }

    /// Add a paired device at the end of the list.
    pub fn bt_paired_add(&mut self, name: &str, kind: &str, connected: bool)
        requires
            old(self)@.valid(),
        ensures
            final(self)@ == (DeviceView {
                devices: DevicesView {
                    paired: old(self)@.devices.paired.push((name@, kind@, connected)),
                    ..old(self)@.devices
                },
                ..old(self)@
            }),
            final(self)@.valid(),
    {
        let d = PairedDevice { name: owned(name), kind: owned(kind), connected };
        let mut v: Vec<PairedDevice> = Vec::new();
        std::mem::swap(&mut v, &mut self.devices.paired);
        let ghost before = v@;
        v.push(d);
        assert(v@.map_values(|d: PairedDevice| device_row(d)) =~= before.map_values(
            |d: PairedDevice| device_row(d),
        ).push((name@, kind@, connected)));
        self.devices.paired = v;
    }

    /// How many paired devices are listed.
    pub fn bt_paired_len(&self) -> (n: usize)
        ensures
            n == self@.devices.paired.len(),
    {
        self.devices.paired.len()
    }

    /// Start a new list of found devices (a scan is starting).
    pub fn bt_found_clear(&mut self)
        requires
            old(self)@.valid(),
        ensures
            final(self)@ == (DeviceView {
                devices: DevicesView { found: Seq::empty(), ..old(self)@.devices },
                ..old(self)@
            }),
            final(self)@.valid(),
    {
        self.devices.found = Vec::new();
        assert(self@.devices.found =~= Seq::empty());
    }

    /// Add a found device at the end of the list; a found device is never connected.
    pub fn bt_found_add(&mut self, name: &str, kind: &str)
        requires
            old(self)@.valid(),
        ensures
            final(self)@ == (DeviceView {
                devices: DevicesView {
                    found: old(self)@.devices.found.push((name@, kind@, false)),
                    ..old(self)@.devices
                },
                ..old(self)@
            }),
            final(self)@.valid(),
    {
        let d = PairedDevice { name: owned(name), kind: owned(kind), connected: false };
        let mut v: Vec<PairedDevice> = Vec::new();
        std::mem::swap(&mut v, &mut self.devices.found);
        let ghost before = v@;
        v.push(d);
        assert(v@.map_values(|d: PairedDevice| device_row(d)) =~= before.map_values(
            |d: PairedDevice| device_row(d),
        ).push((name@, kind@, false)));
        self.devices.found = v;
    }

    /// How many found devices are listed.
    pub fn bt_found_len(&self) -> (n: usize)
        ensures
            n == self@.devices.found.len(),
    {
        self.devices.found.len()
    }

    /// Is a scan running?
    pub fn bt_scanning(&self) -> (b: bool)
        ensures
            b == self@.devices.scanning,
    {
        self.devices.scanning
    }

    /// The shell reports whether the radio is scanning.
    pub fn set_bt_scanning(&mut self, on: bool)
        requires
            old(self)@.valid(),
        ensures
            final(self)@ == (DeviceView { devices: DevicesView { scanning: on, ..old(self)@.devices }, ..old(self)@ }),
            final(self)@.valid(),
    {
        self.devices.scanning = on;
    }

    /// Raise a pairing prompt, or clear it with kind 0 (1 = numeric comparison, 2 = passkey shown,
    /// 3 = pairing request).
    pub fn set_bt_prompt(&mut self, kind: u8, name: &str, code: u32)
        requires
            old(self)@.valid(),
        ensures
            final(self)@ == (DeviceView {
                devices: DevicesView {
                    prompt: if kind == 0 { None } else { Some((kind, name@, code)) },
                    ..old(self)@.devices
                },
                ..old(self)@
            }),
            final(self)@.valid(),
    {
        self.devices.prompt = if kind == 0 { None } else { Some(Prompt { kind, name: owned(name), code }) };
    }

    /// The showing prompt's kind, or 0 when none is.
    pub fn bt_prompt_kind(&self) -> (k: u8)
        ensures
            k == match self@.devices.prompt {
                Some(p) => p.0,
                None => 0,
            },
    {
        match &self.devices.prompt {
            Some(p) => p.kind,
            None => 0,
        }
    }
}


// ── Navigation: the route stack and the buttons ─────────────────────────────────────────────

/// The screen on top of the route stack (Now Playing if the stack were ever empty).
pub open spec fn current_of(v: DeviceView) -> Screen {
    if v.route.stack.len() > 0 { v.route.stack.last() } else { Screen::NowPlaying }
}

/// `v` with `r` for its route.
pub open spec fn with_route(v: DeviceView, r: RouteView) -> DeviceView {
    DeviceView { route: r, ..v }
}

/// `v` with `c` for its cursors.
pub open spec fn with_cursors(v: DeviceView, c: Cursors) -> DeviceView {
    DeviceView { cursors: c, ..v }
}

/// Jump to `s`, leaving no route history behind it.
pub open spec fn go_of(v: DeviceView, s: Screen) -> DeviceView {
    with_route(v, RouteView { stack: seq![s], ..v.route })
}

/// Open `s` on top of the current screen, unless it is already showing. A screen change disarms
/// boot-to-stock; arriving at Up Next makes it follow playback again.
pub open spec fn push_of(v: DeviceView, s: Screen) -> DeviceView {
    if current_of(v) == s {
        v
    } else {
        DeviceView {
            route: RouteView { stack: v.route.stack.push(s), boot_stock_armed: false, ..v.route },
            cursors: if s == Screen::UpNext {
                Cursors { queue_follow: true, up_next_cur: None, ..v.cursors }
            } else {
                v.cursors
            },
            ..v
        }
    }
}

/// Back one screen, never past the last one. Leaving a screen disarms boot-to-stock.
pub open spec fn pop_of(v: DeviceView) -> DeviceView {
    if v.route.stack.len() > 1 {
        with_route(v, RouteView { stack: v.route.stack.drop_last(), boot_stock_armed: false, ..v.route })
    } else {
        v
    }
}

/// Play a library track: at once with nothing queued by hand, otherwise ask first whether to
/// replace the queue, keeping the track until the answer comes.
pub open spec fn start_play_of(v: DeviceView, id: i64) -> (DeviceView, Seq<Action>) {
    if v.play.queue.len() == 0 {
        (v, seq![Action::PlayIndex(id)])
    } else {
        (
            with_route(v, RouteView { pending_song: Some(id), confirm: Some(Ask::QueueOnPlay), ..v.route }),
            Seq::empty(),
        )
    }
}

/// Finish or skip the introduction: it counts as seen, the device is unlocked, and the route goes
/// back where it came from (the Menu), or to Now Playing on first boot.
pub open spec fn finish_onboarding_of(v: DeviceView) -> DeviceView {
    let w = DeviceView {
        prefs: PrefsView { onboarding_seen: true, ..v.prefs },
        route: RouteView { locked: false, ..v.route },
        ..v
    };
    if w.route.stack.len() > 1 { pop_of(w) } else { go_of(w, Screen::NowPlaying) }
}

/// The screen each Menu row opens.
pub open spec fn menu_target(row: int) -> Screen {
    if row == 0 {
        Screen::NowPlaying
    } else if row == 1 {
        Screen::Library
    } else if row == 2 {
        Screen::UpNext
    } else if row == 3 {
        Screen::Fm
    } else if row == 4 {
        Screen::Eq
    } else if row == 5 {
        Screen::Sound
    } else if row == 6 {
        Screen::Bluetooth
    } else if row == 7 {
        Screen::UsbDac
    } else if row == 8 {
        Screen::Receiver
    } else if row == 9 {
        Screen::Settings
    } else {
        Screen::Onboarding
    }
}

/// Open a Menu row: Now Playing is a jump home, the introduction reopens at its first page, and
/// every other row opens its screen on top of the Menu.
pub open spec fn activate_menu_of(v: DeviceView, row: int) -> DeviceView {
    let t = menu_target(row);
    if t == Screen::NowPlaying {
        go_of(v, Screen::NowPlaying)
    } else if t == Screen::Onboarding {
        push_of(with_route(v, RouteView { onboarding_page: 0, ..v.route }), Screen::Onboarding)
    } else {
        push_of(v, t)
    }
}

/// The UI scale moved `d` steps from the step nearest it, held within the steps.
pub open spec fn step_ui_scale_of(v: DeviceView, d: int) -> (DeviceView, Seq<Action>) {
    let i = nearest_among(v.ui_scale, 7) + d;
    let i = if i < 0 { 0 } else if i > 6 { 6 } else { i };
    (DeviceView { ui_scale: steps()[i] as int, ..v }, seq![Action::UiScaleChanged])
}

/// Select on the focused Settings row. Any row but boot-to-stock's disarms boot-to-stock, which
/// takes two presses: the first arms it, the second acts.
pub open spec fn settings_activate_of(v: DeviceView) -> (DeviceView, Seq<Action>) {
    let sel = v.cursors.settings_sel;
    let v = if sel != ROW_BOOT_STOCK { with_route(v, RouteView { boot_stock_armed: false, ..v.route }) } else { v };
    settings_row_of(v, sel)
}

/// What Select does on Settings row `sel`.
pub open spec fn settings_row_of(v: DeviceView, sel: usize) -> (DeviceView, Seq<Action>) {
    if sel == ROW_UI_SCALE {
        step_ui_scale_of(v, 1)
    } else if sel == ROW_THEME {
        (with_route(v, RouteView { night: !v.route.night, ..v.route }), seq![Action::ThemeChanged(!v.route.night)])
    } else if sel == ROW_ACCENT {
        (
            DeviceView { prefs: PrefsView { accent: accent_at(((accent_index(v.prefs.accent) + 1) % 6) as int), ..v.prefs }, ..v },
            Seq::empty(),
        )
    } else if sel == ROW_VIZ {
        (viz_cycled(v), Seq::empty())
    } else if sel == ROW_VIZ_ANIM {
        (viz_size_cycled(v), Seq::empty())
    } else if sel == ROW_SLEEP {
        (sleep_cycled(v), seq![Action::SleepTimer(sleep_cycled(v).prefs.sleep_min)])
    } else if sel == ROW_BATTERY {
        (battery_toggled(v), seq![Action::BatteryCareChanged(!v.prefs.battery_care)])
    } else if sel == ROW_USB_MODE {
        (push_of(v, Screen::UsbStorage), seq![Action::EnterUsbMsc])
    } else if sel == ROW_RESTART {
        (with_route(v, RouteView { confirm: Some(Ask::Restart), ..v.route }), Seq::empty())
    } else if sel == ROW_POWER_OFF {
        (with_route(v, RouteView { confirm: Some(Ask::PowerOff), ..v.route }), Seq::empty())
    } else if sel == ROW_BOOT_STOCK {
        if v.route.boot_stock_armed {
            (with_route(v, RouteView { boot_stock_armed: false, ..v.route }), seq![Action::BootToStock])
        } else {
            (with_route(v, RouteView { boot_stock_armed: true, ..v.route }), Seq::empty())
        }
    } else if sel == ROW_SCREEN_OFF {
        (screen_off_cycled(v), seq![Action::ScreenOffTimer(screen_off_cycled(v).prefs.screen_off_s)])
    } else if sel == ROW_BRIGHTNESS {
        (brightness_cycled(v), seq![Action::BrightnessChanged(brightness_cycled(v).prefs.brightness)])
    } else {
        (v, Seq::empty())
    }
}

/// Select on the focused Sound row: flip that effect (the balance row has none to flip).
pub open spec fn sound_toggled(v: DeviceView) -> DeviceView {
    let s = v.sound;
    let sel = v.cursors.sound_sel;
    DeviceView {
        sound: if sel == 0 {
            SoundView { snd_dsee: !s.snd_dsee, ..s }
        } else if sel == 1 {
            SoundView { snd_vinyl: !s.snd_vinyl, ..s }
        } else if sel == 2 {
            SoundView { snd_vpt: !s.snd_vpt, ..s }
        } else if sel == 3 {
            SoundView { snd_dc: !s.snd_dc, ..s }
        } else if sel == 4 {
            SoundView { snd_norm: !s.snd_norm, ..s }
        } else if sel == 5 {
            SoundView { snd_clear: !s.snd_clear, ..s }
        } else {
            s
        },
        ..v
    }
}


impl App {
    /// The screen on top of the route stack.
    pub fn current(&self) -> (s: Screen)
        ensures
            s == current_of(self@),
    {
        let n = self.route.stack.len();
        if n > 0 { self.route.stack[n - 1] } else { Screen::NowPlaying }
    }

    /// Jump to `s` with no route history behind it.
    fn go(&mut self, s: Screen)
        requires
            old(self)@.valid(),
        ensures
            final(self)@ == go_of(old(self)@, s),
            final(self)@.valid(),
    {
        self.route.stack = vec![s];
        assert(self.route.stack@ =~= seq![s]);
    }

    /// Open `s` on top of the current screen, unless it is already showing.
    fn push(&mut self, s: Screen)
        requires
            old(self)@.valid(),
        ensures
            final(self)@ == push_of(old(self)@, s),
            final(self)@.valid(),
    {
        if self.current() != s {
            self.route.boot_stock_armed = false;
            if s == Screen::UpNext {
                self.cursors.queue_follow = true;
                self.cursors.up_next_cur = None;
            }
            self.route.stack.push(s);
        }
    }

    /// Back one screen, never past the last one.
    fn pop(&mut self)
        requires
            old(self)@.valid(),
        ensures
            final(self)@ == pop_of(old(self)@),
            final(self)@.valid(),
    {
        if self.route.stack.len() > 1 {
            self.route.boot_stock_armed = false;
            self.route.stack.pop();
        }
    }

    /// Play a library track, or ask first when tracks are queued by hand.
    fn start_play(&mut self, id: i64) -> (acts: Vec<Action>)
        requires
            old(self)@.valid(),
        ensures
            (final(self)@, acts@) == start_play_of(old(self)@, id),
            final(self)@.valid(),
    {
        if self.play.queue.len() == 0 {
            return vec![Action::PlayIndex(id)];
        }
        self.route.pending_song = Some(id);
        self.route.confirm = Some(Ask::QueueOnPlay);
        vec![]
    }

    /// Finish or skip the introduction.
    fn finish_onboarding(&mut self)
        requires
            old(self)@.valid(),
        ensures
            final(self)@ == finish_onboarding_of(old(self)@),
            final(self)@.valid(),
    {
        self.prefs.onboarding_seen = true;
        self.route.locked = false;
        if self.route.stack.len() > 1 {
            self.pop();
        } else {
            self.go(Screen::NowPlaying);
        }
    }

    /// Open Menu row `row`.
    fn activate_menu(&mut self, row: usize)
        requires
            old(self)@.valid(),
            row < 11,
        ensures
            final(self)@ == activate_menu_of(old(self)@, row as int),
            final(self)@.valid(),
    {
        let t = MENU[row].0;
        assert(t == menu_target(row as int));
        match t {
            Screen::NowPlaying => self.go(Screen::NowPlaying),
            Screen::Onboarding => {
                self.route.onboarding_page = 0;
                self.push(Screen::Onboarding);
            },
            _ => self.push(t),
        }
    }

    /// Move the UI scale `d` steps, held within the steps.
    fn step_ui_scale(&mut self, d: i32) -> (acts: Vec<Action>)
        requires
            old(self)@.valid(),
            -1 <= d <= 1,
        ensures
            (final(self)@, acts@) == step_ui_scale_of(old(self)@, d as int),
            final(self)@.valid(),
    {
        let cur = self.ui_scale.scale_idx() as i32;
        let i = cur + d;
        let i: usize = if i < 0 { 0 } else if i > 6 { 6 } else { i as usize };
        self.ui_scale.set_scale_idx(i);
        vec![Action::UiScaleChanged]
    }

    /// The UI text scale in percent, for the shell to persist.
    pub fn ui_scale_pct(&self) -> (p: u32)
        ensures
            p == self@.ui_scale,
    {
        self.ui_scale.scale_pct()
    }

    /// Restore the UI text scale, clamped to the steps' range.
    pub fn set_ui_scale_pct(&mut self, pct: u32)
        requires
            old(self)@.valid(),
        ensures
            final(self)@ == (DeviceView {
                ui_scale: if pct < 80 { 80 } else if pct > 140 { 140 } else { pct as int },
                ..old(self)@
            }),
            final(self)@.valid(),
    {
        self.ui_scale.set_scale_pct(pct);
    }

    /// Select on the focused Settings row.
    fn settings_activate(&mut self) -> (acts: Vec<Action>)
        requires
            old(self)@.valid(),
        ensures
            (final(self)@, acts@) == settings_activate_of(old(self)@),
            final(self)@.valid(),
    {
        let sel = self.cursors.settings_sel;
        if sel != ROW_BOOT_STOCK {
            self.route.boot_stock_armed = false;
        }
        if sel <= ROW_BATTERY {
            self.settings_row_upper(sel)
        } else {
            self.settings_row_lower(sel)
        }
    }

    /// Select on one of the upper Settings rows.
    #[verifier::rlimit(40)]
    fn settings_row_upper(&mut self, sel: usize) -> (acts: Vec<Action>)
        requires
            old(self)@.valid(),
            sel <= ROW_BATTERY,
        ensures
            (final(self)@, acts@) == settings_row_of(old(self)@, sel),
            final(self)@.valid(),
    {
        if sel == ROW_UI_SCALE {
            self.step_ui_scale(1)
        } else if sel == ROW_THEME {
            self.route.night = !self.route.night;
            vec![Action::ThemeChanged(self.route.night)]
        } else if sel == ROW_ACCENT {
            self.prefs.accent = self.prefs.accent.next();
            vec![]
        } else if sel == ROW_VIZ {
            self.cycle_viz();
            vec![]
        } else if sel == ROW_VIZ_ANIM {
            self.cycle_viz_size();
            vec![]
        } else if sel == ROW_SLEEP {
            let a = self.cycle_sleep();
            vec![a]
        } else if sel == ROW_BATTERY {
            let a = self.toggle_battery_care();
            vec![a]
        } else if sel == ROW_SCREEN_OFF {
            let a = self.cycle_screen_off();
            vec![a]
        } else if sel == ROW_BRIGHTNESS {
            let a = self.cycle_brightness();
            vec![a]
        } else {
            vec![]
        }
    }

    /// Select on one of the lower Settings rows.
    fn settings_row_lower(&mut self, sel: usize) -> (acts: Vec<Action>)
        requires
            old(self)@.valid(),
            sel > ROW_BATTERY,
        ensures
            (final(self)@, acts@) == settings_row_of(old(self)@, sel),
            final(self)@.valid(),
    {
        if sel == ROW_USB_MODE {
            self.push(Screen::UsbStorage);
            vec![Action::EnterUsbMsc]
        } else if sel == ROW_RESTART {
            self.route.confirm = Some(Ask::Restart);
            vec![]
        } else if sel == ROW_POWER_OFF {
            self.route.confirm = Some(Ask::PowerOff);
            vec![]
        } else if sel == ROW_BOOT_STOCK {
            if self.route.boot_stock_armed {
                self.route.boot_stock_armed = false;
                vec![Action::BootToStock]
            } else {
                self.route.boot_stock_armed = true;
                vec![]
            }
        } else {
            vec![]
        }
    }

    /// Select on the focused Sound row; the shell applies the effects.
    fn sound_toggle_row(&mut self) -> (acts: Vec<Action>)
        requires
            old(self)@.valid(),
        ensures
            final(self)@ == sound_toggled(old(self)@),
            acts@ == seq![Action::SoundChanged],
            final(self)@.valid(),
    {
        let sel = self.cursors.sound_sel;
        if sel == 0 {
            self.sound.snd_dsee = !self.sound.snd_dsee;
        } else if sel == 1 {
            self.sound.snd_vinyl = !self.sound.snd_vinyl;
        } else if sel == 2 {
            self.sound.snd_vpt = !self.sound.snd_vpt;
        } else if sel == 3 {
            self.sound.snd_dc = !self.sound.snd_dc;
        } else if sel == 4 {
            self.sound.snd_norm = !self.sound.snd_norm;
        } else if sel == 5 {
            self.sound.snd_clear = !self.sound.snd_clear;
        }
        vec![Action::SoundChanged]
    }
}


/// What a button press needs from the library and the EQ tables, which the shell holds: the
/// length of the list the cursor moves in on the current screen (the Library tab's rows, or the
/// open album's, playlist's or artist's tracks), the object id of the track under the cursor, the
/// id of the playlist under the Library cursor, the album the Library cursor's rank opens, how
/// many song sorts and album orders there are, the EQ gain step and limit, and the EQ presets.
pub struct PressFacts {
    pub rows: usize,
    pub pick: Option<i64>,
    pub playlist: Option<i64>,
    pub album_at_rank: Option<usize>,
    pub song_sorts: usize,
    pub album_sorts: usize,
    pub band_step: i8,
    pub band_max: i8,
    pub eq_presets: Vec<[i8; 10]>,
}

/// The facts a press can be answered from: at least one sort, order and preset, and a gain step
/// and limit that are not negative.
pub open spec fn facts_ok(c: PressFacts) -> bool {
    &&& c.song_sorts > 0
    &&& c.album_sorts > 0
    &&& c.eq_presets@.len() > 0
    &&& c.band_step >= 0
    &&& c.band_max >= 0
}

/// The volume HUD raised for its full countdown.
pub open spec fn with_overlay(v: DeviceView) -> DeviceView {
    with_route(v, RouteView { vol_overlay: VOL_FRAMES, ..v.route })
}

/// Play/pause flipped.
pub open spec fn play_toggled(v: DeviceView) -> DeviceView {
    with_route(v, RouteView { playing: !v.route.playing, ..v.route })
}

/// No change, no action.
pub open spec fn nothing(v: DeviceView) -> (DeviceView, Seq<Action>) {
    (v, Seq::empty())
}

/// `msg` raised as a toast for its full countdown.
pub open spec fn notified(v: DeviceView, msg: Seq<char>) -> DeviceView {
    with_route(v, RouteView { toast: msg, toast_frames: TOAST_FRAMES, ..v.route })
}

/// `n` one lower, stopping at 0.
pub open spec fn dec_sat(n: usize) -> usize {
    if n > 0 { (n - 1) as usize } else { 0 }
}

/// `n` one higher if that is still below `len`.
pub open spec fn inc_below(n: usize, len: int) -> usize {
    if n + 1 < len { (n + 1) as usize } else { n }
}

/// While the Hold switch is on, only the transport, volume and Power work.
pub open spec fn press_locked_of(v: DeviceView, b: Button) -> (DeviceView, Seq<Action>) {
    match b {
        Button::Power => (v, seq![Action::Sleep]),
        Button::Play => (play_toggled(v), seq![Action::PlayPause]),
        Button::Right | Button::Next => (v, seq![Action::Next]),
        Button::Left | Button::Prev => (v, seq![Action::Prev]),
        Button::VolUp => (stepped(v, true), seq![Action::VolUp]),
        Button::VolDown => (stepped(v, false), seq![Action::VolDown]),
        _ => nothing(v),
    }
}

/// With the Shelf open, Back closes it and the music controls still work.
pub open spec fn press_shelf_of(v: DeviceView, b: Button) -> (DeviceView, Seq<Action>) {
    match b {
        Button::Back => nothing(with_route(v, RouteView { shelf_open: false, ..v.route })),
        Button::Power => (v, seq![Action::Sleep]),
        Button::Play => (play_toggled(v), seq![Action::PlayPause]),
        Button::Next => (v, seq![Action::Next]),
        Button::Prev => (v, seq![Action::Prev]),
        Button::VolUp => (with_overlay(stepped(v, true)), seq![Action::VolUp]),
        Button::VolDown => (with_overlay(stepped(v, false)), seq![Action::VolDown]),
        _ => nothing(v),
    }
}

/// The introduction owns every button: Right or Select pages on (or finishes on the last page),
/// Left pages back, Back skips.
pub open spec fn press_onboarding_of(v: DeviceView, b: Button) -> (DeviceView, Seq<Action>) {
    let page = v.route.onboarding_page;
    match b {
        Button::Right | Button::Select => if page + 1 < ONBOARDING_PAGES {
            nothing(with_route(v, RouteView { onboarding_page: (page + 1) as usize, ..v.route }))
        } else {
            nothing(finish_onboarding_of(v))
        },
        Button::Left => nothing(with_route(v, RouteView { onboarding_page: dec_sat(page), ..v.route })),
        Button::Back => nothing(finish_onboarding_of(v)),
        _ => nothing(v),
    }
}

/// Is `b` one of the buttons that act the same on every screen?
pub open spec fn is_global(b: Button) -> bool {
    b == Button::Power || b == Button::Home || b == Button::VolUp || b == Button::VolDown || b
        == Button::Play || b == Button::Next || b == Button::Prev
}

/// The buttons that act the same on every screen.
pub open spec fn press_global_of(v: DeviceView, b: Button) -> (DeviceView, Seq<Action>) {
    match b {
        Button::Power => (v, seq![Action::Sleep]),
        Button::Home => nothing(go_of(v, Screen::NowPlaying)),
        Button::VolUp => (with_overlay(stepped(v, true)), seq![Action::VolUp]),
        Button::VolDown => (with_overlay(stepped(v, false)), seq![Action::VolDown]),
        Button::Play => (play_toggled(v), seq![Action::PlayPause]),
        Button::Next => (v, seq![Action::Next]),
        _ => (v, seq![Action::Prev]),
    }
}

/// The Library on tab `t`, at its top, with no album expanded.
pub open spec fn on_tab(v: DeviceView, t: Tab) -> DeviceView {
    with_cursors(
        v,
        Cursors { lib_tab: t, lib_idx: 0, lib_scroll_px: 0, album_expanded: None, ..v.cursors },
    )
}

/// The Library's buttons: Left/Right change tab, Up/Down move the cursor, Option cycles the Songs
/// sort or the Albums order, Select opens the album, plays the song (asking first if tracks are
/// queued) or plays the playlist under the cursor.
pub open spec fn press_library_of(v: DeviceView, c: PressFacts, b: Button) -> (DeviceView, Seq<Action>) {
    let k = v.cursors;
    match b {
        Button::Left => nothing(on_tab(v, spec_prev_tab(k.lib_tab))),
        Button::Right => nothing(on_tab(v, spec_next_tab(k.lib_tab))),
        Button::Up => nothing(with_cursors(v, Cursors { lib_idx: dec_sat(k.lib_idx), ..k })),
        Button::Down => nothing(with_cursors(v, Cursors { lib_idx: inc_below(k.lib_idx, c.rows as int), ..k })),
        Button::Option => if k.lib_tab == Tab::Songs {
            nothing(
                with_cursors(
                    v,
                    Cursors {
                        lib_sort: ((k.lib_sort + 1) % (c.song_sorts as int)) as usize,
                        lib_idx: 0,
                        lib_scroll_px: 0,
                        ..k
                    },
                ),
            )
        } else if k.lib_tab == Tab::Albums {
            nothing(
                with_cursors(
                    v,
                    Cursors {
                        album_sort: ((k.album_sort + 1) % (c.album_sorts as int)) as usize,
                        album_expanded: None,
                        lib_idx: 0,
                        lib_scroll_px: 0,
                        ..k
                    },
                ),
            )
        } else {
            nothing(v)
        },
        Button::Select => if k.lib_tab == Tab::Albums {
            let album = match c.album_at_rank {
                Some(a) => a,
                None => 0,
            };
            nothing(
                push_of(
                    with_cursors(v, Cursors { album_view: album, album_track_idx: 0, album_scroll_px: 0, ..k }),
                    Screen::Album,
                ),
            )
        } else if k.lib_tab == Tab::Songs {
            match c.pick {
                Some(id) => start_play_of(v, id),
                None => nothing(v),
            }
        } else if k.lib_tab == Tab::Playlists {
            match c.playlist {
                Some(id) => (v, seq![Action::PlayPlaylist(id)]),
                None => nothing(v),
            }
        } else {
            nothing(v)
        },
        Button::Back => nothing(pop_of(v)),
        _ => nothing(v),
    }
}

/// Which track list a screen's cursor walks: the album's (0), the playlist's (1), the artist's (2).
pub open spec fn track_cursor(k: Cursors, which: int) -> usize {
    if which == 0 { k.album_track_idx } else if which == 1 { k.playlist_track_idx } else { k.artist_track_idx }
}

/// `k` with the track cursor of list `which` at `i`.
pub open spec fn with_track_cursor(k: Cursors, which: int, i: usize) -> Cursors {
    if which == 0 {
        Cursors { album_track_idx: i, ..k }
    } else if which == 1 {
        Cursors { playlist_track_idx: i, ..k }
    } else {
        Cursors { artist_track_idx: i, ..k }
    }
}

/// An album, playlist or artist page: Up/Down move the track cursor, Select plays the track under
/// it (asking first if tracks are queued), Back or Left goes back.
pub open spec fn press_tracks_of(v: DeviceView, c: PressFacts, b: Button, which: int) -> (DeviceView, Seq<Action>) {
    let i = track_cursor(v.cursors, which);
    match b {
        Button::Up => nothing(with_cursors(v, with_track_cursor(v.cursors, which, dec_sat(i)))),
        Button::Down => nothing(with_cursors(v, with_track_cursor(v.cursors, which, inc_below(i, c.rows as int)))),
        Button::Select => match c.pick {
            Some(id) => start_play_of(v, id),
            None => nothing(v),
        },
        Button::Back | Button::Left => nothing(pop_of(v)),
        _ => nothing(v),
    }
}

/// Settings: Up/Down move the row cursor; on the UI-scale row Left and Right step the scale;
/// otherwise Select, Left or Right act on the row; Back goes back.
pub open spec fn press_settings_of(v: DeviceView, b: Button) -> (DeviceView, Seq<Action>) {
    let k = v.cursors;
    match b {
        Button::Up => nothing(with_cursors(v, Cursors { settings_sel: dec_sat(k.settings_sel), ..k })),
        Button::Down => nothing(
            with_cursors(v, Cursors { settings_sel: inc_below(k.settings_sel, SETTINGS_ROWS as int), ..k }),
        ),
        Button::Left => if k.settings_sel == ROW_UI_SCALE {
            step_ui_scale_of(v, -1)
        } else {
            settings_activate_of(v)
        },
        Button::Right => if k.settings_sel == ROW_UI_SCALE {
            step_ui_scale_of(v, 1)
        } else {
            settings_activate_of(v)
        },
        Button::Select => settings_activate_of(v),
        Button::Back => nothing(pop_of(v)),
        _ => nothing(v),
    }
}

/// A band gain one step up, held at the limit.
pub open spec fn band_up(g: i8, step: i8, max: i8) -> i8 {
    if g + step < max { (g + step) as i8 } else { max }
}

/// A band gain one step down, held at minus the limit.
pub open spec fn band_down(g: i8, step: i8, max: i8) -> i8 {
    if g - step > -max { (g - step) as i8 } else { (-max) as i8 }
}

/// The EQ with band `i` at gain `g`.
pub open spec fn with_band(v: DeviceView, i: int, g: i8) -> DeviceView {
    DeviceView {
        sound: SoundView { eq_bands: vstd::array::spec_array_update(v.sound.eq_bands, i, g), ..v.sound },
        ..v
    }
}

/// The EQ: Left/Right pick a band, Up/Down move its gain a step, Option or Select apply the next
/// preset; each change is handed to the shell. Back goes back.
pub open spec fn press_eq_of(v: DeviceView, c: PressFacts, b: Button) -> (DeviceView, Seq<Action>) {
    let k = v.cursors;
    match b {
        Button::Left => nothing(with_cursors(v, Cursors { eq_sel: dec_sat(k.eq_sel), ..k })),
        Button::Right => nothing(with_cursors(v, Cursors { eq_sel: inc_below(k.eq_sel, 10), ..k })),
        Button::Up => eq_gain_of(v, c, true),
        Button::Down => eq_gain_of(v, c, false),
        Button::Option | Button::Select => eq_preset_of(v, c),
        Button::Back => nothing(pop_of(v)),
        _ => nothing(v),
    }
}

/// The selected band a gain step up or down, handed to the shell.
pub open spec fn eq_gain_of(v: DeviceView, c: PressFacts, up: bool) -> (DeviceView, Seq<Action>) {
    let sel = v.cursors.eq_sel as int;
    let g = v.sound.eq_bands[sel];
    let w = with_band(v, sel, if up { band_up(g, c.band_step, c.band_max) } else { band_down(g, c.band_step, c.band_max) });
    (w, seq![Action::EqChanged(w.sound.eq_bands)])
}

/// The next preset's gains, handed to the shell.
pub open spec fn eq_preset_of(v: DeviceView, c: PressFacts) -> (DeviceView, Seq<Action>) {
    let p = (v.cursors.eq_preset + 1) % (c.eq_presets@.len() as int);
    let w = DeviceView {
        cursors: Cursors { eq_preset: p as usize, ..v.cursors },
        sound: SoundView { eq_bands: c.eq_presets@[p], ..v.sound },
        ..v
    };
    (w, seq![Action::EqChanged(c.eq_presets@[p])])
}

/// Sound: Up/Down move the row cursor, Select/Left/Right flip the row's effect, Option flips the
/// whole chain's bypass for an A/B comparison; each change is handed to the shell.
pub open spec fn press_sound_of(v: DeviceView, b: Button) -> (DeviceView, Seq<Action>) {
    let k = v.cursors;
    match b {
        Button::Up => nothing(with_cursors(v, Cursors { sound_sel: dec_sat(k.sound_sel), ..k })),
        Button::Down => nothing(with_cursors(v, Cursors { sound_sel: inc_below(k.sound_sel, SOUND_ROWS as int), ..k })),
        Button::Select | Button::Left | Button::Right => (sound_toggled(v), seq![Action::SoundChanged]),
        Button::Option => (
            with_cursors(v, Cursors { snd_ab_bypass: !k.snd_ab_bypass, ..k }),
            seq![Action::SoundBypass(!k.snd_ab_bypass)],
        ),
        Button::Back => nothing(pop_of(v)),
        _ => nothing(v),
    }
}

/// Now Playing, the Menu, USB-DAC, Bluetooth, and the screens with no controls of their own.
pub open spec fn press_simple_of(v: DeviceView, b: Button) -> (DeviceView, Seq<Action>) {
    let k = v.cursors;
    let s = current_of(v);
    if s == Screen::NowPlaying {
        match b {
            Button::Right => (v, seq![Action::Next]),
            Button::Left => (v, seq![Action::Prev]),
            Button::Up | Button::Select => nothing(push_of(v, Screen::Menu)),
            Button::Option => nothing(viz_cycled(v)),
            Button::Down => nothing(push_of(v, Screen::UpNext)),
            _ => nothing(v),
        }
    } else if s == Screen::Menu {
        match b {
            Button::Up => nothing(with_cursors(v, Cursors { menu_idx: dec_sat(k.menu_idx), ..k })),
            Button::Down => nothing(with_cursors(v, Cursors { menu_idx: inc_below(k.menu_idx, 11), ..k })),
            Button::Select | Button::Right => nothing(activate_menu_of(v, k.menu_idx as int)),
            Button::Back | Button::Left => nothing(pop_of(v)),
            _ => nothing(v),
        }
    } else if s == Screen::UsbDac {
        match b {
            Button::Select => (
                DeviceView { link: LinkView { usb_dac_on: !v.link.usb_dac_on, ..v.link }, ..v },
                seq![Action::UsbDacToggle(!v.link.usb_dac_on)],
            ),
            Button::Back => nothing(pop_of(v)),
            _ => nothing(v),
        }
    } else if s == Screen::Bluetooth {
        match b {
            Button::Select => (
                DeviceView { link: LinkView { bt_on: !v.link.bt_on, ..v.link }, ..v },
                seq![Action::BtToggle(!v.link.bt_on)],
            ),
            Button::Back => nothing(pop_of(v)),
            _ => nothing(v),
        }
    } else {
        match b {
            Button::Back => nothing(pop_of(v)),
            _ => nothing(v),
        }
    }
}

/// A hardware button press: the new state and what the shell is asked to do. Hold locks all but
/// the music controls; a modal card takes every button (Back dismisses it); the Shelf closes on
/// Back and passes the music controls; USB storage only answers Back; the introduction owns every
/// button; then Power, Home, volume, play/pause and track skip act the same everywhere; the rest
/// belongs to the screen showing.
pub open spec fn press_of(v: DeviceView, c: PressFacts, b: Button) -> (DeviceView, Seq<Action>) {
    let s = current_of(v);
    if v.route.locked {
        press_locked_of(v, b)
    } else if v.route.confirm is Some {
        nothing(if b == Button::Back { with_route(v, RouteView { confirm: None, ..v.route }) } else { v })
    } else if v.route.shelf_open {
        press_shelf_of(v, b)
    } else if s == Screen::UsbStorage {
        if b == Button::Back { (pop_of(v), seq![Action::ExitUsbMsc]) } else { nothing(v) }
    } else if s == Screen::Onboarding {
        press_onboarding_of(v, b)
    } else if is_global(b) {
        press_global_of(v, b)
    } else if s == Screen::Library {
        press_library_of(v, c, b)
    } else if s == Screen::Album {
        press_tracks_of(v, c, b, 0)
    } else if s == Screen::Playlist {
        press_tracks_of(v, c, b, 1)
    } else if s == Screen::Artist {
        press_tracks_of(v, c, b, 2)
    } else if s == Screen::Settings {
        press_settings_of(v, b)
    } else if s == Screen::Eq {
        press_eq_of(v, c, b)
    } else if s == Screen::Sound {
        press_sound_of(v, b)
    } else {
        press_simple_of(v, b)
    }
}




impl App {
    /// The state the shell boots into for bring-up: as at boot, but unlocked on Now Playing.
    pub fn unlocked(eq_bands: [i8; 10]) -> (a: App)
        ensures
            a@ == with_route(
                boot_state(eq_bands),
                RouteView { stack: seq![Screen::NowPlaying], locked: false, ..boot_state(eq_bands).route },
            ),
            a@.valid(),
    {
        let mut a = App::new(eq_bands);
        a.route.stack = vec![Screen::NowPlaying];
        a.route.locked = false;
        assert(a.route.stack@ =~= seq![Screen::NowPlaying]);
        a
    }

    /// The Hold switch changed. Engaged locks the touchscreen and shows the Lock screen; released
    /// is the only thing that unlocks, back on Now Playing. A report of the state it is already in
    /// changes nothing.
    pub fn set_hold(&mut self, held: bool)
        requires
            old(self)@.valid(),
        ensures
            final(self)@ == if held == old(self)@.route.locked {
                old(self)@
            } else {
                go_of(
                    with_route(old(self)@, RouteView { locked: held, ..old(self)@.route }),
                    if held { Screen::Lock } else { Screen::NowPlaying },
                )
            },
            final(self)@.valid(),
    {
        if held == self.route.locked {
            return;
        }
        self.route.locked = held;
        self.go(if held { Screen::Lock } else { Screen::NowPlaying });
    }

    /// Power was held down: open the Power menu. Refused while locked or while another modal is
    /// up; true when it opened.
    pub fn power_held(&mut self) -> (opened: bool)
        requires
            old(self)@.valid(),
        ensures
            opened == (!old(self)@.route.locked && old(self)@.route.confirm is None),
            final(self)@ == if opened {
                with_route(old(self)@, RouteView { confirm: Some(Ask::PowerMenu), ..old(self)@.route })
            } else {
                old(self)@
            },
            final(self)@.valid(),
    {
        if self.route.locked || self.route.confirm.is_some() {
            return false;
        }
        self.route.confirm = Some(Ask::PowerMenu);
        true
    }

    /// Is a modal card up?
    pub fn modal_open(&self) -> (b: bool)
        ensures
            b == (self@.route.confirm is Some),
    {
        self.route.confirm.is_some()
    }

    /// Raise the USB mass-storage screen, unless it is already showing.
    pub fn show_usb_storage(&mut self)
        requires
            old(self)@.valid(),
        ensures
            final(self)@ == push_of(old(self)@, Screen::UsbStorage),
            final(self)@.valid(),
    {
        if self.current() != Screen::UsbStorage {
            self.push(Screen::UsbStorage);
        }
    }

    /// Is the USB mass-storage screen showing?
    pub fn is_usb_storage(&self) -> (b: bool)
        ensures
            b == (current_of(self@) == Screen::UsbStorage),
    {
        self.current() == Screen::UsbStorage
    }

    /// Open the Shelf over the current place, leaving the Menu first if it is showing.
    pub fn open_shelf(&mut self)
        requires
            old(self)@.valid(),
        ensures
            final(self)@ == ({
                let w = if current_of(old(self)@) == Screen::Menu { pop_of(old(self)@) } else { old(self)@ };
                with_route(w, RouteView { shelf_open: true, ..w.route })
            }),
            final(self)@.valid(),
    {
        if self.current() == Screen::Menu {
            self.pop();
        }
        self.route.shelf_open = true;
    }

    /// Is the Shelf open?
    pub fn shelf_is_open(&self) -> (b: bool)
        ensures
            b == self@.route.shelf_open,
    {
        self.route.shelf_open
    }

    /// Is Now Playing showing?
    pub fn is_now_playing(&self) -> (b: bool)
        ensures
            b == (current_of(self@) == Screen::NowPlaying),
    {
        self.current() == Screen::NowPlaying
    }

    /// Does the playback state say playing?
    pub fn is_playing(&self) -> (b: bool)
        ensures
            b == self@.route.playing,
    {
        self.route.playing
    }

    /// The Menu's cursor row.
    pub fn menu_index(&self) -> (i: usize)
        ensures
            i == self@.cursors.menu_idx,
    {
        self.cursors.menu_idx
    }

    /// The Library's tab.
    pub fn lib_tab(&self) -> (t: Tab)
        ensures
            t == self@.cursors.lib_tab,
    {
        self.cursors.lib_tab
    }

    /// The Library's cursor row.
    pub fn lib_index(&self) -> (i: usize)
        ensures
            i == self@.cursors.lib_idx,
    {
        self.cursors.lib_idx
    }

    /// The Settings cursor row.
    pub fn settings_sel(&self) -> (i: usize)
        ensures
            i == self@.cursors.settings_sel,
    {
        self.cursors.settings_sel
    }

    /// Is the Hold switch's lock on?
    pub fn locked(&self) -> (b: bool)
        ensures
            b == self@.route.locked,
    {
        self.route.locked
    }

    /// How many screens the route stack holds.
    pub fn route_depth(&self) -> (n: usize)
        ensures
            n == self@.route.stack.len(),
    {
        self.route.stack.len()
    }

    /// Is night mode on?
    pub fn night(&self) -> (b: bool)
        ensures
            b == self@.route.night,
    {
        self.route.night
    }

    /// Jump straight to a screen with no route history (for a preview of one screen).
    pub fn go_for_preview(&mut self, s: Screen)
        requires
            old(self)@.valid(),
        ensures
            final(self)@ == go_of(old(self)@, s),
            final(self)@.valid(),
    {
        self.go(s);
    }
}


/// What a swipe needs from the screen geometry and the library, which the shell holds: the track
/// under the finger (on the Songs list or an expanded album, an album, playlist or artist page),
/// the title of that track or of the queued row under the finger, whether the swipe is on Now
/// Playing's artwork, how many Now Playing pages there are, the user-queue row under the finger on
/// Up Next, and how far Up Next's list can scroll once that row is gone.
pub struct SwipeFacts {
    pub track: Option<i64>,
    pub title: String,
    pub on_artwork: bool,
    pub np_pages: u8,
    pub queued_row: Option<usize>,
    pub queue_max_scroll: i32,
}

/// The track under the finger queued at `at` (with its toast and the chip riding row `y`), or
/// nothing.
pub open spec fn queue_swiped(v: DeviceView, track: Option<i64>, title: Seq<char>, y: i32, at: QueueAt) -> (DeviceView, Seq<Action>) {
    match track {
        Some(id) => (enqueued(v, id, title, y, at), seq![Action::QueueChanged]),
        None => nothing(v),
    }
}

/// The toast that names where a queued track went.
pub open spec fn queue_toast(title: Seq<char>, at: QueueAt) -> Seq<char> {
    match at {
        QueueAt::Next => "Playing next \u{2014} "@ + title,
        QueueAt::Later => "Added to queue \u{2014} "@ + title,
    }
}

/// The toast that names a track taken off the queue.
pub open spec fn removed_toast(title: Seq<char>) -> Seq<char> {
    "Removed \u{2014} "@ + title
}

/// Track `id` (titled `title`) queued at `at`: the toast names where it went, and the queue chip
/// starts its ride on row `y`.
pub open spec fn enqueued(v: DeviceView, id: i64, title: Seq<char>, y: i32, at: QueueAt) -> DeviceView {
    DeviceView {
        route: RouteView {
            toast: queue_toast(title, at),
            toast_frames: TOAST_FRAMES,
            queue_anim_y: y,
            queue_anim_frames: QUEUE_ANIM_FRAMES,
            ..v.route
        },
        play: PlayView { queue: queued(v.play.queue, id, at), ..v.play },
        ..v
    }
}

/// Queued row `i` taken off the queue, with a toast naming it, and Up Next's scroll held within
/// what is left.
pub open spec fn queue_row_removed(v: DeviceView, f: SwipeFacts, i: usize) -> DeviceView {
    notified(
        DeviceView {
            play: PlayView { queue: v.play.queue.remove(i as int), ..v.play },
            cursors: Cursors {
                queue_scroll_px: if v.cursors.queue_scroll_px > f.queue_max_scroll {
                    f.queue_max_scroll
                } else {
                    v.cursors.queue_scroll_px
                },
                ..v.cursors
            },
            ..v
        },
        removed_toast(f.title@),
    )
}

/// A horizontal swipe, `dir` < 0 leftwards. Nothing while locked or under the Shelf. It pages the
/// introduction, turns Now Playing's page on the artwork and skips tracks below it; on a track row
/// a left swipe queues the track to play next and a right swipe queues it last (an album page's
/// right swipe queues without reporting it), with a toast naming which and the queue chip riding
/// row `y`; on Up Next either way removes the queued row and says so, the list's scroll held
/// within what is left.
pub open spec fn swipe_of(v: DeviceView, f: SwipeFacts, dir: i32, y: i32) -> (DeviceView, Seq<Action>) {
    let s = current_of(v);
    let page = v.route.onboarding_page;
    let np = v.cursors.np_page as int;
    let n = f.np_pages as int;
    if v.route.locked || v.route.shelf_open {
        nothing(v)
    } else if s == Screen::Onboarding {
        if dir < 0 {
            if page + 1 < ONBOARDING_PAGES {
                nothing(with_route(v, RouteView { onboarding_page: (page + 1) as usize, ..v.route }))
            } else {
                nothing(finish_onboarding_of(v))
            }
        } else {
            nothing(with_route(v, RouteView { onboarding_page: dec_sat(page), ..v.route }))
        }
    } else if s == Screen::NowPlaying {
        if f.on_artwork {
            let p = if dir < 0 { (np + 1) % n } else { (np + n - 1) % n };
            nothing(with_cursors(v, Cursors { np_page: p as u8, ..v.cursors }))
        } else if dir < 0 {
            (v, seq![Action::Next])
        } else {
            (v, seq![Action::Prev])
        }
    } else if s == Screen::Library || s == Screen::Album {
        if dir < 0 {
            queue_swiped(v, f.track, f.title@, y, QueueAt::Next)
        } else if dir > 0 {
            if s == Screen::Library {
                queue_swiped(v, f.track, f.title@, y, QueueAt::Later)
            } else {
                (queue_swiped(v, f.track, f.title@, y, QueueAt::Later).0, Seq::empty())
            }
        } else {
            nothing(v)
        }
    } else if s == Screen::UpNext {
        match f.queued_row {
            Some(i) => if i < v.play.queue.len() {
                (queue_row_removed(v, f, i), seq![Action::QueueChanged])
            } else {
                nothing(v)
            },
            None => nothing(v),
        }
    } else if s == Screen::Playlist || s == Screen::Artist {
        queue_swiped(v, f.track, f.title@, y, if dir < 0 { QueueAt::Next } else { QueueAt::Later })
    } else {
        nothing(v)
    }
}


impl App {
    /// The Now Playing page showing.
    pub fn np_page(&self) -> (p: u8)
        ensures
            p == self@.cursors.np_page,
    {
        self.cursors.np_page
    }

    /// A horizontal swipe; see `swipe_of`. The geometry and the library come in as `f`.
    #[verifier::rlimit(60)]
    pub fn swipe(&mut self, dir: i32, x: i32, y: i32, f: &SwipeFacts) -> (acts: Vec<Action>)
        requires
            old(self)@.valid(),
            f.np_pages > 0,
        ensures
            (final(self)@, acts@) == swipe_of(old(self)@, *f, dir, y),
            final(self)@.valid(),
    {
        let s = self.current();
        if self.route.locked || self.route.shelf_open {
            vec![]
        } else if s == Screen::Onboarding {
            if dir < 0 {
                if self.route.onboarding_page + 1 < ONBOARDING_PAGES {
                    self.route.onboarding_page = self.route.onboarding_page + 1;
                } else {
                    self.finish_onboarding();
                }
            } else if self.route.onboarding_page > 0 {
                self.route.onboarding_page = self.route.onboarding_page - 1;
            }
            vec![]
        } else if s == Screen::NowPlaying {
            if f.on_artwork {
                let np = self.cursors.np_page as u16;
                let n = f.np_pages as u16;
                let p = if dir < 0 { (np + 1) % n } else { (np + n - 1) % n };
                self.cursors.np_page = p as u8;
                vec![]
            } else if dir < 0 {
                vec![Action::Next]
            } else {
                vec![Action::Prev]
            }
        } else if s == Screen::Library || s == Screen::Album {
            if dir < 0 {
                self.queue_swiped(f.track, &f.title, y, QueueAt::Next)
            } else if dir > 0 {
                let acts = self.queue_swiped(f.track, &f.title, y, QueueAt::Later);
                if s == Screen::Library { acts } else { vec![] }
            } else {
                vec![]
            }
        } else if s == Screen::UpNext {
            match f.queued_row {
                Some(i) => if i < self.play.queue.len() {
                    self.remove_queued_row(i, f);
                    vec![Action::QueueChanged]
                } else {
                    vec![]
                },
                None => vec![],
            }
        } else if s == Screen::Playlist || s == Screen::Artist {
            self.queue_swiped(f.track, &f.title, y, if dir < 0 { QueueAt::Next } else { QueueAt::Later })
        } else {
            vec![]
        }
    }

    /// Take queued row `i` off the queue; see `queue_row_removed`.
    fn remove_queued_row(&mut self, i: usize, f: &SwipeFacts)
        requires
            old(self)@.valid(),
            i < old(self)@.play.queue.len(),
        ensures
            final(self)@ == queue_row_removed(old(self)@, *f, i),
            final(self)@.valid(),
    {
        self.queue_remove(i);
        if self.cursors.queue_scroll_px > f.queue_max_scroll {
            self.cursors.queue_scroll_px = f.queue_max_scroll;
        }
        let mut msg = owned("Removed \u{2014} ");
        push_str(&mut msg, f.title.as_str());
        self.notify(msg);
    }

    /// Queue the swiped track, if there is one.
    fn queue_swiped(&mut self, track: Option<i64>, title: &String, y: i32, at: QueueAt) -> (acts: Vec<Action>)
        requires
            old(self)@.valid(),
        ensures
            (final(self)@, acts@) == queue_swiped(old(self)@, track, title@, y, at),
            final(self)@.valid(),
    {
        match track {
            Some(id) => self.enqueue_at(id, title.as_str(), y, at),
            None => vec![],
        }
    }
}

/// Shuffle what is still to come (see `shuffled`), with a toast saying whether there was enough
/// left to shuffle.
pub open spec fn queue_shuffle_of(v: DeviceView) -> (DeviceView, Seq<Action>) {
    if can_shuffle(v) {
        let seed = next_seed(v.play.shuffle_seed);
        (
            notified(
                DeviceView {
                    play: PlayView {
                        context: shuffled(v.play.context, v.play.context_idx + 1, seed),
                        shuffle_seed: seed,
                        ..v.play
                    },
                    ..v
                },
                "Shuffled what's next"@,
            ),
            seq![Action::QueueChanged],
        )
    } else {
        (notified(v, "Nothing left to shuffle"@), Seq::empty())
    }
}

/// A countdown `frames` frames on, stopping at 0.
pub open spec fn counted_down(c: u8, frames: u8) -> u8 {
    if c > frames { (c - frames) as u8 } else { 0 }
}

/// `frames` frames on: the volume HUD, the toast and the queue chip count down.
pub open spec fn ticked(v: DeviceView, frames: u8) -> DeviceView {
    with_route(
        v,
        RouteView {
            vol_overlay: counted_down(v.route.vol_overlay, frames),
            toast_frames: counted_down(v.route.toast_frames, frames),
            queue_anim_frames: counted_down(v.route.queue_anim_frames, frames),
            ..v.route
        },
    )
}

/// Is any of the volume HUD, the toast and the queue chip still counting down?
pub open spec fn counting(v: DeviceView) -> bool {
    v.route.vol_overlay > 0 || v.route.toast_frames > 0 || v.route.queue_anim_frames > 0
}

/// The first position of `x` in `s`, or -1.
pub open spec fn index_in(s: Seq<i64>, x: i64) -> int {
    if exists|k: int| 0 <= k < s.len() && s[k] == x && (forall|j: int| 0 <= j < k ==> s[j] != x) {
        choose|k: int| 0 <= k < s.len() && s[k] == x && (forall|j: int| 0 <= j < k ==> s[j] != x)
    } else {
        -1
    }
}

/// `q` with a track added at the front or the back.
pub open spec fn queued(q: Seq<i64>, id: i64, at: QueueAt) -> Seq<i64> {
    match at {
        QueueAt::Next => seq![id] + q,
        QueueAt::Later => q.push(id),
    }
}

/// `q` with a track added at the front or the back.
fn with_queued(q: Vec<i64>, id: i64, at: QueueAt) -> (r: Vec<i64>)
    ensures
        r@ == queued(q@, id, at),
{
    let ghost before = q@;
    let mut q = q;
    match at {
        QueueAt::Next => {
            q.insert(0, id);
            assert(q@ =~= seq![id] + before);
        },
        QueueAt::Later => q.push(id),
    }
    q
}

/// `q` with the row at `from` taken out and put back at `to`.
pub open spec fn moved(q: Seq<i64>, from: int, to: int) -> Seq<i64> {
    q.remove(from).insert(to, q[from])
}

/// The shuffle generator's next seed.
pub open spec fn next_seed(seed: u64) -> u64 {
    vstd::wrapping::u64_specs::wrapping_add(vstd::wrapping::u64_specs::wrapping_mul(seed, 6364136223846793005u64), 1u64)
}

/// Is there anything to shuffle after the playing track: at least two tracks still to come?
pub open spec fn can_shuffle(v: DeviceView) -> bool {
    v.play.context_idx < v.play.context.len() && v.play.context.len() - v.play.context_idx - 1 >= 2
}

/// One step of the shuffle's xorshift generator.
pub open spec fn xorshift(x: u64) -> u64 {
    let a = x ^ (x << 13u64);
    let b = a ^ (a >> 7u64);
    b ^ (b << 17u64)
}

/// The shuffle from position `i` down: draw the next number, exchange the item at `first + i`
/// with the one at `first + j` for `j` that number modulo `i + 1`, then carry on from `i - 1`.
pub open spec fn shuffle_steps(s: Seq<i64>, first: int, i: int, x: u64) -> Seq<i64>
    decreases i,
{
    if i <= 0 {
        s
    } else {
        let y = xorshift(x);
        let j = (y % ((i + 1) as u64)) as int;
        shuffle_steps(swapped(s, first + i, first + j), first, i - 1, y)
    }
}

/// `s` with everything from `first` on shuffled, from the generator seeded by `seed` (made odd).
pub open spec fn shuffled(s: Seq<i64>, first: int, seed: u64) -> Seq<i64> {
    shuffle_steps(s, first, s.len() - first - 1, seed | 1)
}

/// `s` with the items at `i` and `j` exchanged.
pub open spec fn swapped(s: Seq<i64>, i: int, j: int) -> Seq<i64> {
    s.update(i, s[j]).update(j, s[i])
}

/// Exchanging two items keeps the same items.
proof fn lemma_swap_keeps_items(s: Seq<i64>, i: int, j: int)
    requires
        0 <= i < s.len(),
        0 <= j < s.len(),
    ensures
        swapped(s, i, j).to_multiset() == s.to_multiset(),
{
    broadcast use vstd::seq_lib::to_multiset_update, vstd::multiset::group_multiset_axioms;

    let s1 = s.update(i, s[j]);
    assert(s1.to_multiset() == s.to_multiset().insert(s[j]).remove(s[i]));
    assert(swapped(s, i, j).to_multiset() == s1.to_multiset().insert(s[i]).remove(s1[j]));
    if i == j {
        assert(swapped(s, i, j) =~= s);
    } else {
        assert(s1[j] == s[j]);
        let m = s.to_multiset();
        assert(m.count(s[i]) > 0) by {
            broadcast use vstd::seq_lib::to_multiset_contains;
            assert(s.contains(s[i]));
        }
        assert(m.insert(s[j]).remove(s[i]).insert(s[i]).remove(s[j]) =~= m);
    }
}

/// Exchange two items of `v`.
fn swap_items(v: &mut Vec<i64>, i: usize, j: usize)
    requires
        i < old(v).len(),
        j < old(v).len(),
    ensures
        final(v)@ == swapped(old(v)@, i as int, j as int),
{
    let a = v[i];
    let b = v[j];
    v.set(i, b);
    v.set(j, a);
}

impl App {
    /// The user's own queue, by track object id: the picks that play before the rest of the
    /// context.
    pub fn queue(&self) -> (q: &[i64])
        ensures
            q@ == self@.play.queue,
    {
        self.play.queue.as_slice()
    }

    /// The playing sequence, by track object id.
    pub fn context(&self) -> (c: &[i64])
        ensures
            c@ == self@.play.context,
    {
        self.play.context.as_slice()
    }

    /// The position of the playing track in the context.
    pub fn context_idx(&self) -> (i: usize)
        ensures
            i == self@.play.context_idx,
    {
        self.play.context_idx
    }

    /// Queue track `id` at the front (to play next) or the back. The toast names which, with the
    /// track's `title`, and the queue chip starts its ride on row `y` (the row it was flicked from).
    pub fn enqueue_at(&mut self, id: i64, title: &str, y: i32, at: QueueAt) -> (acts: Vec<Action>)
        requires
            old(self)@.valid(),
        ensures
            final(self)@ == enqueued(old(self)@, id, title@, y, at),
            acts@ == seq![Action::QueueChanged],
            final(self)@.valid(),
    {
        let mut msg = match at {
            QueueAt::Next => owned("Playing next \u{2014} "),
            QueueAt::Later => owned("Added to queue \u{2014} "),
        };
        push_str(&mut msg, title);
        self.notify(msg);
        self.route.queue_anim_y = y;
        self.route.queue_anim_frames = QUEUE_ANIM_FRAMES;
        let mut q: Vec<i64> = Vec::new();
        std::mem::swap(&mut q, &mut self.play.queue);
        self.set_queue(with_queued(q, id, at));
        vec![Action::QueueChanged]
    }

    /// Raise `msg` as a toast for its full countdown.
    fn notify(&mut self, msg: String)
        requires
            old(self)@.valid(),
        ensures
            final(self)@ == notified(old(self)@, msg@),
            final(self)@.valid(),
    {
        self.route.toast = msg;
        self.route.toast_frames = TOAST_FRAMES;
    }

    /// `frames` display frames have passed: the volume HUD, the toast and the queue chip count
    /// down, none below 0. True when any of them was still counting, the frame that reaches 0
    /// included, because that frame must repaint to clear it.
    pub fn tick_frames(&mut self, frames: u8) -> (animating: bool)
        requires
            old(self)@.valid(),
        ensures
            final(self)@ == ticked(old(self)@, frames),
            animating == counting(old(self)@),
            final(self)@.valid(),
    {
        let animating = self.route.vol_overlay > 0 || self.route.toast_frames > 0
            || self.route.queue_anim_frames > 0;
        self.route.vol_overlay = if self.route.vol_overlay > frames { self.route.vol_overlay - frames } else { 0 };
        self.route.toast_frames = if self.route.toast_frames > frames { self.route.toast_frames - frames } else { 0 };
        self.route.queue_anim_frames =
            if self.route.queue_anim_frames > frames { self.route.queue_anim_frames - frames } else { 0 };
        animating
    }

    /// The toast's text.
    pub fn toast(&self) -> (t: &str)
        ensures
            t@ == self@.route.toast,
    {
        self.route.toast.as_str()
    }

    /// Frames the toast has left (0 = not showing).
    pub fn toast_frames(&self) -> (n: u8)
        ensures
            n == self@.route.toast_frames,
    {
        self.route.toast_frames
    }

    /// The queue chip: the row it rides and the frames it has left.
    pub fn queue_anim(&self) -> (r: (i32, u8))
        ensures
            r == (self@.route.queue_anim_y, self@.route.queue_anim_frames),
    {
        (self.route.queue_anim_y, self.route.queue_anim_frames)
    }

    /// Move a queued track. A stale index, or a move onto itself, changes nothing and reports
    /// nothing: the queue can change under a gesture that started before it did.
    pub fn queue_move(&mut self, from: usize, to: usize) -> (acts: Vec<Action>)
        requires
            old(self)@.valid(),
        ensures
            if from >= old(self)@.play.queue.len() || to >= old(self)@.play.queue.len() || from == to {
                final(self)@ == old(self)@ && acts@ == Seq::<Action>::empty()
            } else {
                final(self)@ == (DeviceView {
                    play: PlayView {
                        queue: moved(old(self)@.play.queue, from as int, to as int),
                        ..old(self)@.play
                    },
                    ..old(self)@
                })
                    && acts@ == seq![Action::QueueChanged]
            },
            final(self)@.valid(),
    {
        if from >= self.play.queue.len() || to >= self.play.queue.len() || from == to {
            return vec![];
        }
        let mut q: Vec<i64> = Vec::new();
        std::mem::swap(&mut q, &mut self.play.queue);
        let row = q.remove(from);
        q.insert(to, row);
        self.set_queue(q);
        vec![Action::QueueChanged]
    }

    /// Take one row out of the queue: the shell calls this when a queued track starts, so a pick
    /// is consumed rather than replayed. A stale index changes nothing.
    pub fn queue_remove(&mut self, i: usize)
        requires
            old(self)@.valid(),
        ensures
            final(self)@ == if i < old(self)@.play.queue.len() {
                DeviceView {
                    play: PlayView { queue: old(self)@.play.queue.remove(i as int), ..old(self)@.play },
                    ..old(self)@
                }
            } else {
                old(self)@
            },
            final(self)@.valid(),
    {
        if i < self.play.queue.len() {
            let mut q: Vec<i64> = Vec::new();
            std::mem::swap(&mut q, &mut self.play.queue);
            q.remove(i);
            self.set_queue(q);
        }
    }

    /// Drop everything queued. Clearing an empty queue is no change and reports nothing.
    pub fn queue_clear(&mut self) -> (acts: Vec<Action>)
        requires
            old(self)@.valid(),
        ensures
            if old(self)@.play.queue.len() == 0 {
                final(self)@ == old(self)@ && acts@ == Seq::<Action>::empty()
            } else {
                final(self)@ == (DeviceView {
                    play: PlayView { queue: Seq::empty(), ..old(self)@.play },
                    ..old(self)@
                }) && acts@ == seq![
                    Action::QueueChanged,
                ]
            },
            final(self)@.valid(),
    {
        if self.play.queue.len() == 0 {
            return vec![];
        }
        self.set_queue(Vec::new());
        vec![Action::QueueChanged]
    }

    /// The user chose to keep their picks: the next play context leaves the queue alone.
    pub fn keep_queue(&mut self)
        requires
            old(self)@.valid(),
        ensures
            final(self)@ == (DeviceView {
                play: PlayView { queue_keep: true, ..old(self)@.play },
                ..old(self)@
            }),
            final(self)@.valid(),
    {
        self.play.queue_keep = true;
    }

    /// Set the playback context: the sequence now playing and the position of the track that
    /// started (clamped into the sequence). The user's picks are cleared unless they chose to
    /// keep them, and that choice holds for this one play only. Up Next goes back to its top with
    /// no drag in flight and follows playback again.
    pub fn set_play_context(&mut self, rows: Vec<i64>, start: usize)
        requires
            old(self)@.valid(),
        ensures
            final(self)@ == (DeviceView {
                play: PlayView {
                    context: rows@,
                    context_idx: if rows@.len() == 0 { 0 } else if start < rows@.len() { start } else {
                        (rows@.len() - 1) as usize
                    },
                    queue: if old(self)@.play.queue_keep { old(self)@.play.queue } else { Seq::empty() },
                    queue_keep: false,
                    shuffle_seed: old(self)@.play.shuffle_seed,
                },
                cursors: Cursors {
                    queue_scroll_px: 0,
                    queue_drag: None,
                    queue_follow: true,
                    up_next_cur: None,
                    ..old(self)@.cursors
                },
                ..old(self)@
            }),
            final(self)@.valid(),
    {
        let last = if rows.len() == 0 { 0 } else { rows.len() - 1 };
        let idx = if start < last { start } else { last };
        let mut q: Vec<i64> = Vec::new();
        if self.play.queue_keep {
            std::mem::swap(&mut q, &mut self.play.queue);
        }
        self.set_play_fields(rows, idx, q);
    }

    /// Replace the user queue.
    fn set_queue(&mut self, queue: Vec<i64>)
        ensures
            final(self)@ == (DeviceView {
                play: PlayView { queue: queue@, ..old(self)@.play },
                ..old(self)@
            }),
    {
        self.play.queue = queue;
    }

    /// Replace what is playing.
    fn set_play_fields(&mut self, context: Vec<i64>, context_idx: usize, queue: Vec<i64>)
        ensures
            final(self)@ == (DeviceView {
                play: PlayView {
                    context: context@,
                    context_idx,
                    queue: queue@,
                    queue_keep: false,
                    shuffle_seed: old(self)@.play.shuffle_seed,
                },
                cursors: Cursors {
                    queue_scroll_px: 0,
                    queue_drag: None,
                    queue_follow: true,
                    up_next_cur: None,
                    ..old(self)@.cursors
                },
                ..old(self)@
            }),
    {
        self.play.context = context;
        self.play.context_idx = context_idx;
        self.play.queue = queue;
        self.play.queue_keep = false;
        self.cursors.queue_scroll_px = 0;
        self.cursors.queue_drag = None;
        self.cursors.queue_follow = true;
        self.cursors.up_next_cur = None;
    }

    /// The shell reports which context track just started, by object id. The position moves to
    /// that track's first place in the context; true when that moved it. An id that is not in the
    /// context leaves the position alone.
    pub fn set_context_playing(&mut self, object_id: i64) -> (changed: bool)
        requires
            old(self)@.valid(),
        ensures
            changed == (index_in(old(self)@.play.context, object_id) >= 0 && index_in(old(self)@.play.context, object_id)
                != old(self)@.play.context_idx),
            final(self)@ == if changed {
                DeviceView {
                    play: PlayView {
                        context_idx: index_in(old(self)@.play.context, object_id) as usize,
                        ..old(self)@.play
                    },
                    ..old(self)@
                }
            } else {
                old(self)@
            },
            final(self)@.valid(),
    {
        let n = self.play.context.len();
        let mut i: usize = 0;
        while i < n && self.play.context[i] != object_id
            invariant
                n == self.play.context@.len(),
                i <= n,
                forall|j: int| 0 <= j < i ==> self.play.context@[j] != object_id,
            decreases n - i,
        {
            i += 1;
        }
        let ghost s = self.play.context@;
        if i < n {
            proof {
                assert(s[i as int] == object_id);
                let k = index_in(s, object_id);
                assert(0 <= k < s.len() && s[k] == object_id && (forall|j: int| 0 <= j < k ==> s[j] != object_id));
                if k < i {
                    assert(s[k] != object_id);
                }
                if k > i {
                    assert(s[i as int] != object_id);
                }
                assert(k == i);
            }
            if i != self.play.context_idx {
                self.play.context_idx = i;
                return true;
            }
            false
        } else {
            proof {
                if exists|k: int| 0 <= k < s.len() && s[k] == object_id && (forall|j: int| 0 <= j < k ==> s[j] != object_id) {
                    let k = choose|k: int| 0 <= k < s.len() && s[k] == object_id && (forall|j: int| 0 <= j < k ==> s[j] != object_id);
                    assert(s[k] != object_id);
                }
            }
            false
        }
    }

    /// Shuffle what is still to come: the played tracks and the playing one keep their places,
    /// the rest is reordered (the same tracks, each as often as before), and the user's picks are
    /// left alone. A toast says which happened; with fewer than two tracks to come nothing else
    /// changes and nothing is reported.
    pub fn queue_shuffle(&mut self) -> (acts: Vec<Action>)
        requires
            old(self)@.valid(),
        ensures
            (final(self)@, acts@) == queue_shuffle_of(old(self)@),
            final(self)@.valid(),
            can_shuffle(old(self)@) ==> ({
                let o = old(self)@;
                let f = final(self)@;
                let first = o.play.context_idx + 1;
                &&& f.play.context.len() == o.play.context.len()
                &&& f.play.context.subrange(0, first) == o.play.context.subrange(0, first)
                &&& f.play.context.subrange(first, f.play.context.len() as int).to_multiset()
                    == o.play.context.subrange(first, o.play.context.len() as int).to_multiset()
            }),
    {
        let acts = self.shuffle_rest();
        if acts.len() == 0 {
            self.notify(owned("Nothing left to shuffle"));
        } else {
            self.notify(owned("Shuffled what's next"));
        }
        acts
    }

    /// The reordering itself (see `queue_shuffle`).
    #[verifier::rlimit(40)]
    fn shuffle_rest(&mut self) -> (acts: Vec<Action>)
        requires
            old(self)@.valid(),
        ensures
            !can_shuffle(old(self)@) ==> final(self)@ == old(self)@ && acts@ == Seq::<Action>::empty(),
            can_shuffle(old(self)@) ==> ({
                let o = old(self)@;
                let f = final(self)@;
                let first = o.play.context_idx + 1;
                &&& acts@ == seq![Action::QueueChanged]
                &&& f == (DeviceView {
                    play: PlayView {
                        context: f.play.context,
                        shuffle_seed: next_seed(o.play.shuffle_seed),
                        ..o.play
                    },
                    ..o
                })
                &&& f.play.context == shuffled(o.play.context, first, next_seed(o.play.shuffle_seed))
                &&& f.play.context.len() == o.play.context.len()
                &&& f.play.context.subrange(0, first) == o.play.context.subrange(0, first)
                &&& f.play.context.subrange(first, f.play.context.len() as int).to_multiset()
                    == o.play.context.subrange(first, o.play.context.len() as int).to_multiset()
            }),
            final(self)@.valid(),
    {
        let n = self.play.context.len();
        if self.play.context_idx >= n || n - self.play.context_idx - 1 < 2 {
            return vec![];
        }
        let first = self.play.context_idx + 1;
        self.play.shuffle_seed = self.play.shuffle_seed.wrapping_mul(6364136223846793005).wrapping_add(1);
        let mut x: u64 = self.play.shuffle_seed | 1;
        let mut ctx: Vec<i64> = Vec::new();
        std::mem::swap(&mut ctx, &mut self.play.context);
        let ghost orig = ctx@;
        let mut i: usize = n - first - 1;
        while i > 0
            invariant
                ctx@.len() == n,
                orig.len() == n,
                first + i < n,
                shuffle_steps(ctx@, first as int, i as int, x) == shuffle_steps(
                    orig,
                    first as int,
                    n - first - 1,
                    self.play.shuffle_seed | 1,
                ),
                ctx@.subrange(0, first as int) == orig.subrange(0, first as int),
                ctx@.subrange(first as int, n as int).to_multiset() == orig.subrange(first as int, n as int).to_multiset(),
            decreases i,
        {
            let ghost x0 = x;
            x = x ^ (x << 13u64);
            x = x ^ (x >> 7u64);
            x = x ^ (x << 17u64);
            assert(x == xorshift(x0));
            let j: usize = (x % (i as u64 + 1)) as usize;
            let ghost before = ctx@;
            swap_items(&mut ctx, first + i, first + j);
            proof {
                assert(j as int == (x % ((i + 1) as u64)) as int);
                let t = before.subrange(first as int, n as int);
                lemma_swap_keeps_items(t, i as int, j as int);
                assert(ctx@.subrange(first as int, n as int) =~= swapped(t, i as int, j as int));
                assert(ctx@.subrange(0, first as int) =~= before.subrange(0, first as int));
            }
            i -= 1;
        }
        self.play.context = ctx;
        vec![Action::QueueChanged]
    }
}



// ── Taps ────────────────────────────────────────────────────────────────────────────────────

/// Which button of the modal card a tap landed on (anywhere off the card's buttons counts as its
/// Cancel).
#[derive(Clone, Copy, PartialEq, Eq, Debug, Structural)]
pub enum CardHit {
    Cancel,
    Restart,
    PowerOff,
    ClearQueue,
    KeepQueue,
    Confirm,
}

/// Which zone of the status strip a tap landed in: the bookmark glyph (the Shelf), the
/// now-playing glyph, or the rest of the strip (the Menu).
#[derive(Clone, Copy, PartialEq, Eq, Debug, Structural)]
pub enum StatusTap {
    Shelf,
    NowPlaying,
    Menu,
}

/// Where on the Now Playing return bar (drawn on the browsing screens) a tap landed: off it, on
/// its play/pause zone, or on the rest of it.
#[derive(Clone, Copy, PartialEq, Eq, Debug, Structural)]
pub enum NpBarHit {
    Off,
    PlayPause,
    Open,
}

/// What is under the finger on the Library below its header, resolved against the list as drawn:
/// a tab of the tab strip; the A–Z rail while it is drawn, with the scroll its letter jumps to
/// (none when no row starts with it); the shuffle band; a Songs row by rank with its track's id;
/// a Playlists row by rank with its playlist's id; an Artists row by rank and whether that artist
/// exists; on the Albums accordion an album's body (its index, and its rank in the current order
/// if it has one), its art, or one of its tracks with the track's id.
#[derive(Clone, Copy, Debug)]
pub enum LibTap {
    Nothing,
    Tab(Tab),
    Rail(Option<i32>),
    ShuffleBand,
    Song(usize, Option<i64>),
    Playlist(usize, Option<i64>),
    Artist(usize, bool),
    AlbumToggle(usize, Option<usize>),
    AlbumOpen(usize),
    AlbumTrack(Option<i64>),
}

/// What is under the finger on the open album's page: a track row (its index and id), or the
/// "Play album" band (with the first track's id).
#[derive(Clone, Copy, Debug)]
pub enum AlbumTap {
    Nothing,
    Track(usize, Option<i64>),
    PlayBand(Option<i64>),
}

/// What is under the finger on the open artist's page: the shuffle band, one of their albums (its
/// index), or a track row (its index and id).
#[derive(Clone, Copy, Debug)]
pub enum ArtistTap {
    Nothing,
    ShuffleBand,
    Album(usize),
    Track(usize, i64),
}

/// What is under the finger on the open playlist's page: the shuffle band (with the playlist's
/// id), or a track row (its index and id).
#[derive(Clone, Copy, Debug)]
pub enum PlaylistTap {
    Nothing,
    ShuffleBand(i64),
    Track(usize, i64),
}

/// What is under the finger on Up Next's list: a heading, a gap or the empty state; a row of the
/// user's queue; the playing row; or a played or upcoming track, by its place in the sequence.
#[derive(Clone, Copy, Debug)]
pub enum UpNextTap {
    Heading,
    Queued(usize),
    Current,
    Track(usize),
}

/// What is under the finger on the EQ: a preset pill, a band column (above its zero line raises,
/// below lowers), the band field between columns, or the footer's Reset.
#[derive(Clone, Copy, Debug)]
pub enum EqTap {
    Nothing,
    Preset(usize),
    Band(usize, bool),
    Reset,
}

/// What is under the finger on the Bluetooth screen.
#[derive(Clone, Copy, Debug)]
pub enum BtTap {
    Nothing,
    Toggle,
    Disconnect,
    Codec(u8),
    Quality(u8),
    Enhanced,
    Pair,
}

/// What a tap needs from the parts of the screen that the library and the shell lay out: the
/// modal card's button under the finger, the Now Playing bar and status strip zones, the Menu row,
/// whether the finger is on Now Playing's heart, the Library, album, artist, playlist, Up Next,
/// EQ and Bluetooth targets, how many song sorts and album orders there are, the Library's
/// greatest scroll with the accordion as the tap leaves it, the EQ gain step and limit and its
/// presets, the place's title and subtitle (what a pin is labelled with), and for the pin in the
/// Shelf slot under the finger the Library's greatest scroll, its album's greatest scroll (none
/// once the album is gone) and its expanded album's rank and row top in the current order.
pub struct TapFacts {
    pub card: CardHit,
    pub np_bar: NpBarHit,
    pub status: Option<StatusTap>,
    pub menu_row: Option<usize>,
    pub heart: bool,
    pub lib: LibTap,
    pub song_sorts: usize,
    pub album_sorts: usize,
    pub lib_max_scroll: i32,
    pub album: AlbumTap,
    pub artist: ArtistTap,
    pub playlist: PlaylistTap,
    pub up_next: UpNextTap,
    pub eq: EqTap,
    pub band_step: i8,
    pub band_max: i8,
    pub eq_presets: Vec<[i8; 10]>,
    pub bt: BtTap,
    pub place_title: String,
    pub place_sub: String,
    pub pin_lib_max: i32,
    pub pin_album_max: Option<i32>,
    pub pin_album_row: Option<(usize, i32)>,
}

/// The facts a tap can be answered from: at least one sort and order, scroll limits that are not
/// negative, a gain step and limit that are not negative, and a Menu row, preset and band that
/// exist.
pub open spec fn tap_facts_ok(f: TapFacts) -> bool {
    &&& f.song_sorts > 0
    &&& f.album_sorts > 0
    &&& f.lib_max_scroll >= 0
    &&& f.pin_lib_max >= 0
    &&& (f.pin_album_max matches Some(m) ==> m >= 0)
    &&& f.band_step >= 0
    &&& f.band_max >= 0
    &&& (f.menu_row matches Some(r) ==> r < MENU_ROWS)
    &&& (f.eq matches EqTap::Preset(i) ==> i < f.eq_presets@.len())
    &&& (f.eq matches EqTap::Band(b, _) ==> b < 10)
}

/// The Menu's row count.
pub const MENU_ROWS: usize = 11;

/// Every EQ band flat.
pub const FLAT_BANDS: [i8; 10] = [0, 0, 0, 0, 0, 0, 0, 0, 0, 0];

/// `v` held to `0..=hi`.
pub open spec fn clamped(v: i32, hi: i32) -> i32 {
    if v < 0 { 0 } else if v > hi { hi } else { v }
}

/// `n` held below `count` (at 0 when `count` is 0).
pub open spec fn capped(n: usize, count: usize) -> usize {
    if count == 0 { 0 } else if n < count { n } else { (count - 1) as usize }
}

/// The screens that draw the Now Playing return bar.
pub open spec fn shows_np_bar(s: Screen) -> bool {
    s == Screen::Library || s == Screen::Album || s == Screen::Artist || s == Screen::Playlist
}

/// The screens whose header draws a back chevron.
pub open spec fn has_header(s: Screen) -> bool {
    !(s == Screen::NowPlaying || s == Screen::Menu || s == Screen::Lock)
}

/// What the Library's shuffle band shuffles on each tab.
pub open spec fn scope_of(t: Tab) -> ShuffleScope {
    match t {
        Tab::Songs => ShuffleScope::AllSongs,
        Tab::Albums => ShuffleScope::ByAlbum,
        Tab::Artists => ShuffleScope::ByArtist,
        Tab::Playlists => ShuffleScope::Playlist,
    }
}

/// `[PlayIndex(id)]` for a waiting track, nothing otherwise.
pub open spec fn play_pending(p: Option<i64>) -> Seq<Action> {
    match p {
        Some(id) => seq![Action::PlayIndex(id)],
        None => Seq::empty(),
    }
}

/// The modal card answered; whatever the answer, it is gone. Cancel drops the track waiting on
/// it; Restart and Power off are handed to the shell; Clear empties the queue and plays the
/// waiting track; Keep keeps the queue for the next play and plays the waiting track; a yes/no
/// card's Confirm means the thing the card is named after.
pub open spec fn tap_card_of(v: DeviceView, f: TapFacts) -> (DeviceView, Seq<Action>) {
    let ask = v.route.confirm;
    let w = with_route(v, RouteView { confirm: None, ..v.route });
    let dropped = RouteView { pending_song: None, ..w.route };
    match f.card {
        CardHit::Cancel => nothing(with_route(w, dropped)),
        CardHit::Restart => (w, seq![Action::Restart]),
        CardHit::PowerOff => (w, seq![Action::PowerOff]),
        CardHit::ClearQueue => (
            DeviceView { route: dropped, play: PlayView { queue: Seq::empty(), ..w.play }, ..w },
            (if w.play.queue.len() > 0 { seq![Action::QueueChanged] } else { Seq::empty() }) + play_pending(
                w.route.pending_song,
            ),
        ),
        CardHit::KeepQueue => (
            DeviceView { route: dropped, play: PlayView { queue_keep: true, ..w.play }, ..w },
            play_pending(w.route.pending_song),
        ),
        CardHit::Confirm => (
            w,
            if ask == Some(Ask::Restart) {
                seq![Action::Restart]
            } else if ask == Some(Ask::PowerOff) {
                seq![Action::PowerOff]
            } else {
                Seq::empty()
            },
        ),
    }
}

/// Which Shelf slots hold a pin.
pub open spec fn pins_filled(p: Seq<Option<PinFields>>) -> Seq<bool> {
    Seq::new(p.len(), |i: int| p[i] is Some)
}

/// The current place as a pin: its screen with the Library's tab, sorts, accordion and scroll,
/// the open album with its scroll, the open artist and playlist, and the place's labels.
pub open spec fn captured(v: DeviceView, title: Seq<char>, sub: Seq<char>) -> PinFields {
    let k = v.cursors;
    PinFields {
        screen: current_of(v),
        lib_tab: k.lib_tab,
        lib_sort: k.lib_sort,
        album_sort: k.album_sort,
        album_expanded: k.album_expanded,
        lib_scroll_px: k.lib_scroll_px,
        album_view: k.album_view,
        album_scroll_px: k.album_scroll_px,
        artist_view: k.artist_view,
        playlist_view: k.playlist_view,
        title,
        sub,
    }
}

/// A pinned place restored: the route is Now Playing with the place on top (Back returns to Now
/// Playing), the Library's tab, sorts (held within today's lists), accordion, open album, artist
/// and playlist come back, the scrolls are held within today's lists, and a pinned expanded album
/// of the Albums tab is scrolled to where it stands now, with the cursor on it.
pub open spec fn restored(v: DeviceView, p: PinFields, f: TapFacts) -> DeviceView {
    let jump = p.screen == Screen::Library && p.lib_tab == Tab::Albums && p.album_expanded is Some
        && f.pin_album_row is Some;
    let row = match f.pin_album_row {
        Some(r) => r,
        None => (0usize, 0i32),
    };
    DeviceView {
        route: RouteView {
            stack: if p.screen == Screen::NowPlaying {
                seq![Screen::NowPlaying]
            } else {
                seq![Screen::NowPlaying, p.screen]
            },
            ..v.route
        },
        cursors: Cursors {
            lib_tab: p.lib_tab,
            lib_sort: capped(p.lib_sort, f.song_sorts),
            album_sort: capped(p.album_sort, f.album_sorts),
            album_expanded: p.album_expanded,
            album_view: p.album_view,
            artist_view: p.artist_view,
            playlist_view: p.playlist_view,
            lib_idx: if jump { row.0 } else { 0 },
            lib_scroll_px: if jump { clamped(row.1, f.pin_lib_max) } else { clamped(p.lib_scroll_px, f.pin_lib_max) },
            album_scroll_px: match f.pin_album_max {
                Some(m) => clamped(p.album_scroll_px, m),
                None => 0,
            },
            ..v.cursors
        },
        ..v
    }
}

/// The toast for pinning into slot `i` (counted from 1 on screen).
pub open spec fn pinned_toast(i: int, replaced: bool, name: Seq<char>) -> Seq<char> {
    if replaced {
        "Slot "@ + dec((i + 1) as nat) + " replaced \u{2014} "@ + name
    } else {
        "Pinned to slot "@ + dec((i + 1) as nat) + " \u{2014} "@ + name
    }
}

/// The toast for clearing slot `i`.
pub open spec fn cleared_toast(i: int) -> Seq<char> {
    "Slot "@ + dec((i + 1) as nat) + " cleared"@
}

/// A tap while the Shelf is open: above the sheet or on its close control closes it; an empty
/// slot or the Pin button pins the current place there (with a toast naming the slot, and whether
/// it replaced a pin), unless the place cannot be pinned; a filled slot restores its place and
/// closes the sheet, or in its × column forgets it.
pub open spec fn shelf_tap_of(v: DeviceView, f: TapFacts, x: int, y: int) -> (DeviceView, Seq<Action>) {
    let pins = v.route.pins;
    match shelf_hit(x, y, pins_filled(pins)) {
        ShelfHit::Close => nothing(with_route(v, RouteView { shelf_open: false, ..v.route })),
        ShelfHit::PinTo(i) => if !spec_pinnable(current_of(v)) {
            nothing(notified(v, "Nothing to pin here"@))
        } else {
            let w = with_route(
                v,
                RouteView { pins: pins.update(i as int, Some(captured(v, f.place_title@, f.place_sub@))), ..v.route },
            );
            nothing(notified(w, pinned_toast(i as int, pins[i as int] is Some, f.place_title@)))
        },
        ShelfHit::Go(i) => {
            let w = match pins[i as int] {
                Some(p) => restored(v, p, f),
                None => v,
            };
            nothing(with_route(w, RouteView { shelf_open: false, ..w.route }))
        },
        ShelfHit::Clear(i) => if pins[i as int] is Some {
            nothing(notified(with_route(v, RouteView { pins: pins.update(i as int, None), ..v.route }), cleared_toast(i as int)))
        } else {
            nothing(v)
        },
        ShelfHit::Nothing => nothing(v),
    }
}

/// The introduction: the right three fifths page on (finishing it on the last page), the rest
/// pages back.
pub open spec fn tap_onboarding_of(v: DeviceView, x: int) -> DeviceView {
    let page = v.route.onboarding_page;
    if x > W * 2 / 5 {
        if page + 1 < ONBOARDING_PAGES {
            with_route(v, RouteView { onboarding_page: (page + 1) as usize, ..v.route })
        } else {
            finish_onboarding_of(v)
        }
    } else {
        with_route(v, RouteView { onboarding_page: dec_sat(page), ..v.route })
    }
}

/// Now Playing: the heart likes; the transport row's circles play/pause, skip back and on, and
/// toggle shuffle and repeat; the bottom toolbar opens the Library, Up Next, the EQ, Bluetooth and
/// Settings; the top (the art's upper edge) opens the Menu.
pub open spec fn tap_now_playing_of(v: DeviceView, f: TapFacts, x: int, y: int) -> (DeviceView, Seq<Action>) {
    if f.heart {
        (v, seq![Action::ToggleLiked])
    } else if in_circle(x, y, 240, 692, 44) {
        (play_toggled(v), seq![Action::PlayPause])
    } else if in_circle(x, y, 130, 692, 34) {
        (v, seq![Action::Prev])
    } else if in_circle(x, y, 350, 692, 34) {
        (v, seq![Action::Next])
    } else if in_circle(x, y, 44, 692, 30) {
        (v, seq![Action::ShuffleToggle])
    } else if in_circle(x, y, 436, 692, 30) {
        (v, seq![Action::RepeatCycle])
    } else if y > 744 {
        nothing(
            push_of(
                v,
                if x < 96 {
                    Screen::Library
                } else if x < 192 {
                    Screen::UpNext
                } else if x < 288 {
                    Screen::Eq
                } else if x < 384 {
                    Screen::Bluetooth
                } else {
                    Screen::Settings
                },
            ),
        )
    } else if y < 91 {
        nothing(push_of(v, Screen::Menu))
    } else {
        nothing(v)
    }
}

/// Open the album page of album `flat`, from its top.
pub open spec fn open_album_of(v: DeviceView, flat: usize) -> DeviceView {
    push_of(with_cursors(v, Cursors { album_view: flat, album_track_idx: 0, album_scroll_px: 0, ..v.cursors }), Screen::Album)
}

/// Open the page of artist `idx`, from its top.
pub open spec fn open_artist_of(v: DeviceView, idx: usize) -> DeviceView {
    push_of(with_cursors(v, Cursors { artist_view: idx, artist_track_idx: 0, ..v.cursors }), Screen::Artist)
}

/// Open the page of playlist `idx`, from its top.
pub open spec fn open_playlist_of(v: DeviceView, idx: usize) -> DeviceView {
    push_of(with_cursors(v, Cursors { playlist_view: idx, playlist_track_idx: 0, ..v.cursors }), Screen::Playlist)
}

/// The Library: the header's right slot cycles the Songs sort or the Albums order (back to the
/// top of the list); the tab strip switches tab (top of the list, accordion closed); the rail
/// jumps; the band shuffles the tab's scope; a song plays; a playlist or artist row opens its
/// page, or from its right-hand button plays the playlist or shuffles the artist; an album's body
/// opens or closes it in place (the cursor on it, the scroll held within the list), its art opens
/// its page, and its track plays.
pub open spec fn tap_library_of(v: DeviceView, f: TapFacts, x: int, y: int) -> (DeviceView, Seq<Action>) {
    let k = v.cursors;
    if 34 <= y < 91 && x >= 300 {
        if k.lib_tab == Tab::Songs {
            nothing(with_cursors(v, Cursors {
                lib_sort: ((k.lib_sort + 1) % (f.song_sorts as int)) as usize,
                lib_idx: 0,
                lib_scroll_px: 0,
                ..k
            }))
        } else if k.lib_tab == Tab::Albums {
            nothing(with_cursors(v, Cursors {
                album_sort: ((k.album_sort + 1) % (f.album_sorts as int)) as usize,
                album_expanded: None,
                lib_idx: 0,
                lib_scroll_px: 0,
                ..k
            }))
        } else {
            nothing(v)
        }
    } else {
        match f.lib {
            LibTap::Nothing => nothing(v),
            LibTap::Tab(t) => nothing(on_tab(v, t)),
            LibTap::Rail(jump) => match jump {
                Some(px) => nothing(with_cursors(v, Cursors { lib_scroll_px: px, ..k })),
                None => nothing(v),
            },
            LibTap::ShuffleBand => (v, seq![Action::Shuffle(scope_of(k.lib_tab))]),
            LibTap::Song(row, id) => match id {
                Some(i) => start_play_of(with_cursors(v, Cursors { lib_idx: row, ..k }), i),
                None => nothing(v),
            },
            LibTap::Playlist(row, id) => {
                let w = with_cursors(v, Cursors { lib_idx: row, ..k });
                match id {
                    Some(i) => if x >= 404 { (w, seq![Action::PlayPlaylist(i)]) } else { nothing(open_playlist_of(w, row)) },
                    None => nothing(w),
                }
            },
            LibTap::Artist(row, exists) => {
                let w = with_cursors(v, Cursors { lib_idx: row, ..k });
                if !exists {
                    nothing(w)
                } else if x >= 404 {
                    (w, seq![Action::ShuffleArtist(row)])
                } else {
                    nothing(open_artist_of(w, row))
                }
            },
            LibTap::AlbumToggle(flat, rank) => nothing(with_cursors(v, Cursors {
                album_expanded: if k.album_expanded == Some(flat) { None } else { Some(flat) },
                lib_idx: match rank {
                    Some(r) => r,
                    None => k.lib_idx,
                },
                lib_scroll_px: clamped(k.lib_scroll_px, f.lib_max_scroll),
                ..k
            })),
            LibTap::AlbumOpen(flat) => nothing(open_album_of(v, flat)),
            LibTap::AlbumTrack(id) => match id {
                Some(i) => start_play_of(v, i),
                None => nothing(v),
            },
        }
    }
}

/// The album, artist and playlist pages: a track row plays its track (the page's cursor on it);
/// the album's band plays it from its first track; the artist's band shuffles them and their
/// album rows open the album; the playlist's band shuffles it.
pub open spec fn tap_page_of(v: DeviceView, f: TapFacts) -> (DeviceView, Seq<Action>) {
    let k = v.cursors;
    let s = current_of(v);
    if s == Screen::Album {
        match f.album {
            AlbumTap::Nothing => nothing(v),
            AlbumTap::Track(row, id) => {
                let w = with_cursors(v, Cursors { album_track_idx: row, ..k });
                match id {
                    Some(i) => start_play_of(w, i),
                    None => nothing(w),
                }
            },
            AlbumTap::PlayBand(id) => {
                let w = with_cursors(v, Cursors { album_track_idx: 0, ..k });
                match id {
                    Some(i) => start_play_of(w, i),
                    None => nothing(w),
                }
            },
        }
    } else if s == Screen::Artist {
        match f.artist {
            ArtistTap::Nothing => nothing(v),
            ArtistTap::ShuffleBand => (v, seq![Action::ShuffleArtist(k.artist_view)]),
            ArtistTap::Album(flat) => nothing(open_album_of(v, flat)),
            ArtistTap::Track(i, id) => start_play_of(with_cursors(v, Cursors { artist_track_idx: i, ..k }), id),
        }
    } else {
        match f.playlist {
            PlaylistTap::Nothing => nothing(v),
            PlaylistTap::ShuffleBand(id) => (v, seq![Action::ShufflePlaylist(id)]),
            PlaylistTap::Track(i, id) => start_play_of(with_cursors(v, Cursors { playlist_track_idx: i, ..k }), id),
        }
    }
}

/// What is under the finger on Up Next's list. With no picks queued the list is laid out here
/// (the played tracks, the playing one and those to come) and the row is read off that layout: a
/// played or upcoming row is that track of the sequence. With picks queued the list also holds
/// their section, which the shell lays out, and its answer is taken.
pub open spec fn up_next_target(v: DeviceView, f: TapFacts, y: int) -> UpNextTap {
    let scroll = v.cursors.queue_scroll_px as int;
    if v.play.queue.len() == 0 && up_next_fits(v) && content_y(y, scroll) <= i32::MAX {
        match slot_at_point(played_before(v), v.play.context.len() as usize, now_row(v), y, scroll) {
            Some(Slot::Current(_)) => UpNextTap::Current,
            Some(Slot::History(i)) => UpNextTap::Track(i),
            Some(Slot::Upcoming(i)) => UpNextTap::Track(i),
            _ => UpNextTap::Heading,
        }
    } else {
        f.up_next
    }
}

/// Up Next: CLEAR (drawn only over a queue) empties the queue and says so; SHUFFLE shuffles what
/// is to come; a queued row plays the queue from there, except on its grab handle, which belongs
/// to the reorder drag; the playing row, a heading or the empty list goes to Now Playing; a
/// played or upcoming track plays, and the list follows playback again.
pub open spec fn tap_up_next_of(v: DeviceView, f: TapFacts, x: int, y: int) -> (DeviceView, Seq<Action>) {
    if v.play.queue.len() > 0 && spec_in_rect(CLEAR_CHIP, x, y) {
        let w = notified(v, "Queue cleared"@);
        (DeviceView { play: PlayView { queue: Seq::empty(), ..w.play }, ..w }, seq![Action::QueueChanged])
    } else if spec_in_rect(SHUFFLE_CHIP, x, y) {
        queue_shuffle_of(v)
    } else {
        match up_next_target(v, f, y) {
            UpNextTap::Queued(i) => if GRIP_X0 <= x < GRIP_X1 { nothing(v) } else { (v, seq![Action::PlayQueueAt(i)]) },
            UpNextTap::Track(i) => if i < v.play.context.len() {
                start_play_of(with_cursors(v, Cursors { queue_follow: true, ..v.cursors }), v.play.context[i as int])
            } else {
                nothing(v)
            },
            _ => nothing(go_of(v, Screen::NowPlaying)),
        }
    }
}

/// Settings: a swatch picks its accent (the Accent row selected, boot-to-stock disarmed); the UI
/// scale row's slider takes the step under the finger; any other row is selected and activated
/// as Select would.
pub open spec fn tap_settings_of(v: DeviceView, x: int, y: int) -> (DeviceView, Seq<Action>) {
    let sc = v.cursors.settings_scroll_px as int;
    match spec_accent_hit(x, y, sc) {
        Some(i) => nothing(DeviceView {
            cursors: Cursors { settings_sel: ROW_ACCENT, ..v.cursors },
            route: RouteView { boot_stock_armed: false, ..v.route },
            prefs: PrefsView { accent: accent_at(i as int), ..v.prefs },
            ..v
        }),
        None => match spec_settings_row_at(y, sc) {
            Some(row) => if row < SETTINGS_ROWS {
                let w = with_cursors(v, Cursors { settings_sel: row, ..v.cursors });
                if row == ROW_UI_SCALE {
                    (DeviceView { ui_scale: steps()[spec_ui_scale_idx_at(x)] as int, ..w }, seq![Action::UiScaleChanged])
                } else {
                    settings_activate_of(w)
                }
            } else {
                nothing(v)
            },
            None => nothing(v),
        },
    }
}

/// Sound: the header's A/B control flips the bypass; a row is selected and its effect flipped.
pub open spec fn tap_sound_of(v: DeviceView, x: int, y: int) -> (DeviceView, Seq<Action>) {
    let k = v.cursors;
    if 44 <= y < 70 && x > 380 {
        (with_cursors(v, Cursors { snd_ab_bypass: !k.snd_ab_bypass, ..k }), seq![Action::SoundBypass(!k.snd_ab_bypass)])
    } else {
        match spec_sound_row_at(y) {
            Some(row) => if row < SOUND_ROWS {
                (sound_toggled(with_cursors(v, Cursors { sound_sel: row, ..k })), seq![Action::SoundChanged])
            } else {
                nothing(v)
            },
            None => nothing(v),
        }
    }
}

/// The EQ: a preset pill applies it; a band column selects the band and raises or lowers it a
/// step; Reset flattens every band and selects the flat preset; each change is handed to the
/// shell.
pub open spec fn tap_eq_of(v: DeviceView, f: TapFacts) -> (DeviceView, Seq<Action>) {
    match f.eq {
        EqTap::Preset(i) => {
            let g = f.eq_presets@[i as int];
            (
                DeviceView { cursors: Cursors { eq_preset: i, ..v.cursors }, sound: SoundView { eq_bands: g, ..v.sound }, ..v },
                seq![Action::EqChanged(g)],
            )
        },
        EqTap::Band(b, raise) => {
            let w = with_cursors(v, Cursors { eq_sel: b, ..v.cursors });
            let g = w.sound.eq_bands[b as int];
            let u = with_band(w, b as int, if raise { band_up(g, f.band_step, f.band_max) } else { band_down(g, f.band_step, f.band_max) });
            (u, seq![Action::EqChanged(u.sound.eq_bands)])
        },
        EqTap::Reset => (
            DeviceView { cursors: Cursors { eq_preset: 0, ..v.cursors }, sound: SoundView { eq_bands: FLAT_BANDS, ..v.sound }, ..v },
            seq![Action::EqChanged(FLAT_BANDS)],
        ),
        EqTap::Nothing => nothing(v),
    }
}

/// `v` with `l` for its connections.
pub open spec fn with_link(v: DeviceView, l: LinkView) -> DeviceView {
    DeviceView { link: l, ..v }
}

/// Bluetooth: the switch flips the radio; Disconnect hangs up and leaves the radio on; a codec or
/// LDAC quality is chosen; the enhanced switch flips; Pair opens the device picker and asks for a
/// fresh paired list.
pub open spec fn tap_bluetooth_of(v: DeviceView, f: TapFacts) -> (DeviceView, Seq<Action>) {
    let l = v.link;
    match f.bt {
        BtTap::Toggle => (with_link(v, LinkView { bt_on: !l.bt_on, ..l }), seq![Action::BtToggle(!l.bt_on)]),
        BtTap::Disconnect => (v, seq![Action::BtDisconnect]),
        BtTap::Codec(i) => (with_link(v, LinkView { bt_codec: i, ..l }), seq![Action::BtCodecChanged]),
        BtTap::Quality(i) => (with_link(v, LinkView { bt_ldac_quality: i, ..l }), seq![Action::BtCodecChanged]),
        BtTap::Enhanced => (with_link(v, LinkView { bt_enhanced: !l.bt_enhanced, ..l }), seq![Action::BtEnhancedChanged]),
        BtTap::Pair => (push_of(v, Screen::Pairing), seq![Action::BtPairedRefresh]),
        BtTap::Nothing => nothing(v),
    }
}

/// `v` with `d` for its device lists.
pub open spec fn with_devices(v: DeviceView, d: DevicesView) -> DeviceView {
    DeviceView { devices: d, ..v }
}

/// The device picker. A pairing prompt takes every tap until it is answered. Otherwise Scan
/// starts or stops discovery (a new scan starts from an empty list); a found device is paired; a
/// paired row hangs up its link if connected, else connects; FORGET takes two taps on the same
/// row. Any tap but FORGET's disarms a pending FORGET.
pub open spec fn tap_pairing_of(v: DeviceView, x: int, y: int) -> (DeviceView, Seq<Action>) {
    let d = v.devices;
    match d.prompt {
        Some(p) => match prompt_hit(x, y, p.0) {
            PairHit::PromptConfirm => (with_devices(v, DevicesView { prompt: None, ..d }), seq![Action::BtPromptConfirm]),
            PairHit::PromptCancel => (with_devices(v, DevicesView { prompt: None, ..d }), seq![Action::BtPromptCancel]),
            _ => nothing(v),
        },
        None => {
            let calm = DevicesView { forget_armed: None, ..d };
            match pair_hit(x, y, d.paired.len() as int, d.found.len() as int) {
                PairHit::Scan => (
                    with_devices(v, DevicesView { scanning: !d.scanning, found: if !d.scanning { Seq::empty() } else { d.found }, ..calm }),
                    seq![Action::BtScanToggle(!d.scanning)],
                ),
                PairHit::Pair(i) => (
                    with_devices(v, calm),
                    if i < d.found.len() { seq![Action::BtPairDevice(i)] } else { Seq::empty() },
                ),
                PairHit::Row(i) => if i < d.paired.len() {
                    if d.paired[i as int].2 {
                        (with_devices(v, calm), seq![Action::BtDisconnect])
                    } else {
                        (with_devices(v, DevicesView { connecting: Some(i), ..calm }), seq![Action::BtConnectDevice(i)])
                    }
                } else {
                    nothing(with_devices(v, calm))
                },
                PairHit::Forget(i) => if i >= d.paired.len() {
                    nothing(v)
                } else if d.forget_armed == Some(i) {
                    (with_devices(v, calm), seq![Action::BtForgetDevice(i)])
                } else {
                    nothing(with_devices(v, DevicesView { forget_armed: Some(i), ..d }))
                },
                _ => nothing(v),
            }
        },
    }
}

/// What a tap on the current screen's body does (below the chrome).
pub open spec fn tap_screen_of(v: DeviceView, f: TapFacts, x: int, y: int) -> (DeviceView, Seq<Action>) {
    let s = current_of(v);
    if s == Screen::Menu {
        match f.menu_row {
            Some(row) => nothing(activate_menu_of(with_cursors(v, Cursors { menu_idx: row, ..v.cursors }), row as int)),
            None => nothing(v),
        }
    } else if s == Screen::NowPlaying {
        tap_now_playing_of(v, f, x, y)
    } else if s == Screen::Library {
        tap_library_of(v, f, x, y)
    } else if s == Screen::Album || s == Screen::Artist || s == Screen::Playlist {
        tap_page_of(v, f)
    } else if s == Screen::UpNext {
        tap_up_next_of(v, f, x, y)
    } else if s == Screen::Settings {
        tap_settings_of(v, x, y)
    } else if s == Screen::Sound {
        tap_sound_of(v, x, y)
    } else if s == Screen::Eq {
        tap_eq_of(v, f)
    } else if s == Screen::Bluetooth {
        tap_bluetooth_of(v, f)
    } else if s == Screen::Pairing {
        tap_pairing_of(v, x, y)
    } else if s == Screen::UsbDac {
        if 381 <= x < 475 && 43 <= y < 87 {
            (with_link(v, LinkView { usb_dac_on: !v.link.usb_dac_on, ..v.link }), seq![Action::UsbDacToggle(!v.link.usb_dac_on)])
        } else {
            nothing(v)
        }
    } else {
        nothing(v)
    }
}

/// A tap at `(x, y)`. A modal card takes it first, whatever it answers. While locked nothing
/// happens. The open Shelf takes every tap. USB mass storage has one control, TURN OFF. The
/// introduction pages. The Now Playing bar of the browsing screens plays/pauses or opens Now
/// Playing; the status strip opens the Shelf, jumps to Now Playing or opens the Menu; the header's
/// left block goes back; then the screen's own body (see `tap_screen_of`).
pub open spec fn tap_of(v: DeviceView, f: TapFacts, x: int, y: int) -> (DeviceView, Seq<Action>) {
    let s = current_of(v);
    if v.route.confirm is Some {
        tap_card_of(v, f)
    } else if v.route.locked {
        nothing(v)
    } else if v.route.shelf_open {
        shelf_tap_of(v, f, x, y)
    } else if s == Screen::UsbStorage {
        if spec_in_rect(OFF_BTN, x, y) { (pop_of(v), seq![Action::ExitUsbMsc]) } else { nothing(v) }
    } else if s == Screen::Onboarding {
        nothing(tap_onboarding_of(v, x))
    } else if shows_np_bar(s) && f.np_bar != NpBarHit::Off {
        if f.np_bar == NpBarHit::PlayPause {
            (play_toggled(v), seq![Action::PlayPause])
        } else {
            nothing(go_of(v, Screen::NowPlaying))
        }
    } else if f.status is Some {
        match f.status {
            Some(StatusTap::Shelf) => nothing({
                let w = if s == Screen::Menu { pop_of(v) } else { v };
                with_route(w, RouteView { shelf_open: true, ..w.route })
            }),
            Some(StatusTap::NowPlaying) => nothing(go_of(v, Screen::NowPlaying)),
            _ => nothing(if s != Screen::Menu { push_of(v, Screen::Menu) } else { v }),
        }
    } else if has_header(s) && STATUS_H <= y < HEADER_BOTTOM && x < 80 {
        nothing(pop_of(v))
    } else {
        tap_screen_of(v, f, x, y)
    }
}

/// How far the Settings list scrolls.
pub open spec fn spec_settings_max_scroll() -> i32 {
    if spec_content_height() + 8 - H > 0 { (spec_content_height() + 8 - H) as i32 } else { 0 }
}




/// `v` moved by `dy` and held to `0..=hi`.
pub open spec fn scrolled(v: i32, dy: i32, hi: i32) -> i32 {
    if v + dy < 0 { 0 } else if v + dy > hi { hi } else { (v + dy) as i32 }
}

/// A drag of `dy` pixels on the current list, held within it (`max` is its greatest scroll, as
/// the shell lays the Library, album or Up Next list out; none when the album is gone). The Shelf
/// and the Hold switch take the gesture. On Up Next a scroll that moved the list takes it over
/// from following playback.
pub open spec fn scroll_of(v: DeviceView, dy: i32, max: Option<i32>) -> DeviceView {
    let k = v.cursors;
    let s = current_of(v);
    if v.route.shelf_open || v.route.locked {
        v
    } else if s == Screen::Settings {
        with_cursors(v, Cursors { settings_scroll_px: scrolled(k.settings_scroll_px, dy, spec_settings_max_scroll()), ..k })
    } else {
        match max {
            Some(m) => if s == Screen::Library {
                with_cursors(v, Cursors { lib_scroll_px: scrolled(k.lib_scroll_px, dy, m), ..k })
            } else if s == Screen::Album {
                with_cursors(v, Cursors { album_scroll_px: scrolled(k.album_scroll_px, dy, m), ..k })
            } else if s == Screen::UpNext {
                let n = scrolled(k.queue_scroll_px, dy, m);
                with_cursors(v, Cursors { queue_scroll_px: n, queue_follow: if n != k.queue_scroll_px { false } else { k.queue_follow }, ..k })
            } else {
                v
            },
            None => v,
        }
    }
}

/// `v` moved by `dy` and held to `0..=hi`.
fn scroll_clamped(v: i32, dy: i32, hi: i32) -> (r: i32)
    requires
        hi >= 0,
    ensures
        r == scrolled(v, dy, hi),
{
    let n: i64 = v as i64 + dy as i64;
    if n < 0 { 0 } else if n > hi as i64 { hi } else { n as i32 }
}

impl App {
    /// Drag the current list by `dy` pixels; see `scroll_of`.
    pub fn scroll_px(&mut self, dy: i32, max: Option<i32>)
        requires
            old(self)@.valid(),
            max matches Some(m) ==> m >= 0,
        ensures
            final(self)@ == scroll_of(old(self)@, dy, max),
            final(self)@.valid(),
    {
        if self.route.shelf_open || self.route.locked {
            return;
        }
        let s = self.current();
        if s == Screen::Settings {
            let hi = crate::settings::max_scroll_px();
            self.cursors.settings_scroll_px = scroll_clamped(self.cursors.settings_scroll_px, dy, hi);
            return;
        }
        match max {
            Some(m) => {
                if s == Screen::Library {
                    self.cursors.lib_scroll_px = scroll_clamped(self.cursors.lib_scroll_px, dy, m);
                } else if s == Screen::Album {
                    self.cursors.album_scroll_px = scroll_clamped(self.cursors.album_scroll_px, dy, m);
                } else if s == Screen::UpNext {
                    let n = scroll_clamped(self.cursors.queue_scroll_px, dy, m);
                    if n != self.cursors.queue_scroll_px {
                        self.cursors.queue_follow = false;
                    }
                    self.cursors.queue_scroll_px = n;
                }
            },
            None => {},
        }
    }

    /// Up Next's scroll.
    pub fn queue_scroll(&self) -> (px: i32)
        ensures
            px == self@.cursors.queue_scroll_px,
    {
        self.cursors.queue_scroll_px
    }

    /// Does Up Next follow playback?
    pub fn queue_follows(&self) -> (b: bool)
        ensures
            b == self@.cursors.queue_follow,
    {
        self.cursors.queue_follow
    }
}




// ── Horizontal scrubs: the progress rail and the UI-scale slider ─────────────────────────────

/// The horizontal scrub in flight: none, the progress rail (a seek), or the UI-scale slider.
#[derive(Clone, Copy, PartialEq, Eq, Debug, Structural)]
pub enum Scrub {
    Idle,
    Progress,
    UiScale,
}

/// A finger down at `(x, y)`: on Now Playing's rail band it starts a seek scrub at the position
/// under it; on Settings' UI-scale row it starts scrubbing the slider (the row selected, the step
/// under the finger applied at once). The Shelf and the Hold switch take the gesture. True when
/// a scrub started; any earlier scrub is forgotten either way.
pub open spec fn scrub_begin_of(v: DeviceView, x: int, y: int) -> (DeviceView, bool) {
    let k = v.cursors;
    let idle = with_cursors(v, Cursors { scrub: Scrub::Idle, ..k });
    let s = current_of(v);
    if v.route.locked || v.route.shelf_open {
        (idle, false)
    } else if s == Screen::NowPlaying {
        if RAIL_HIT_TOP <= y < RAIL_HIT_BOT && 0 <= x <= W {
            (with_cursors(v, Cursors { scrub: Scrub::Progress, scrub_permille: spec_permille_at(x) as u16, ..k }), true)
        } else {
            (idle, false)
        }
    } else if s == Screen::Settings && spec_settings_row_at(y, k.settings_scroll_px as int) == Some(ROW_UI_SCALE) {
        (
            DeviceView {
                cursors: Cursors { scrub: Scrub::UiScale, settings_sel: ROW_UI_SCALE, ..k },
                ui_scale: steps()[spec_ui_scale_idx_at(x)] as int,
                ..v
            },
            true,
        )
    } else {
        (idle, false)
    }
}

/// The finger moved to `x`: the rail previews the position under it, the slider applies the step
/// under it live.
pub open spec fn scrub_move_of(v: DeviceView, x: int) -> DeviceView {
    match v.cursors.scrub {
        Scrub::Progress => with_cursors(v, Cursors { scrub_permille: spec_permille_at(x) as u16, ..v.cursors }),
        Scrub::UiScale => DeviceView { ui_scale: steps()[spec_ui_scale_idx_at(x)] as int, ..v },
        Scrub::Idle => v,
    }
}

/// The finger lifted: a seek commits the position reached, the slider reports the new scale, and
/// the scrub is over.
pub open spec fn scrub_end_of(v: DeviceView) -> (DeviceView, Seq<Action>) {
    (
        with_cursors(v, Cursors { scrub: Scrub::Idle, ..v.cursors }),
        match v.cursors.scrub {
            Scrub::Progress => seq![Action::Seek(v.cursors.scrub_permille)],
            Scrub::UiScale => seq![Action::UiScaleChanged],
            Scrub::Idle => Seq::empty(),
        },
    )
}


// ── Reordering the user queue ───────────────────────────────────────────────────────────────

/// A finger down at `(x, y)` on Up Next picks a queued row up by its grab handle. `row` is the
/// user-queue row under the finger with its screen top, as the shell lays the queue's section
/// out. Nothing is picked up while locked, under the Shelf or a card, off Up Next, off the
/// handle's column, or on a row that is not (or no longer) in the queue. The row lifts where the
/// finger holds it, aimed at its own place.
pub open spec fn reorder_begin_of(v: DeviceView, x: int, y: i32, row: Option<(usize, i32)>) -> (DeviceView, bool) {
    if v.route.locked || v.route.shelf_open || v.route.confirm is Some || current_of(v) != Screen::UpNext
        || !(GRIP_X0 <= x < GRIP_X1) {
        (v, false)
    } else {
        match row {
            Some((from, top)) => if from < v.play.queue.len() {
                (
                    with_cursors(
                        v,
                        Cursors {
                            queue_drag: Some(RowDrag { from, to: from, start_y: y, y, grab_off: (y - top) as i32 }),
                            ..v.cursors
                        },
                    ),
                    true,
                )
            } else {
                (v, false)
            },
            None => (v, false),
        }
    }
}

/// The finger travelled `dy` from where it picked the row up; `to` is the queue row it would land
/// on now, as the shell lays the section out.
pub open spec fn reorder_track_of(v: DeviceView, dy: i32, to: usize) -> DeviceView {
    match v.cursors.queue_drag {
        Some(d) => with_cursors(
            v,
            Cursors { queue_drag: Some(RowDrag { y: (d.start_y + dy) as i32, to, ..d }), ..v.cursors },
        ),
        None => v,
    }
}

// ── Up Next follows playback ────────────────────────────────────────────────────────────────

/// The row of the sequence that is playing, as Up Next lays it out: none with nothing to play.
pub open spec fn now_row(v: DeviceView) -> Option<usize> {
    if v.play.context.len() == 0 { None } else { Some(v.play.context_idx) }
}

/// How many played tracks Up Next lists above the playing one: those before it in the sequence.
pub open spec fn played_before(v: DeviceView) -> usize {
    if v.play.context.len() == 0 { 0 } else { v.play.context_idx }
}

/// Up Next's list for what is playing can be laid out in `i32` pixels.
pub open spec fn up_next_fits(v: DeviceView) -> bool {
    layout_fits(played_before(v), v.play.context.len() as usize, now_row(v))
}

/// The scroll that parks the playing row a third of the way down Up Next's window, held within
/// the list.
pub open spec fn follow_scroll_of(v: DeviceView) -> i32 {
    let h = played_before(v);
    let c = now_row(v);
    let top = match current_top_px(h, c) {
        Some(t) => Some(t as i32),
        None => None,
    };
    follow_of(top, content_px(h, v.play.context.len() as usize, c)) as i32
}

/// Does the list snap? Only when it follows playback and the playing row is not the one it last
/// showed (arriving on the screen counts as a change).
pub open spec fn snaps(v: DeviceView) -> bool {
    v.cursors.queue_follow && v.cursors.up_next_cur != now_row(v)
}

/// Up Next brought up to date with what is playing: it remembers the playing row, and when it
/// snaps it parks that row a third of the way down.
pub open spec fn followed_of(v: DeviceView) -> DeviceView {
    with_cursors(
        v,
        Cursors {
            up_next_cur: now_row(v),
            queue_scroll_px: if snaps(v) { follow_scroll_of(v) } else { v.cursors.queue_scroll_px },
            ..v.cursors
        },
    )
}

// ── The Menu's live subtitles ───────────────────────────────────────────────────────────────

/// The Menu's subtitles that report state: the Library's size, the user queue, USB-DAC and the
/// sound effects engaged.
pub struct MenuSubtitles {
    pub library: String,
    pub queue: String,
    pub usb_dac: String,
    pub sound: String,
}

/// The separator between names in a subtitle.
pub open spec fn dot_sep() -> Seq<char> {
    " \u{b7} "@
}

/// `names` joined by `sep`.
pub open spec fn joined(names: Seq<Seq<char>>, sep: Seq<char>) -> Seq<char>
    decreases names.len(),
{
    if names.len() == 0 {
        Seq::empty()
    } else if names.len() == 1 {
        names[0]
    } else {
        joined(names.drop_last(), sep) + sep + names.last()
    }
}

/// `name` if `on`, in a list of names.
pub open spec fn named(on: bool, name: Seq<char>) -> Seq<Seq<char>> {
    if on { seq![name] } else { Seq::empty() }
}

/// The engaged effects, in the Sound screen's order.
pub open spec fn engaged_effects(s: SoundView) -> Seq<Seq<char>> {
    named(s.snd_dsee, "DSEE HX"@) + named(s.snd_vinyl, "Vinyl"@) + named(s.snd_vpt, "VPT"@) + named(
        s.snd_dc,
        "DC Phase"@,
    ) + named(s.snd_norm, "Normaliser"@) + named(s.snd_clear, "Clear Phase"@)
}

/// The Sound row's subtitle: the engaged effects by name, or `Off` when the chain is clean.
pub open spec fn sound_subtitle(s: SoundView) -> Seq<char> {
    if engaged_effects(s).len() == 0 { "Off"@ } else { joined(engaged_effects(s), dot_sep()) }
}

/// The Up Next row's subtitle: `Queue empty`, or how many tracks are queued.
pub open spec fn queue_subtitle(n: nat) -> Seq<char> {
    if n == 0 { "Queue empty"@ } else { dec(n) + " queued"@ }
}

/// The Library row's subtitle: `Empty`, or the library's album and track counts.
pub open spec fn library_subtitle(counts: Option<(usize, usize)>) -> Seq<char> {
    match counts {
        Some((albums, tracks)) => dec(albums as nat) + " albums \u{b7} "@ + dec(tracks as nat) + " tracks"@,
        None => "Empty"@,
    }
}

/// Appends `name` to the names already in `out`, with the separator between.
fn push_name(out: &mut String, first: bool, name: &str, Ghost(names): Ghost<Seq<Seq<char>>>)
    requires
        old(out)@ == joined(names, dot_sep()),
        first == (names.len() == 0),
    ensures
        final(out)@ == joined(names.push(name@), dot_sep()),
{
    if !first {
        push_str(out, " \u{b7} ");
    }
    push_str(out, name);
    proof {
        let n = names.push(name@);
        assert(n.drop_last() =~= names);
        if first {
            assert(joined(names, dot_sep()) =~= Seq::<char>::empty());
        }
    }
}

/// A name pushed when its effect is on.
fn push_if(out: &mut String, on: bool, name: &str, Ghost(names): Ghost<Seq<Seq<char>>>) -> (r: Ghost<Seq<Seq<char>>>)
    requires
        old(out)@ == joined(names, dot_sep()),
        name@.len() > 0,
        forall|i: int| 0 <= i < names.len() ==> #[trigger] names[i].len() > 0,
    ensures
        r@ == names + named(on, name@),
        final(out)@ == joined(r@, dot_sep()),
        forall|i: int| 0 <= i < r@.len() ==> #[trigger] r@[i].len() > 0,
{
    if on {
        let first = out.as_str().unicode_len() == 0;
        proof {
            lemma_joined_empty(names);
        }
        push_name(out, first, name, Ghost(names));
        assert(names + named(on, name@) =~= names.push(name@));
        Ghost(names.push(name@))
    } else {
        assert(names + named(on, name@) =~= names);
        Ghost(names)
    }
}

/// Joining gives nothing only for no names, as no effect's name is empty.
proof fn lemma_joined_empty(names: Seq<Seq<char>>)
    requires
        forall|i: int| 0 <= i < names.len() ==> #[trigger] names[i].len() > 0,
    ensures
        (joined(names, dot_sep()).len() == 0) == (names.len() == 0),
    decreases names.len(),
{
    if names.len() > 1 {
        lemma_joined_empty(names.drop_last());
    }
}

impl App {
    /// Bring Up Next up to date with what is playing (the shell calls this each time it paints
    /// the screen); see `followed_of`. True when the list snapped to the playing row.
    pub fn follow_playback(&mut self) -> (snapped: bool)
        requires
            old(self)@.valid(),
            up_next_fits(old(self)@),
        ensures
            final(self)@ == followed_of(old(self)@),
            snapped == snaps(old(self)@),
            final(self)@.valid(),
    {
        let n = self.play.context.len();
        let cur: Option<usize> = if n == 0 { None } else { Some(self.play.context_idx) };
        let hist: usize = if n == 0 { 0 } else { self.play.context_idx };
        let changed = match (self.cursors.up_next_cur, cur) {
            (Some(a), Some(b)) => a != b,
            (None, None) => false,
            _ => true,
        };
        self.cursors.up_next_cur = cur;
        if self.cursors.queue_follow && changed {
            let m = crate::up_next::metrics(hist, n, cur);
            let s = m.follow_scroll();
            self.cursors.queue_scroll_px = s;
            true
        } else {
            false
        }
    }

    /// The playing row Up Next last showed.
    pub fn up_next_row(&self) -> (r: Option<usize>)
        ensures
            r == self@.cursors.up_next_cur,
    {
        self.cursors.up_next_cur
    }

    /// Open the introduction from its first page, unlocked, in place of the route.
    pub fn start_onboarding(&mut self)
        requires
            old(self)@.valid(),
        ensures
            final(self)@ == go_of(
                with_route(old(self)@, RouteView { onboarding_page: 0, locked: false, ..old(self)@.route }),
                Screen::Onboarding,
            ),
            final(self)@.valid(),
    {
        self.route.onboarding_page = 0;
        self.route.locked = false;
        self.go(Screen::Onboarding);
    }

    /// The introduction's page.
    pub fn onboarding_page(&self) -> (p: usize)
        ensures
            p == self@.route.onboarding_page,
    {
        self.route.onboarding_page
    }

    /// Is the sound chain bypassed for an A/B comparison?
    pub fn sound_bypass(&self) -> (b: bool)
        ensures
            b == self@.cursors.snd_ab_bypass,
    {
        self.cursors.snd_ab_bypass
    }

    /// Show Now Playing page `i`, wrapped onto the `pages` there are.
    pub fn set_np_page(&mut self, i: u8, pages: u8)
        requires
            old(self)@.valid(),
            pages > 0,
        ensures
            final(self)@ == with_cursors(old(self)@, Cursors { np_page: (i % pages) as u8, ..old(self)@.cursors }),
            final(self)@.valid(),
    {
        self.cursors.np_page = i % pages;
    }

    /// Does anything showing need the spectrum: a page past the cover, or the visualiser?
    pub fn wants_spectrum(&self) -> (b: bool)
        ensures
            b == (self@.cursors.np_page != 0 || self@.viz.size != 0),
    {
        self.cursors.np_page != 0 || self.viz_size != 0
    }

    /// The Menu's live subtitles. `library` is the library's album and track counts, none when
    /// it is empty.
    pub fn menu_subtitles(&self, library: Option<(usize, usize)>) -> (m: MenuSubtitles)
        ensures
            m.library@ == library_subtitle(library),
            m.queue@ == queue_subtitle(self@.play.queue.len()),
            m.usb_dac@ == (if self@.link.usb_dac_on { "On"@ } else { "Off"@ }),
            m.sound@ == sound_subtitle(self@.sound),
    {
        let lib = match library {
            Some((albums, tracks)) => {
                let mut t = String::new();
                push_dec(&mut t, albums as u64);
                push_str(&mut t, " albums \u{b7} ");
                push_dec(&mut t, tracks as u64);
                push_str(&mut t, " tracks");
                assert(t@ =~= library_subtitle(library));
                t
            },
            None => owned("Empty"),
        };
        let q = if self.play.queue.len() == 0 {
            owned("Queue empty")
        } else {
            let mut t = String::new();
            push_dec(&mut t, self.play.queue.len() as u64);
            push_str(&mut t, " queued");
            assert(t@ =~= queue_subtitle(self@.play.queue.len()));
            t
        };
        let usb = if self.link.usb_dac_on { owned("On") } else { owned("Off") };
        MenuSubtitles { library: lib, queue: q, usb_dac: usb, sound: self.sound_names() }
    }

    /// The Sound row's subtitle; see `sound_subtitle`.
    fn sound_names(&self) -> (s: String)
        ensures
            s@ == sound_subtitle(self@.sound),
    {
        proof {
            reveal_strlit("DSEE HX");
            reveal_strlit("Vinyl");
            reveal_strlit("VPT");
            reveal_strlit("DC Phase");
            reveal_strlit("Normaliser");
            reveal_strlit("Clear Phase");
        }
        let mut out = String::new();
        let ghost g: Seq<Seq<char>> = Seq::empty();
        assert(out@ =~= joined(g, dot_sep()));
        let Ghost(g) = push_if(&mut out, self.sound.snd_dsee, "DSEE HX", Ghost(g));
        let Ghost(g) = push_if(&mut out, self.sound.snd_vinyl, "Vinyl", Ghost(g));
        let Ghost(g) = push_if(&mut out, self.sound.snd_vpt, "VPT", Ghost(g));
        let Ghost(g) = push_if(&mut out, self.sound.snd_dc, "DC Phase", Ghost(g));
        let Ghost(g) = push_if(&mut out, self.sound.snd_norm, "Normaliser", Ghost(g));
        let Ghost(g) = push_if(&mut out, self.sound.snd_clear, "Clear Phase", Ghost(g));
        assert(g =~= engaged_effects(self@.sound));
        if out.as_str().unicode_len() == 0 {
            proof {
                lemma_joined_empty(g);
            }
            owned("Off")
        } else {
            proof {
                lemma_joined_empty(g);
            }
            out
        }
    }
}

// ── Shelf pins in the settings file, slot by slot ───────────────────────────────────────────

/// The record the settings file keeps for Shelf slot `i`: empty for an empty slot.
pub open spec fn slot_record(v: DeviceView, i: int) -> Seq<char> {
    match v.route.pins[i] {
        Some(p) => pin_record(p),
        None => Seq::empty(),
    }
}

/// Shelf slot `i` loaded from record `s`: it holds what the record reads back as, nothing for a
/// malformed record; a slot that does not exist is left alone.
pub open spec fn slot_loaded(v: DeviceView, i: usize, s: Seq<char>, sorts: usize, album_sorts: usize) -> DeviceView {
    if i < SHELF_SLOTS {
        with_route(v, RouteView { pins: v.route.pins.update(i as int, pin_of(s, sorts, album_sorts)), ..v.route })
    } else {
        v
    }
}

/// Text that a pin's record keeps as it is: no `|` and no line break.
pub open spec fn record_safe(s: Seq<char>) -> bool {
    forall|k: int| 0 <= k < s.len() ==> s[k] != '|' && s[k] != '\n'
}

impl App {
    /// The settings-file record of Shelf slot `i` (empty for an empty slot or one that does not
    /// exist).
    pub fn shelf_pin_record(&self, i: usize) -> (s: String)
        requires
            self@.valid(),
        ensures
            s@ == if i < SHELF_SLOTS { slot_record(self@, i as int) } else { Seq::empty() },
    {
        if i < SHELF_SLOTS {
            proof {
                assert(self@.route.pins[i as int] == pin_slot(self.route.pins@[i as int]));
            }
            match &self.route.pins[i] {
                Some(p) => shelf_pin_encode(p),
                None => String::new(),
            }
        } else {
            String::new()
        }
    }

    /// Load Shelf slot `i` from a settings-file record; see `slot_loaded`. `sorts` and
    /// `album_sorts` are how many orders the Songs and Albums lists offer.
    pub fn shelf_pin_load(&mut self, i: usize, s: &str, sorts: usize, album_sorts: usize)
        requires
            old(self)@.valid(),
            sorts >= 1,
            album_sorts >= 1,
        ensures
            final(self)@ == slot_loaded(old(self)@, i, s@, sorts, album_sorts),
            final(self)@.valid(),
    {
        if i < SHELF_SLOTS {
            let p = shelf_pin_decode(s, sorts, album_sorts);
            self.set_pin(i, p);
        }
    }
}

/// Shelf pins survive a reboot: loading the record of slot `i` back into that slot of any state
/// gives the same pin, for a pinnable place whose sorts are within the lists' choices, whose
/// scrolls are not negative, whose numbers fit the record, and whose labels keep no record
/// separator.
pub proof fn lemma_shelf_pins_survive_a_reboot(v: DeviceView, w: DeviceView, i: usize, sorts: usize, album_sorts: usize)
    requires
        i < SHELF_SLOTS,
        v.route.pins.len() == SHELF_SLOTS,
        w.route.pins.len() == SHELF_SLOTS,
        v.route.pins[i as int] matches Some(p) && spec_pinnable(p.screen) && p.lib_sort < sorts
            && p.album_sort < album_sorts && p.lib_sort <= i64::MAX && p.album_sort <= i64::MAX
            && p.lib_scroll_px >= 0 && p.album_scroll_px >= 0 && p.album_view <= i64::MAX
            && p.artist_view <= i64::MAX && p.playlist_view <= i64::MAX && (p.album_expanded matches Some(
            e,
        ) ==> e <= i64::MAX) && record_safe(p.title) && record_safe(p.sub),
    ensures
        slot_loaded(w, i, slot_record(v, i as int), sorts, album_sorts).route.pins[i as int] == v.route.pins[i as int],
{
    let p = v.route.pins[i as int]->0;
    lemma_pin_round_trip(p, sorts, album_sorts);
    assert(clean(p.title) =~= p.title);
    assert(clean(p.sub) =~= p.sub);
    assert(PinFields { title: clean(p.title), sub: clean(p.sub), ..p } == p);
    let u = slot_loaded(w, i, slot_record(v, i as int), sorts, album_sorts);
    assert(slot_record(v, i as int) == pin_record(p));
    assert(u.route.pins[i as int] == pin_of(pin_record(p), sorts, album_sorts));
}

/// On boot-to-stock's row, Select asks for the reboot exactly when the row was armed (and then
/// disarms it); otherwise it asks nothing and arms it.
pub proof fn lemma_boot_to_stock_fires_only_when_armed(v: DeviceView)
    requires
        v.cursors.settings_sel == ROW_BOOT_STOCK,
    ensures
        v.route.boot_stock_armed ==> settings_activate_of(v).1 == seq![Action::BootToStock],
        !v.route.boot_stock_armed ==> settings_activate_of(v).1.len() == 0,
        settings_activate_of(v).0.route.boot_stock_armed == !v.route.boot_stock_armed,
{
}

/// A tap on an accent swatch disarms boot-to-stock too.
pub proof fn lemma_a_swatch_tap_disarms_boot_to_stock(v: DeviceView, x: int, y: int)
    requires
        spec_accent_hit(x, y, v.cursors.settings_scroll_px as int) is Some,
    ensures
        !tap_settings_of(v, x, y).0.route.boot_stock_armed,
{
}

/// While the Hold switch is on only the transport, the volume and Power answer, and nothing
/// moves off the Lock screen: Next and Right skip on, Prev and Left skip back, Play flips
/// play/pause, Power sleeps, the volume keys step the volume; every other button does nothing.
pub proof fn lemma_hold_keeps_only_the_transport(v: DeviceView, c: PressFacts, b: Button)
    requires
        v.route.locked,
    ensures
        (b == Button::Next || b == Button::Right) ==> press_of(v, c, b) == (v, seq![Action::Next]),
        (b == Button::Prev || b == Button::Left) ==> press_of(v, c, b) == (v, seq![Action::Prev]),
        b == Button::Power ==> press_of(v, c, b) == (v, seq![Action::Sleep]),
        b == Button::Play ==> press_of(v, c, b).1 == seq![Action::PlayPause]
            && press_of(v, c, b).0.route.playing == !v.route.playing,
        b == Button::VolUp ==> press_of(v, c, b).1 == seq![Action::VolUp],
        b == Button::VolDown ==> press_of(v, c, b).1 == seq![Action::VolDown],
        (b == Button::Up || b == Button::Down || b == Button::Select || b == Button::Back
            || b == Button::Option || b == Button::Home) ==> press_of(v, c, b) == (v, Seq::<Action>::empty()),
        press_of(v, c, b).0.route.stack == v.route.stack,
        press_of(v, c, b).0.route.locked,
{
}

/// A modal card answers with the action its button names, and is gone afterwards: Restart
/// restarts and Power off powers off; a yes/no card's Confirm performs what the card is named
/// after (a Restart card restarts, a Power-off card powers off); Cancel asks nothing and forgets
/// the track waiting on the answer; Clear empties the queue, and Clear and Keep both play the
/// waiting track, Keep leaving the queue as it was.
pub proof fn lemma_a_card_does_what_its_button_says(v: DeviceView, f: TapFacts, x: int, y: int)
    requires
        v.route.confirm is Some,
    ensures
        tap_of(v, f, x, y).0.route.confirm is None,
        f.card == CardHit::Restart ==> tap_of(v, f, x, y).1 == seq![Action::Restart],
        f.card == CardHit::PowerOff ==> tap_of(v, f, x, y).1 == seq![Action::PowerOff],
        f.card == CardHit::Confirm && v.route.confirm == Some(Ask::Restart) ==> tap_of(v, f, x, y).1 == seq![
            Action::Restart,
        ],
        f.card == CardHit::Confirm && v.route.confirm == Some(Ask::PowerOff) ==> tap_of(v, f, x, y).1 == seq![
            Action::PowerOff,
        ],
        f.card == CardHit::Cancel ==> tap_of(v, f, x, y).1.len() == 0 && tap_of(v, f, x, y).0.route.pending_song is None
            && tap_of(v, f, x, y).0.play == v.play,
        f.card == CardHit::ClearQueue ==> tap_of(v, f, x, y).0.play.queue.len() == 0,
        f.card == CardHit::KeepQueue ==> tap_of(v, f, x, y).0.play.queue == v.play.queue,
        (f.card == CardHit::ClearQueue || f.card == CardHit::KeepQueue) ==> (match v.route.pending_song {
            Some(id) => tap_of(v, f, x, y).1.last() == Action::PlayIndex(id),
            None => forall|i: int| 0 <= i < tap_of(v, f, x, y).1.len() ==> !(#[trigger] tap_of(v, f, x, y).1[i] is PlayIndex),
        }),
{
}

/// While the Hold switch is on and no card is up, a tap changes nothing and asks nothing.
pub proof fn lemma_a_locked_screen_ignores_taps(v: DeviceView, f: TapFacts, x: int, y: int)
    requires
        v.route.locked,
        v.route.confirm is None,
    ensures
        tap_of(v, f, x, y) == nothing(v),
{
}

/// A modal card takes the tap, whatever it lands on, and the card is gone afterwards.
pub proof fn lemma_a_card_takes_the_tap_and_closes(v: DeviceView, f: TapFacts, x: int, y: int)
    requires
        v.route.confirm is Some,
    ensures
        tap_of(v, f, x, y) == tap_card_of(v, f),
        tap_of(v, f, x, y).0.route.confirm is None,
        tap_of(v, f, x, y).0.route.stack == v.route.stack,
{
}

/// A pin lands where it was taken: restoring the place captured from `v` brings back its screen,
/// on top of Now Playing so that Back returns there, with the Library's tab, sorts, accordion,
/// scroll, and the open album with its scroll, artist and playlist, while today's
/// lists still hold them. (A pinned expanded album on the Albums tab is the exception: it is
/// scrolled to where that album stands now.)
pub proof fn lemma_a_pin_restores_its_place(v: DeviceView, w: DeviceView, f: TapFacts, title: Seq<char>, sub: Seq<char>)
    requires
        v.cursors.lib_sort < f.song_sorts,
        v.cursors.album_sort < f.album_sorts,
        0 <= v.cursors.lib_scroll_px <= f.pin_lib_max,
        f.pin_album_max matches Some(m) && 0 <= v.cursors.album_scroll_px <= m,
        !(current_of(v) == Screen::Library && v.cursors.lib_tab == Tab::Albums && v.cursors.album_expanded is Some
            && f.pin_album_row is Some),
    ensures
        ({
            let r = restored(w, captured(v, title, sub), f);
            let s = current_of(v);
            &&& current_of(r) == s
            &&& r.cursors.lib_tab == v.cursors.lib_tab
            &&& r.cursors.lib_sort == v.cursors.lib_sort
            &&& r.cursors.album_sort == v.cursors.album_sort
            &&& r.cursors.album_expanded == v.cursors.album_expanded
            &&& r.cursors.lib_scroll_px == v.cursors.lib_scroll_px
            &&& r.cursors.album_view == v.cursors.album_view
            &&& r.cursors.album_scroll_px == v.cursors.album_scroll_px
            &&& r.cursors.artist_view == v.cursors.artist_view
            &&& r.cursors.playlist_view == v.cursors.playlist_view
            &&& s != Screen::NowPlaying ==> current_of(pop_of(r)) == Screen::NowPlaying
        }),
{
    let r = restored(w, captured(v, title, sub), f);
    if current_of(v) != Screen::NowPlaying {
        assert(r.route.stack.drop_last() =~= seq![Screen::NowPlaying]);
    }
}

/// Boot-to-stock takes two Selects in a row on its row: from a disarmed row the first arms it
/// and asks nothing of the shell, the second asks for the reboot and disarms, and a third only
/// arms it again.
pub proof fn lemma_boot_to_stock_takes_two_selects(v: DeviceView)
    requires
        v.cursors.settings_sel == ROW_BOOT_STOCK,
        !v.route.boot_stock_armed,
    ensures
        ({
            let (v1, a1) = settings_activate_of(v);
            let (v2, a2) = settings_activate_of(v1);
            let (v3, a3) = settings_activate_of(v2);
            &&& a1 == Seq::<Action>::empty() && v1.route.boot_stock_armed
            &&& a2 == seq![Action::BootToStock] && !v2.route.boot_stock_armed
            &&& a3 == Seq::<Action>::empty() && v3.route.boot_stock_armed
        }),
{
}

/// Touching anything else disarms boot-to-stock: Select on any other Settings row, opening a
/// screen, and going back.
pub proof fn lemma_anything_else_disarms_boot_to_stock(v: DeviceView, s: Screen)
    ensures
        v.cursors.settings_sel != ROW_BOOT_STOCK ==> !settings_activate_of(v).0.route.boot_stock_armed,
        current_of(v) != s ==> !push_of(v, s).route.boot_stock_armed,
        v.route.stack.len() > 1 ==> !pop_of(v).route.boot_stock_armed,
{
}

/// A reorder can be undone by the opposite move, and never loses or duplicates a track.
pub proof fn lemma_move_is_undone_by_moving_back(q: Seq<i64>, from: int, to: int)
    requires
        0 <= from < q.len(),
        0 <= to < q.len(),
    ensures
        moved(moved(q, from, to), to, from) == q,
        moved(q, from, to).to_multiset() == q.to_multiset(),
        moved(q, from, to)[to] == q[from],
{
    broadcast use vstd::seq_lib::to_multiset_remove, vstd::seq_lib::to_multiset_insert, vstd::multiset::group_multiset_axioms;

    let m = moved(q, from, to);
    assert(m[to] == q[from]);
    assert(moved(m, to, from) =~= q);
    assert(q.remove(from).insert(to, q[from]).to_multiset() =~= q.remove(from).to_multiset().insert(q[from]));
    assert(q.remove(from).to_multiset() =~= q.to_multiset().remove(q[from]));
    assert(q.to_multiset().count(q[from]) > 0) by {
        broadcast use vstd::seq_lib::to_multiset_contains;
        assert(q.contains(q[from]));
    }
    assert(q.to_multiset().remove(q[from]).insert(q[from]) =~= q.to_multiset());
}

/// Where playback is found in the context: at a place holding that track, the first such; and
/// nowhere only when the context does not hold it.
pub proof fn lemma_index_in_finds_the_track(s: Seq<i64>, x: i64)
    ensures
        index_in(s, x) >= 0 ==> index_in(s, x) < s.len() && s[index_in(s, x)] == x && (forall|j: int|
            0 <= j < index_in(s, x) ==> s[j] != x),
        index_in(s, x) < 0 <==> !s.contains(x),
{
    if s.contains(x) {
        let i = choose|i: int| 0 <= i < s.len() && s[i] == x;
        lemma_first_occurrence(s, x, i);
    }
}

/// If `x` occurs at `i`, it has a first occurrence.
proof fn lemma_first_occurrence(s: Seq<i64>, x: i64, i: int)
    requires
        0 <= i < s.len(),
        s[i] == x,
    ensures
        exists|k: int| 0 <= k < s.len() && s[k] == x && (forall|j: int| 0 <= j < k ==> s[j] != x),
    decreases i,
{
    if exists|j: int| 0 <= j < i && s[j] == x {
        let j = choose|j: int| 0 <= j < i && s[j] == x;
        lemma_first_occurrence(s, x, j);
    } else {
        assert(forall|j: int| 0 <= j < i ==> s[j] != x);
    }
}

/// Restoring the effect toggles from a byte and reading them back gives the byte's six effect
/// bits: the persisted settings survive a round trip.
pub proof fn lemma_sound_flags_round_trip(v: DeviceView, f: u8)
    ensures
        flags_byte(DeviceView {
            sound: SoundView {
                snd_dsee: f & 1 != 0,
                snd_vinyl: f & 2 != 0,
                snd_vpt: f & 4 != 0,
                snd_dc: f & 8 != 0,
                snd_norm: f & 16 != 0,
                snd_clear: f & 32 != 0,
                ..v.sound
            },
            ..v
        }) == (f & 63) as int,
{
    assert(((if f & 1 != 0 { 1u8 } else { 0u8 }) + (if f & 2 != 0 { 2u8 } else { 0u8 }) + (if f & 4
        != 0 { 4u8 } else { 0u8 }) + (if f & 8 != 0 { 8u8 } else { 0u8 }) + (if f & 16 != 0 {
        16u8
    } else {
        0u8
    }) + (if f & 32 != 0 { 32u8 } else { 0u8 })) == f & 63) by (bit_vector);
}

/// The Brightness row passes every visible level before the dark one: from any level, presses
/// go up to 5, then to 0 (backlight off), then back to 1, and six presses return to where they
/// started.
pub proof fn lemma_brightness_cycle(b: u8)
    requires
        b <= 5,
    ensures
        next_brightness(b) <= 5,
        next_brightness(b) == 0 <==> b == 5,
        next_brightness(0) == 1,
        next_brightness(next_brightness(next_brightness(next_brightness(next_brightness(
            next_brightness(b),
        ))))) == b,
{
}

/// The backlight can be switched off but never stays off: from a valid state with it off, the
/// wake brings back a visible level, and so does the row's next press.
pub proof fn lemma_backlight_off_is_escapable(v: DeviceView)
    requires
        v.valid(),
        v.prefs.brightness == 0,
    ensures
        1 <= v.prefs.brightness_restore <= 5,
        next_brightness(v.prefs.brightness) == 1,
{
}

/// A restored backlight level is always a visible one.
pub proof fn lemma_restored_backlight_is_visible(level: u8)
    ensures
        1 <= clamp_brightness(level) <= 5,
        1 <= level <= 5 ==> clamp_brightness(level) == level,
{
}

/// A restored screen-off value that is one of the choices is kept; any other value becomes OFF.
/// The choices start at OFF and differ from each other, so the row shows what it will cycle from.
pub proof fn lemma_screen_off_snaps_to_a_choice(secs: u32)
    ensures
        screen_off_presets()[0] == 0,
        is_screen_off_preset(secs) ==> screen_off_presets()[snapped_index(secs) as int] == secs,
        !is_screen_off_preset(secs) ==> screen_off_presets()[snapped_index(secs) as int] == 0,
        snapped_index(secs) < 5,
{
    if is_screen_off_preset(secs) {
        let i = choose|i: int| 0 <= i < 5 && #[trigger] screen_off_presets()[i] == secs;
        assert(0 <= i < 5);
    } else {
        assert(screen_off_presets()[1] != secs);
        assert(screen_off_presets()[2] != secs);
        assert(screen_off_presets()[3] != secs);
        assert(screen_off_presets()[4] != secs);
    }
}

/// Cycling the screen-off or sleep row wraps: each press moves one choice on, and five presses
/// from any position come back to it, so every choice (OFF first) is reachable again.
pub proof fn lemma_timer_rows_cycle(i: int)
    requires
        0 <= i < 5,
    ensures
        (((((i + 1) % 5 + 1) % 5 + 1) % 5 + 1) % 5 + 1) % 5 == i,
{
}

/// The HUD shows the Bluetooth level on the shared scale: an empty bar at 0, a full one at the
/// top of the route's scale, and a louder level never draws a shorter bar.
pub proof fn lemma_hud_spans_the_bluetooth_scale(v: DeviceView, w: DeviceView)
    requires
        v.valid(),
        w.valid(),
        v.sound.bt_route,
        w.sound.bt_route,
    ensures
        v.sound.bt_volume == 0 ==> hud_volume(v) == 0,
        v.sound.bt_volume == BT_VOL_MAX ==> hud_volume(v) == VOL_MAX,
        v.sound.bt_volume <= w.sound.bt_volume ==> hud_volume(v) <= hud_volume(w),
        0 <= hud_volume(v) <= VOL_MAX,
{
    let a = v.sound.bt_volume as int;
    let b = w.sound.bt_volume as int;
    assert(a <= b ==> (a * 120) / 64 <= (b * 120) / 64) by (nonlinear_arith);
    assert(0 <= a <= 64 ==> 0 <= (a * 120) / 64 <= 120) by (nonlinear_arith);
}

/// A rocker press up then down (or down then up) away from the ends of the scale leaves the
/// level where it was, on either route.
pub proof fn lemma_vol_step_round_trip(v: DeviceView)
    requires
        v.valid(),
    ensures
        (if v.sound.bt_route { v.sound.bt_volume < BT_VOL_MAX } else { v.sound.volume < VOL_MAX }) ==> stepped(
            stepped(v, true),
            false,
        ) == v,
        (if v.sound.bt_route { v.sound.bt_volume > 0 } else { v.sound.volume > 0 }) ==> stepped(stepped(v, false), true)
            == v,
{
}

/// Reporting the same peer again asks for no repaint.
pub proof fn lemma_repeat_report_is_quiet(v: DeviceView, name: Option<&str>)
    ensures
        ({
            let w = DeviceView {
                link: LinkView { bt_connected: reported_peer(name), bt_link_known: true, ..v.link },
                ..v
            };
            !(reported_peer(name) != w.link.bt_connected || !w.link.bt_link_known)
        }),
{
}

/// Restored EQ gains are always within ±6 dB, and restoring them again changes nothing.
pub proof fn lemma_eq_restore_is_settled(bands: Seq<i8>)
    ensures
        clamped_bands(bands).len() == bands.len(),
        forall|j: int| 0 <= j < bands.len() ==> -6 <= #[trigger] clamped_bands(bands)[j] <= 6,
        clamped_bands(clamped_bands(bands)) == clamped_bands(bands),
{
    assert(clamped_bands(clamped_bands(bands)) =~= clamped_bands(bands));
}

} // verus!
