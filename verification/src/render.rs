//! What the flyout card draws that does not depend on the graphics stack:
//! its colours, the time labels and the layout of its clickable regions.

use vstd::prelude::*;
use vstd::string::*;

use crate::app::RepeatMode;
use crate::text::{append_nat, chars_of, digit_char, eq_str, nat_text};

verus! {

/// An 8-bit RGBA colour.
#[derive(Clone, Copy, Debug, PartialEq, Eq, Structural)]
pub struct Rgba {
    pub r: u8,
    pub g: u8,
    pub b: u8,
    pub a: u8,
}

pub open spec fn rgba(r: u8, g: u8, b: u8, a: u8) -> Rgba {
    Rgba { r, g, b, a }
}

/// The colours of the flyout card.
#[derive(Clone, Copy, Debug, PartialEq, Eq, Structural)]
pub struct Theme {
    pub bg: Rgba,
    pub text: Rgba,
    pub text_dim: Rgba,
    pub accent: Rgba,
    pub stroke: Rgba,
    pub track: Rgba,
}

pub open spec fn dark_theme() -> Theme {
    Theme {
        bg: rgba(0x20, 0x20, 0x20, 0xF2),
        text: rgba(0xFF, 0xFF, 0xFF, 0xFF),
        text_dim: rgba(0xFF, 0xFF, 0xFF, 0xB0),
        accent: rgba(0x4C, 0xC2, 0xFF, 0xFF),
        stroke: rgba(0xFF, 0xFF, 0xFF, 0x26),
        track: rgba(0xFF, 0xFF, 0xFF, 0x70),
    }
}

pub open spec fn light_theme() -> Theme {
    Theme {
        bg: rgba(0xF3, 0xF3, 0xF3, 0xF2),
        text: rgba(0x10, 0x10, 0x10, 0xFF),
        text_dim: rgba(0x10, 0x10, 0x10, 0x99),
        accent: rgba(0x00, 0x67, 0xC0, 0xFF),
        stroke: rgba(0x00, 0x00, 0x00, 0x1F),
        track: rgba(0x00, 0x00, 0x00, 0x33),
    }
}

impl Theme {
    /// The colours used when Windows is in dark mode.
    pub fn dark() -> (r: Theme)
        ensures
            r == dark_theme(),
    {
        Theme {
            bg: Rgba { r: 0x20, g: 0x20, b: 0x20, a: 0xF2 },
            text: Rgba { r: 0xFF, g: 0xFF, b: 0xFF, a: 0xFF },
            text_dim: Rgba { r: 0xFF, g: 0xFF, b: 0xFF, a: 0xB0 },
            accent: Rgba { r: 0x4C, g: 0xC2, b: 0xFF, a: 0xFF },
            stroke: Rgba { r: 0xFF, g: 0xFF, b: 0xFF, a: 0x26 },
            track: Rgba { r: 0xFF, g: 0xFF, b: 0xFF, a: 0x70 },
        }
    }

    /// The colours used when Windows is in light mode.
    pub fn light() -> (r: Theme)
        ensures
            r == light_theme(),
    {
        Theme {
            bg: Rgba { r: 0xF3, g: 0xF3, b: 0xF3, a: 0xF2 },
            text: Rgba { r: 0x10, g: 0x10, b: 0x10, a: 0xFF },
            text_dim: Rgba { r: 0x10, g: 0x10, b: 0x10, a: 0x99 },
            accent: Rgba { r: 0x00, g: 0x67, b: 0xC0, a: 0xFF },
            stroke: Rgba { r: 0x00, g: 0x00, b: 0x00, a: 0x1F },
            track: Rgba { r: 0x00, g: 0x00, b: 0x00, a: 0x33 },
        }
    }

    /// The theme that matches the system setting.
    pub fn for_system(light: bool) -> (r: Theme)
        ensures
            r == if light {
                light_theme()
            } else {
                dark_theme()
            },
    {
        if light {
            Theme::light()
        } else {
            Theme::dark()
        }
    }
}

/// The fill of the album-art placeholder.
pub fn placeholder_color() -> (r: Rgba)
    ensures
        r == rgba(0x30, 0x30, 0x30, 0xFF),
{
    Rgba { r: 0x30, g: 0x30, b: 0x30, a: 0xFF }
}

/// The colour of the play/pause glyph on the accent-filled button.
pub fn play_icon_color() -> (r: Rgba)
    ensures
        r == rgba(0x00, 0x00, 0x00, 0xE6),
{
    Rgba { r: 0x00, g: 0x00, b: 0x00, a: 0xE6 }
}

// ---------------------------------------------------------------------------
// Time labels
// ---------------------------------------------------------------------------

/// Ticks (100 ns) in one second.
pub const TICKS_PER_SECOND: i64 = 10_000_000;

/// `n` rendered with at least two digits.
pub open spec fn two_digits(n: nat) -> Seq<char> {
    if n < 10 {
        seq!['0'] + nat_text(n)
    } else {
        nat_text(n)
    }
}

/// The label of a playback time: whole minutes, a colon and two-digit
/// seconds, or `-:--` when the time is negative.
pub open spec fn time_label(ticks: int) -> Seq<char> {
    if ticks < 0 {
        "-:--"@
    } else {
        let total = ticks / (TICKS_PER_SECOND as int);
        nat_text((total / 60) as nat) + seq![':'] + two_digits((total % 60) as nat)
    }
}

/// A non-negative time label is the whole minutes, a colon, and the seconds
/// within the minute as exactly two digits, tens first.
pub proof fn lemma_time_label_shape(ticks: int)
    requires
        ticks >= 0,
    ensures
        ({
            let total = ticks / (TICKS_PER_SECOND as int);
            let minutes = nat_text((total / 60) as nat);
            let secs = total % 60;
            let l = time_label(ticks);
            &&& l.len() == minutes.len() + 3
            &&& l.take(minutes.len() as int) == minutes
            &&& l[l.len() - 3] == ':'
            &&& l[l.len() - 2] == digit_char(secs / 10)
            &&& l[l.len() - 1] == digit_char(secs % 10)
        }),
{
    let total = ticks / (TICKS_PER_SECOND as int);
    let minutes = nat_text((total / 60) as nat);
    let secs = total % 60;
    lemma_two_digit_seconds(secs as nat);
    let l = time_label(ticks);
    let t = two_digits(secs as nat);
    assert(l == minutes + seq![':'] + t);
    assert(l.take(minutes.len() as int) =~= minutes);
    assert(l[l.len() - 3] == seq![':'][0]);
    assert(l[l.len() - 2] == t[0]);
    assert(l[l.len() - 1] == t[1]);
}

/// The seconds within a minute are written as exactly two digits.
pub proof fn lemma_two_digit_seconds(n: nat)
    requires
        n < 60,
    ensures
        two_digits(n).len() == 2,
        two_digits(n)[0] == digit_char((n / 10) as int),
        two_digits(n)[1] == digit_char((n % 10) as int),
{
    if n >= 10 {
        assert(nat_text((n / 10) as nat) == seq![digit_char((n / 10) as int)]);
        assert(nat_text(n) == nat_text((n / 10) as nat).push(digit_char((n % 10) as int)));
    } else {
        assert(nat_text(n) == seq![digit_char(n as int)]);
    }
}

/// The label of a playback time given in ticks.
pub fn format_time(ticks: i64) -> (r: String)
    ensures
        r@ == time_label(ticks as int),
{
    if ticks < 0 {
        return String::from_str("-:--");
    }
    let total: u64 = (ticks / TICKS_PER_SECOND) as u64;
    let m = total / 60;
    let s = total % 60;
    let mut out = String::new();
    append_nat(&mut out, m);
    out.append(":");
    if s < 10 {
        out.append("0");
    }
    append_nat(&mut out, s);
    proof {
        reveal_strlit(":");
        reveal_strlit("0");
    }
    assert(out@ =~= time_label(ticks as int));
    out
}

/// The labels either side of the seek bar: position and duration, or
/// `-:--` for both when the player reports no timeline.
pub fn timeline_labels(position_ticks: i64, duration_ticks: i64) -> (r: (String, String))
    ensures
        duration_ticks <= 0 ==> r.0@ == "-:--"@ && r.1@ == "-:--"@,
        duration_ticks > 0 ==> r.0@ == time_label(position_ticks as int) && r.1@ == time_label(
            duration_ticks as int,
        ),
{
    if duration_ticks <= 0 {
        (String::from_str("-:--"), String::from_str("-:--"))
    } else {
        (format_time(position_ticks), format_time(duration_ticks))
    }
}

/// The title line: the track's title, or `Not Playing` when there is none.
pub fn display_title(title: &str) -> (r: &str)
    ensures
        r@ == if title@.len() == 0 {
            "Not Playing"@
        } else {
            title@
        },
{
    if title.is_empty() {
        "Not Playing"
    } else {
        title
    }
}

// ---------------------------------------------------------------------------
// Layout
// ---------------------------------------------------------------------------

/// Width and heights of the flyout card, in pixels.
pub const FLYOUT_W: i32 = 360;

pub const FLYOUT_H: i32 = 116;

pub const FLYOUT_H_EXPANDED: i32 = 152;

pub const FLYOUT_W_COMPACT: i32 = 280;

pub const FLYOUT_H_COMPACT: i32 = 64;

/// An axis-aligned rectangle in client pixels; `right` and `bottom` are
/// inclusive for hit-testing.
#[derive(Clone, Copy, Debug, Default, PartialEq, Eq, Structural)]
pub struct Rect {
    pub left: i32,
    pub top: i32,
    pub right: i32,
    pub bottom: i32,
}

pub open spec fn rect(left: i32, top: i32, right: i32, bottom: i32) -> Rect {
    Rect { left, top, right, bottom }
}

/// A region that holds no point: its right edge lies left of its left edge.
pub open spec fn empty_rect() -> Rect {
    Rect { left: 0, top: 0, right: -1i32, bottom: -1i32 }
}

/// The clickable regions of the flyout card.
#[derive(Clone, Copy, Debug, PartialEq, Eq, Structural)]
pub struct HitRegions {
    pub shuffle: Rect,
    pub prev: Rect,
    pub play_pause: Rect,
    pub next: Rect,
    pub repeat: Rect,
    pub seek_track: Rect,
}

/// The clickable regions of the card as drawn: the transport buttons
/// (shuffle, previous, play/pause, next, repeat) along the right edge of the
/// content row, and (when the seek bar is shown) the seek track widened by
/// ten pixels above and below. The compact card has no controls.
pub open spec fn hit_regions_for(seekbar_enabled: bool, compact: bool) -> HitRegions {
    if compact {
        HitRegions {
            shuffle: empty_rect(),
            prev: empty_rect(),
            play_pause: empty_rect(),
            next: empty_rect(),
            repeat: empty_rect(),
            seek_track: empty_rect(),
        }
    } else {
        HitRegions {
            shuffle: rect(176, 62, 204, 94),
            prev: rect(210, 62, 238, 94),
            play_pause: rect(244, 60, 280, 96),
            next: rect(286, 62, 314, 94),
            repeat: rect(320, 62, 348, 94),
            seek_track: if seekbar_enabled {
                rect(62, 120, 298, 146)
            } else {
                empty_rect()
            },
        }
    }
}

/// The clickable regions of the card for the given layout.
pub fn flyout_hit_regions(seekbar_enabled: bool, compact: bool) -> (r: HitRegions)
    ensures
        r == hit_regions_for(seekbar_enabled, compact),
{
    let none = Rect { left: 0, top: 0, right: -1, bottom: -1 };
    if compact {
        return HitRegions {
            shuffle: none,
            prev: none,
            play_pause: none,
            next: none,
            repeat: none,
            seek_track: none,
        };
    }
    let w: i32 = FLYOUT_W;
    let btn_y: i32 = 60;
    let btn_h: i32 = 32;
    let big_btn: i32 = 36;
    let small_btn: i32 = 28;
    let gap: i32 = 6;
    let repeat_x: i32 = w - 12 - small_btn;
    let next_x: i32 = repeat_x - gap - small_btn;
    let play_x: i32 = next_x - gap - big_btn;
    let prev_x: i32 = play_x - gap - small_btn;
    let shuffle_x: i32 = prev_x - gap - small_btn;
    let small_top: i32 = btn_y + (big_btn - btn_h) / 2;
    let small_bottom: i32 = small_top + btn_h;
    let shuffle = Rect { left: shuffle_x, top: small_top, right: shuffle_x + small_btn, bottom: small_bottom };
    let prev = Rect { left: prev_x, top: small_top, right: prev_x + small_btn, bottom: small_bottom };
    let play_pause = Rect { left: play_x, top: btn_y, right: play_x + big_btn, bottom: btn_y + big_btn };
    let next = Rect { left: next_x, top: small_top, right: next_x + small_btn, bottom: small_bottom };
    let repeat = Rect { left: repeat_x, top: small_top, right: repeat_x + small_btn, bottom: small_bottom };
    let seek_track = if seekbar_enabled {
        let seek_y: i32 = FLYOUT_H + 6;
        let time_w: i32 = 46;
        let track_left: i32 = 16 + time_w;
        let track_right: i32 = w - 16 - time_w;
        Rect { left: track_left, top: seek_y + 8 - 10, right: track_right, bottom: seek_y + 14 + 10 }
    } else {
        none
    };
    HitRegions { shuffle, prev, play_pause, next, repeat, seek_track }
}

// ---------------------------------------------------------------------------
// Button glyphs and colours
// ---------------------------------------------------------------------------

/// The glyph of the play/pause button: pause while playing, play otherwise.
pub fn play_pause_glyph(playing: bool) -> (r: &'static str)
    ensures
        r@ == if playing {
            "\u{E769}"@
        } else {
            "\u{E768}"@
        },
{
    if playing {
        "\u{E769}"
    } else {
        "\u{E768}"
    }
}

/// The glyph of the shuffle button.
pub fn shuffle_glyph() -> (r: &'static str)
    ensures
        r@ == "\u{E8B1}"@,
{
    "\u{E8B1}"
}

/// The glyph of the repeat button: a single-track repeat sign when one track
/// repeats, the list repeat sign otherwise.
pub fn repeat_glyph(mode: RepeatMode) -> (r: &'static str)
    ensures
        r@ == if mode == RepeatMode::Track {
            "\u{E8ED}"@
        } else {
            "\u{E8EE}"@
        },
{
    match mode {
        RepeatMode::Track => "\u{E8ED}",
        _ => "\u{E8EE}",
    }
}

/// The colour of a toggle button (shuffle or repeat).
pub open spec fn toggle_color(theme: Theme, supported: bool, active: bool) -> Rgba {
    if !supported {
        theme.stroke
    } else if active {
        theme.accent
    } else {
        theme.text
    }
}

/// The colour of a toggle button (shuffle or repeat): greyed out when the
/// player does not support it, the accent colour while it is on, the text
/// colour otherwise.
pub fn toggle_button_color(theme: &Theme, supported: bool, active: bool) -> (r: Rgba)
    ensures
        r == toggle_color(*theme, supported, active),
{
    if !supported {
        theme.stroke
    } else if active {
        theme.accent
    } else {
        theme.text
    }
}

/// The colour of the repeat button: on while any repeat mode is set.
pub fn repeat_button_color(theme: &Theme, supported: bool, mode: RepeatMode) -> (r: Rgba)
    ensures
        r == toggle_color(*theme, supported, mode != RepeatMode::Off),
{
    let active = match mode {
        RepeatMode::Off => false,
        _ => true,
    };
    toggle_button_color(theme, supported, active)
}

// ---------------------------------------------------------------------------
// Album art cache
// ---------------------------------------------------------------------------

/// Which album art the renderer holds decoded: the thumbnail key of the
/// track it belongs to, if any.
pub struct AlbumCache {
    key: Option<Vec<char>>,
}

impl View for AlbumCache {
    type V = Option<Seq<char>>;

    closed spec fn view(&self) -> Option<Seq<char>> {
        match self.key {
            Some(k) => Some(k@),
            None => None,
        }
    }
}

impl AlbumCache {
    /// No art held.
    pub fn new() -> (r: AlbumCache)
        ensures
            r@ is None,
    {
        AlbumCache { key: None }
    }

    /// Whether the art for `key` has to be decoded: it has unless the art
    /// held is already that track's.
    pub fn needs_decode(&self, key: &str) -> (b: bool)
        ensures
            b == (self@ != Some(key@)),
    {
        match &self.key {
            Some(k) => !eq_str(k, key),
            None => true,
        }
    }

    /// Records the outcome of decoding the art for `key`: on success that
    /// art is held; a failed decode keeps the art held before.
    pub fn record_decode(&mut self, key: &str, decoded: bool)
        ensures
            final(self)@ == if decoded {
                Some(key@)
            } else {
                old(self)@
            },
    {
        if decoded {
            self.key = Some(chars_of(key));
        }
    }

    /// Forgets the art held.
    pub fn clear(&mut self)
        ensures
            final(self)@ is None,
    {
        self.key = None;
    }
}

} // verus!
