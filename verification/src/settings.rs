//! Logic of the settings window: its stored client size, the anchor picker,
//! its colours and the editing of the numeric fields.

use vstd::prelude::*;

use crate::config::{Anchor, Config};
use crate::render::Rgba;
use crate::text::{
    all_digits, digit_char, digit_to_char, digit_value, digits_value, int_chars, int_text,
    is_digit, lemma_digit_char, lemma_int_text, lemma_nat_text, nat_text, parse_i32,
    parse_i32_chars, parse_integer, parse_u32, parse_u32_chars, push_nat,
};

verus! {

/// Client size of the settings window before it is measured.
pub const CLIENT_W: i32 = 480;

pub const CLIENT_H: i32 = 540;

// ---------------------------------------------------------------------------
// Client size packed into one word
// ---------------------------------------------------------------------------

/// Width in the high 32 bits, height in the low 32 bits.
pub open spec fn packed_size(w: i32, h: i32) -> u64 {
    ((w as u32 as u64) << 32u64) | (h as u32 as u64)
}

pub open spec fn unpacked_size(v: u64) -> (i32, i32) {
    (((v >> 32u64) & 0xFFFF_FFFFu64) as u32 as i32, (v & 0xFFFF_FFFFu64) as u32 as i32)
}

/// Packs a client size into one word.
pub fn pack_size(w: i32, h: i32) -> (r: u64)
    ensures
        r == packed_size(w, h),
{
    ((w as u32 as u64) << 32u64) | (h as u32 as u64)
}

/// Unpacks a client size packed by `pack_size`.
pub fn unpack_size(v: u64) -> (r: (i32, i32))
    ensures
        r == unpacked_size(v),
{
    (((v >> 32u64) & 0xFFFF_FFFFu64) as u32 as i32, (v & 0xFFFF_FFFFu64) as u32 as i32)
}

/// The client size from its packed form; `0` means not yet measured.
pub fn client_size_from(v: u64) -> (r: (i32, i32))
    ensures
        r == if v == 0 {
            (CLIENT_W, CLIENT_H)
        } else {
            unpacked_size(v)
        },
{
    if v == 0 {
        (CLIENT_W, CLIENT_H)
    } else {
        unpack_size(v)
    }
}

/// Unpacking a packed size gives back the width and height.
pub proof fn lemma_size_round_trip(w: i32, h: i32)
    ensures
        unpacked_size(packed_size(w, h)) == (w, h),
{
    assert((((((w as u32 as u64) << 32u64) | (h as u32 as u64)) >> 32u64) & 0xFFFF_FFFFu64) as u32
        as i32 == w) by (bit_vector);
    assert(((((w as u32 as u64) << 32u64) | (h as u32 as u64)) & 0xFFFF_FFFFu64) as u32 as i32
        == h) by (bit_vector);
}

// ---------------------------------------------------------------------------
// Anchor picker
// ---------------------------------------------------------------------------

pub open spec fn anchor_index(a: Anchor) -> int {
    match a {
        Anchor::TopLeft => 0,
        Anchor::TopCenter => 1,
        Anchor::TopRight => 2,
        Anchor::MiddleLeft => 3,
        Anchor::MiddleCenter => 4,
        Anchor::MiddleRight => 5,
        Anchor::BottomLeft => 6,
        Anchor::BottomCenter => 7,
        Anchor::BottomRight => 8,
        Anchor::Custom => 9,
    }
}

pub open spec fn anchor_at(i: int) -> Anchor {
    if i == 0 {
        Anchor::TopLeft
    } else if i == 1 {
        Anchor::TopCenter
    } else if i == 2 {
        Anchor::TopRight
    } else if i == 3 {
        Anchor::MiddleLeft
    } else if i == 4 {
        Anchor::MiddleCenter
    } else if i == 5 {
        Anchor::MiddleRight
    } else if i == 6 {
        Anchor::BottomLeft
    } else if i == 7 {
        Anchor::BottomCenter
    } else if i == 8 {
        Anchor::BottomRight
    } else {
        Anchor::Custom
    }
}

/// Number of cells in the anchor picker: a 3 x 3 grid of presets, row by
/// row from the top, then the custom position.
pub const ANCHOR_CELLS: usize = 10;

/// Position of an anchor in the picker: nine presets, then custom.
pub fn anchor_to_index(a: Anchor) -> (r: usize)
    ensures
        r == anchor_index(a),
{
    match a {
        Anchor::TopLeft => 0,
        Anchor::TopCenter => 1,
        Anchor::TopRight => 2,
        Anchor::MiddleLeft => 3,
        Anchor::MiddleCenter => 4,
        Anchor::MiddleRight => 5,
        Anchor::BottomLeft => 6,
        Anchor::BottomCenter => 7,
        Anchor::BottomRight => 8,
        Anchor::Custom => 9,
    }
}

/// The anchor at a picker position; positions past the presets are custom.
pub fn index_to_anchor(i: usize) -> (r: Anchor)
    ensures
        r == anchor_at(i as int),
{
    match i {
        0 => Anchor::TopLeft,
        1 => Anchor::TopCenter,
        2 => Anchor::TopRight,
        3 => Anchor::MiddleLeft,
        4 => Anchor::MiddleCenter,
        5 => Anchor::MiddleRight,
        6 => Anchor::BottomLeft,
        7 => Anchor::BottomCenter,
        8 => Anchor::BottomRight,
        _ => Anchor::Custom,
    }
}

pub open spec fn glyph_at(i: int) -> Seq<char> {
    if i == 0 {
        "\u{2196}"@
    } else if i == 1 {
        "\u{2191}"@
    } else if i == 2 {
        "\u{2197}"@
    } else if i == 3 {
        "\u{2190}"@
    } else if i == 4 {
        "\u{2022}"@
    } else if i == 5 {
        "\u{2192}"@
    } else if i == 6 {
        "\u{2199}"@
    } else if i == 7 {
        "\u{2193}"@
    } else if i == 8 {
        "\u{2198}"@
    } else {
        "\u{22EF}"@
    }
}

pub open spec fn label_at(i: int) -> Seq<char> {
    if i == 0 {
        "Top Left"@
    } else if i == 1 {
        "Top Center"@
    } else if i == 2 {
        "Top Right"@
    } else if i == 3 {
        "Middle Left"@
    } else if i == 4 {
        "Middle Center"@
    } else if i == 5 {
        "Middle Right"@
    } else if i == 6 {
        "Bottom Left"@
    } else if i == 7 {
        "Bottom Center"@
    } else if i == 8 {
        "Bottom Right"@
    } else {
        "Custom (X / Y)"@
    }
}

/// The symbol drawn on a picker cell: an arrow toward the anchored corner or
/// edge, a dot for the centre, an ellipsis for custom.
pub fn anchor_glyph(i: usize) -> (r: &'static str)
    ensures
        r@ == glyph_at(i as int),
{
    match i {
        0 => "\u{2196}",
        1 => "\u{2191}",
        2 => "\u{2197}",
        3 => "\u{2190}",
        4 => "\u{2022}",
        5 => "\u{2192}",
        6 => "\u{2199}",
        7 => "\u{2193}",
        8 => "\u{2198}",
        _ => "\u{22EF}",
    }
}

/// The caption of a picker cell.
pub fn anchor_label(i: usize) -> (r: &'static str)
    ensures
        r@ == label_at(i as int),
{
    match i {
        0 => "Top Left",
        1 => "Top Center",
        2 => "Top Right",
        3 => "Middle Left",
        4 => "Middle Center",
        5 => "Middle Right",
        6 => "Bottom Left",
        7 => "Bottom Center",
        8 => "Bottom Right",
        _ => "Custom (X / Y)",
    }
}

/// Picker position and anchor correspond one to one.
pub proof fn lemma_anchor_index_round_trip(a: Anchor, i: int)
    ensures
        anchor_at(anchor_index(a)) == a,
        0 <= i < ANCHOR_CELLS ==> anchor_index(anchor_at(i)) == i,
        0 <= anchor_index(a) < ANCHOR_CELLS,
{
}

/// The nine preset cells of the picker give nine different anchors, none of
/// them the custom position.
pub proof fn lemma_preset_cells_distinct(i: int, j: int)
    requires
        0 <= i < 9,
        0 <= j < 9,
        i != j,
    ensures
        anchor_at(i) != anchor_at(j),
        anchor_at(i) != Anchor::Custom,
{
}

// ---------------------------------------------------------------------------
// Colours
// ---------------------------------------------------------------------------

/// The colours of the settings window.
#[derive(Clone, Copy, Debug, PartialEq, Eq, Structural)]
pub struct Pal {
    pub bg: Rgba,
    pub panel: Rgba,
    pub panel_hover: Rgba,
    pub text: Rgba,
    pub text_dim: Rgba,
    pub accent: Rgba,
    pub accent_text: Rgba,
    pub stroke: Rgba,
    pub field_bg: Rgba,
    pub field_border: Rgba,
    pub field_focus: Rgba,
}

pub open spec fn color(r: u8, g: u8, b: u8, a: u8) -> Rgba {
    Rgba { r, g, b, a }
}

pub open spec fn light_pal() -> Pal {
    Pal {
        bg: color(0xF3, 0xF3, 0xF3, 0xF2),
        panel: color(0xFF, 0xFF, 0xFF, 0xE0),
        panel_hover: color(0x00, 0x00, 0x00, 0x12),
        text: color(0x10, 0x10, 0x10, 0xFF),
        text_dim: color(0x10, 0x10, 0x10, 0x99),
        accent: color(0x00, 0x67, 0xC0, 0xFF),
        accent_text: color(0xFF, 0xFF, 0xFF, 0xFF),
        stroke: color(0x00, 0x00, 0x00, 0x1F),
        field_bg: color(0xFF, 0xFF, 0xFF, 0xC0),
        field_border: color(0x00, 0x00, 0x00, 0x33),
        field_focus: color(0x00, 0x67, 0xC0, 0xFF),
    }
}

pub open spec fn dark_pal() -> Pal {
    Pal {
        bg: color(0x1F, 0x1F, 0x1F, 0xF2),
        panel: color(0xFF, 0xFF, 0xFF, 0x10),
        panel_hover: color(0xFF, 0xFF, 0xFF, 0x1A),
        text: color(0xFF, 0xFF, 0xFF, 0xFF),
        text_dim: color(0xFF, 0xFF, 0xFF, 0x99),
        accent: color(0x4C, 0xC2, 0xFF, 0xFF),
        accent_text: color(0x00, 0x00, 0x00, 0xE6),
        stroke: color(0xFF, 0xFF, 0xFF, 0x1F),
        field_bg: color(0xFF, 0xFF, 0xFF, 0x10),
        field_border: color(0xFF, 0xFF, 0xFF, 0x33),
        field_focus: color(0x4C, 0xC2, 0xFF, 0xFF),
    }
}

/// The settings window's colours for the system theme.
pub fn palette(light: bool) -> (r: Pal)
    ensures
        r == if light {
            light_pal()
        } else {
            dark_pal()
        },
{
    if light {
        Pal {
            bg: Rgba { r: 0xF3, g: 0xF3, b: 0xF3, a: 0xF2 },
            panel: Rgba { r: 0xFF, g: 0xFF, b: 0xFF, a: 0xE0 },
            panel_hover: Rgba { r: 0x00, g: 0x00, b: 0x00, a: 0x12 },
            text: Rgba { r: 0x10, g: 0x10, b: 0x10, a: 0xFF },
            text_dim: Rgba { r: 0x10, g: 0x10, b: 0x10, a: 0x99 },
            accent: Rgba { r: 0x00, g: 0x67, b: 0xC0, a: 0xFF },
            accent_text: Rgba { r: 0xFF, g: 0xFF, b: 0xFF, a: 0xFF },
            stroke: Rgba { r: 0x00, g: 0x00, b: 0x00, a: 0x1F },
            field_bg: Rgba { r: 0xFF, g: 0xFF, b: 0xFF, a: 0xC0 },
            field_border: Rgba { r: 0x00, g: 0x00, b: 0x00, a: 0x33 },
            field_focus: Rgba { r: 0x00, g: 0x67, b: 0xC0, a: 0xFF },
        }
    } else {
        Pal {
            bg: Rgba { r: 0x1F, g: 0x1F, b: 0x1F, a: 0xF2 },
            panel: Rgba { r: 0xFF, g: 0xFF, b: 0xFF, a: 0x10 },
            panel_hover: Rgba { r: 0xFF, g: 0xFF, b: 0xFF, a: 0x1A },
            text: Rgba { r: 0xFF, g: 0xFF, b: 0xFF, a: 0xFF },
            text_dim: Rgba { r: 0xFF, g: 0xFF, b: 0xFF, a: 0x99 },
            accent: Rgba { r: 0x4C, g: 0xC2, b: 0xFF, a: 0xFF },
            accent_text: Rgba { r: 0x00, g: 0x00, b: 0x00, a: 0xE6 },
            stroke: Rgba { r: 0xFF, g: 0xFF, b: 0xFF, a: 0x1F },
            field_bg: Rgba { r: 0xFF, g: 0xFF, b: 0xFF, a: 0x10 },
            field_border: Rgba { r: 0xFF, g: 0xFF, b: 0xFF, a: 0x33 },
            field_focus: Rgba { r: 0x4C, g: 0xC2, b: 0xFF, a: 0xFF },
        }
    }
}

// ---------------------------------------------------------------------------
// Numeric fields
// ---------------------------------------------------------------------------

/// The text field that has keyboard focus.
#[derive(Clone, Copy, Debug, PartialEq, Eq, Structural)]
pub enum Field {
    Unfocused,
    Mx,
    My,
    Cx,
    Cy,
    Hold,
}

/// Bounds of the visible duration that the field accepts, in milliseconds.
pub const HOLD_MIN_MS: u32 = 500;

pub const HOLD_MAX_MS: u32 = 30_000;

/// The text a field shows for the current settings.
pub open spec fn field_text(cfg: Config, f: Field) -> Seq<char> {
    match f {
        Field::Mx => int_text(cfg.margin_x as int),
        Field::My => int_text(cfg.margin_y as int),
        Field::Cx => int_text(cfg.custom_x as int),
        Field::Cy => int_text(cfg.custom_y as int),
        Field::Hold => nat_text(cfg.hold_ms as nat),
        Field::Unfocused => Seq::<char>::empty(),
    }
}

/// The field text after a typed character (a UTF-32 code): backspace removes
/// the last character, a digit is appended, a minus sign only into an empty
/// field; anything else is ignored (`None`).
pub open spec fn edited_text(cur: Seq<char>, ch: u32) -> Option<Seq<char>> {
    if ch == 8 {
        Some(
            if cur.len() > 0 {
                cur.drop_last()
            } else {
                cur
            },
        )
    } else if 0x30 <= ch <= 0x39 {
        Some(cur.push(digit_char(ch - 0x30)))
    } else if ch == 0x2D && cur.len() == 0 {
        Some(cur.push('-'))
    } else {
        None
    }
}

pub open spec fn i32_or_zero(p: Option<i32>) -> i32 {
    match p {
        Some(v) => v,
        None => 0,
    }
}

/// The visible duration a field text stands for: unparsable text counts as
/// the minimum, and the value is held between the bounds.
pub open spec fn hold_from_text(s: Seq<char>) -> u32 {
    let v = match parse_u32(s) {
        Some(v) => v,
        None => HOLD_MIN_MS,
    };
    if v < HOLD_MIN_MS {
        HOLD_MIN_MS
    } else if v > HOLD_MAX_MS {
        HOLD_MAX_MS
    } else {
        v
    }
}

/// The settings after typing `ch` into field `f`; unparsable coordinates
/// become zero.
pub open spec fn edit_field(cfg: Config, f: Field, ch: u32) -> Config {
    if f == Field::Unfocused {
        cfg
    } else {
        match edited_text(field_text(cfg, f), ch) {
            None => cfg,
            Some(buf) => match f {
                Field::Mx => Config { margin_x: i32_or_zero(parse_i32(buf)), ..cfg },
                Field::My => Config { margin_y: i32_or_zero(parse_i32(buf)), ..cfg },
                Field::Cx => Config { custom_x: i32_or_zero(parse_i32(buf)), ..cfg },
                Field::Cy => Config { custom_y: i32_or_zero(parse_i32(buf)), ..cfg },
                Field::Hold => Config { hold_ms: hold_from_text(buf), ..cfg },
                Field::Unfocused => cfg,
            },
        }
    }
}

/// Applies a typed character (a UTF-32 code) to the focused field.
pub fn handle_char(cfg: &mut Config, focus: Field, ch: u32)
    ensures
        *final(cfg) == edit_field(*old(cfg), focus, ch),
{
    let mut buf: Vec<char> = match focus {
        Field::Unfocused => {
            return ;
        },
        Field::Mx => int_chars(cfg.margin_x as i64),
        Field::My => int_chars(cfg.margin_y as i64),
        Field::Cx => int_chars(cfg.custom_x as i64),
        Field::Cy => int_chars(cfg.custom_y as i64),
        Field::Hold => {
            let mut v: Vec<char> = Vec::new();
            push_nat(&mut v, cfg.hold_ms as u64);
            assert(v@ =~= nat_text(cfg.hold_ms as nat));
            v
        },
    };
    if ch == 8 {
        if buf.len() > 0 {
            buf.pop();
        }
    } else if 0x30 <= ch && ch <= 0x39 {
        buf.push(digit_to_char((ch - 0x30) as u64));
    } else if ch == 0x2D && buf.len() == 0 {
        buf.push('-');
    } else {
        return ;
    }
    match focus {
        Field::Mx => {
            cfg.margin_x = match parse_i32_chars(&buf) {
                Some(v) => v,
                None => 0,
            };
        },
        Field::My => {
            cfg.margin_y = match parse_i32_chars(&buf) {
                Some(v) => v,
                None => 0,
            };
        },
        Field::Cx => {
            cfg.custom_x = match parse_i32_chars(&buf) {
                Some(v) => v,
                None => 0,
            };
        },
        Field::Cy => {
            cfg.custom_y = match parse_i32_chars(&buf) {
                Some(v) => v,
                None => 0,
            };
        },
        Field::Hold => {
            let v = match parse_u32_chars(&buf) {
                Some(v) => v,
                None => HOLD_MIN_MS,
            };
            cfg.hold_ms = if v < HOLD_MIN_MS {
                HOLD_MIN_MS
            } else if v > HOLD_MAX_MS {
                HOLD_MAX_MS
            } else {
                v
            };
        },
        Field::Unfocused => {},
    }
}

// ---------------------------------------------------------------------------
// Clicks
// ---------------------------------------------------------------------------

/// Which parts of the settings window a click landed on. Content regions
/// are tested in scrolled content coordinates.
#[derive(Clone, Copy, Debug)]
pub struct ClickHits {
    /// The click is in the footer below the scrolled content.
    pub in_footer: bool,
    /// The click is on the title, above the scrolled content.
    pub above_content: bool,
    pub btn_preview: bool,
    pub btn_save: bool,
    pub btn_close: bool,
    /// The anchor picker cells, in picker order.
    pub anchors: [bool; 10],
    pub field_mx: bool,
    pub field_my: bool,
    pub field_cx: bool,
    pub field_cy: bool,
    pub field_hold: bool,
    pub toggle_compact: bool,
    pub toggle_session_popup: bool,
    pub toggle_startup: bool,
}

/// What a click asks the window to do beyond editing the settings.
#[derive(Clone, Copy, Debug, PartialEq, Eq, Structural)]
pub struct ClickOutcome {
    pub preview: bool,
    pub save: bool,
    pub close: bool,
    pub toggle_startup: bool,
}

/// The anchor chosen by the picker cells `0..n` that were hit; the last hit
/// cell wins, and with no hit the anchor stays `a`.
pub open spec fn picked_anchor(a: Anchor, hits: Seq<bool>, n: int) -> Anchor
    decreases n,
{
    if n <= 0 {
        a
    } else if hits[n - 1] {
        anchor_at(n - 1)
    } else {
        picked_anchor(a, hits, n - 1)
    }
}

/// The focus after a click in the content: the first field hit, else none.
pub open spec fn clicked_focus(h: ClickHits) -> Field {
    if h.field_mx {
        Field::Mx
    } else if h.field_my {
        Field::My
    } else if h.field_cx {
        Field::Cx
    } else if h.field_cy {
        Field::Cy
    } else if h.field_hold {
        Field::Hold
    } else {
        Field::Unfocused
    }
}

/// The settings after a click in the content: the picked anchor (custom
/// when a custom coordinate field takes focus), the compact toggle and the
/// toggle for popping up on session changes.
pub open spec fn clicked_config(cfg: Config, h: ClickHits) -> Config {
    let picked = picked_anchor(cfg.anchor, h.anchors@, ANCHOR_CELLS as int);
    let f = clicked_focus(h);
    let anchor = if f == Field::Cx || f == Field::Cy {
        Anchor::Custom
    } else {
        picked
    };
    Config {
        anchor: anchor,
        compact: if h.toggle_compact {
            !cfg.compact
        } else {
            cfg.compact
        },
        show_on_session_change: if h.toggle_session_popup {
            !cfg.show_on_session_change
        } else {
            cfg.show_on_session_change
        },
        ..cfg
    }
}

pub open spec fn no_outcome() -> ClickOutcome {
    ClickOutcome { preview: false, save: false, close: false, toggle_startup: false }
}

/// The settings, focus and requests after a click: footer buttons act
/// without touching the settings, clicks on the title do nothing, clicks in
/// the content edit the settings and move the focus.
pub open spec fn click_result(cfg: Config, focus: Field, h: ClickHits) -> (
    Config,
    Field,
    ClickOutcome,
) {
    if h.in_footer {
        (
            cfg,
            focus,
            ClickOutcome {
                preview: h.btn_preview,
                save: h.btn_save,
                close: h.btn_close,
                toggle_startup: false,
            },
        )
    } else if h.above_content {
        (cfg, focus, no_outcome())
    } else {
        (
            clicked_config(cfg, h),
            clicked_focus(h),
            ClickOutcome { toggle_startup: h.toggle_startup, ..no_outcome() },
        )
    }
}

/// A click in the content focuses a field only if it hit that field, and
/// leaves nothing focused exactly when it hit no field; a click on exactly
/// one field focuses that field.
pub proof fn lemma_click_focuses_the_hit_field(cfg: Config, focus: Field, h: ClickHits)
    requires
        !h.in_footer,
        !h.above_content,
    ensures
        ({
            let f = click_result(cfg, focus, h).1;
            let hits = (h.field_mx as int) + (h.field_my as int) + (h.field_cx as int) + (
            h.field_cy as int) + (h.field_hold as int);
            &&& f == Field::Mx ==> h.field_mx
            &&& f == Field::My ==> h.field_my
            &&& f == Field::Cx ==> h.field_cx
            &&& f == Field::Cy ==> h.field_cy
            &&& f == Field::Hold ==> h.field_hold
            &&& f == Field::Unfocused <==> hits == 0
            &&& hits == 1 && h.field_mx ==> f == Field::Mx
            &&& hits == 1 && h.field_my ==> f == Field::My
            &&& hits == 1 && h.field_cx ==> f == Field::Cx
            &&& hits == 1 && h.field_cy ==> f == Field::Cy
            &&& hits == 1 && h.field_hold ==> f == Field::Hold
        }),
{
}

/// Applies a click to the edited settings and the focus, and reports what
/// else it asks for.
pub fn settings_click(cfg: &mut Config, focus: &mut Field, hits: &ClickHits) -> (r: ClickOutcome)
    ensures
        (*final(cfg), *final(focus), r) == click_result(*old(cfg), *old(focus), *hits),
{
    if hits.in_footer {
        return ClickOutcome {
            preview: hits.btn_preview,
            save: hits.btn_save,
            close: hits.btn_close,
            toggle_startup: false,
        };
    }
    if hits.above_content {
        return ClickOutcome { preview: false, save: false, close: false, toggle_startup: false };
    }
    let ghost a0 = cfg.anchor;
    let mut i: usize = 0;
    while i < ANCHOR_CELLS
        invariant
            i <= ANCHOR_CELLS,
            cfg.anchor == picked_anchor(a0, hits.anchors@, i as int),
            cfg.margin_x == old(cfg).margin_x,
            cfg.margin_y == old(cfg).margin_y,
            cfg.custom_x == old(cfg).custom_x,
            cfg.custom_y == old(cfg).custom_y,
            cfg.hold_ms == old(cfg).hold_ms,
            cfg.compact == old(cfg).compact,
            cfg.show_on_session_change == old(cfg).show_on_session_change,
            a0 == old(cfg).anchor,
        decreases ANCHOR_CELLS - i,
    {
        if hits.anchors[i] {
            cfg.anchor = index_to_anchor(i);
        }
        i = i + 1;
    }
    if hits.field_mx {
        *focus = Field::Mx;
    } else if hits.field_my {
        *focus = Field::My;
    } else if hits.field_cx {
        *focus = Field::Cx;
        cfg.anchor = Anchor::Custom;
    } else if hits.field_cy {
        *focus = Field::Cy;
        cfg.anchor = Anchor::Custom;
    } else if hits.field_hold {
        *focus = Field::Hold;
    } else {
        *focus = Field::Unfocused;
    }
    if hits.toggle_compact {
        cfg.compact = !cfg.compact;
    }
    if hits.toggle_session_popup {
        cfg.show_on_session_change = !cfg.show_on_session_change;
    }
    ClickOutcome {
        preview: false,
        save: false,
        close: false,
        toggle_startup: hits.toggle_startup,
    }
}

// ---------------------------------------------------------------------------
// An open settings window
// ---------------------------------------------------------------------------

/// Repaints during which the Save button reads "Saved" after a save (about
/// one second).
pub const SAVED_FLASH_FRAMES: u32 = 60;

/// What the startup toggle asks of the system.
#[derive(Clone, Copy, Debug, PartialEq, Eq, Structural)]
pub enum StartupAction {
    Enable,
    Disable,
}

/// The state of an open settings window: the settings being edited, the
/// focused field, whether the program runs at startup (as last known), and
/// how many more repaints show the "Saved" confirmation.
#[derive(Clone, Copy, Debug, PartialEq, Eq, Structural)]
pub struct SettingsSession {
    pub cfg: Config,
    pub focus: Field,
    pub startup_enabled: bool,
    pub saved_flash: u32,
}

/// The label of the Save button.
pub open spec fn save_label_text(flash: bool) -> Seq<char> {
    if flash {
        "Saved"@
    } else {
        "Save"@
    }
}

/// The label of the Save button: "Saved" while the confirmation shows.
pub fn save_label(flash: bool) -> (r: &'static str)
    ensures
        r@ == save_label_text(flash),
{
    if flash {
        "Saved"
    } else {
        "Save"
    }
}

/// The change to the startup registration that the toggle asks for: off
/// when the program runs at startup now, on otherwise.
pub fn startup_action(now_enabled: bool) -> (r: StartupAction)
    ensures
        r == if now_enabled {
            StartupAction::Disable
        } else {
            StartupAction::Enable
        },
{
    if now_enabled {
        StartupAction::Disable
    } else {
        StartupAction::Enable
    }
}

/// The flash counter after one repaint.
pub open spec fn counted_down(n: u32) -> u32 {
    if n > 0 {
        (n - 1) as u32
    } else {
        0
    }
}

impl SettingsSession {
    /// A freshly opened window: the given settings, no field focused, no
    /// confirmation showing.
    pub fn new(cfg: Config, startup_enabled: bool) -> (r: SettingsSession)
        ensures
            r == (SettingsSession {
                cfg: cfg,
                focus: Field::Unfocused,
                startup_enabled: startup_enabled,
                saved_flash: 0,
            }),
    {
        SettingsSession { cfg, focus: Field::Unfocused, startup_enabled, saved_flash: 0 }
    }

    /// Applies a click (see `click_result`); a click on Save also starts the
    /// "Saved" confirmation.
    pub fn click(&mut self, hits: &ClickHits) -> (r: ClickOutcome)
        ensures
            (final(self).cfg, final(self).focus, r) == click_result(
                old(self).cfg,
                old(self).focus,
                *hits,
            ),
            final(self).startup_enabled == old(self).startup_enabled,
            final(self).saved_flash == if r.save {
                SAVED_FLASH_FRAMES
            } else {
                old(self).saved_flash
            },
    {
        let r = settings_click(&mut self.cfg, &mut self.focus, hits);
        if r.save {
            self.saved_flash = SAVED_FLASH_FRAMES;
        }
        r
    }

    /// Records the result of the change that `startup_action(now_enabled)`
    /// asked for: the setting flips when the change succeeded and stays as
    /// it was otherwise.
    pub fn startup_result(&mut self, now_enabled: bool, ok: bool)
        ensures
            *final(self) == (SettingsSession {
                startup_enabled: if ok {
                    !now_enabled
                } else {
                    old(self).startup_enabled
                },
                ..*old(self)
            }),
    {
        if ok {
            self.startup_enabled = !now_enabled;
        }
    }

    /// One repaint: returns whether the "Saved" confirmation shows in it, and
    /// counts the confirmation down.
    pub fn paint(&mut self) -> (flash: bool)
        ensures
            flash == (old(self).saved_flash > 0),
            *final(self) == (SettingsSession {
                saved_flash: counted_down(old(self).saved_flash),
                ..*old(self)
            }),
    {
        let flash = self.saved_flash > 0;
        if flash {
            self.saved_flash = self.saved_flash - 1;
        }
        flash
    }

    /// A typed character (a UTF-32 code) edits the focused field.
    pub fn type_char(&mut self, ch: u32)
        ensures
            *final(self) == (SettingsSession {
                cfg: edit_field(old(self).cfg, old(self).focus, ch),
                ..*old(self)
            }),
    {
        handle_char(&mut self.cfg, self.focus, ch);
    }
}

/// After a save, the confirmation shows in exactly the next
/// `SAVED_FLASH_FRAMES` repaints.
pub proof fn lemma_saved_flash_frames(s: SettingsSession, k: nat)
    requires
        s.saved_flash == SAVED_FLASH_FRAMES,
        k <= SAVED_FLASH_FRAMES,
    ensures
        flash_after(s.saved_flash, k) == (k < SAVED_FLASH_FRAMES),
{
    lemma_flash_count(s.saved_flash, k);
}

/// The flash counter after `k` repaints from `n`.
pub open spec fn flash_counter(n: u32, k: nat) -> u32
    decreases k,
{
    if k == 0 {
        n
    } else {
        counted_down(flash_counter(n, (k - 1) as nat))
    }
}

/// Whether the `k`-th repaint (counting from zero) after the counter stood at
/// `n` shows the confirmation.
pub open spec fn flash_after(n: u32, k: nat) -> bool {
    flash_counter(n, k) > 0
}

proof fn lemma_flash_count(n: u32, k: nat)
    ensures
        flash_counter(n, k) == if k <= n {
            n - k
        } else {
            0
        },
    decreases k,
{
    if k > 0 {
        lemma_flash_count(n, (k - 1) as nat);
    }
}

/// A click on exactly one picker cell selects that cell's anchor.
pub proof fn lemma_pick_single_cell(a: Anchor, hits: Seq<bool>, i: int, n: int)
    requires
        0 <= i < n <= hits.len(),
        forall|j: int| 0 <= j < hits.len() ==> (hits[j] <==> j == i),
    ensures
        picked_anchor(a, hits, n) == anchor_at(i),
    decreases n,
{
    if n - 1 != i {
        lemma_pick_single_cell(a, hits, i, n - 1);
    }
}

// ---------------------------------------------------------------------------
// Laws of the numeric fields
// ---------------------------------------------------------------------------

/// Typing into the visible-duration field always leaves it between the
/// bounds.
pub proof fn lemma_hold_field_in_bounds(cfg: Config, ch: u32)
    requires
        edited_text(field_text(cfg, Field::Hold), ch) is Some,
    ensures
        HOLD_MIN_MS <= edit_field(cfg, Field::Hold, ch).hold_ms <= HOLD_MAX_MS,
{
}

/// The visible duration typed into its field is the typed number held
/// between the bounds: within the bounds it is taken as typed, the result
/// never leaves the bounds, and a larger typed number never gives a shorter
/// duration (so anything above the maximum gives the maximum).
pub proof fn lemma_hold_text_clamps(s1: Seq<char>, s2: Seq<char>, v1: u32, v2: u32)
    requires
        parse_u32(s1) == Some(v1),
        parse_u32(s2) == Some(v2),
    ensures
        HOLD_MIN_MS <= hold_from_text(s1) <= HOLD_MAX_MS,
        HOLD_MIN_MS <= v1 <= HOLD_MAX_MS ==> hold_from_text(s1) == v1,
        v1 <= v2 ==> hold_from_text(s1) <= hold_from_text(s2),
        v1 >= HOLD_MAX_MS ==> hold_from_text(s1) == HOLD_MAX_MS,
        v1 <= HOLD_MIN_MS ==> hold_from_text(s1) == HOLD_MIN_MS,
{
}

/// The value of a coordinate field.
pub open spec fn field_value(cfg: Config, f: Field) -> int {
    match f {
        Field::Mx => cfg.margin_x as int,
        Field::My => cfg.margin_y as int,
        Field::Cx => cfg.custom_x as int,
        Field::Cy => cfg.custom_y as int,
        _ => 0,
    }
}

pub open spec fn is_coordinate(f: Field) -> bool {
    f == Field::Mx || f == Field::My || f == Field::Cx || f == Field::Cy
}

/// The value a coordinate field holds after digit `d` is typed after `v`.
pub open spec fn typed_value(v: int, d: int) -> int {
    if v >= 0 {
        v * 10 + d
    } else {
        v * 10 - d
    }
}

proof fn lemma_div10(v: int, d: int)
    requires
        v >= 0,
        0 <= d < 10,
    ensures
        (v * 10 + d) / 10 == v,
        (v * 10 + d) % 10 == d,
{
    vstd::arithmetic::div_mod::lemma_fundamental_div_mod_converse(v * 10 + d, 10, v, d);
}

/// The text of `v` with a digit appended reads as `typed_value(v, d)`.
proof fn lemma_type_digit(v: int, d: int)
    requires
        0 <= d < 10,
    ensures
        parse_integer(int_text(v).push(digit_char(d)), true) == Some(typed_value(v, d)),
{
    lemma_digit_char(d);
    if v >= 0 {
        let n = v as nat;
        lemma_nat_text(n);
        let s = nat_text(n).push(digit_char(d));
        assert(s.drop_last() =~= nat_text(n));
        assert(s[0] == nat_text(n)[0]);
        assert forall|i: int| 0 <= i < s.len() implies is_digit(#[trigger] s[i]) by {
            if i < s.len() - 1 {
                assert(s[i] == nat_text(n)[i]);
            }
        }
        assert(digits_value(s) == digits_value(nat_text(n)) * 10 + digit_value(digit_char(d)));
    } else {
        let n = (-v) as nat;
        lemma_nat_text(n);
        let s = (seq!['-'] + nat_text(n)).push(digit_char(d));
        let t = nat_text(n).push(digit_char(d));
        assert(s.drop_first() =~= t);
        assert(t.drop_last() =~= nat_text(n));
        assert forall|i: int| 0 <= i < t.len() implies is_digit(#[trigger] t[i]) by {
            if i < t.len() - 1 {
                assert(t[i] == nat_text(n)[i]);
            }
        }
        assert(digits_value(t) == digits_value(nat_text(n)) * 10 + digit_value(digit_char(d)));
        assert(all_digits(t));
        assert(s[0] == '-');
        assert(s.len() >= 2);
    }
}

/// Removing the last character of the text of `typed_value(v, d)` gives the
/// text of `v`, except that `0` followed by a digit shrinks to nothing.
proof fn lemma_backspace_typed(v: int, d: int)
    requires
        0 <= d < 10,
    ensures
        v != 0 ==> int_text(typed_value(v, d)).drop_last() == int_text(v),
        v == 0 ==> int_text(typed_value(v, d)).drop_last().len() == 0,
{
    if v > 0 {
        lemma_div10(v, d);
        let t = v * 10 + d;
        assert(nat_text(t as nat) == nat_text((t / 10) as nat).push(digit_char(t % 10)));
        assert(nat_text(t as nat).drop_last() =~= nat_text(v as nat));
    } else if v < 0 {
        lemma_div10(-v, d);
        let t = (-v) * 10 + d;
        assert(typed_value(v, d) == -t);
        assert(nat_text(t as nat) == nat_text((t / 10) as nat).push(digit_char(t % 10)));
        assert((seq!['-'] + nat_text(t as nat)).drop_last() =~= seq!['-'] + nat_text((-v) as nat));
    }
}

/// Typing a digit into a coordinate field and then a backspace restores the
/// setting, as long as the intermediate value fits in an `i32`.
pub proof fn lemma_digit_then_backspace(cfg: Config, f: Field, ch: u32)
    requires
        is_coordinate(f),
        0x30 <= ch <= 0x39,
        i32::MIN <= typed_value(field_value(cfg, f), ch - 0x30) <= i32::MAX,
    ensures
        edit_field(edit_field(cfg, f, ch), f, 8) == cfg,
{
    let v = field_value(cfg, f);
    let d = ch - 0x30;
    lemma_type_digit(v, d);
    lemma_backspace_typed(v, d);
    let typed = typed_value(v, d);
    lemma_int_text(typed);
    lemma_int_text(v);
    let c1 = edit_field(cfg, f, ch);
    assert(field_value(c1, f) == typed);
    assert(field_text(c1, f) == int_text(typed));
}

} // verus!
