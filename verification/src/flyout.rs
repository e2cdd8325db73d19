//! Placement, hit-testing, seeking and the show/hide animation state of the
//! flyout window.

use vstd::prelude::*;

use crate::config::{Anchor, Config};
use crate::render::{
    hit_regions_for, Rect, HitRegions, FLYOUT_W, FLYOUT_H_EXPANDED, FLYOUT_W_COMPACT, FLYOUT_H_COMPACT,
};

verus! {

/// Length of the show and hide animations, in milliseconds.
pub const ANIM_MS: u32 = 200;

/// Interval of the animation timer (about 120 frames per second).
pub const FRAME_MS: u32 = 8;

/// Interval at which the timeline is polled while the flyout is up.
pub const POLL_MS: u32 = 300;

/// How far off its resting place the card starts and ends its slide.
pub const SLIDE_PX: i32 = 40;

// ---------------------------------------------------------------------------
// Placement
// ---------------------------------------------------------------------------

/// Size of the card for the configured layout.
pub fn flyout_size(cfg: &Config) -> (r: (i32, i32))
    ensures
        r == if cfg.compact {
            (FLYOUT_W_COMPACT, FLYOUT_H_COMPACT)
        } else {
            (FLYOUT_W, FLYOUT_H_EXPANDED)
        },
{
    if cfg.compact {
        (FLYOUT_W_COMPACT, FLYOUT_H_COMPACT)
    } else {
        (FLYOUT_W, FLYOUT_H_EXPANDED)
    }
}

pub open spec fn fits_i32(x: int) -> bool {
    i32::MIN <= x <= i32::MAX
}

/// Integer halving that rounds toward zero, as `/ 2` does on `i32`.
pub open spec fn half(x: int) -> int {
    if x >= 0 {
        x / 2
    } else {
        -((-x) / 2)
    }
}

/// Whether placing a `width` x `height` card on a `screen_w` x `screen_h`
/// screen stays within `i32` at every step.
pub open spec fn placement_fits(
    cfg: Config,
    screen_w: i32,
    screen_h: i32,
    width: i32,
    height: i32,
) -> bool {
    let across = screen_w - width;
    let down = screen_h - height;
    match cfg.anchor {
        Anchor::TopLeft => true,
        Anchor::TopCenter => fits_i32(across),
        Anchor::TopRight => fits_i32(across) && fits_i32(across - cfg.margin_x),
        Anchor::MiddleLeft => fits_i32(down),
        Anchor::MiddleCenter => fits_i32(across) && fits_i32(down),
        Anchor::MiddleRight => fits_i32(across) && fits_i32(across - cfg.margin_x) && fits_i32(down),
        Anchor::BottomLeft => fits_i32(down) && fits_i32(down - cfg.margin_y),
        Anchor::BottomCenter => fits_i32(across) && fits_i32(down) && fits_i32(down - cfg.margin_y),
        Anchor::BottomRight => fits_i32(across) && fits_i32(across - cfg.margin_x) && fits_i32(down)
            && fits_i32(down - cfg.margin_y),
        Anchor::Custom => true,
    }
}

/// Top-left corner of the card at rest: against the chosen screen edge or
/// corner, `margin` pixels in (the middle row is centred vertically, the
/// centre column horizontally), or at the custom position.
pub open spec fn placement(cfg: Config, screen_w: i32, screen_h: i32, width: i32, height: i32) -> (
    int,
    int,
) {
    let mx = cfg.margin_x as int;
    let my = cfg.margin_y as int;
    match cfg.anchor {
        Anchor::TopLeft => (mx, my),
        Anchor::TopCenter => (half(screen_w - width), my),
        Anchor::TopRight => (screen_w - width - mx, my),
        Anchor::MiddleLeft => (mx, half(screen_h - height)),
        Anchor::MiddleCenter => (half(screen_w - width), half(screen_h - height)),
        Anchor::MiddleRight => (screen_w - width - mx, half(screen_h - height)),
        Anchor::BottomLeft => (mx, screen_h - height - my),
        Anchor::BottomCenter => (half(screen_w - width), screen_h - height - my),
        Anchor::BottomRight => (screen_w - width - mx, screen_h - height - my),
        Anchor::Custom => (cfg.custom_x as int, cfg.custom_y as int),
    }
}

/// Top-left corner of the card at rest, with every `i32` step wrapping
/// around on overflow (two's complement).
pub open spec fn wrapped_placement(
    cfg: Config,
    screen_w: i32,
    screen_h: i32,
    width: i32,
    height: i32,
) -> (i32, i32) {
    let across = screen_w.wrapping_sub(width);
    let down = screen_h.wrapping_sub(height);
    let mx = cfg.margin_x;
    let my = cfg.margin_y;
    match cfg.anchor {
        Anchor::TopLeft => (mx, my),
        Anchor::TopCenter => (half(across as int) as i32, my),
        Anchor::TopRight => (across.wrapping_sub(mx), my),
        Anchor::MiddleLeft => (mx, half(down as int) as i32),
        Anchor::MiddleCenter => (half(across as int) as i32, half(down as int) as i32),
        Anchor::MiddleRight => (across.wrapping_sub(mx), half(down as int) as i32),
        Anchor::BottomLeft => (mx, down.wrapping_sub(my)),
        Anchor::BottomCenter => (half(across as int) as i32, down.wrapping_sub(my)),
        Anchor::BottomRight => (across.wrapping_sub(mx), down.wrapping_sub(my)),
        Anchor::Custom => (cfg.custom_x, cfg.custom_y),
    }
}

/// Whether two integers are the same modulo 2^32, as `i32` values that
/// wrapped around agree.
pub open spec fn same_mod_2_32(a: int, b: int) -> bool {
    (a - b) % 0x1_0000_0000 == 0
}

pub open spec fn on_left(a: Anchor) -> bool {
    a == Anchor::TopLeft || a == Anchor::MiddleLeft || a == Anchor::BottomLeft
}

pub open spec fn on_right(a: Anchor) -> bool {
    a == Anchor::TopRight || a == Anchor::MiddleRight || a == Anchor::BottomRight
}

pub open spec fn on_top(a: Anchor) -> bool {
    a == Anchor::TopLeft || a == Anchor::TopCenter || a == Anchor::TopRight
}

pub open spec fn on_bottom(a: Anchor) -> bool {
    a == Anchor::BottomLeft || a == Anchor::BottomCenter || a == Anchor::BottomRight
}

/// Where the card of the given size rests: against a left or top edge it
/// starts `margin` pixels in; against a right or bottom edge its far side
/// ends `margin` pixels before the screen edge; in the centre column or the
/// middle row it is centred to within a pixel; a custom anchor puts its
/// corner at the custom position.
pub proof fn lemma_placement_edges(
    cfg: Config,
    screen_w: i32,
    screen_h: i32,
    width: i32,
    height: i32,
)
    ensures
        ({
            let p = placement(cfg, screen_w, screen_h, width, height);
            let a = cfg.anchor;
            &&& on_left(a) ==> p.0 == cfg.margin_x
            &&& on_right(a) ==> p.0 + width + cfg.margin_x == screen_w
            &&& (a == Anchor::TopCenter || a == Anchor::MiddleCenter || a == Anchor::BottomCenter)
                ==> -1 <= 2 * p.0 + width - screen_w <= 1
            &&& on_top(a) ==> p.1 == cfg.margin_y
            &&& on_bottom(a) ==> p.1 + height + cfg.margin_y == screen_h
            &&& (a == Anchor::MiddleLeft || a == Anchor::MiddleCenter || a == Anchor::MiddleRight)
                ==> -1 <= 2 * p.1 + height - screen_h <= 1
            &&& a == Anchor::Custom ==> p == (cfg.custom_x as int, cfg.custom_y as int)
        }),
{
}

/// The same for the position `target_position` returns, with the `i32`
/// arithmetic wrapping around: against an edge the relations hold modulo
/// 2^32.
pub proof fn lemma_wrapped_placement_edges(
    cfg: Config,
    screen_w: i32,
    screen_h: i32,
    width: i32,
    height: i32,
)
    ensures
        ({
            let r = wrapped_placement(cfg, screen_w, screen_h, width, height);
            let a = cfg.anchor;
            &&& on_left(a) ==> r.0 == cfg.margin_x
            &&& on_right(a) ==> same_mod_2_32(r.0 + width + cfg.margin_x, screen_w as int)
            &&& on_top(a) ==> r.1 == cfg.margin_y
            &&& on_bottom(a) ==> same_mod_2_32(r.1 + height + cfg.margin_y, screen_h as int)
            &&& a == Anchor::Custom ==> r == (cfg.custom_x, cfg.custom_y)
        }),
{
    lemma_wrapped_sub_sub(screen_w, width, cfg.margin_x);
    lemma_wrapped_sub_sub(screen_h, height, cfg.margin_y);
}

/// Subtracting twice with wrap-around leaves a result that differs from the
/// exact difference by a multiple of 2^32.
proof fn lemma_wrapped_sub_sub(a: i32, b: i32, c: i32)
    ensures
        same_mod_2_32(a.wrapping_sub(b).wrapping_sub(c) + b + c, a as int),
{
    let d = a.wrapping_sub(b).wrapping_sub(c) + b + c - a;
    assert(d == 0 || d == 0x1_0000_0000 || d == -0x1_0000_0000 || d == 0x2_0000_0000 || d
        == -0x2_0000_0000);
    assert(0x1_0000_0000int % 0x1_0000_0000 == 0);
    assert(-0x1_0000_0000int % 0x1_0000_0000 == 0);
    assert(0x2_0000_0000int % 0x1_0000_0000 == 0);
    assert(-0x2_0000_0000int % 0x1_0000_0000 == 0);
    assert(0int % 0x1_0000_0000 == 0);
}

/// Top-left corner of the card at rest on a `screen_w` x `screen_h` screen.
/// The arithmetic wraps around on overflow; whenever the placement fits in
/// `i32` the result is the exact placement.
pub fn target_position(cfg: &Config, screen_w: i32, screen_h: i32, width: i32, height: i32) -> (r: (
    i32,
    i32,
))
    ensures
        r == wrapped_placement(*cfg, screen_w, screen_h, width, height),
        placement_fits(*cfg, screen_w, screen_h, width, height) ==> (r.0 as int, r.1 as int)
            == placement(*cfg, screen_w, screen_h, width, height),
{
    let mx = cfg.margin_x;
    let my = cfg.margin_y;
    let across = screen_w.wrapping_sub(width);
    let down = screen_h.wrapping_sub(height);
    match cfg.anchor {
        Anchor::TopLeft => (mx, my),
        Anchor::TopCenter => (across / 2, my),
        Anchor::TopRight => (across.wrapping_sub(mx), my),
        Anchor::MiddleLeft => (mx, down / 2),
        Anchor::MiddleCenter => (across / 2, down / 2),
        Anchor::MiddleRight => (across.wrapping_sub(mx), down / 2),
        Anchor::BottomLeft => (mx, down.wrapping_sub(my)),
        Anchor::BottomCenter => (across / 2, down.wrapping_sub(my)),
        Anchor::BottomRight => (across.wrapping_sub(mx), down.wrapping_sub(my)),
        Anchor::Custom => (cfg.custom_x, cfg.custom_y),
    }
}

/// `target_position` when the placement stays within `i32`, `None` otherwise.
pub fn checked_target_position(
    cfg: &Config,
    screen_w: i32,
    screen_h: i32,
    width: i32,
    height: i32,
) -> (r: Option<(i32, i32)>)
    ensures
        r is Some <==> placement_fits(*cfg, screen_w, screen_h, width, height),
        r matches Some(p) ==> (p.0 as int, p.1 as int) == placement(
            *cfg,
            screen_w,
            screen_h,
            width,
            height,
        ),
{
    let across = screen_w as i64 - width as i64;
    let down = screen_h as i64 - height as i64;
    let in_range = |x: i64| -> (b: bool)
        ensures
            b == fits_i32(x as int),
        { i32::MIN as i64 <= x && x <= i32::MAX as i64 };
    let ok = match cfg.anchor {
        Anchor::TopLeft => true,
        Anchor::TopCenter => in_range(across),
        Anchor::TopRight => in_range(across) && in_range(across - cfg.margin_x as i64),
        Anchor::MiddleLeft => in_range(down),
        Anchor::MiddleCenter => in_range(across) && in_range(down),
        Anchor::MiddleRight => in_range(across) && in_range(across - cfg.margin_x as i64)
            && in_range(down),
        Anchor::BottomLeft => in_range(down) && in_range(down - cfg.margin_y as i64),
        Anchor::BottomCenter => in_range(across) && in_range(down) && in_range(
            down - cfg.margin_y as i64,
        ),
        Anchor::BottomRight => in_range(across) && in_range(across - cfg.margin_x as i64)
            && in_range(down) && in_range(down - cfg.margin_y as i64),
        Anchor::Custom => true,
    };
    if ok {
        Some(target_position(cfg, screen_w, screen_h, width, height))
    } else {
        None
    }
}

/// Whether the card slides in from above: it does for the top anchors, and
/// for a custom position in the upper 200 pixels; the middle and bottom
/// anchors slide in from below.
pub open spec fn slides_from_top(anchor: Anchor, target_y: int) -> bool {
    ||| anchor == Anchor::TopLeft
    ||| anchor == Anchor::TopCenter
    ||| anchor == Anchor::TopRight
    ||| (anchor == Anchor::Custom && target_y < 200)
}

/// Vertical position the card slides from (and back to): forty pixels
/// beyond its resting place, on the side of the nearer screen edge. The
/// arithmetic wraps around on overflow.
pub fn offscreen_y(anchor: Anchor, target_y: i32) -> (r: i32)
    ensures
        r == if slides_from_top(anchor, target_y as int) {
            target_y.wrapping_sub(SLIDE_PX)
        } else {
            target_y.wrapping_add(SLIDE_PX)
        },
        fits_i32(target_y - SLIDE_PX) && fits_i32(target_y + SLIDE_PX) ==> r == if slides_from_top(
            anchor,
            target_y as int,
        ) {
            target_y - SLIDE_PX
        } else {
            target_y + SLIDE_PX
        },
{
    let from_top = match anchor {
        Anchor::TopLeft | Anchor::TopCenter | Anchor::TopRight => true,
        Anchor::Custom => target_y < 200,
        _ => false,
    };
    if from_top {
        target_y.wrapping_sub(SLIDE_PX)
    } else {
        target_y.wrapping_add(SLIDE_PX)
    }
}

/// Interval of the timer that starts the hide animation: the configured
/// visible duration plus the length of the show animation, wrapping around
/// on overflow.
pub fn hold_timer_ms(hold_ms: u32) -> (r: u32)
    ensures
        r == hold_ms.wrapping_add(ANIM_MS),
        hold_ms + ANIM_MS <= u32::MAX ==> r == hold_ms + ANIM_MS,
{
    hold_ms.wrapping_add(ANIM_MS)
}

// ---------------------------------------------------------------------------
// Hit-testing and seeking
// ---------------------------------------------------------------------------

pub open spec fn inside(x: int, y: int, r: Rect) -> bool {
    r.left <= x <= r.right && r.top <= y <= r.bottom
}

/// Whether the point lies in the rectangle, edges included.
pub fn point_in_rect(x: i32, y: i32, r: &Rect) -> (b: bool)
    ensures
        b == inside(x as int, y as int, *r),
{
    x >= r.left && x <= r.right && y >= r.top && y <= r.bottom
}

/// What a click on the card asks for.
#[derive(Clone, Copy, Debug, PartialEq, Eq, Structural)]
pub enum ClickAction {
    Shuffle,
    Prev,
    PlayPause,
    Next,
    Repeat,
    Seek,
}

/// The action of a click at `(x, y)`: the first region that holds the point,
/// in the order shuffle, previous, play/pause, next, repeat, seek track. A
/// greyed-out shuffle or repeat button (the player does not support it)
/// takes the click and does nothing.
pub open spec fn click_target(
    x: int,
    y: int,
    hits: HitRegions,
    shuffle_supported: bool,
    repeat_supported: bool,
) -> Option<ClickAction> {
    if inside(x, y, hits.shuffle) {
        if shuffle_supported {
            Some(ClickAction::Shuffle)
        } else {
            None
        }
    } else if inside(x, y, hits.prev) {
        Some(ClickAction::Prev)
    } else if inside(x, y, hits.play_pause) {
        Some(ClickAction::PlayPause)
    } else if inside(x, y, hits.next) {
        Some(ClickAction::Next)
    } else if inside(x, y, hits.repeat) {
        if repeat_supported {
            Some(ClickAction::Repeat)
        } else {
            None
        }
    } else if inside(x, y, hits.seek_track) {
        Some(ClickAction::Seek)
    } else {
        None
    }
}

/// The action of a click at `(x, y)` on the card.
pub fn click_action(
    x: i32,
    y: i32,
    hits: &HitRegions,
    shuffle_supported: bool,
    repeat_supported: bool,
) -> (r: Option<ClickAction>)
    ensures
        r == click_target(x as int, y as int, *hits, shuffle_supported, repeat_supported),
{
    if point_in_rect(x, y, &hits.shuffle) {
        if shuffle_supported {
            Some(ClickAction::Shuffle)
        } else {
            None
        }
    } else if point_in_rect(x, y, &hits.prev) {
        Some(ClickAction::Prev)
    } else if point_in_rect(x, y, &hits.play_pause) {
        Some(ClickAction::PlayPause)
    } else if point_in_rect(x, y, &hits.next) {
        Some(ClickAction::Next)
    } else if point_in_rect(x, y, &hits.repeat) {
        if repeat_supported {
            Some(ClickAction::Repeat)
        } else {
            None
        }
    } else if point_in_rect(x, y, &hits.seek_track) {
        Some(ClickAction::Seek)
    } else {
        None
    }
}

pub open spec fn clamp(v: int, lo: int, hi: int) -> int {
    if v < lo {
        lo
    } else if v > hi {
        hi
    } else {
        v
    }
}

/// The playback position a click at `x` on the seek track asks for: the
/// fraction of the track to the left of `x` (clamped to the track) of the
/// duration, rounded down to a whole tick. When the player reports no
/// duration the click still asks for a seek, to the start. `None` when the
/// track has no width.
pub open spec fn seek_ticks(x: int, track: Rect, duration_ticks: int) -> Option<int> {
    let width = track.right - track.left;
    if width <= 0 {
        None
    } else if duration_ticks <= 0 {
        Some(0)
    } else {
        Some(clamp(x - track.left, 0, width) * duration_ticks / width)
    }
}

/// The position, in ticks, that a click at `x` on the seek track asks for.
pub fn compute_seek_ticks(x: i32, track: &Rect, duration_ticks: i64) -> (r: Option<i64>)
    ensures
        match r {
            Some(t) => seek_ticks(x as int, *track, duration_ticks as int) == Some(t as int),
            None => seek_ticks(x as int, *track, duration_ticks as int) is None,
        },
        r matches Some(t) ==> 0 <= t && (duration_ticks > 0 ==> t <= duration_ticks),
{
    let width: i64 = track.right as i64 - track.left as i64;
    if width <= 0 {
        return None;
    }
    if duration_ticks <= 0 {
        return Some(0);
    }
    let dx: i64 = x as i64 - track.left as i64;
    let rel: i64 = if dx < 0 {
        0
    } else if dx > width {
        width
    } else {
        dx
    };
    assert(0 <= rel as int * duration_ticks as int <= 0x1_0000_0000 * 0x8000_0000_0000_0000)
        by (nonlinear_arith)
        requires
            0 <= rel <= 0x1_0000_0000,
            0 < duration_ticks <= 0x8000_0000_0000_0000,
    ;
    let prod: i128 = rel as i128 * duration_ticks as i128;
    let t: i128 = prod / width as i128;
    proof {
        assert(0 <= prod <= width * duration_ticks) by (nonlinear_arith)
            requires
                0 <= rel <= width,
                duration_ticks > 0,
                prod == rel * duration_ticks,
        ;
        assert(0 <= t <= duration_ticks) by (nonlinear_arith)
            requires
                0 <= prod <= width * duration_ticks,
                width > 0,
                t as int == (prod as int) / (width as int),
        ;
    }
    Some(t as i64)
}

// ---------------------------------------------------------------------------
// Show / hide state
// ---------------------------------------------------------------------------

/// The animation and interaction state of the flyout. Times are
/// milliseconds on a monotonic clock.
#[derive(Clone, Copy, Debug, PartialEq, Eq, Structural)]
pub struct FlyoutState {
    pub visible: bool,
    pub show_anim_start: Option<u64>,
    pub hide_anim_start: Option<u64>,
    pub seek_dragging: bool,
    pub last_seek_request: Option<i64>,
}

/// What one animation frame does.
#[derive(Clone, Copy, Debug, PartialEq, Eq, Structural)]
pub struct TickOutcome {
    /// Milliseconds into the show animation (at most `ANIM_MS`), when it runs.
    pub show_ms: Option<u32>,
    /// Milliseconds into the hide animation (at most `ANIM_MS`), when it runs.
    pub hide_ms: Option<u32>,
    /// Whether another frame is needed.
    pub still_animating: bool,
    /// Whether the hide animation has just finished.
    pub completed_hide: bool,
}

/// Milliseconds since `start`, or zero when `now` is earlier, capped at the
/// animation length.
pub open spec fn anim_progress(start: u64, now: u64) -> int {
    if now <= start {
        0
    } else if now - start >= ANIM_MS {
        ANIM_MS as int
    } else {
        now - start
    }
}

pub open spec fn anim_done(start: u64, now: u64) -> bool {
    now >= start && now - start >= ANIM_MS
}

/// At most one animation runs at a time, and only while the flyout is
/// visible.
pub open spec fn flyout_wf(s: FlyoutState) -> bool {
    &&& !(s.show_anim_start is Some && s.hide_anim_start is Some)
    &&& (s.show_anim_start is Some || s.hide_anim_start is Some) ==> s.visible
}

pub open spec fn initial_flyout() -> FlyoutState {
    FlyoutState {
        visible: false,
        show_anim_start: None,
        hide_anim_start: None,
        seek_dragging: false,
        last_seek_request: None,
    }
}

/// The state after an animation frame at `now`.
pub open spec fn after_tick(s: FlyoutState, now: u64) -> FlyoutState {
    let show = match s.show_anim_start {
        Some(start) => if anim_done(start, now) {
            None
        } else {
            Some(start)
        },
        None => None,
    };
    match s.hide_anim_start {
        Some(start) => if anim_done(start, now) {
            FlyoutState { show_anim_start: show, hide_anim_start: None, visible: false, ..s }
        } else {
            FlyoutState { show_anim_start: show, ..s }
        },
        None => FlyoutState { show_anim_start: show, ..s },
    }
}

/// What an animation frame at `now` reports.
pub open spec fn tick_outcome(s: FlyoutState, now: u64) -> TickOutcome {
    TickOutcome {
        show_ms: match s.show_anim_start {
            Some(start) => Some(anim_progress(start, now) as u32),
            None => None,
        },
        hide_ms: match s.hide_anim_start {
            Some(start) => Some(anim_progress(start, now) as u32),
            None => None,
        },
        still_animating: (s.show_anim_start matches Some(st) && !anim_done(st, now)) || (
        s.hide_anim_start matches Some(st) && !anim_done(st, now)),
        completed_hide: s.hide_anim_start matches Some(st) && anim_done(st, now),
    }
}

/// The state of the flyout after the button is released: a drag on the seek
/// track ends and hands out its last request.
pub open spec fn after_button_up(s: FlyoutState) -> (FlyoutState, Option<i64>) {
    if s.seek_dragging {
        (FlyoutState { seek_dragging: false, last_seek_request: None, ..s }, s.last_seek_request)
    } else {
        (s, None)
    }
}

fn progress_ms(start: u64, now: u64) -> (r: (u32, bool))
    ensures
        r.0 == anim_progress(start, now),
        r.1 == anim_done(start, now),
{
    if now <= start {
        (0, false)
    } else if now - start >= ANIM_MS as u64 {
        (ANIM_MS, true)
    } else {
        ((now - start) as u32, false)
    }
}

impl FlyoutState {
    /// Hidden, not animating, no drag in progress.
    pub fn new() -> (r: FlyoutState)
        ensures
            r == initial_flyout(),
            flyout_wf(r),
    {
        FlyoutState {
            visible: false,
            show_anim_start: None,
            hide_anim_start: None,
            seek_dragging: false,
            last_seek_request: None,
        }
    }

    /// A request to show the flyout at `now`. While an exclusive-fullscreen
    /// application has the screen nothing happens and `None` is returned;
    /// otherwise the show animation starts (or restarts) and the result says
    /// whether the flyout was already visible.
    pub fn on_show(&mut self, now: u64, fullscreen: bool) -> (already_visible: Option<bool>)
        ensures
            flyout_wf(*old(self)) ==> flyout_wf(*final(self)),
            fullscreen ==> already_visible is None && *final(self) == *old(self),
            !fullscreen ==> already_visible == Some(old(self).visible) && *final(self) == (
            FlyoutState {
                show_anim_start: Some(now),
                hide_anim_start: None,
                visible: true,
                ..*old(self)
            }),
    {
        if fullscreen {
            return None;
        }
        let already_visible = self.visible;
        self.show_anim_start = Some(now);
        self.hide_anim_start = None;
        self.visible = true;
        Some(already_visible)
    }

    /// Starts the hide animation at `now`, if the flyout is visible.
    pub fn on_hide_animated(&mut self, now: u64)
        ensures
            flyout_wf(*old(self)) ==> flyout_wf(*final(self)),
            *final(self) == if old(self).visible {
                FlyoutState { hide_anim_start: Some(now), show_anim_start: None, ..*old(self) }
            } else {
                *old(self)
            },
    {
        if self.visible {
            self.hide_anim_start = Some(now);
            self.show_anim_start = None;
        }
    }

    /// Hides at once: no animation, no drag.
    pub fn on_hide_immediate(&mut self)
        ensures
            flyout_wf(*old(self)) ==> flyout_wf(*final(self)),
            *final(self) == (FlyoutState {
                visible: false,
                show_anim_start: None,
                hide_anim_start: None,
                seek_dragging: false,
                ..*old(self)
            }),
    {
        self.visible = false;
        self.show_anim_start = None;
        self.hide_anim_start = None;
        self.seek_dragging = false;
    }

    /// Advances the animations to `now`: a finished show animation stops, a
    /// finished hide animation stops and leaves the flyout hidden.
    pub fn on_tick(&mut self, now: u64) -> (r: TickOutcome)
        ensures
            flyout_wf(*old(self)) ==> flyout_wf(*final(self)),
            *final(self) == after_tick(*old(self), now),
            r == tick_outcome(*old(self), now),
    {
        let mut show_ms: Option<u32> = None;
        let mut hide_ms: Option<u32> = None;
        let mut still_animating = false;
        let mut completed_hide = false;
        if let Some(start) = self.show_anim_start {
            let (p, done) = progress_ms(start, now);
            show_ms = Some(p);
            if done {
                self.show_anim_start = None;
            } else {
                still_animating = true;
            }
        }
        if let Some(start) = self.hide_anim_start {
            let (p, done) = progress_ms(start, now);
            hide_ms = Some(p);
            if done {
                self.hide_anim_start = None;
                self.visible = false;
                completed_hide = true;
            } else {
                still_animating = true;
            }
        }
        TickOutcome { show_ms, hide_ms, still_animating, completed_hide }
    }

    /// A press on the seek track: a drag starts, asking for `target`.
    pub fn on_seek_press(&mut self, target: Option<i64>)
        ensures
            flyout_wf(*old(self)) ==> flyout_wf(*final(self)),
            *final(self) == (FlyoutState {
                seek_dragging: true,
                last_seek_request: target,
                ..*old(self)
            }),
    {
        self.seek_dragging = true;
        self.last_seek_request = target;
    }

    /// The pointer moved during a drag: a known target replaces the request.
    pub fn on_seek_drag(&mut self, target: Option<i64>)
        ensures
            flyout_wf(*old(self)) ==> flyout_wf(*final(self)),
            *final(self) == match target {
                Some(t) => FlyoutState { last_seek_request: Some(t), ..*old(self) },
                None => *old(self),
            },
    {
        if let Some(t) = target {
            self.last_seek_request = Some(t);
        }
    }

    /// The button was released: returns the seek to perform, if a drag was
    /// in progress and asked for one.
    pub fn on_button_up(&mut self) -> (r: Option<i64>)
        ensures
            flyout_wf(*old(self)) ==> flyout_wf(*final(self)),
            (*final(self), r) == after_button_up(*old(self)),
    {
        if self.seek_dragging {
            let r = self.last_seek_request;
            self.last_seek_request = None;
            self.seek_dragging = false;
            r
        } else {
            None
        }
    }
}

// ---------------------------------------------------------------------------
// Laws
// ---------------------------------------------------------------------------

/// A hide animation that has run its full length leaves the flyout hidden
/// and not animating.
pub proof fn lemma_hide_completes(s: FlyoutState, start: u64, now: u64)
    requires
        s.hide_anim_start == Some(start),
        s.show_anim_start is None,
        now >= start + ANIM_MS,
    ensures
        !after_tick(s, now).visible,
        after_tick(s, now).hide_anim_start is None,
        tick_outcome(s, now).completed_hide,
        !tick_outcome(s, now).still_animating,
{
}

/// An animation that has not run its full length asks for another frame.
pub proof fn lemma_animation_continues(s: FlyoutState, start: u64, now: u64)
    requires
        s.show_anim_start == Some(start) || s.hide_anim_start == Some(start),
        now < start + ANIM_MS,
    ensures
        tick_outcome(s, now).still_animating,
        !tick_outcome(s, now).completed_hide || s.hide_anim_start != Some(start),
{
}

/// The compact card has no controls: a click anywhere on it asks for
/// nothing.
pub proof fn lemma_compact_card_has_no_controls(
    x: int,
    y: int,
    seekbar_enabled: bool,
    shuffle_supported: bool,
    repeat_supported: bool,
)
    ensures
        click_target(
            x,
            y,
            hit_regions_for(seekbar_enabled, true),
            shuffle_supported,
            repeat_supported,
        ) is None,
{
}

/// On the full card every control takes its own clicks: the regions do not
/// overlap, so a click on a button asks for that button's action (nothing,
/// for a greyed-out shuffle or repeat button) and a click on the seek track
/// asks for a seek.
pub proof fn lemma_controls_take_their_clicks(
    x: int,
    y: int,
    seekbar_enabled: bool,
    shuffle_supported: bool,
    repeat_supported: bool,
)
    ensures
        ({
            let h = hit_regions_for(seekbar_enabled, false);
            let t = click_target(x, y, h, shuffle_supported, repeat_supported);
            &&& inside(x, y, h.shuffle) ==> t == if shuffle_supported {
                Some(ClickAction::Shuffle)
            } else {
                None
            }
            &&& inside(x, y, h.prev) ==> t == Some(ClickAction::Prev)
            &&& inside(x, y, h.play_pause) ==> t == Some(ClickAction::PlayPause)
            &&& inside(x, y, h.next) ==> t == Some(ClickAction::Next)
            &&& inside(x, y, h.repeat) ==> t == if repeat_supported {
                Some(ClickAction::Repeat)
            } else {
                None
            }
            &&& inside(x, y, h.seek_track) ==> t == Some(ClickAction::Seek)
        }),
{
}

/// A drag's seek request is handed out at most once.
pub proof fn lemma_seek_released_once(s: FlyoutState)
    ensures
        after_button_up(after_button_up(s).0).1 is None,
{
}

/// The seek position lies within the track's duration, and is the start
/// when no duration is known.
pub proof fn lemma_seek_within_duration(x: int, track: Rect, duration_ticks: int)
    requires
        seek_ticks(x, track, duration_ticks) is Some,
    ensures
        duration_ticks > 0 ==> 0 <= seek_ticks(x, track, duration_ticks)->0 <= duration_ticks,
        duration_ticks <= 0 ==> seek_ticks(x, track, duration_ticks)->0 == 0,
{
    if duration_ticks > 0 {
        let width = track.right - track.left;
        let rel = clamp(x - track.left, 0, width);
        assert(0 <= rel * duration_ticks <= width * duration_ticks) by (nonlinear_arith)
            requires
                0 <= rel <= width,
                duration_ticks > 0,
        ;
        assert(0 <= rel * duration_ticks / width <= duration_ticks) by (nonlinear_arith)
            requires
                0 <= rel * duration_ticks <= width * duration_ticks,
                width > 0,
        ;
    }
}

} // verus!
