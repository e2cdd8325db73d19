use flyout_lite::config::{Anchor, Config};
use flyout_lite::flyout::{
    checked_target_position, click_action, compute_seek_ticks, flyout_size, hold_timer_ms,
    offscreen_y, point_in_rect, target_position, ClickAction, FlyoutState, ANIM_MS,
};
use flyout_lite::render::{flyout_hit_regions, Rect};

fn with_anchor(anchor: Anchor) -> Config {
    Config { anchor, margin_x: 20, margin_y: 30, custom_x: 111, custom_y: 222, ..Config::default() }
}

#[test]
fn card_size_follows_layout() {
    assert_eq!(flyout_size(&Config::default()), (360, 152));
    let compact = Config { compact: true, ..Config::default() };
    assert_eq!(flyout_size(&compact), (280, 64));
}

#[test]
fn placement_on_a_1920_by_1080_screen() {
    let (w, h) = (360, 152);
    assert_eq!(target_position(&with_anchor(Anchor::TopLeft), 1920, 1080, w, h), (20, 30));
    assert_eq!(target_position(&with_anchor(Anchor::TopCenter), 1920, 1080, w, h), (780, 30));
    assert_eq!(target_position(&with_anchor(Anchor::TopRight), 1920, 1080, w, h), (1540, 30));
    assert_eq!(target_position(&with_anchor(Anchor::MiddleLeft), 1920, 1080, w, h), (20, 464));
    assert_eq!(target_position(&with_anchor(Anchor::MiddleCenter), 1920, 1080, w, h), (780, 464));
    assert_eq!(target_position(&with_anchor(Anchor::MiddleRight), 1920, 1080, w, h), (1540, 464));
    assert_eq!(target_position(&with_anchor(Anchor::BottomLeft), 1920, 1080, w, h), (20, 898));
    assert_eq!(target_position(&with_anchor(Anchor::BottomCenter), 1920, 1080, w, h), (780, 898));
    assert_eq!(target_position(&with_anchor(Anchor::BottomRight), 1920, 1080, w, h), (1540, 898));
    assert_eq!(target_position(&with_anchor(Anchor::Custom), 1920, 1080, w, h), (111, 222));
}

#[test]
fn centering_on_a_narrow_screen_rounds_toward_zero() {
    assert_eq!(target_position(&with_anchor(Anchor::TopCenter), 301, 600, 360, 152), (-29, 30));
}

#[test]
fn checked_placement_reports_overflow() {
    let wide = Config { anchor: Anchor::TopRight, margin_x: i32::MIN, ..Config::default() };
    assert_eq!(checked_target_position(&wide, 1920, 1080, 360, 152), None);
    assert_eq!(checked_target_position(&with_anchor(Anchor::BottomRight), 1920, 1080, 360, 152), Some((1540, 898)));
    let tall = Config { anchor: Anchor::MiddleLeft, ..Config::default() };
    assert_eq!(checked_target_position(&tall, 0, i32::MIN, 360, 152), None);
    assert_eq!(checked_target_position(&tall, 0, 1080, 360, 152), Some((20, 464)));
}

#[test]
fn slide_direction() {
    assert_eq!(offscreen_y(Anchor::TopRight, 30), -10);
    assert_eq!(offscreen_y(Anchor::BottomLeft, 898), 938);
    assert_eq!(offscreen_y(Anchor::MiddleCenter, 464), 504);
    assert_eq!(offscreen_y(Anchor::Custom, 199), 159);
    assert_eq!(offscreen_y(Anchor::Custom, 200), 240);
}

#[test]
fn hold_timer_adds_the_animation() {
    assert_eq!(hold_timer_ms(3000), 3000 + ANIM_MS);
}

#[test]
fn hit_regions_of_the_card() {
    let hits = flyout_hit_regions(true, false);
    assert_eq!(hits.shuffle, Rect { left: 176, top: 62, right: 204, bottom: 94 });
    assert_eq!(hits.prev, Rect { left: 210, top: 62, right: 238, bottom: 94 });
    assert_eq!(hits.play_pause, Rect { left: 244, top: 60, right: 280, bottom: 96 });
    assert_eq!(hits.next, Rect { left: 286, top: 62, right: 314, bottom: 94 });
    assert_eq!(hits.repeat, Rect { left: 320, top: 62, right: 348, bottom: 94 });
    assert_eq!(hits.seek_track, Rect { left: 62, top: 120, right: 298, bottom: 146 });
    let no_bar = flyout_hit_regions(false, false);
    let empty = Rect { left: 0, top: 0, right: -1, bottom: -1 };
    assert_eq!(no_bar.seek_track, empty);
    let compact = flyout_hit_regions(true, true);
    assert_eq!(compact.play_pause, empty);
    assert_eq!(compact.shuffle, empty);
    assert!(!point_in_rect(0, 0, &compact.prev));
}

#[test]
fn clicks_map_to_actions() {
    let hits = flyout_hit_regions(true, false);
    assert_eq!(click_action(180, 70, &hits, true, true), Some(ClickAction::Shuffle));
    assert_eq!(click_action(215, 70, &hits, true, true), Some(ClickAction::Prev));
    assert_eq!(click_action(244, 60, &hits, true, true), Some(ClickAction::PlayPause));
    assert_eq!(click_action(314, 94, &hits, true, true), Some(ClickAction::Next));
    assert_eq!(click_action(348, 94, &hits, true, true), Some(ClickAction::Repeat));
    assert_eq!(click_action(100, 130, &hits, true, true), Some(ClickAction::Seek));
    assert_eq!(click_action(10, 10, &hits, true, true), None);
    assert_eq!(click_action(241, 70, &hits, true, true), None);
    assert!(point_in_rect(62, 120, &hits.seek_track));
    assert!(!point_in_rect(61, 120, &hits.seek_track));
}

#[test]
fn seek_position_from_click() {
    let track = Rect { left: 62, top: 120, right: 298, bottom: 146 };
    let dur = 2_360_000_000i64;
    assert_eq!(compute_seek_ticks(62, &track, dur), Some(0));
    assert_eq!(compute_seek_ticks(180, &track, dur), Some(1_180_000_000));
    assert_eq!(compute_seek_ticks(400, &track, dur), Some(dur));
    assert_eq!(compute_seek_ticks(0, &track, dur), Some(0));
    assert_eq!(compute_seek_ticks(180, &track, 0), Some(0));
    assert_eq!(compute_seek_ticks(298, &track, -5), Some(0));
    assert_eq!(compute_seek_ticks(180, &Rect::default(), dur), None);
    assert_eq!(compute_seek_ticks(63, &track, 7), Some(0));
}

#[test]
fn show_then_hide_animation() {
    let mut s = FlyoutState::new();
    assert!(!s.visible);
    assert_eq!(s.on_show(1000, false), Some(false));
    assert!(s.visible);
    let t = s.on_tick(1100);
    assert_eq!(t.show_ms, Some(100));
    assert!(t.still_animating && !t.completed_hide);
    let t = s.on_tick(1250);
    assert_eq!(t.show_ms, Some(ANIM_MS));
    assert!(!t.still_animating);
    assert_eq!(s.show_anim_start, None);
    assert_eq!(s.on_show(1300, false), Some(true));
    s.on_hide_animated(5000);
    assert_eq!(s.hide_anim_start, Some(5000));
    assert_eq!(s.show_anim_start, None);
    let t = s.on_tick(5199);
    assert!(t.still_animating && s.visible);
    let t = s.on_tick(5200);
    assert!(t.completed_hide && !t.still_animating);
    assert!(!s.visible);
}

#[test]
fn hide_animation_needs_a_visible_flyout() {
    let mut s = FlyoutState::new();
    s.on_hide_animated(10);
    assert_eq!(s, FlyoutState::new());
}

#[test]
fn clock_going_backwards_counts_as_no_progress() {
    let mut s = FlyoutState::new();
    s.on_show(500, false);
    let t = s.on_tick(400);
    assert_eq!(t.show_ms, Some(0));
    assert!(t.still_animating);
}

#[test]
fn hide_immediate_resets_everything() {
    let mut s = FlyoutState::new();
    s.on_show(1, false);
    s.on_seek_press(Some(5));
    s.on_hide_immediate();
    assert!(!s.visible && !s.seek_dragging);
    assert_eq!(s.show_anim_start, None);
    assert_eq!(s.last_seek_request, Some(5));
}

#[test]
fn seek_drag_hands_out_last_request_once() {
    let mut s = FlyoutState::new();
    assert_eq!(s.on_button_up(), None);
    s.on_seek_press(Some(10));
    s.on_seek_drag(None);
    s.on_seek_drag(Some(20));
    assert_eq!(s.on_button_up(), Some(20));
    assert_eq!(s.on_button_up(), None);
    assert!(!s.seek_dragging);
}

#[test]
fn compact_card_has_no_controls() {
    let hits = flyout_hit_regions(true, true);
    assert_eq!(click_action(10, 10, &hits, true, true), None);
    assert_eq!(click_action(279, 63, &hits, true, true), None);
    assert_eq!(click_action(0, 0, &hits, false, true), None);
    assert_eq!(click_action(0, 0, &hits, true, true), None);
    assert_eq!(click_action(-1, -1, &hits, true, true), None);
}

#[test]
fn greyed_out_toggles_ignore_clicks() {
    let hits = flyout_hit_regions(true, false);
    assert_eq!(click_action(190, 78, &hits, false, true), None);
    assert_eq!(click_action(334, 78, &hits, true, false), None);
    assert_eq!(click_action(190, 78, &hits, true, false), Some(ClickAction::Shuffle));
    assert_eq!(click_action(334, 78, &hits, false, true), Some(ClickAction::Repeat));
    assert_eq!(click_action(262, 78, &hits, false, false), Some(ClickAction::PlayPause));
}

#[test]
fn showing_in_fullscreen_does_nothing() {
    let mut s = FlyoutState::new();
    assert_eq!(s.on_show(1000, true), None);
    assert_eq!(s, FlyoutState::new());
    s.on_show(2000, false);
    s.on_hide_animated(3000);
    let before = s;
    assert_eq!(s.on_show(3100, true), None);
    assert_eq!(s, before);
    assert_eq!(s.hide_anim_start, Some(3000));
}

#[test]
fn overflowing_placement_wraps_around() {
    let wide = Config { anchor: Anchor::TopRight, margin_x: i32::MIN, ..Config::default() };
    assert_eq!(target_position(&wide, 1920, 1080, 360, 152), (1560i32.wrapping_sub(i32::MIN), 20));
    assert_eq!(target_position(&wide, 1920, 1080, 360, 152).0, -2147482088);
    let low = Config { anchor: Anchor::MiddleCenter, ..Config::default() };
    assert_eq!(target_position(&low, i32::MIN, 1080, 1, 152), (1073741823, 464));
    assert_eq!(offscreen_y(Anchor::TopLeft, i32::MIN + 10), i32::MAX - 29);
    assert_eq!(offscreen_y(Anchor::BottomLeft, i32::MAX), i32::MIN + 39);
    assert_eq!(hold_timer_ms(u32::MAX), ANIM_MS - 1);
}
