use flyout_lite::config::{Anchor, Config};
use flyout_lite::settings::{
    anchor_glyph, anchor_label, anchor_to_index, client_size_from, handle_char, index_to_anchor,
    pack_size, palette, unpack_size, Field,
};

#[test]
fn packed_sizes_unpack() {
    for (w, h) in [(480, 540), (1, 1), (-3, 7), (i32::MAX, i32::MIN), (0, 0)] {
        assert_eq!(unpack_size(pack_size(w, h)), (w, h));
    }
    assert_eq!(pack_size(480, 540), (480u64 << 32) | 540);
    assert_eq!(client_size_from(0), (480, 540));
    assert_eq!(client_size_from(pack_size(500, 600)), (500, 600));
}

#[test]
fn anchor_picker_positions() {
    for i in 0..10usize {
        assert_eq!(anchor_to_index(index_to_anchor(i)), i);
    }
    assert_eq!(index_to_anchor(99), Anchor::Custom);
    assert_eq!(anchor_label(4), "Middle Center");
    assert_eq!(anchor_label(7), "Bottom Center");
    assert_eq!(anchor_label(9), "Custom (X / Y)");
    assert_eq!(anchor_glyph(0), "\u{2196}");
    assert_eq!(anchor_glyph(3), "\u{2190}");
    assert_eq!(anchor_glyph(5), "\u{2192}");
    assert_eq!(anchor_glyph(9), "\u{22EF}");
    assert_eq!(anchor_glyph(12), "\u{22EF}");
}

#[test]
fn nine_distinct_anchor_positions() {
    for i in 0..9usize {
        assert_ne!(index_to_anchor(i), Anchor::Custom);
        for j in 0..9usize {
            if i != j {
                assert_ne!(index_to_anchor(i), index_to_anchor(j));
            }
        }
    }
    assert_eq!(index_to_anchor(3), Anchor::MiddleLeft);
    assert_eq!(index_to_anchor(4), Anchor::MiddleCenter);
    assert_eq!(index_to_anchor(5), Anchor::MiddleRight);
    assert_eq!(index_to_anchor(8), Anchor::BottomRight);
}

#[test]
fn palettes_differ_by_theme() {
    assert_ne!(palette(true), palette(false));
    assert_eq!(palette(false).accent, palette(false).field_focus);
}

#[test]
fn typing_into_coordinate_fields() {
    let mut c = Config::default();
    handle_char(&mut c, Field::Mx, '5' as u32);
    assert_eq!(c.margin_x, 205);
    handle_char(&mut c, Field::Mx, 8);
    assert_eq!(c.margin_x, 20);
    handle_char(&mut c, Field::Mx, 8);
    handle_char(&mut c, Field::Mx, 8);
    assert_eq!(c.margin_x, 0);
    handle_char(&mut c, Field::Mx, '7' as u32);
    assert_eq!(c.margin_x, 7);
    handle_char(&mut c, Field::Mx, 'x' as u32);
    assert_eq!(c.margin_x, 7);
    handle_char(&mut c, Field::Mx, '-' as u32);
    assert_eq!(c.margin_x, 7);
    c.custom_y = -4;
    handle_char(&mut c, Field::Cy, '2' as u32);
    assert_eq!(c.custom_y, -42);
    handle_char(&mut c, Field::Cy, 8);
    handle_char(&mut c, Field::Cy, 8);
    assert_eq!(c.custom_y, 0);
}

#[test]
fn overflowing_input_resets_to_zero() {
    let mut c = Config { custom_x: 300_000_000, ..Config::default() };
    handle_char(&mut c, Field::Cx, '0' as u32);
    assert_eq!(c.custom_x, 0);
}

#[test]
fn visible_duration_stays_in_bounds() {
    let mut c = Config::default();
    handle_char(&mut c, Field::Hold, '0' as u32);
    assert_eq!(c.hold_ms, 30_000);
    handle_char(&mut c, Field::Hold, 8);
    assert_eq!(c.hold_ms, 3_000);
    handle_char(&mut c, Field::Hold, 8);
    assert_eq!(c.hold_ms, 500);
    handle_char(&mut c, Field::Hold, 8);
    assert_eq!(c.hold_ms, 500);
}

#[test]
fn unfocused_typing_changes_nothing() {
    let mut c = Config::default();
    handle_char(&mut c, Field::Unfocused, '9' as u32);
    assert_eq!(c, Config::default());
    handle_char(&mut c, Field::My, 0xD800);
    assert_eq!(c, Config::default());
}

use flyout_lite::settings::{
    save_label, settings_click, startup_action, ClickHits, ClickOutcome, SettingsSession,
    StartupAction, SAVED_FLASH_FRAMES,
};

fn no_hits() -> ClickHits {
    ClickHits {
        in_footer: false,
        above_content: false,
        btn_preview: false,
        btn_save: false,
        btn_close: false,
        anchors: [false; 10],
        field_mx: false,
        field_my: false,
        field_cx: false,
        field_cy: false,
        field_hold: false,
        toggle_compact: false,
        toggle_session_popup: false,
        toggle_startup: false,
    }
}

#[test]
fn clicks_in_the_settings_window() {
    let mut c = Config::default();
    let mut focus = Field::Hold;
    let mut h = no_hits();
    h.anchors[8] = true;
    let r = settings_click(&mut c, &mut focus, &h);
    assert_eq!(c.anchor, Anchor::BottomRight);
    assert_eq!(focus, Field::Unfocused);
    assert!(!r.toggle_startup && !r.save);

    let mut h = no_hits();
    h.field_cy = true;
    h.toggle_compact = true;
    h.toggle_startup = true;
    h.toggle_session_popup = true;
    let r = settings_click(&mut c, &mut focus, &h);
    assert!(!c.show_on_session_change);
    assert_eq!(c.anchor, Anchor::Custom);
    assert!(c.compact);
    assert_eq!(focus, Field::Cy);
    assert!(r.toggle_startup);

    let mut h = no_hits();
    h.in_footer = true;
    h.btn_save = true;
    h.anchors[0] = true;
    let before = c;
    let r = settings_click(&mut c, &mut focus, &h);
    assert_eq!(r, ClickOutcome { preview: false, save: true, close: false, toggle_startup: false });
    assert_eq!(c, before);
    assert_eq!(focus, Field::Cy);

    let mut h = no_hits();
    h.above_content = true;
    h.field_mx = true;
    settings_click(&mut c, &mut focus, &h);
    assert_eq!(focus, Field::Cy);
}

#[test]
fn middle_cells_pick_middle_anchors() {
    let mut c = Config::default();
    let mut focus = Field::Unfocused;
    let mut h = no_hits();
    h.anchors[4] = true;
    settings_click(&mut c, &mut focus, &h);
    assert_eq!(c.anchor, Anchor::MiddleCenter);
    let mut h = no_hits();
    h.anchors[9] = true;
    settings_click(&mut c, &mut focus, &h);
    assert_eq!(c.anchor, Anchor::Custom);
}

#[test]
fn save_click_flashes_for_sixty_repaints() {
    let mut s = SettingsSession::new(Config::default(), false);
    assert_eq!(s.focus, Field::Unfocused);
    assert_eq!(s.saved_flash, 0);
    assert!(!s.paint());
    let mut h = no_hits();
    h.in_footer = true;
    h.btn_save = true;
    let r = s.click(&h);
    assert!(r.save);
    assert_eq!(s.saved_flash, SAVED_FLASH_FRAMES);
    assert_eq!(SAVED_FLASH_FRAMES, 60);
    assert!(s.paint());
    assert_eq!(s.saved_flash, 59);
    for _ in 0..59 {
        assert!(s.paint());
    }
    assert!(!s.paint());
    assert_eq!(s.saved_flash, 0);
    assert_eq!(save_label(true), "Saved");
    assert_eq!(save_label(false), "Save");
}

#[test]
fn preview_click_does_not_flash() {
    let mut s = SettingsSession::new(Config::default(), false);
    let mut h = no_hits();
    h.in_footer = true;
    h.btn_preview = true;
    let r = s.click(&h);
    assert!(r.preview && !r.save);
    assert_eq!(s.saved_flash, 0);
    assert_eq!(s.cfg, Config::default());
}

#[test]
fn startup_toggle_flips_only_on_success() {
    assert_eq!(startup_action(true), StartupAction::Disable);
    assert_eq!(startup_action(false), StartupAction::Enable);
    let mut s = SettingsSession::new(Config::default(), false);
    let mut h = no_hits();
    h.toggle_startup = true;
    let r = s.click(&h);
    assert!(r.toggle_startup);
    s.startup_result(false, true);
    assert!(s.startup_enabled);
    s.startup_result(true, false);
    assert!(s.startup_enabled);
    s.startup_result(true, true);
    assert!(!s.startup_enabled);
}

#[test]
fn session_typing_edits_the_focused_field() {
    let mut s = SettingsSession::new(Config::default(), true);
    s.type_char('5' as u32);
    assert_eq!(s.cfg, Config::default());
    let mut h = no_hits();
    h.field_cx = true;
    s.click(&h);
    assert_eq!(s.focus, Field::Cx);
    assert_eq!(s.cfg.anchor, Anchor::Custom);
    s.type_char('5' as u32);
    assert_eq!(s.cfg.custom_x, 1005);
    assert!(s.startup_enabled);
}
