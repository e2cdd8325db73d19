use flyout_lite::render::{display_title, format_time, Rgba, Theme};

#[test]
fn time_labels() {
    assert_eq!(format_time(0), "0:00");
    assert_eq!(format_time(599_999_999), "0:59");
    assert_eq!(format_time(65 * 10_000_000), "1:05");
    assert_eq!(format_time(3_725 * 10_000_000), "62:05");
    assert_eq!(format_time(-1), "-:--");
    assert_eq!(format_time(i64::MAX), "15372286728:05");
}

#[test]
fn title_placeholder() {
    assert_eq!(display_title(""), "Not Playing");
    assert_eq!(display_title("Song"), "Song");
}

#[test]
fn themes_follow_the_system() {
    assert_eq!(Theme::for_system(true), Theme::light());
    assert_eq!(Theme::for_system(false), Theme::dark());
    assert_eq!(Theme::dark().accent, Rgba { r: 0x4C, g: 0xC2, b: 0xFF, a: 0xFF });
    assert_eq!(Theme::light().bg, Rgba { r: 0xF3, g: 0xF3, b: 0xF3, a: 0xF2 });
}

use flyout_lite::render::timeline_labels;

#[test]
fn missing_timeline_shows_dashes() {
    assert_eq!(timeline_labels(0, 0), ("-:--".to_string(), "-:--".to_string()));
    assert_eq!(timeline_labels(50_000_000, -1), ("-:--".to_string(), "-:--".to_string()));
    assert_eq!(timeline_labels(50_000_000, 1_800_000_000), ("0:05".to_string(), "3:00".to_string()));
}

use flyout_lite::app::RepeatMode;
use flyout_lite::render::{play_pause_glyph, repeat_button_color, repeat_glyph, shuffle_glyph, toggle_button_color, AlbumCache};

#[test]
fn button_glyphs() {
    assert_eq!(play_pause_glyph(true), "\u{E769}");
    assert_eq!(play_pause_glyph(false), "\u{E768}");
    assert_eq!(shuffle_glyph(), "\u{E8B1}");
    assert_eq!(repeat_glyph(RepeatMode::Track), "\u{E8ED}");
    assert_eq!(repeat_glyph(RepeatMode::List), "\u{E8EE}");
    assert_eq!(repeat_glyph(RepeatMode::Off), "\u{E8EE}");
}

#[test]
fn toggle_buttons_grey_out_when_unsupported() {
    let t = Theme::dark();
    assert_eq!(toggle_button_color(&t, false, true), t.stroke);
    assert_eq!(toggle_button_color(&t, false, false), t.stroke);
    assert_eq!(toggle_button_color(&t, true, true), t.accent);
    assert_eq!(toggle_button_color(&t, true, false), t.text);
    let l = Theme::light();
    assert_eq!(repeat_button_color(&l, true, RepeatMode::Off), l.text);
    assert_eq!(repeat_button_color(&l, true, RepeatMode::List), l.accent);
    assert_eq!(repeat_button_color(&l, true, RepeatMode::Track), l.accent);
    assert_eq!(repeat_button_color(&l, false, RepeatMode::Track), l.stroke);
}

#[test]
fn album_art_is_decoded_once_per_track() {
    let mut c = AlbumCache::new();
    assert!(c.needs_decode("a"));
    c.record_decode("a", false);
    assert!(c.needs_decode("a"));
    c.record_decode("a", true);
    assert!(!c.needs_decode("a"));
    assert!(c.needs_decode("b"));
    c.record_decode("b", false);
    assert!(!c.needs_decode("a"));
    c.clear();
    assert!(c.needs_decode("a"));
}
