use flyout_lite::app::{update_repeat, update_thumbnail, update_track, RepeatMode, TrackInfo};
use flyout_lite::config::Config;
use flyout_lite::media::{
    clear_session, seek_request_ticks, should_post_show, thumbnail_key, timeline_duration,
    MediaWatch,
};

fn s(x: &str) -> String {
    x.to_string()
}

#[test]
fn first_track_does_not_pop_up() {
    let mut w = MediaWatch::new();
    assert!(!w.observe_properties(&s("Song"), &s("Band")));
    assert!(!w.observe_properties(&s("Song"), &s("Band")));
    assert!(w.observe_properties(&s("Other"), &s("Band")));
    assert!(w.observe_properties(&s("Other"), &s("Group")));
    assert!(!w.observe_properties(&s(""), &s("")));
    assert!(!w.observe_properties(&s("Next"), &s("One")));
    assert_eq!(w.last_title, "Next");
}

#[test]
fn playback_changes_after_the_first() {
    let mut w = MediaWatch::new();
    assert!(!w.observe_playing(true));
    assert!(!w.observe_playing(true));
    assert!(w.observe_playing(false));
    assert!(w.observe_playing(true));
    assert_eq!(w.last_playing, 1);
}

#[test]
fn popping_up_needs_the_setting_and_a_window() {
    let on = Config::default();
    let off = Config { show_on_session_change: false, ..Config::default() };
    assert!(should_post_show(&on, 42));
    assert!(!should_post_show(&on, 0));
    assert!(!should_post_show(&off, 42));
}

#[test]
fn thumbnail_key_joins_title_and_artist() {
    assert_eq!(thumbnail_key(&s("Song"), &s("Band")), "Song|Band");
    assert_eq!(thumbnail_key(&s(""), &s("")), "|");
}

#[test]
fn timeline_duration_is_never_negative() {
    assert_eq!(timeline_duration(0, 1_800_000_000), 1_800_000_000);
    assert_eq!(timeline_duration(500, 100), 0);
    assert_eq!(timeline_duration(i64::MIN, i64::MAX), i64::MAX);
}

#[test]
fn seek_requests_start_at_zero() {
    assert_eq!(seek_request_ticks(-5), 0);
    assert_eq!(seek_request_ticks(123), 123);
}

#[test]
fn ended_session_clears_track() {
    let mut t = TrackInfo::default();
    update_track(&mut t, s("A"), s("B"));
    update_thumbnail(&mut t, s("A|B"), vec![1]);
    update_repeat(&mut t, RepeatMode::Track, true);
    clear_session(&mut t);
    assert!(t.title.is_empty() && t.artist.is_empty() && !t.has_thumbnail);
    assert_eq!((t.position_ticks, t.duration_ticks, t.seekable, t.playing), (0, 0, false, false));
    assert_eq!(t.repeat_mode, RepeatMode::Track);
}
