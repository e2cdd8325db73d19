use flyout_lite::app::{
    clear_thumbnail, next_repeat_mode, snapshot, update_playing, update_repeat, update_shuffle,
    update_thumbnail, update_timeline, update_track, RepeatMode, TrackInfo,
};

#[test]
fn fresh_track_state_is_empty() {
    let t = TrackInfo::default();
    assert!(t.title.is_empty() && t.artist.is_empty());
    assert!(!t.playing && !t.has_thumbnail && !t.seekable);
    assert_eq!(t.repeat_mode, RepeatMode::Off);
    assert_eq!(RepeatMode::default(), RepeatMode::Off);
}

#[test]
fn updates_touch_only_their_fields() {
    let mut t = TrackInfo::default();
    update_track(&mut t, "Song".to_string(), "Band".to_string());
    update_playing(&mut t, true);
    update_timeline(&mut t, 5_000_000, 1_800_000_000, true);
    update_shuffle(&mut t, true, false);
    update_repeat(&mut t, RepeatMode::List, true);
    assert_eq!(t.title, "Song");
    assert_eq!(t.artist, "Band");
    assert!(t.playing);
    assert_eq!(t.position_ticks, 5_000_000);
    assert_eq!(t.duration_ticks, 1_800_000_000);
    assert!(t.seekable);
    assert!(t.shuffle_active && !t.shuffle_supported);
    assert_eq!(t.repeat_mode, RepeatMode::List);
    assert!(t.repeat_supported);
    assert!(!t.has_thumbnail);
}

#[test]
fn thumbnail_flag_follows_bytes() {
    let mut t = TrackInfo::default();
    update_thumbnail(&mut t, "Song|Band".to_string(), vec![1, 2, 3]);
    assert!(t.has_thumbnail);
    assert_eq!(t.thumbnail_key, "Song|Band");
    update_thumbnail(&mut t, "x".to_string(), Vec::new());
    assert!(!t.has_thumbnail);
    update_thumbnail(&mut t, "y".to_string(), vec![9]);
    clear_thumbnail(&mut t);
    assert!(!t.has_thumbnail);
    assert!(t.thumbnail_key.is_empty());
    assert!(t.thumbnail_bytes.is_empty());
}

#[test]
fn snapshot_copies_everything() {
    let mut t = TrackInfo::default();
    update_track(&mut t, "A".to_string(), "B".to_string());
    update_thumbnail(&mut t, "A|B".to_string(), vec![7, 8]);
    update_timeline(&mut t, 1, 2, true);
    let s = snapshot(&t);
    assert_eq!(s.title, t.title);
    assert_eq!(s.artist, t.artist);
    assert_eq!(s.thumbnail_bytes, vec![7, 8]);
    assert_eq!(s.thumbnail_key, "A|B");
    assert!(s.has_thumbnail);
    assert_eq!((s.position_ticks, s.duration_ticks, s.seekable), (1, 2, true));
}

#[test]
fn repeat_mode_cycles_off_list_track() {
    assert_eq!(next_repeat_mode(RepeatMode::Off), RepeatMode::List);
    assert_eq!(next_repeat_mode(RepeatMode::List), RepeatMode::Track);
    assert_eq!(next_repeat_mode(RepeatMode::Track), RepeatMode::Off);
    for m in [RepeatMode::Off, RepeatMode::List, RepeatMode::Track] {
        assert_eq!(next_repeat_mode(next_repeat_mode(next_repeat_mode(m))), m);
    }
}

#[test]
fn thumbnail_flag_agrees_after_any_updates() {
    let mut t = TrackInfo::default();
    let check = |t: &TrackInfo| {
        let s = snapshot(t);
        assert_eq!(s.has_thumbnail, !s.thumbnail_bytes.is_empty());
    };
    check(&t);
    update_thumbnail(&mut t, "k".to_string(), vec![1]);
    check(&t);
    update_playing(&mut t, true);
    check(&t);
    update_shuffle(&mut t, true, true);
    check(&t);
    clear_thumbnail(&mut t);
    check(&t);
    update_repeat(&mut t, RepeatMode::Track, true);
    check(&t);
    update_thumbnail(&mut t, "k2".to_string(), Vec::new());
    check(&t);
    update_track(&mut t, "T".to_string(), "A".to_string());
    update_timeline(&mut t, 3, 4, false);
    check(&t);
}
