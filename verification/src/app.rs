//! The state of the current media track as the flyout shows it.

use vstd::prelude::*;

verus! {

/// How the active player repeats.
#[derive(Clone, Copy, Debug, PartialEq, Eq, Structural)]
pub enum RepeatMode {
    Off,
    Track,
    List,
}

impl Default for RepeatMode {
    fn default() -> (r: Self)
        ensures
            r == RepeatMode::Off,
    {
        RepeatMode::Off
    }
}

/// What the flyout knows about the current track. Positions and durations
/// are in 100-nanosecond ticks, the unit the media session reports.
#[derive(Debug)]
pub struct TrackInfo {
    pub title: String,
    pub artist: String,
    pub playing: bool,
    pub position_ticks: i64,
    pub duration_ticks: i64,
    pub thumbnail_key: String,
    pub thumbnail_bytes: Vec<u8>,
    pub has_thumbnail: bool,
    pub seekable: bool,
    pub shuffle_active: bool,
    pub shuffle_supported: bool,
    pub repeat_mode: RepeatMode,
    pub repeat_supported: bool,
}

/// The thumbnail flag agrees with the thumbnail bytes.
pub open spec fn track_wf(t: &TrackInfo) -> bool {
    t.has_thumbnail == (t.thumbnail_bytes@.len() > 0)
}

/// Two track states hold the same values.
pub open spec fn same_track(a: &TrackInfo, b: &TrackInfo) -> bool {
    &&& a.title@ == b.title@
    &&& a.artist@ == b.artist@
    &&& a.playing == b.playing
    &&& a.position_ticks == b.position_ticks
    &&& a.duration_ticks == b.duration_ticks
    &&& a.thumbnail_key@ == b.thumbnail_key@
    &&& a.thumbnail_bytes@ == b.thumbnail_bytes@
    &&& a.has_thumbnail == b.has_thumbnail
    &&& a.seekable == b.seekable
    &&& a.shuffle_active == b.shuffle_active
    &&& a.shuffle_supported == b.shuffle_supported
    &&& a.repeat_mode == b.repeat_mode
    &&& a.repeat_supported == b.repeat_supported
}

/// The state before anything is known: nothing playing, nothing supported.
pub open spec fn empty_track(t: &TrackInfo) -> bool {
    &&& t.title@ == Seq::<char>::empty()
    &&& t.artist@ == Seq::<char>::empty()
    &&& !t.playing
    &&& t.position_ticks == 0
    &&& t.duration_ticks == 0
    &&& t.thumbnail_key@ == Seq::<char>::empty()
    &&& t.thumbnail_bytes@ == Seq::<u8>::empty()
    &&& !t.has_thumbnail
    &&& !t.seekable
    &&& !t.shuffle_active
    &&& !t.shuffle_supported
    &&& t.repeat_mode == RepeatMode::Off
    &&& !t.repeat_supported
}

/// `b` is `a` after one of the recorded updates: new title and artist; new
/// playing state; new timeline; new album art; the album art forgotten; new
/// shuffle state; new repeat state.
pub open spec fn track_step(a: TrackInfo, b: TrackInfo) -> bool {
    ||| b == TrackInfo { title: b.title, artist: b.artist, ..a }
    ||| b == TrackInfo { playing: b.playing, ..a }
    ||| b == TrackInfo {
        position_ticks: b.position_ticks,
        duration_ticks: b.duration_ticks,
        seekable: b.seekable,
        ..a
    }
    ||| b == TrackInfo {
        thumbnail_key: b.thumbnail_key,
        thumbnail_bytes: b.thumbnail_bytes,
        has_thumbnail: b.thumbnail_bytes@.len() > 0,
        ..a
    }
    ||| (b == TrackInfo {
        thumbnail_key: b.thumbnail_key,
        thumbnail_bytes: b.thumbnail_bytes,
        has_thumbnail: false,
        ..a
    } && b.thumbnail_key@.len() == 0 && b.thumbnail_bytes@.len() == 0)
    ||| b == TrackInfo {
        shuffle_active: b.shuffle_active,
        shuffle_supported: b.shuffle_supported,
        ..a
    }
    ||| b == TrackInfo { repeat_mode: b.repeat_mode, repeat_supported: b.repeat_supported, ..a }
}

impl Default for TrackInfo {
    fn default() -> (r: Self)
        ensures
            empty_track(&r),
            track_wf(&r),
    {
        TrackInfo {
            title: String::new(),
            artist: String::new(),
            playing: false,
            position_ticks: 0,
            duration_ticks: 0,
            thumbnail_key: String::new(),
            thumbnail_bytes: Vec::new(),
            has_thumbnail: false,
            seekable: false,
            shuffle_active: false,
            shuffle_supported: false,
            repeat_mode: RepeatMode::Off,
            repeat_supported: false,
        }
    }
}

/// Records the title and artist of the current track.
pub fn update_track(info: &mut TrackInfo, title: String, artist: String)
    ensures
        track_step(*old(info), *final(info)),
        track_wf(&*old(info)) ==> track_wf(&*final(info)),
        *final(info) == (TrackInfo { title: title, artist: artist, ..*old(info) }),
{
    info.title = title;
    info.artist = artist;
}

/// Records whether the player is playing.
pub fn update_playing(info: &mut TrackInfo, playing: bool)
    ensures
        track_step(*old(info), *final(info)),
        track_wf(&*old(info)) ==> track_wf(&*final(info)),
        *final(info) == (TrackInfo { playing: playing, ..*old(info) }),
{
    info.playing = playing;
}

/// Records the playback position, the duration and whether seeking is
/// possible.
pub fn update_timeline(info: &mut TrackInfo, position_ticks: i64, duration_ticks: i64, seekable: bool)
    ensures
        track_step(*old(info), *final(info)),
        track_wf(&*old(info)) ==> track_wf(&*final(info)),
        *final(info) == (TrackInfo {
            position_ticks: position_ticks,
            duration_ticks: duration_ticks,
            seekable: seekable,
            ..*old(info)
        }),
{
    info.position_ticks = position_ticks;
    info.duration_ticks = duration_ticks;
    info.seekable = seekable;
}

/// Records the album art (`key` names the track it belongs to); the
/// thumbnail counts as present exactly when `bytes` is non-empty.
pub fn update_thumbnail(info: &mut TrackInfo, key: String, bytes: Vec<u8>)
    ensures
        track_step(*old(info), *final(info)),
        track_wf(&*final(info)),
        *final(info) == (TrackInfo {
            thumbnail_key: key,
            thumbnail_bytes: bytes,
            has_thumbnail: bytes@.len() > 0,
            ..*old(info)
        }),
{
    info.thumbnail_key = key;
    info.thumbnail_bytes = bytes;
    info.has_thumbnail = info.thumbnail_bytes.len() > 0;
}

/// Forgets the album art.
pub fn clear_thumbnail(info: &mut TrackInfo)
    ensures
        track_step(*old(info), *final(info)),
        track_wf(&*final(info)),
        final(info).thumbnail_key@ == Seq::<char>::empty(),
        final(info).thumbnail_bytes@ == Seq::<u8>::empty(),
        !final(info).has_thumbnail,
        final(info).title == old(info).title,
        final(info).artist == old(info).artist,
        final(info).playing == old(info).playing,
        final(info).position_ticks == old(info).position_ticks,
        final(info).duration_ticks == old(info).duration_ticks,
        final(info).seekable == old(info).seekable,
        final(info).shuffle_active == old(info).shuffle_active,
        final(info).shuffle_supported == old(info).shuffle_supported,
        final(info).repeat_mode == old(info).repeat_mode,
        final(info).repeat_supported == old(info).repeat_supported,
{
    info.thumbnail_key = String::new();
    info.thumbnail_bytes.clear();
    info.has_thumbnail = false;
}

/// Records whether shuffle is on and whether the player supports it.
pub fn update_shuffle(info: &mut TrackInfo, active: bool, supported: bool)
    ensures
        track_step(*old(info), *final(info)),
        track_wf(&*old(info)) ==> track_wf(&*final(info)),
        *final(info) == (TrackInfo {
            shuffle_active: active,
            shuffle_supported: supported,
            ..*old(info)
        }),
{
    info.shuffle_active = active;
    info.shuffle_supported = supported;
}

/// Records the repeat mode and whether the player supports repeating.
pub fn update_repeat(info: &mut TrackInfo, mode: RepeatMode, supported: bool)
    ensures
        track_step(*old(info), *final(info)),
        track_wf(&*old(info)) ==> track_wf(&*final(info)),
        *final(info) == (TrackInfo { repeat_mode: mode, repeat_supported: supported, ..*old(info) }),
{
    info.repeat_mode = mode;
    info.repeat_supported = supported;
}

/// A copy of the track state.
pub fn snapshot(info: &TrackInfo) -> (r: TrackInfo)
    ensures
        same_track(&r, info),
        track_wf(info) ==> track_wf(&r),
{
    let bytes = info.thumbnail_bytes.clone();
    assert(bytes@ =~= info.thumbnail_bytes@);
    TrackInfo {
        title: info.title.clone(),
        artist: info.artist.clone(),
        playing: info.playing,
        position_ticks: info.position_ticks,
        duration_ticks: info.duration_ticks,
        thumbnail_key: info.thumbnail_key.clone(),
        thumbnail_bytes: bytes,
        has_thumbnail: info.has_thumbnail,
        seekable: info.seekable,
        shuffle_active: info.shuffle_active,
        shuffle_supported: info.shuffle_supported,
        repeat_mode: info.repeat_mode,
        repeat_supported: info.repeat_supported,
    }
}

/// Whatever sequence of updates has been recorded since a state whose
/// thumbnail flag agreed with its bytes (such as the empty state), the flag
/// still agrees with the bytes.
pub proof fn lemma_thumbnail_flag_kept(states: Seq<TrackInfo>)
    requires
        states.len() > 0,
        track_wf(&states[0]),
        forall|i: int| 0 <= i < states.len() - 1 ==> track_step(#[trigger] states[i], states[i + 1]),
    ensures
        forall|i: int| 0 <= i < states.len() ==> track_wf(&#[trigger] states[i]),
    decreases states.len(),
{
    if states.len() > 1 {
        let prefix = states.drop_last();
        assert forall|i: int| 0 <= i < prefix.len() - 1 implies track_step(
            #[trigger] prefix[i],
            prefix[i + 1],
        ) by {
            assert(track_step(states[i], states[i + 1]));
        }
        lemma_thumbnail_flag_kept(prefix);
        let n = states.len() - 1;
        assert(track_wf(&prefix[n - 1]));
        assert(track_step(states[n - 1], states[n]));
        assert forall|i: int| 0 <= i < states.len() implies track_wf(&#[trigger] states[i]) by {
            if i < n {
                assert(track_wf(&prefix[i]));
            }
        }
    }
}

/// The mode a "cycle repeat" request asks for: off, then the whole list,
/// then the single track, then off again.
pub fn next_repeat_mode(mode: RepeatMode) -> (r: RepeatMode)
    ensures
        r == spec_next_repeat_mode(mode),
{
    match mode {
        RepeatMode::Off => RepeatMode::List,
        RepeatMode::List => RepeatMode::Track,
        RepeatMode::Track => RepeatMode::Off,
    }
}

pub open spec fn spec_next_repeat_mode(mode: RepeatMode) -> RepeatMode {
    match mode {
        RepeatMode::Off => RepeatMode::List,
        RepeatMode::List => RepeatMode::Track,
        RepeatMode::Track => RepeatMode::Off,
    }
}

/// Cycling the repeat mode three times comes back to where it started, and
/// every mode is reached on the way.
pub proof fn lemma_repeat_cycle(mode: RepeatMode)
    ensures
        spec_next_repeat_mode(spec_next_repeat_mode(spec_next_repeat_mode(mode))) == mode,
        spec_next_repeat_mode(mode) != mode,
{
}

} // verus!
