//! Decisions taken on media-session events: when a change of track or of
//! playback state should pop the flyout up, and how session data becomes
//! track state.

use vstd::prelude::*;
use vstd::string::*;

use crate::app::{TrackInfo, clear_thumbnail, update_track, update_playing, update_timeline};
use crate::config::Config;

verus! {

/// What the flyout remembers of the last track and playback state it saw.
pub struct MediaWatch {
    pub last_title: String,
    pub last_artist: String,
    /// `-1` before any playback state was seen, else `0` (paused) or `1`.
    pub last_playing: i8,
}

/// Whether new media properties count as a change of track worth showing:
/// the title or artist differs from the last ones, the new ones are not both
/// empty, and this is not the first track seen.
pub open spec fn track_changed(
    last_title: Seq<char>,
    last_artist: Seq<char>,
    title: Seq<char>,
    artist: Seq<char>,
) -> bool {
    &&& (last_title != title || last_artist != artist)
    &&& !(title.len() == 0 && artist.len() == 0)
    &&& !(last_title.len() == 0 && last_artist.len() == 0)
}

/// Whether a playback state counts as a change worth showing: one was seen
/// before and it differs.
pub open spec fn playing_changed(last_playing: i8, playing: bool) -> bool {
    last_playing != -1 && last_playing != (if playing {
        1i8
    } else {
        0i8
    })
}

impl MediaWatch {
    /// Nothing seen yet.
    pub fn new() -> (r: MediaWatch)
        ensures
            r.last_title@ == Seq::<char>::empty(),
            r.last_artist@ == Seq::<char>::empty(),
            r.last_playing == -1,
    {
        MediaWatch { last_title: String::new(), last_artist: String::new(), last_playing: -1 }
    }

    /// Notes the title and artist of the current track; returns whether they
    /// mark a change of track that should show the flyout.
    pub fn observe_properties(&mut self, title: &String, artist: &String) -> (changed: bool)
        ensures
            changed == track_changed(
                old(self).last_title@,
                old(self).last_artist@,
                title@,
                artist@,
            ),
            final(self).last_title@ == title@,
            final(self).last_artist@ == artist@,
            final(self).last_playing == old(self).last_playing,
    {
        let differs = !(self.last_title == *title) || !(self.last_artist == *artist);
        let both_empty = title.as_str().is_empty() && artist.as_str().is_empty();
        let changed = differs && !both_empty;
        let first_seen = self.last_title.as_str().is_empty() && self.last_artist.as_str().is_empty();
        self.last_title = title.clone();
        self.last_artist = artist.clone();
        changed && !first_seen
    }

    /// Notes the playback state; returns whether it changed since the last
    /// one seen.
    pub fn observe_playing(&mut self, playing: bool) -> (changed: bool)
        ensures
            changed == playing_changed(old(self).last_playing, playing),
            final(self).last_playing == (if playing {
                1i8
            } else {
                0i8
            }),
            final(self).last_title == old(self).last_title,
            final(self).last_artist == old(self).last_artist,
    {
        let now: i8 = if playing {
            1
        } else {
            0
        };
        let prev = self.last_playing;
        self.last_playing = now;
        prev != -1 && prev != now
    }
}

/// Whether a session event may pop the flyout up: the setting allows it and
/// there is a window to notify.
pub fn should_post_show(cfg: &Config, target: isize) -> (r: bool)
    ensures
        r == (cfg.show_on_session_change && target != 0),
{
    cfg.show_on_session_change && target != 0
}

/// The key that identifies a track's album art: `title|artist`.
pub fn thumbnail_key(title: &String, artist: &String) -> (r: String)
    ensures
        r@ == title@ + seq!['|'] + artist@,
{
    let mut key = title.clone();
    key.append("|");
    key.append(artist.as_str());
    proof {
        reveal_strlit("|");
    }
    assert(key@ =~= title@ + seq!['|'] + artist@);
    key
}

/// Length of the timeline from its start and end, never negative; in ticks.
pub fn timeline_duration(start_ticks: i64, end_ticks: i64) -> (r: i64)
    ensures
        r == if end_ticks - start_ticks <= 0 {
            0
        } else if end_ticks - start_ticks > i64::MAX {
            i64::MAX as int
        } else {
            end_ticks - start_ticks
        },
{
    let d: i128 = end_ticks as i128 - start_ticks as i128;
    if d <= 0 {
        0
    } else if d > i64::MAX as i128 {
        i64::MAX
    } else {
        d as i64
    }
}

/// The position a seek request is sent with: never before the start.
pub fn seek_request_ticks(ticks: i64) -> (r: i64)
    ensures
        r == if ticks < 0 {
            0
        } else {
            ticks as int
        },
{
    if ticks < 0 {
        0
    } else {
        ticks
    }
}

/// The track state once the player's session is gone: no art, no title or
/// artist, not playing, empty timeline.
pub fn clear_session(info: &mut TrackInfo)
    ensures
        final(info).title@ == Seq::<char>::empty(),
        final(info).artist@ == Seq::<char>::empty(),
        !final(info).playing,
        final(info).position_ticks == 0,
        final(info).duration_ticks == 0,
        !final(info).seekable,
        final(info).thumbnail_key@ == Seq::<char>::empty(),
        final(info).thumbnail_bytes@ == Seq::<u8>::empty(),
        !final(info).has_thumbnail,
        final(info).shuffle_active == old(info).shuffle_active,
        final(info).shuffle_supported == old(info).shuffle_supported,
        final(info).repeat_mode == old(info).repeat_mode,
        final(info).repeat_supported == old(info).repeat_supported,
{
    clear_thumbnail(info);
    update_track(info, String::new(), String::new());
    update_playing(info, false);
    update_timeline(info, 0, 0, false);
}

// ---------------------------------------------------------------------------
// Laws
// ---------------------------------------------------------------------------

/// After a track with a title or an artist has been seen, any different
/// title and artist that are not both empty count as a new track (a title
/// with no artist, an artist with no title, or both); the same track again,
/// an empty one, or the first one seen never do.
pub proof fn lemma_new_track_is_a_change(
    last_title: Seq<char>,
    last_artist: Seq<char>,
    title: Seq<char>,
    artist: Seq<char>,
)
    ensures
        last_title.len() + last_artist.len() > 0 && title.len() + artist.len() > 0 && (last_title
            != title || last_artist != artist) ==> track_changed(
            last_title,
            last_artist,
            title,
            artist,
        ),
        title.len() + artist.len() == 0 ==> !track_changed(last_title, last_artist, title, artist),
        last_title.len() + last_artist.len() == 0 ==> !track_changed(
            last_title,
            last_artist,
            title,
            artist,
        ),
        !track_changed(title, artist, title, artist),
{
}

/// The first track ever seen does not pop the flyout up, and seeing the same
/// track again does not either.
pub proof fn lemma_track_change_needs_a_new_track(title: Seq<char>, artist: Seq<char>)
    ensures
        !track_changed(Seq::<char>::empty(), Seq::<char>::empty(), title, artist),
        !track_changed(title, artist, title, artist),
{
}

/// The first playback state seen does not pop the flyout up, and a repeated
/// state does not either.
pub proof fn lemma_playing_change_needs_a_change(playing: bool)
    ensures
        !playing_changed(-1i8, playing),
        !playing_changed(
            if playing {
                1i8
            } else {
                0i8
            },
            playing,
        ),
{
}

} // verus!
