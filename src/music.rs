use vstd::prelude::*;

verus! {

/// The track number that marks the post-game music.
pub const POST_GAME_TRACKS: usize = 255;

/// How many in-game songs there are.
pub const SONG_COUNT: usize = 4;

/// A score above this plays the post-game music.
pub const POST_GAME_SCORE: u32 = 1000000;

/// The score that song `i` needs to be exceeded before it plays.
pub open spec fn song_threshold(i: int) -> u32 {
    if i == 0 {
        0
    } else if i == 1 {
        100000
    } else if i == 2 {
        300000
    } else {
        700000
    }
}

pub fn song_score(i: usize) -> (r: u32)
    requires
        i < SONG_COUNT,
    ensures
        r == song_threshold(i as int),
{
    if i == 0 {
        0
    } else if i == 1 {
        100000
    } else if i == 2 {
        300000
    } else {
        700000
    }
}

/// What the music player does this frame.
#[derive(Clone, Copy, Debug, PartialEq, Eq, Structural)]
pub enum TrackChange {
    /// Nothing changes.
    Keep,
    /// Fade over to in-game song `i`.
    Progress(usize),
    /// Stop the game music and play the ending song.
    Ending,
    /// The post-game song has stopped: roll a new one.
    Jukebox,
}

/// The highest song whose threshold the score exceeds, among the first `n`.
pub open spec fn best_song(score: u32, n: int) -> Option<usize>
    decreases n,
{
    if n <= 0 {
        None
    } else if song_threshold(n - 1) < score {
        Some((n - 1) as usize)
    } else {
        best_song(score, n - 1)
    }
}

/// The music decision for a score. Above `POST_GAME_SCORE` the ending song
/// replaces the game music once, and a new post-game song is rolled each
/// time one stops. Below it the player moves up to the highest song whose
/// threshold the score exceeds, and never down.
pub open spec fn track_change(score: u32, track: usize, stopped: bool) -> TrackChange {
    if score > POST_GAME_SCORE {
        if track != POST_GAME_TRACKS {
            TrackChange::Ending
        } else if stopped {
            TrackChange::Jukebox
        } else {
            TrackChange::Keep
        }
    } else {
        match best_song(score, SONG_COUNT as int) {
            Some(i) => if track < i {
                TrackChange::Progress(i)
            } else {
                TrackChange::Keep
            },
            None => TrackChange::Keep,
        }
    }
}

/// Decides the music for this frame from the score, the track playing, and
/// whether its song has stopped.
pub fn next_track(score: u32, track: usize, stopped: bool) -> (r: TrackChange)
    ensures
        r == track_change(score, track, stopped),
{
    if score > POST_GAME_SCORE {
        if track != POST_GAME_TRACKS {
            return TrackChange::Ending;
        } else if stopped {
            return TrackChange::Jukebox;
        } else {
            return TrackChange::Keep;
        }
    }
    let mut n: usize = SONG_COUNT;
    while n > 0
        invariant
            n <= SONG_COUNT,
            score <= POST_GAME_SCORE,
            best_song(score, SONG_COUNT as int) == best_song(score, n as int),
        decreases n,
    {
        if song_score(n - 1) < score {
            if track < n - 1 {
                return TrackChange::Progress(n - 1);
            } else {
                return TrackChange::Keep;
            }
        }
        n = n - 1;
    }
    TrackChange::Keep
}

} // verus!
