use crate::duration::{
    clock_text, duration_seconds, duration_seconds_format, duration_seconds_parse, get_next_str,
    next_position,
};
use crate::error::Error;
use crate::model::{track_at, Album, AlbumView, LocationView, Track, TrackView};
use vstd::prelude::*;
use vstd::string::*;

verus! {

/// A result that holds a string, as the text it holds.
pub open spec fn result_text(r: Result<String, Error>) -> Result<Seq<char>, Error> {
    match r {
        Ok(s) => Ok(s@),
        Err(e) => Err(e),
    }
}

/// The start timestamp of the first location, from index `from` on, that has
/// one.
pub open spec fn first_start_from(locations: Seq<LocationView>, from: int) -> Option<Seq<char>>
    decreases locations.len() - from,
{
    if from < 0 || from >= locations.len() {
        None
    } else {
        match locations[from].at {
            Some(at) => Some(at),
            None => first_start_from(locations, from + 1),
        }
    }
}

/// Where a track starts in the shared full recording: the start timestamp of
/// its first location that has one. Without such a location the data is
/// invalid.
pub open spec fn start_time(track: TrackView) -> Result<Seq<char>, Error> {
    match first_start_from(track.location, 0) {
        Some(at) => Ok(at),
        None => Err(Error::InvalidData),
    }
}

/// Where the track after `position` starts. `InvalidData` where `position`
/// is no position or that track has no start timestamp, `NotFound` where the
/// album has no such track.
pub open spec fn next_track_time(album: AlbumView, position: Seq<char>) -> Result<
    Seq<char>,
    Error,
> {
    match next_position(position) {
        None => Err(Error::InvalidData),
        Some(next) => match track_at(album.tracks, next) {
            None => Err(Error::NotFound),
            Some(track) => start_time(track),
        },
    }
}

/// Where a track that declares its duration ends: its start plus the
/// duration, as duration text. `InvalidData` where the track has no start
/// timestamp, where start or duration is no duration, and where the sum is
/// no 32-bit number.
pub open spec fn end_by_duration(track: TrackView, duration: Seq<char>) -> Result<
    Seq<char>,
    Error,
> {
    match start_time(track) {
        Err(e) => Err(e),
        Ok(start) => match (duration_seconds(start), duration_seconds(duration)) {
            (Some(a), Some(b)) => if i32::MIN <= a + b <= i32::MAX {
                Ok(clock_text(a + b))
            } else {
                Err(Error::InvalidData)
            },
            _ => Err(Error::InvalidData),
        },
    }
}

/// Where the slice of a track ends in the shared full recording: by its own
/// duration where it declares one, else where the next track starts.
pub open spec fn end_time(album: AlbumView, track: TrackView, position: Seq<char>) -> Result<
    Seq<char>,
    Error,
> {
    match track.duration {
        Some(duration) => end_by_duration(track, duration),
        None => next_track_time(album, position),
    }
}

/// The start timestamp of the first location of `track` that has one.
pub fn get_track_start_time(track: &Track) -> (start: Result<String, Error>)
    ensures
        result_text(start) == start_time(track@),
{
    let mut i: usize = 0;
    while i < track.location.len()
        invariant
            i <= track.location.len(),
            first_start_from(track@.location, 0) == first_start_from(track@.location, i as int),
        decreases track.location.len() - i,
    {
        assert(track@.location[i as int] == track.location@[i as int]@);
        match &track.location[i].at {
            Some(at) => {
                return Ok(at.clone());
            },
            None => {},
        }
        i += 1;
    }
    Err(Error::InvalidData)
}

/// Where the track after position `track_pos_str` starts.
pub fn get_next_track_time(album: &Album, track_pos_str: &str) -> (start: Result<String, Error>)
    ensures
        result_text(start) == next_track_time(album@, track_pos_str@),
{
    let next_pos = match get_next_str(track_pos_str) {
        Ok(next_pos) => next_pos,
        Err(_) => {
            return Err(Error::InvalidData);
        },
    };
    match album.tracks.get(next_pos.as_str()) {
        Some(track) => get_track_start_time(track),
        None => Err(Error::NotFound),
    }
}

/// Where the slice of `track` ends in the shared full recording.
pub fn get_end_time(album: &Album, track: &Track, track_pos_str: &str) -> (end: Result<
    String,
    Error,
>)
    ensures
        result_text(end) == end_time(album@, track@, track_pos_str@),
{
    match &track.duration {
        Some(duration) => {
            let start_formatted = match get_track_start_time(track) {
                Ok(start) => start,
                Err(e) => {
                    return Err(e);
                },
            };
            let start = duration_seconds_parse(start_formatted.as_str());
            let length = duration_seconds_parse(duration.as_str());
            match (start, length) {
                (Ok(a), Ok(b)) => {
                    let end: i64 = a as i64 + b as i64;
                    if end < -2_147_483_648 || end > 2_147_483_647 {
                        Err(Error::InvalidData)
                    } else {
                        duration_seconds_format(end as i32)
                    }
                },
                _ => Err(Error::InvalidData),
            }
        },
        None => get_next_track_time(album, track_pos_str),
    }
}

/// A track that declares its duration ends that long after its start,
/// whatever the album holds.
pub proof fn law_end_by_duration(
    album: AlbumView,
    track: TrackView,
    position: Seq<char>,
    start: Seq<char>,
    duration: Seq<char>,
    start_seconds: int,
    duration_seconds_: int,
)
    requires
        track.duration == Some(duration),
        start_time(track) == Ok::<Seq<char>, Error>(start),
        duration_seconds(start) == Some(start_seconds),
        duration_seconds(duration) == Some(duration_seconds_),
        i32::MIN <= start_seconds + duration_seconds_ <= i32::MAX,
    ensures
        end_time(album, track, position) == Ok::<Seq<char>, Error>(
            clock_text(start_seconds + duration_seconds_),
        ),
{
}

/// A track that declares no duration ends where the next track starts; and
/// where the album has no next track, no end can be computed.
pub proof fn law_end_by_next_track(
    album: AlbumView,
    track: TrackView,
    position: Seq<char>,
    next: Seq<char>,
)
    requires
        track.duration is None,
        next_position(position) == Some(next),
    ensures
        match track_at(album.tracks, next) {
            Some(following) => end_time(album, track, position) == start_time(following),
            None => end_time(album, track, position) == Err::<Seq<char>, Error>(Error::NotFound),
        },
{
}

} // verus!
