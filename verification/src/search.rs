use crate::model::{AlbumView, Library, LocationView, Track, TrackView};
use crate::text::{chars_of, occurs, occurs_in};
use vstd::prelude::*;

verus! {

/// Whether one of the locations from index `from` on has `needle` in its
/// address.
pub open spec fn located_at_from(locations: Seq<LocationView>, needle: Seq<char>, from: int) -> bool
    decreases locations.len() - from,
{
    if from < 0 || from >= locations.len() {
        false
    } else {
        occurs_in(locations[from].url, needle) || located_at_from(locations, needle, from + 1)
    }
}

/// Whether the track is by one artist alone, as far as it says, and has
/// `needle` in the address of one of its sources.
pub open spec fn track_points_to(track: TrackView, needle: Seq<char>) -> bool {
    (match track.artists {
        Some(artists) => artists.len() == 1,
        None => true,
    }) && located_at_from(track.location, needle, 0)
}

/// Whether one of the tracks from index `from` on points to `needle`.
pub open spec fn album_points_to_from(
    tracks: Seq<(Seq<char>, TrackView)>,
    needle: Seq<char>,
    from: int,
) -> bool
    decreases tracks.len() - from,
{
    if from < 0 || from >= tracks.len() {
        false
    } else {
        track_points_to(tracks[from].1, needle) || album_points_to_from(tracks, needle, from + 1)
    }
}

/// The index of the first album, from index `from` on, of which a track
/// points to `needle`.
pub open spec fn first_album_from(albums: Seq<AlbumView>, needle: Seq<char>, from: int) -> Option<
    int,
>
    decreases albums.len() - from,
{
    if from < 0 || from >= albums.len() {
        None
    } else if album_points_to_from(albums[from].tracks, needle, 0) {
        Some(from)
    } else {
        first_album_from(albums, needle, from + 1)
    }
}

/// Whether the track is by one artist alone, as far as it says, and has
/// `needle` in the address of one of its sources.
pub fn track_matches(track: &Track, needle: &Vec<char>) -> (yes: bool)
    ensures
        yes == track_points_to(track@, needle@),
{
    let alone = match &track.artists {
        Some(artists) => artists.len() == 1,
        None => true,
    };
    if !alone {
        return false;
    }
    let mut i: usize = 0;
    while i < track.location.len()
        invariant
            i <= track.location.len(),
            match track@.artists {
                Some(artists) => artists.len() == 1,
                None => true,
            },
            located_at_from(track@.location, needle@, 0) == located_at_from(
                track@.location,
                needle@,
                i as int,
            ),
        decreases track.location.len() - i,
    {
        assert(track@.location[i as int] == track.location@[i as int]@);
        let url = chars_of(track.location[i].url.as_str());
        if occurs(&url, needle) {
            return true;
        }
        i += 1;
    }
    false
}

/// The index of the first album of the library with a track that is by one
/// artist alone and has `artist` in the address of one of its sources.
pub fn find_album_of_artist(library: &Library, artist: &str) -> (found: Option<usize>)
    ensures
        match found {
            Some(i) => first_album_from(library@, artist@, 0) == Some(i as int) && i
                < library.albums.len(),
            None => first_album_from(library@, artist@, 0) is None,
        },
{
    let needle = chars_of(artist);
    let mut a: usize = 0;
    while a < library.albums.len()
        invariant
            a <= library.albums.len(),
            needle@ == artist@,
            first_album_from(library@, artist@, 0) == first_album_from(
                library@,
                artist@,
                a as int,
            ),
        decreases library.albums.len() - a,
    {
        let album = &library.albums[a];
        assert(library@[a as int] == album@);
        let count: usize = album.tracks.len();
        let mut t: usize = 0;
        let mut hit = false;
        while t < count && !hit
            invariant
                t <= count,
                count == album@.tracks.len(),
                needle@ == artist@,
                hit ==> album_points_to_from(album@.tracks, artist@, 0),
                !hit ==> album_points_to_from(album@.tracks, artist@, 0) == album_points_to_from(
                    album@.tracks,
                    artist@,
                    t as int,
                ),
            decreases count - t + if hit { 0int } else { 1int },
        {
            if track_matches(album.tracks.track(t), &needle) {
                hit = true;
            } else {
                t += 1;
            }
        }
        if hit {
            return Some(a);
        }
        a += 1;
    }
    None
}

} // verus!
