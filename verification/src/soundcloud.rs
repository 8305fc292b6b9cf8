use crate::bandcamp::{enclosed, extract_enclosed};
use crate::dates::{date_by_rfc3339, date_parts, parse_rfc3339_date};
use crate::duration::{clock_text, duration_seconds_format};
use crate::error::Error;
use crate::model::{
    Album, AlbumView, Date, Location, LocationView, Track, TrackView, Tracks, Wave,
    WaveView,
};
use crate::text::{chars_of, replace, replace_chars, same_text, string_of, texts};
use vstd::prelude::*;
use vstd::string::*;

verus! {

/// Who published a sound.
#[derive(Debug)]
pub struct SoundcloudUser {
    pub username: String,
}

/// A sound, as its page describes it.
#[derive(Debug)]
pub struct SoundcloudSound {
    pub artwork_url: String,
    pub title: String,
    pub genre: String,
    pub waveform_url: String,
    pub user: SoundcloudUser,
    pub description: String,
    pub created_at: String,
    /// The length of the sound in thousandths of a second.
    pub duration: i32,
}

/// What a `SoundcloudSound` holds, as mathematical values.
pub struct SoundcloudSoundView {
    pub artwork_url: Seq<char>,
    pub title: Seq<char>,
    pub genre: Seq<char>,
    pub waveform_url: Seq<char>,
    pub username: Seq<char>,
    pub description: Seq<char>,
    pub created_at: Seq<char>,
    pub duration: int,
}

impl View for SoundcloudSound {
    type V = SoundcloudSoundView;

    open spec fn view(&self) -> SoundcloudSoundView {
        SoundcloudSoundView {
            artwork_url: self.artwork_url@,
            title: self.title@,
            genre: self.genre@,
            waveform_url: self.waveform_url@,
            username: self.user.username@,
            description: self.description@,
            created_at: self.created_at@,
            duration: self.duration as int,
        }
    }
}

/// Where the description of a sound begins in its page.
pub open spec fn hydration_open() -> Seq<char> {
    "<script>window.__sc_hydration = "@
}

/// Where the description of a sound ends in its page.
pub open spec fn hydration_close() -> Seq<char> {
    ";</script>"@
}

/// The whole seconds in a number of thousandths, rounded towards zero.
pub open spec fn whole_seconds(thousandths: int) -> int {
    if thousandths >= 0 {
        thousandths / 1000
    } else {
        -((-thousandths) / 1000)
    }
}

/// The address of the large artwork in place of the small one.
pub open spec fn large_artwork(url: Seq<char>) -> Seq<char> {
    replace(url, "-large.jpg"@, "-t500x500.jpg"@)
}

/// The one track of the album that a sound becomes.
pub open spec fn sound_track(
    url: Seq<char>,
    sound: SoundcloudSoundView,
    wave: WaveView,
) -> TrackView {
    TrackView {
        name: sound.title,
        duration: Some(clock_text(whole_seconds(sound.duration))),
        artists: None,
        artist: None,
        location: seq![LocationView { url, at: None }],
        sample: None,
        lyrics: None,
        wave: Some(wave),
    }
}

/// The album that a sound becomes, given the date that was read from its
/// page: an album of one track, at position 1, with the sound as its direct
/// source.
pub open spec fn sound_album(
    url: Seq<char>,
    sound: SoundcloudSoundView,
    wave: WaveView,
    released: Date,
) -> AlbumView {
    AlbumView {
        name: sound.title,
        artist: sound.username,
        genre: sound.genre,
        released,
        cover: large_artwork(sound.artwork_url),
        tracks: seq![("1"@, sound_track(url, sound, wave))],
        track_count: 1,
    }
}

/// The index of the first entry that describes a sound, from `from` on.
pub open spec fn sound_index_from(kinds: Seq<Seq<char>>, from: int) -> Option<int>
    decreases kinds.len() - from,
{
    if from < 0 || from >= kinds.len() {
        None
    } else if kinds[from] == "sound"@ {
        Some(from)
    } else {
        sound_index_from(kinds, from + 1)
    }
}

/// The description of a sound in its page.
pub fn soundcloud_extract_json_from_html(html: &str) -> (json: Result<String, Error>)
    ensures
        json matches Ok(text) && text@ == enclosed(html@, hydration_open(), hydration_close()),
{
    Ok(extract_enclosed(html, "<script>window.__sc_hydration = ", ";</script>"))
}

/// Among the parts of a page's description, each of a kind, the index of the
/// first that describes a sound.
pub fn soundcloud_find_sound(kinds: &Vec<String>) -> (found: Option<usize>)
    ensures
        match found {
            Some(i) => sound_index_from(texts(kinds@), 0) == Some(i as int) && i < kinds.len(),
            None => sound_index_from(texts(kinds@), 0) is None,
        },
{
    let mut i: usize = 0;
    while i < kinds.len()
        invariant
            i <= kinds.len(),
            sound_index_from(texts(kinds@), 0) == sound_index_from(texts(kinds@), i as int),
        decreases kinds.len() - i,
    {
        assert(texts(kinds@)[i as int] == kinds@[i as int]@);
        if same_text(kinds[i].as_str(), "sound") {
            return Some(i);
        }
        i += 1;
    }
    None
}

/// The album that a sound becomes, with the date on which it was made as
/// already read from its page.
pub fn sound_album_from(url: &str, sound: SoundcloudSound, wave: Wave, released: Date) -> (album:
    Album)
    ensures
        album@ == sound_album(url@, sound@, wave@, released),
{
    let ghost wanted = sound_album(url@, sound@, wave@, released);
    let small = chars_of("-large.jpg");
    let large = chars_of("-t500x500.jpg");
    let cover = string_of(&replace_chars(&chars_of(sound.artwork_url.as_str()), &small, &large));
    let thousandths: i64 = sound.duration as i64;
    let seconds: i64 = if thousandths >= 0 {
        thousandths / 1000
    } else {
        -((-thousandths) / 1000)
    };
    let duration = match duration_seconds_format(seconds as i32) {
        Ok(text) => Some(text),
        Err(_) => None,
    };
    let mut location: Vec<Location> = Vec::new();
    location.push(Location { url: String::from_str(url), at: None });
    assert(Seq::new(location@.len(), |i: int| location@[i]@) == seq![
        LocationView { url: url@, at: None },
    ]);
    let track = Track {
        name: sound.title.clone(),
        duration,
        artists: None,
        artist: None,
        location,
        sample: None,
        lyrics: None,
        wave: Some(wave),
    };
    assert(track@ == sound_track(url@, sound@, wave@));
    let mut tracks = Tracks::new();
    assert(crate::model::index_of(tracks@, "1"@) is None);
    tracks.insert(String::from_str("1"), track);
    assert(tracks@ == wanted.tracks);
    Album {
        name: sound.title,
        artist: sound.user.username,
        genre: sound.genre,
        released,
        cover,
        tracks,
        track_count: 1,
    }
}

/// The album that a sound becomes. `InvalidData` where the time at which it
/// was made does not read as one.
pub fn soundcloud_parse_sound(url: &str, sound: SoundcloudSound, wave: Wave) -> (album: Result<
    Album,
    Error,
>)
    ensures
        match date_by_rfc3339(sound@.created_at) {
            Some(parts) => album matches Ok(a) && date_parts(a.released) == parts && a@
                == sound_album(url@, sound@, wave@, a.released),
            None => album matches Err(e) && e == Error::InvalidData,
        },
{
    match parse_rfc3339_date(sound.created_at.as_str()) {
        Ok(released) => Ok(sound_album_from(url, sound, wave, released)),
        Err(_) => Err(Error::InvalidData),
    }
}

} // verus!
