use crate::error::Error;
use crate::model::{
    optional_text, Album, AlbumView, Sample, SampleView, Track, TrackArtistView, TrackView,
};
use crate::naming::get_track_title;
use crate::number::{read_integer, u32_value};
use crate::text::{chars_of, join, join_chars, rows, string_of};
use vstd::prelude::*;
use vstd::string::*;

verus! {

/// What is written into the tag container of one audio file.
#[derive(Clone, Debug)]
pub struct TagRecord {
    pub title: String,
    pub album: String,
    pub album_artist: String,
    pub artist: String,
    pub track: u32,
    pub total_tracks: u32,
    pub genre: String,
    pub year: i32,
    /// The credits of the samples; absent where the track has none.
    pub comment: Option<String>,
    pub lyrics: Option<String>,
    /// The cover image; absent where there are no bytes of one.
    pub cover: Option<Vec<u8>>,
}

/// What a `TagRecord` holds, as mathematical values.
pub struct TagRecordView {
    pub title: Seq<char>,
    pub album: Seq<char>,
    pub album_artist: Seq<char>,
    pub artist: Seq<char>,
    pub track: int,
    pub total_tracks: int,
    pub genre: Seq<char>,
    pub year: int,
    pub comment: Option<Seq<char>>,
    pub lyrics: Option<Seq<char>>,
    pub cover: Option<Seq<u8>>,
}

impl View for TagRecord {
    type V = TagRecordView;

    open spec fn view(&self) -> TagRecordView {
        TagRecordView {
            title: self.title@,
            album: self.album@,
            album_artist: self.album_artist@,
            artist: self.artist@,
            track: self.track as int,
            total_tracks: self.total_tracks as int,
            genre: self.genre@,
            year: self.year as int,
            comment: optional_text(self.comment),
            lyrics: optional_text(self.lyrics),
            cover: match self.cover {
                Some(bytes) => Some(bytes@),
                None => None,
            },
        }
    }
}

/// The label under which a sample of the given kind is credited. Every kind
/// has the same label so far.
pub open spec fn sample_label(kind: Seq<char>) -> Seq<char> {
    "SAMPLE"@
}

/// The credit of one sample: `<label>: <artist>, <name>`.
pub open spec fn sample_line(sample: SampleView) -> Seq<char> {
    sample_label(sample.kind) + ": "@ + sample.artist + ", "@ + sample.name
}

/// The credits of the samples, one line each.
pub open spec fn sample_lines(samples: Seq<SampleView>) -> Seq<Seq<char>> {
    Seq::new(samples.len(), |i: int| sample_line(samples[i]))
}

/// The comment of a track: the credits of its samples, line by line; empty
/// where it has none.
pub open spec fn comment_text(track: TrackView) -> Seq<char> {
    match track.sample {
        Some(samples) => join(sample_lines(samples), "\n"@),
        None => Seq::empty(),
    }
}

/// The identifiers of the artists, in order.
pub open spec fn artist_ids(artists: Seq<TrackArtistView>) -> Seq<Seq<char>> {
    Seq::new(artists.len(), |i: int| artists[i].id)
}

/// The artist of a track: its own credited artists, joined by a comma and a
/// space, where it names any; else the artist of the album.
pub open spec fn artist_text(album: AlbumView, track: TrackView) -> Seq<char> {
    match track.artists {
        Some(artists) => join(artist_ids(artists), ", "@),
        None => album.artist,
    }
}

/// The record for a track at `position` of `album`, with the bytes of the
/// cover image. `InvalidData` where the position is no unsigned 32-bit
/// number, or where the album declares a negative number of tracks.
pub open spec fn tag_record(
    album: AlbumView,
    track: TrackView,
    position: Seq<char>,
    cover: Seq<u8>,
) -> Result<TagRecordView, Error> {
    match u32_value(position) {
        None => Err(Error::InvalidData),
        Some(number) => if album.track_count < 0 {
            Err(Error::InvalidData)
        } else {
            Ok(
                TagRecordView {
                    title: track.name,
                    album: album.name,
                    album_artist: album.artist,
                    artist: artist_text(album, track),
                    track: number,
                    total_tracks: album.track_count,
                    genre: album.genre,
                    year: album.released.year as int,
                    comment: if comment_text(track).len() == 0 {
                        None
                    } else {
                        Some(comment_text(track))
                    },
                    lyrics: track.lyrics,
                    cover: if cover.len() == 0 {
                        None
                    } else {
                        Some(cover)
                    },
                },
            )
        },
    }
}

/// A record or the failure to make one, the record by what it holds.
pub open spec fn record_view(record: Result<TagRecord, Error>) -> Result<TagRecordView, Error> {
    match record {
        Ok(r) => Ok(r@),
        Err(e) => Err(e),
    }
}

/// The label under which a sample of the given kind is credited.
pub fn label_of_sample(kind: &str) -> (label: &'static str)
    ensures
        label@ == sample_label(kind@),
{
    "SAMPLE"
}

/// The credit of one sample.
pub fn make_comment_from_sample(sample: &Sample) -> (line: String)
    ensures
        line@ == sample_line(sample@),
{
    let mut line = String::from_str(label_of_sample(sample.kind.as_str()));
    line.append(": ");
    line.append(sample.artist.as_str());
    line.append(", ");
    line.append(sample.name.as_str());
    line
}

/// The comment of a track.
pub fn make_comment(track: &Track) -> (comment: String)
    ensures
        comment@ == comment_text(track@),
{
    match &track.sample {
        Some(samples) => {
            let ghost views = track@.sample->0;
            let mut lines: Vec<Vec<char>> = Vec::new();
            let mut i: usize = 0;
            while i < samples.len()
                invariant
                    i <= samples.len(),
                    views.len() == samples.len(),
                    forall|j: int| 0 <= j < samples.len() ==> views[j] == samples@[j]@,
                    rows(lines@) == sample_lines(views).take(i as int),
                decreases samples.len() - i,
            {
                let line = make_comment_from_sample(&samples[i]);
                let ghost before = rows(lines@);
                lines.push(chars_of(line.as_str()));
                assert(rows(lines@) == before.push(line@));
                assert(sample_lines(views).take(i + 1) == sample_lines(views).take(
                    i as int,
                ).push(sample_line(views[i as int])));
                i += 1;
            }
            assert(sample_lines(views).take(samples.len() as int) == sample_lines(views));
            let newline = chars_of("\n");
            string_of(&join_chars(&lines, &newline))
        },
        None => String::new(),
    }
}

/// The artist of a track.
pub fn make_artist(album: &Album, track: &Track) -> (artist: String)
    ensures
        artist@ == artist_text(album@, track@),
{
    match &track.artists {
        Some(artists) => {
            let ghost views = track@.artists->0;
            let mut ids: Vec<Vec<char>> = Vec::new();
            let mut i: usize = 0;
            while i < artists.len()
                invariant
                    i <= artists.len(),
                    views.len() == artists.len(),
                    forall|j: int| 0 <= j < artists.len() ==> views[j] == artists@[j]@,
                    rows(ids@) == artist_ids(views).take(i as int),
                decreases artists.len() - i,
            {
                let ghost before = rows(ids@);
                ids.push(chars_of(artists[i].id.as_str()));
                assert(rows(ids@) == before.push(artists@[i as int].id@));
                assert(artist_ids(views).take(i + 1) == artist_ids(views).take(i as int).push(
                    views[i as int].id,
                ));
                i += 1;
            }
            assert(artist_ids(views).take(artists.len() as int) == artist_ids(views));
            let comma = chars_of(", ");
            string_of(&join_chars(&ids, &comma))
        },
        None => album.artist.clone(),
    }
}

/// Assembles what is to be written into the tag container of a track's
/// audio file.
pub fn assemble_tags(album: &Album, track: &Track, track_pos_str: &str, cover: Vec<u8>) -> (record:
    Result<TagRecord, Error>)
    ensures
        record_view(record) == tag_record(album@, track@, track_pos_str@, cover@),
{
    let position = chars_of(track_pos_str);
    let track_pos: u32 = match read_integer(&position, false, 0, 4_294_967_295) {
        Some(n) => n as u32,
        None => {
            return Err(Error::InvalidData);
        },
    };
    if album.track_count < 0 {
        return Err(Error::InvalidData);
    }
    let album_track_count: u32 = album.track_count as u32;
    let comment = make_comment(track);
    let comment_len = comment.as_str().unicode_len();
    Ok(
        TagRecord {
            title: get_track_title(track),
            album: album.name.clone(),
            album_artist: album.artist.clone(),
            artist: make_artist(album, track),
            track: track_pos,
            total_tracks: album_track_count,
            genre: album.genre.clone(),
            year: album.released.year,
            comment: if comment_len == 0 {
                None
            } else {
                Some(comment)
            },
            lyrics: match &track.lyrics {
                Some(lyrics) => Some(lyrics.clone()),
                None => None,
            },
            cover: if cover.len() == 0 {
                None
            } else {
                Some(cover)
            },
        },
    )
}

} // verus!
