use crate::text::same_text;
use vstd::prelude::*;

verus! {

/// The text of an optional string.
pub open spec fn optional_text(s: Option<String>) -> Option<Seq<char>> {
    match s {
        Some(s) => Some(s@),
        None => None,
    }
}

/// A calendar date.
#[derive(Clone, Copy, Debug, PartialEq, Eq, Structural)]
pub struct Date {
    pub year: i32,
    pub month: u32,
    pub day: u32,
}

/// One candidate source of a track. With a start timestamp `at` it is a slice
/// of the album's shared full recording, without one it is the track itself.
#[derive(Clone, Debug)]
pub struct Location {
    pub url: String,
    pub at: Option<String>,
}

/// What a `Location` holds, as mathematical values.
pub struct LocationView {
    pub url: Seq<char>,
    pub at: Option<Seq<char>>,
}

impl View for Location {
    type V = LocationView;

    open spec fn view(&self) -> LocationView {
        LocationView { url: self.url@, at: optional_text(self.at) }
    }
}

/// An artist who contributed to a track, and optionally what for.
#[derive(Clone, Debug)]
pub struct TrackArtist {
    pub id: String,
    pub credited_for: Option<String>,
}

/// What a `TrackArtist` holds, as mathematical values.
pub struct TrackArtistView {
    pub id: Seq<char>,
    pub credited_for: Option<Seq<char>>,
}

impl View for TrackArtist {
    type V = TrackArtistView;

    open spec fn view(&self) -> TrackArtistView {
        TrackArtistView { id: self.id@, credited_for: optional_text(self.credited_for) }
    }
}

/// Material of another work that a track uses and credits.
#[derive(Clone, Debug)]
pub struct Sample {
    pub artist: String,
    pub name: String,
    pub kind: String,
}

/// What a `Sample` holds, as mathematical values.
pub struct SampleView {
    pub artist: Seq<char>,
    pub name: Seq<char>,
    pub kind: Seq<char>,
}

impl View for Sample {
    type V = SampleView;

    open spec fn view(&self) -> SampleView {
        SampleView { artist: self.artist@, name: self.name@, kind: self.kind@ }
    }
}

/// A waveform summary: amplitude samples of one byte each.
#[derive(Clone, Debug)]
pub struct Wave {
    pub length: i32,
    pub points: Vec<u8>,
}

/// What a `Wave` holds, as mathematical values.
pub struct WaveView {
    pub length: int,
    pub points: Seq<u8>,
}

impl View for Wave {
    type V = WaveView;

    open spec fn view(&self) -> WaveView {
        WaveView { length: self.length as int, points: self.points@ }
    }
}

/// One track of an album.
#[derive(Clone, Debug)]
pub struct Track {
    pub name: String,
    pub duration: Option<String>,
    pub artists: Option<Vec<TrackArtist>>,
    pub artist: Option<String>,
    pub location: Vec<Location>,
    pub sample: Option<Vec<Sample>>,
    pub lyrics: Option<String>,
    pub wave: Option<Wave>,
}

/// What a `Track` holds, as mathematical values.
pub struct TrackView {
    pub name: Seq<char>,
    pub duration: Option<Seq<char>>,
    pub artists: Option<Seq<TrackArtistView>>,
    pub artist: Option<Seq<char>>,
    pub location: Seq<LocationView>,
    pub sample: Option<Seq<SampleView>>,
    pub lyrics: Option<Seq<char>>,
    pub wave: Option<WaveView>,
}

impl View for Track {
    type V = TrackView;

    open spec fn view(&self) -> TrackView {
        TrackView {
            name: self.name@,
            duration: optional_text(self.duration),
            artists: match self.artists {
                Some(artists) => Some(Seq::new(artists@.len(), |i: int| artists@[i]@)),
                None => None,
            },
            artist: optional_text(self.artist),
            location: Seq::new(self.location@.len(), |i: int| self.location@[i]@),
            sample: match self.sample {
                Some(samples) => Some(Seq::new(samples@.len(), |i: int| samples@[i]@)),
                None => None,
            },
            lyrics: optional_text(self.lyrics),
            wave: match self.wave {
                Some(wave) => Some(wave@),
                None => None,
            },
        }
    }
}

/// Whether no position occurs twice among `entries`.
pub open spec fn distinct_positions(entries: Seq<(Seq<char>, TrackView)>) -> bool {
    forall|i: int, j: int|
        0 <= i < entries.len() && 0 <= j < entries.len() && i != j ==> entries[i].0
            != entries[j].0
}

/// The index of the first entry at `position`, from index `from` on.
pub open spec fn index_of_from(
    entries: Seq<(Seq<char>, TrackView)>,
    position: Seq<char>,
    from: int,
) -> Option<int>
    decreases entries.len() - from,
{
    if from < 0 || from >= entries.len() {
        None
    } else if entries[from].0 == position {
        Some(from)
    } else {
        index_of_from(entries, position, from + 1)
    }
}

/// The index of the entry at `position`.
pub open spec fn index_of(entries: Seq<(Seq<char>, TrackView)>, position: Seq<char>) -> Option<
    int,
> {
    index_of_from(entries, position, 0)
}

/// The track at `position`.
pub open spec fn track_at(entries: Seq<(Seq<char>, TrackView)>, position: Seq<char>) -> Option<
    TrackView,
> {
    match index_of(entries, position) {
        Some(i) => Some(entries[i].1),
        None => None,
    }
}

/// The entries with `track` at `position`: in the place of the track that
/// was there, or else at the end.
pub open spec fn put(
    entries: Seq<(Seq<char>, TrackView)>,
    position: Seq<char>,
    track: TrackView,
) -> Seq<(Seq<char>, TrackView)> {
    match index_of(entries, position) {
        Some(i) => entries.update(i, (position, track)),
        None => entries.push((position, track)),
    }
}

/// What searching for a position finds: the first entry that carries it.
pub proof fn lemma_index_of_from(
    entries: Seq<(Seq<char>, TrackView)>,
    position: Seq<char>,
    from: int,
)
    requires
        0 <= from,
    ensures
        match index_of_from(entries, position, from) {
            Some(i) => from <= i < entries.len() && entries[i].0 == position && forall|j: int|
                from <= j < i ==> entries[j].0 != position,
            None => forall|j: int| from <= j < entries.len() ==> entries[j].0 != position,
        },
    decreases entries.len() - from,
{
    if from < entries.len() && entries[from].0 != position {
        lemma_index_of_from(entries, position, from + 1);
    }
}

/// The tracks of an album by position. A position is text; no position
/// occurs twice. The entries keep the order in which they were first
/// inserted.
#[derive(Debug)]
pub struct Tracks {
    entries: Vec<(String, Track)>,
}

impl View for Tracks {
    type V = Seq<(Seq<char>, TrackView)>;

    closed spec fn view(&self) -> Seq<(Seq<char>, TrackView)> {
        Seq::new(self.entries@.len(), |i: int| (self.entries@[i].0@, self.entries@[i].1@))
    }
}

impl Tracks {
    #[verifier::type_invariant]
    spec fn distinct(&self) -> bool {
        distinct_positions(self@)
    }

    /// No tracks.
    pub fn new() -> (tracks: Tracks)
        ensures
            tracks@.len() == 0,
    {
        Tracks { entries: Vec::new() }
    }

    /// The number of tracks.
    pub fn len(&self) -> (n: usize)
        ensures
            n == self@.len(),
            distinct_positions(self@),
    {
        proof {
            use_type_invariant(self);
        }
        self.entries.len()
    }

    /// The position of the entry at `index`.
    pub fn position(&self, index: usize) -> (position: &String)
        requires
            index < self@.len(),
        ensures
            position@ == self@[index as int].0,
    {
        &self.entries[index].0
    }

    /// The track of the entry at `index`.
    pub fn track(&self, index: usize) -> (track: &Track)
        requires
            index < self@.len(),
        ensures
            track@ == self@[index as int].1,
    {
        &self.entries[index].1
    }

    /// The index of the entry at `position`.
    pub fn find(&self, position: &str) -> (found: Option<usize>)
        ensures
            match found {
                Some(i) => index_of(self@, position@) == Some(i as int) && i < self@.len(),
                None => index_of(self@, position@) is None,
            },
    {
        let mut i: usize = 0;
        while i < self.entries.len()
            invariant
                i <= self.entries.len(),
                index_of(self@, position@) == index_of_from(self@, position@, i as int),
            decreases self.entries.len() - i,
        {
            if same_text(self.entries[i].0.as_str(), position) {
                return Some(i);
            }
            i += 1;
        }
        None
    }

    /// The track at `position`.
    pub fn get(&self, position: &str) -> (track: Option<&Track>)
        ensures
            match track {
                Some(t) => track_at(self@, position@) == Some(t@),
                None => track_at(self@, position@) is None,
            },
    {
        match self.find(position) {
            Some(i) => Some(&self.entries[i].1),
            None => None,
        }
    }

    /// Puts `track` at `position`. A track that was there before is replaced
    /// and handed back; otherwise the new entry comes last.
    pub fn insert(&mut self, position: String, track: Track) -> (previous: Option<Track>)
        ensures
            final(self)@ == put(old(self)@, position@, track@),
            match index_of(old(self)@, position@) {
                Some(i) => previous is Some && previous->0@ == old(self)@[i].1,
                None => previous is None,
            },
            track_at(final(self)@, position@) == Some(track@),
            distinct_positions(final(self)@),
    {
        proof {
            use_type_invariant(&*self);
            lemma_index_of_from(self@, position@, 0);
        }
        let ghost before = self@;
        let ghost entry = (position@, track@);
        let found = self.find(position.as_str());
        let mut entries: Vec<(String, Track)> = Vec::new();
        std::mem::swap(&mut entries, &mut self.entries);
        let previous = match found {
            Some(i) => {
                let replaced = entries.remove(i);
                entries.insert(i, (position, track));
                Some(replaced.1)
            },
            None => {
                entries.push((position, track));
                None
            },
        };
        let ghost after = Seq::new(entries@.len(), |i: int| (entries@[i].0@, entries@[i].1@));
        proof {
            match found {
                Some(i) => {
                    assert(after =~= before.update(i as int, entry));
                    assert(after[i as int] == entry);
                },
                None => {
                    assert(after =~= before.push(entry));
                    assert(after[before.len() as int] == entry);
                },
            }
            lemma_index_of_from(after, entry.0, 0);
            assert(track_at(after, entry.0) == Some(entry.1));
        }
        std::mem::swap(&mut entries, &mut self.entries);
        assert(self@ == after);
        previous
    }
}

/// An album: what it is called, and its tracks.
#[derive(Debug)]
pub struct Album {
    pub name: String,
    pub artist: String,
    pub genre: String,
    pub released: Date,
    pub cover: String,
    pub tracks: Tracks,
    pub track_count: i8,
}

/// What an `Album` holds, as mathematical values.
pub struct AlbumView {
    pub name: Seq<char>,
    pub artist: Seq<char>,
    pub genre: Seq<char>,
    pub released: Date,
    pub cover: Seq<char>,
    pub tracks: Seq<(Seq<char>, TrackView)>,
    pub track_count: int,
}

impl View for Album {
    type V = AlbumView;

    open spec fn view(&self) -> AlbumView {
        AlbumView {
            name: self.name@,
            artist: self.artist@,
            genre: self.genre@,
            released: self.released,
            cover: self.cover@,
            tracks: self.tracks@,
            track_count: self.track_count as int,
        }
    }
}

/// A library: albums in order.
#[derive(Debug)]
pub struct Library {
    pub albums: Vec<Album>,
}

impl View for Library {
    type V = Seq<AlbumView>;

    open spec fn view(&self) -> Seq<AlbumView> {
        Seq::new(self.albums@.len(), |i: int| self.albums@[i]@)
    }
}

impl Library {
    /// A library without albums.
    pub fn new() -> (library: Library)
        ensures
            library@.len() == 0,
    {
        Library { albums: Vec::new() }
    }
}

/// The options of a run.
pub struct Config<'a> {
    pub debug_ytdl: bool,
    pub debug_ffmpeg: bool,
    pub debug: bool,
    pub audio_fmt: &'a str,
    pub force: bool,
    pub download_covers: bool,
    pub keep_full_files: bool,
}

/// What a `Config` holds, as mathematical values.
pub struct ConfigView {
    pub debug_ytdl: bool,
    pub debug_ffmpeg: bool,
    pub debug: bool,
    pub audio_fmt: Seq<char>,
    pub force: bool,
    pub download_covers: bool,
    pub keep_full_files: bool,
}

impl<'a> View for Config<'a> {
    type V = ConfigView;

    open spec fn view(&self) -> ConfigView {
        ConfigView {
            debug_ytdl: self.debug_ytdl,
            debug_ffmpeg: self.debug_ffmpeg,
            debug: self.debug,
            audio_fmt: self.audio_fmt@,
            force: self.force,
            download_covers: self.download_covers,
            keep_full_files: self.keep_full_files,
        }
    }
}

} // verus!
