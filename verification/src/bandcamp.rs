use crate::dates::{date_by_format, date_parts, parse_date};
use crate::error::Error;
use crate::model::{
    put, Album, AlbumView, Date, Location, LocationView, Track, TrackArtist, TrackArtistView,
    TrackView, Tracks,
};
use crate::number::{decimal, decimal_of};
use crate::text::{
    chars_of, rows, split, split_chars, string_of, trim_chars, trimmed,
};
use vstd::prelude::*;
use vstd::string::*;

verus! {

/// The artist of an album or a track, as a store page names it.
#[derive(Debug)]
pub struct BandcampArtist {
    pub name: String,
}

/// A track, as a store page describes it.
#[derive(Debug)]
pub struct BandcampTrack {
    pub name: String,
    pub duration: String,
    pub by_artist: Option<BandcampArtist>,
    pub main_entity_of_page: String,
}

/// What a `BandcampTrack` holds, as mathematical values.
pub struct BandcampTrackView {
    pub name: Seq<char>,
    pub duration: Seq<char>,
    pub by_artist: Option<Seq<char>>,
    pub main_entity_of_page: Seq<char>,
}

impl View for BandcampTrack {
    type V = BandcampTrackView;

    open spec fn view(&self) -> BandcampTrackView {
        BandcampTrackView {
            name: self.name@,
            duration: self.duration@,
            by_artist: match self.by_artist {
                Some(artist) => Some(artist.name@),
                None => None,
            },
            main_entity_of_page: self.main_entity_of_page@,
        }
    }
}

/// A track with its position in the album.
#[derive(Debug)]
pub struct BandcampListItem {
    pub position: i8,
    pub item: BandcampTrack,
}

/// The tracks of an album, as a store page lists them.
#[derive(Debug)]
pub struct BandcampList {
    pub item_list_element: Vec<BandcampListItem>,
}

/// The positions and tracks of a list, in order.
pub open spec fn listed(items: Seq<BandcampListItem>) -> Seq<(int, BandcampTrackView)> {
    Seq::new(items.len(), |i: int| (items[i].position as int, items[i].item@))
}

/// An album, as a store page describes it.
#[derive(Debug)]
pub struct BandcampAlbum {
    pub name: String,
    pub by_artist: BandcampArtist,
    pub num_tracks: i8,
    pub date_published: String,
    pub image: String,
    pub track: BandcampList,
}

/// What a `BandcampAlbum` holds, as mathematical values.
pub struct BandcampAlbumView {
    pub name: Seq<char>,
    pub by_artist: Seq<char>,
    pub num_tracks: int,
    pub date_published: Seq<char>,
    pub image: Seq<char>,
    pub track: Seq<(int, BandcampTrackView)>,
}

impl View for BandcampAlbum {
    type V = BandcampAlbumView;

    open spec fn view(&self) -> BandcampAlbumView {
        BandcampAlbumView {
            name: self.name@,
            by_artist: self.by_artist.name@,
            num_tracks: self.num_tracks as int,
            date_published: self.date_published@,
            image: self.image@,
            track: listed(self.track.item_list_element@),
        }
    }
}

/// A duration in the form `P..H..M..S`, as duration text: the letters `P` and
/// `S` go, and each `H` and `M` becomes a colon.
pub open spec fn clock_of_period(period: Seq<char>) -> Seq<char>
    decreases period.len(),
{
    if period.len() == 0 {
        Seq::empty()
    } else {
        let head = clock_of_period(period.drop_last());
        let c = period.last();
        if c == 'P' || c == 'S' {
            head
        } else if c == 'H' || c == 'M' {
            head.push(':')
        } else {
            head.push(c)
        }
    }
}

/// The names in `parts`, of which each may hold several, joined by an
/// ampersand between spaces.
pub open spec fn names_in(parts: Seq<Seq<char>>) -> Seq<Seq<char>>
    decreases parts.len(),
{
    if parts.len() == 0 {
        Seq::empty()
    } else {
        names_in(parts.drop_last()) + split(parts.last(), " & "@)
    }
}

/// The names in a credit: they are separated by a comma and a space, or by
/// an ampersand between spaces.
pub open spec fn credited_names(credit: Seq<char>) -> Seq<Seq<char>> {
    names_in(split(credit, ", "@))
}

/// The artists that a credit names.
pub open spec fn credited_artists(credit: Seq<char>) -> Seq<TrackArtistView> {
    Seq::new(
        credited_names(credit).len(),
        |i: int| TrackArtistView { id: credited_names(credit)[i], credited_for: None },
    )
}

/// The track that a store page describes: with one direct source, its page.
pub open spec fn track_of(track: BandcampTrackView) -> TrackView {
    TrackView {
        name: track.name,
        duration: Some(clock_of_period(track.duration)),
        artists: match track.by_artist {
            Some(credit) => Some(credited_artists(credit)),
            None => None,
        },
        artist: None,
        location: seq![LocationView { url: track.main_entity_of_page, at: None }],
        sample: None,
        lyrics: None,
        wave: None,
    }
}

/// The tracks that a list holds, by position. Of two tracks at one position
/// the later one stays, in the place of the earlier.
pub open spec fn tracks_of(items: Seq<(int, BandcampTrackView)>) -> Seq<(Seq<char>, TrackView)>
    decreases items.len(),
{
    if items.len() == 0 {
        Seq::empty()
    } else {
        put(tracks_of(items.drop_last()), decimal(items.last().0), track_of(items.last().1))
    }
}

/// The form of the date on which a store page says an album was published.
pub open spec fn date_format() -> Seq<char> {
    "%d %b %Y %T %Z"@
}

/// The genre under which albums of the store are filed.
pub open spec fn store_genre() -> Seq<char> {
    "Phonk"@
}

/// The album that a store page describes, given the date that was read from
/// it.
pub open spec fn album_of(album: BandcampAlbumView, released: Date) -> AlbumView {
    AlbumView {
        name: album.name,
        artist: album.by_artist,
        genre: store_genre(),
        released,
        cover: album.image,
        tracks: tracks_of(album.track),
        track_count: album.num_tracks,
    }
}

/// The text between the last `open` and the first `close` after it, without
/// white space around it. Without an `open` the text counts from its
/// beginning, without a `close` to its end.
pub open spec fn enclosed(text: Seq<char>, open: Seq<char>, close: Seq<char>) -> Seq<char> {
    trimmed(split(split(text, open).last(), close)[0])
}

/// Where the description of an album begins in a store page.
pub open spec fn json_open() -> Seq<char> {
    "<script type=\"application/ld+json\">"@
}

/// Where the description of an album ends in a store page.
pub open spec fn json_close() -> Seq<char> {
    "</script>"@
}

/// An album or the failure to make one, the album by what it holds.
pub open spec fn album_view(album: Result<Album, Error>) -> Result<AlbumView, Error> {
    match album {
        Ok(album) => Ok(album@),
        Err(e) => Err(e),
    }
}

/// A duration in the form `P..H..M..S`, as duration text.
pub fn parse_duration(duration: &str) -> (clock: Option<String>)
    ensures
        clock matches Some(text) && text@ == clock_of_period(duration@),
{
    let period = chars_of(duration);
    let mut out: Vec<char> = Vec::new();
    let mut i: usize = 0;
    while i < period.len()
        invariant
            i <= period.len(),
            out@ == clock_of_period(period@.take(i as int)),
        decreases period.len() - i,
    {
        let c = period[i];
        assert(period@.take(i + 1).drop_last() == period@.take(i as int));
        assert(period@.take(i + 1).last() == c);
        if c == 'P' || c == 'S' {
        } else if c == 'H' || c == 'M' {
            out.push(':');
        } else {
            out.push(c);
        }
        i += 1;
    }
    assert(period@.take(period.len() as int) == period@);
    Some(string_of(&out))
}

/// The names in a credit.
pub fn credit_names(credit: &str) -> (names: Vec<String>)
    ensures
        crate::text::texts(names@) == credited_names(credit@),
{
    let text = chars_of(credit);
    let comma = chars_of(", ");
    let ampersand = chars_of(" & ");
    let parts = split_chars(&text, &comma);
    let ghost pieces = rows(parts@);
    let mut names: Vec<String> = Vec::new();
    assert(crate::text::texts(names@) == names_in(pieces.take(0)));
    let mut i: usize = 0;
    while i < parts.len()
        invariant
            i <= parts.len(),
            pieces == rows(parts@),
            ampersand@ == " & "@,
            crate::text::texts(names@) == names_in(pieces.take(i as int)),
        decreases parts.len() - i,
    {
        assert(pieces.take(i + 1).drop_last() == pieces.take(i as int));
        assert(pieces.take(i + 1).last() == parts@[i as int]@);
        let inner = split_chars(&parts[i], &ampersand);
        let ghost before = crate::text::texts(names@);
        let mut j: usize = 0;
        while j < inner.len()
            invariant
                j <= inner.len(),
                crate::text::texts(names@) == before + rows(inner@).take(j as int),
            decreases inner.len() - j,
        {
            let ghost so_far = crate::text::texts(names@);
            names.push(string_of(&inner[j]));
            assert(crate::text::texts(names@) == so_far.push(inner@[j as int]@));
            assert(rows(inner@).take(j + 1) == rows(inner@).take(j as int).push(
                inner@[j as int]@,
            ));
            j += 1;
        }
        assert(rows(inner@).take(inner.len() as int) == rows(inner@));
        i += 1;
    }
    assert(pieces.take(parts.len() as int) == pieces);
    names
}

/// The artists that a store page credits a track to.
pub fn parse_artists(track: &BandcampTrack) -> (artists: Option<Vec<TrackArtist>>)
    ensures
        match artists {
            Some(artists) => track_of(track@).artists == Some(
                Seq::new(artists@.len(), |i: int| artists@[i]@),
            ),
            None => track_of(track@).artists is None,
        },
{
    match &track.by_artist {
        Some(credit) => {
            let names = credit_names(credit.name.as_str());
            let ghost wanted = credited_artists(credit.name@);
            let mut artists: Vec<TrackArtist> = Vec::new();
            let mut i: usize = 0;
            while i < names.len()
                invariant
                    i <= names.len(),
                    crate::text::texts(names@) == credited_names(credit.name@),
                    wanted == credited_artists(credit.name@),
                    artists@.len() == i,
                    forall|j: int| 0 <= j < i ==> (#[trigger] artists@[j])@ == wanted[j],
                decreases names.len() - i,
            {
                assert(crate::text::texts(names@)[i as int] == names@[i as int]@);
                artists.push(TrackArtist { id: names[i].clone(), credited_for: None });
                i += 1;
            }
            assert(Seq::new(artists@.len(), |i: int| artists@[i]@) == wanted);
            Some(artists)
        },
        None => None,
    }
}

/// The sources of a track that a store page describes: its page.
pub fn parse_location(track: &BandcampTrack) -> (location: Vec<Location>)
    ensures
        Seq::new(location@.len(), |i: int| location@[i]@) == track_of(track@).location,
{
    let mut location: Vec<Location> = Vec::new();
    location.push(Location { url: track.main_entity_of_page.clone(), at: None });
    assert(Seq::new(location@.len(), |i: int| location@[i]@) == seq![
        LocationView { url: track.main_entity_of_page@, at: None },
    ]);
    location
}

/// The track that a store page describes.
pub fn parse_track(track: &BandcampTrack) -> (parsed: Track)
    ensures
        parsed@ == track_of(track@),
{
    let name = track.name.clone();
    let duration = parse_duration(track.duration.as_str());
    let artists = parse_artists(track);
    let location = parse_location(track);
    Track {
        name,
        duration,
        artists,
        artist: None,
        location,
        sample: None,
        lyrics: None,
        wave: None,
    }
}

/// The tracks that a list holds, by position.
pub fn parse_tracks(tracks: BandcampList) -> (parsed: Tracks)
    ensures
        parsed@ == tracks_of(listed(tracks.item_list_element@)),
{
    let ghost items = listed(tracks.item_list_element@);
    let mut result = Tracks::new();
    assert(items.take(0) == Seq::<(int, BandcampTrackView)>::empty());
    assert(result@ == tracks_of(items.take(0)));
    let mut i: usize = 0;
    while i < tracks.item_list_element.len()
        invariant
            i <= tracks.item_list_element.len(),
            items == listed(tracks.item_list_element@),
            result@ == tracks_of(items.take(i as int)),
        decreases tracks.item_list_element.len() - i,
    {
        let element = &tracks.item_list_element[i];
        assert(items.take(i + 1).drop_last() == items.take(i as int));
        assert(items.take(i + 1).last() == (element.position as int, element.item@));
        let position = string_of(&decimal_of(element.position as i64));
        let track = parse_track(&element.item);
        result.insert(position, track);
        i += 1;
    }
    assert(items.take(tracks.item_list_element.len() as int) == items);
    result
}

/// The album that a store page describes, with the date on which it was
/// published as already read from the page.
pub fn album_from(album: BandcampAlbum, released: Date) -> (parsed: Album)
    ensures
        parsed@ == album_of(album@, released),
{
    let genre = String::from_str("Phonk");
    let BandcampAlbum { name, by_artist, num_tracks, date_published, image, track } = album;
    let tracks = parse_tracks(track);
    Album {
        name,
        artist: by_artist.name,
        genre,
        released,
        cover: image,
        tracks,
        track_count: num_tracks,
    }
}

/// The album that a store page describes. `InvalidData` where the date on
/// which it was published does not read as one.
pub fn parse(album: BandcampAlbum) -> (parsed: Result<Album, Error>)
    ensures
        match date_by_format(album@.date_published, date_format()) {
            Some(parts) => parsed matches Ok(a) && date_parts(a.released) == parts && a@
                == album_of(album@, a.released),
            None => parsed matches Err(e) && e == Error::InvalidData,
        },
{
    match parse_date(album.date_published.as_str(), "%d %b %Y %T %Z") {
        Ok(released) => Ok(album_from(album, released)),
        Err(_) => Err(Error::InvalidData),
    }
}

/// The text between the last `open` and the first `close` after it, without
/// white space around it.
pub fn extract_enclosed(text: &str, open: &str, close: &str) -> (inner: String)
    ensures
        inner@ == enclosed(text@, open@, close@),
{
    let chars = chars_of(text);
    let open_chars = chars_of(open);
    let close_chars = chars_of(close);
    let pieces = split_chars(&chars, &open_chars);
    let after = &pieces[pieces.len() - 1];
    assert(after@ == rows(pieces@).last());
    let parts = split_chars(after, &close_chars);
    assert(parts@[0]@ == rows(parts@)[0]);
    string_of(&trim_chars(&parts[0]))
}

/// The description of an album in a store page.
pub fn extract_json_from_html(html: &str) -> (json: Result<String, Error>)
    ensures
        json matches Ok(text) && text@ == enclosed(html@, json_open(), json_close()),
{
    Ok(extract_enclosed(html, "<script type=\"application/ld+json\">", "</script>"))
}

} // verus!
