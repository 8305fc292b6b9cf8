use crate::model::{Album, AlbumView, Track};
use crate::text::{chars_of, replace, replace_chars, string_of};
use vstd::prelude::*;
use vstd::string::*;

verus! {

/// The text that `str::to_lowercase` gives for `s`.
pub uninterp spec fn lowercase(s: Seq<char>) -> Seq<char>;

/// `str::to_lowercase` of the standard library: the lowercase equivalent of
/// the text by the rules of Unicode, which depends on the text alone. The
/// rules themselves are not stated here; the result only has a name.
pub assume_specification[ str::to_lowercase ](s: &str) -> (lower: String)
    ensures
        lower@ == lowercase(s@),
;

/// Whether `c` is a letter of the English alphabet or a decimal digit.
pub open spec fn is_plain(c: char) -> bool {
    ('0' <= c && c <= '9') || ('a' <= c && c <= 'z') || ('A' <= c && c <= 'Z')
}

/// `s` character by character: a space becomes a hyphen, a hyphen, a letter
/// of the English alphabet and a digit stay, and every other character goes.
pub open spec fn cleaned(s: Seq<char>) -> Seq<char>
    decreases s.len(),
{
    if s.len() == 0 {
        Seq::empty()
    } else {
        let head = cleaned(s.drop_last());
        let c = s.last();
        if c == ' ' {
            head.push('-')
        } else if c == '-' || is_plain(c) {
            head.push(c)
        } else {
            head
        }
    }
}

/// The name for the file system of a name that is in lowercase already: an
/// ampersand between two spaces is spelled out, then the text is cleaned.
pub open spec fn normalized(lowered: Seq<char>) -> Seq<char> {
    cleaned(replace(lowered, " & "@, " and "@))
}

/// The directory of an album below the directory of the library.
pub open spec fn album_dir(library: Seq<char>, album: AlbumView) -> Seq<char> {
    library + normalized(lowercase(album.artist)) + "/"@ + normalized(lowercase(album.name))
        + "/"@
}

/// The cover image of the album in directory `dir`.
pub open spec fn cover_path(dir: Seq<char>) -> Seq<char> {
    dir + "cover.jpg"@
}

/// The shared full recording of the album in directory `dir`.
pub open spec fn full_path(dir: Seq<char>) -> Seq<char> {
    dir + "full.mp3"@
}

/// The audio file of a track of the album in directory `dir`.
pub open spec fn track_path(
    dir: Seq<char>,
    position: Seq<char>,
    name: Seq<char>,
    audio_fmt: Seq<char>,
) -> Seq<char> {
    dir + position + " - "@ + name + "."@ + audio_fmt
}

/// Whether `c` is a letter of the English alphabet or a decimal digit.
fn plain(c: char) -> (yes: bool)
    ensures
        yes == is_plain(c),
{
    (c >= '0' && c <= '9') || (c >= 'a' && c <= 'z') || (c >= 'A' && c <= 'Z')
}

/// The name for the file system of a name that is in lowercase already.
pub fn normalize_name(lowered: &str) -> (normal: String)
    ensures
        normal@ == normalized(lowered@),
{
    let text = chars_of(lowered);
    let ampersand = chars_of(" & ");
    let and = chars_of(" and ");
    let spelled = replace_chars(&text, &ampersand, &and);
    let mut out: Vec<char> = Vec::new();
    let mut i: usize = 0;
    while i < spelled.len()
        invariant
            i <= spelled.len(),
            out@ == cleaned(spelled@.take(i as int)),
        decreases spelled.len() - i,
    {
        let c = spelled[i];
        assert(spelled@.take(i + 1).drop_last() == spelled@.take(i as int));
        assert(spelled@.take(i + 1).last() == c);
        if c == ' ' {
            out.push('-');
        } else if c == '-' || plain(c) {
            out.push(c);
        }
        i += 1;
    }
    assert(spelled@.take(spelled.len() as int) == spelled@);
    string_of(&out)
}

/// Parses a name (artist or album) for the file system: converts it to
/// lowercase, spells out an ampersand between spaces, removes all special
/// characters, and replaces spaces with hyphens.
pub fn parse_name(name: &str) -> (normal: String)
    ensures
        normal@ == normalized(lowercase(name@)),
{
    let lowered = name.to_lowercase();
    normalize_name(lowered.as_str())
}

/// Returns the path to the directory of an album.
pub fn get_path_album(path_library: &str, album: &Album) -> (path: String)
    ensures
        path@ == album_dir(path_library@, album@),
{
    let path_artist = parse_name(album.artist.as_str());
    let album_dir_name = parse_name(album.name.as_str());
    let mut path = String::from_str(path_library);
    path.append(path_artist.as_str());
    path.append("/");
    path.append(album_dir_name.as_str());
    path.append("/");
    path
}

/// The path of the cover image in the album directory `path_album`.
pub fn get_path_cover(path_album: &str) -> (path: String)
    ensures
        path@ == cover_path(path_album@),
{
    let mut path = String::from_str(path_album);
    path.append("cover.jpg");
    path
}

/// The path of the shared full recording in the album directory `out_dir`.
pub fn get_path_full(out_dir: &str) -> (path: String)
    ensures
        path@ == full_path(out_dir@),
{
    let mut path = String::from_str(out_dir);
    path.append("full.mp3");
    path
}

/// The path of the audio file of a track in the album directory
/// `path_album`.
pub fn get_path_track(
    path_album: &str,
    track_position: &str,
    track_name: &str,
    audio_fmt: &str,
) -> (path: String)
    ensures
        path@ == track_path(path_album@, track_position@, track_name@, audio_fmt@),
{
    let mut path = String::from_str(path_album);
    path.append(track_position);
    path.append(" - ");
    path.append(track_name);
    path.append(".");
    path.append(audio_fmt);
    path
}

/// Creates a string representing the title of the track: its name.
pub fn get_track_title(track: &Track) -> (title: String)
    ensures
        title@ == track@.name,
{
    track.name.clone()
}

} // verus!
