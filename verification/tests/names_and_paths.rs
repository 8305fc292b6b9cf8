use yar::model::{Album, Date, Track, Tracks};
use yar::naming::{
    get_path_album, get_path_cover, get_path_full, get_path_track, get_track_title,
    normalize_name, parse_name,
};

fn album(artist: &str, name: &str) -> Album {
    Album {
        name: String::from(name),
        artist: String::from(artist),
        genre: String::new(),
        released: Date { year: 2000, month: 1, day: 1 },
        cover: String::new(),
        tracks: Tracks::new(),
        track_count: 0,
    }
}

#[test]
fn normalizes_a_name() {
    assert_eq!(parse_name("Don't Play & The Gang"), "dont-play-and-the-gang");
}

#[test]
fn normalizing_lowers_the_case() {
    assert_eq!(parse_name("My Artist"), "my-artist");
    assert_eq!(parse_name("ALBUM Name 2"), "album-name-2");
    assert_eq!(parse_name("ÀB"), "b");
}

#[test]
fn normalizing_keeps_hyphens_and_drops_the_rest() {
    assert_eq!(parse_name("a-b_c.d/e"), "a-bcde");
    assert_eq!(parse_name("  "), "--");
    assert_eq!(parse_name(""), "");
    assert_eq!(parse_name("Sigur Rós"), "sigur-rs");
}

#[test]
fn an_ampersand_needs_spaces_to_be_spelled_out() {
    assert_eq!(parse_name("a&b"), "ab");
    assert_eq!(parse_name("a & b"), "a-and-b");
    assert_eq!(parse_name("a & & b"), "a-and--b");
    assert_eq!(parse_name("a & b & c"), "a-and-b-and-c");
    assert_eq!(parse_name(" & "), "-and-");
}

#[test]
fn normalize_name_does_not_lower_the_case() {
    assert_eq!(normalize_name("Don't Play & The Gang"), "Dont-Play-and-The-Gang");
    assert_eq!(normalize_name("dont play"), "dont-play");
}

#[test]
fn album_directory_is_below_the_library() {
    let a = album("My Artist", "Album Name");
    assert_eq!(get_path_album("./library/", &a), "./library/my-artist/album-name/");
    let b = album("Don't Play & The Gang", "B-Sides!");
    assert_eq!(get_path_album("", &b), "dont-play-and-the-gang/b-sides/");
}

#[test]
fn paths_in_the_album_directory() {
    assert_eq!(get_path_cover("lib/a/b/"), "lib/a/b/cover.jpg");
    assert_eq!(get_path_full("lib/a/b/"), "lib/a/b/full.mp3");
    assert_eq!(
        get_path_track("lib/a/b/", "3", "My Song", "mp3"),
        "lib/a/b/3 - My Song.mp3"
    );
}

#[test]
fn the_title_of_a_track_is_its_name() {
    let track = Track {
        name: String::from("My Song"),
        duration: None,
        artists: None,
        artist: Some(String::from("Somebody")),
        location: vec![],
        sample: None,
        lyrics: None,
        wave: None,
    };
    assert_eq!(get_track_title(&track), "My Song");
}
