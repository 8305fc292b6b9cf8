use yar::{Library, Location, Track, Tracks};

fn track(name: &str) -> Track {
    Track {
        name: String::from(name),
        duration: None,
        artists: None,
        artist: None,
        location: vec![Location { url: String::from("u"), at: None }],
        sample: None,
        lyrics: None,
        wave: None,
    }
}

#[test]
fn a_new_library_is_empty() {
    assert_eq!(Library::new().albums.len(), 0);
}

#[test]
fn tracks_are_found_by_position() {
    let mut tracks = Tracks::new();
    assert_eq!(tracks.len(), 0);
    assert!(tracks.get("1").is_none());
    assert!(tracks.insert(String::from("1"), track("one")).is_none());
    assert!(tracks.insert(String::from("2"), track("two")).is_none());
    assert_eq!(tracks.len(), 2);
    assert_eq!(tracks.get("1").unwrap().name, "one");
    assert_eq!(tracks.get("2").unwrap().name, "two");
    assert!(tracks.get("3").is_none());
    assert!(tracks.get("01").is_none());
    assert_eq!(tracks.find("2"), Some(1));
    assert_eq!(tracks.find("x"), None);
}

#[test]
fn inserting_at_a_taken_position_replaces() {
    let mut tracks = Tracks::new();
    tracks.insert(String::from("1"), track("one"));
    tracks.insert(String::from("2"), track("two"));
    let previous = tracks.insert(String::from("1"), track("uno"));
    assert_eq!(previous.unwrap().name, "one");
    assert_eq!(tracks.len(), 2);
    assert_eq!(tracks.position(0), "1");
    assert_eq!(tracks.track(0).name, "uno");
    assert_eq!(tracks.position(1), "2");
    assert_eq!(tracks.track(1).name, "two");
}
