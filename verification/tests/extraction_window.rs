use yar::{
    get_end_time, get_next_track_time, get_track_start_time, Album, Date, Error, Location, Track,
    Tracks,
};

fn location(url: &str, at: Option<&str>) -> Location {
    Location { url: String::from(url), at: at.map(String::from) }
}

fn track(duration: Option<&str>, location: Vec<Location>) -> Track {
    Track {
        name: String::from("Song"),
        duration: duration.map(String::from),
        artists: None,
        artist: None,
        location,
        sample: None,
        lyrics: None,
        wave: None,
    }
}

fn album(tracks: Vec<(&str, Track)>) -> Album {
    let mut by_position = Tracks::new();
    for (position, track) in tracks {
        by_position.insert(String::from(position), track);
    }
    Album {
        name: String::from("Album"),
        artist: String::from("Artist"),
        genre: String::from("Genre"),
        released: Date { year: 2020, month: 5, day: 17 },
        cover: String::from("https://example.org/cover.jpg"),
        tracks: by_position,
        track_count: 2,
    }
}

#[test]
fn end_is_start_plus_declared_duration() {
    let t = track(Some("0:0:30"), vec![location("A", Some("0:1:0"))]);
    let a = album(vec![]);
    assert_eq!(get_end_time(&a, &t, "1"), Ok(String::from("0:1:30")));
}

#[test]
fn declared_duration_wins_over_the_next_track() {
    let t = track(Some("30"), vec![location("A", Some("1:0"))]);
    let next = track(None, vec![location("A", Some("0:5:00"))]);
    let a = album(vec![("2", next)]);
    assert_eq!(get_end_time(&a, &t, "1"), Ok(String::from("0:1:30")));
}

#[test]
fn end_is_where_the_next_track_starts() {
    let t = track(None, vec![location("A", Some("0:1:0"))]);
    let next = track(None, vec![location("A", Some("0:2:00"))]);
    let a = album(vec![("1", track(None, vec![location("A", Some("0:1:0"))])), ("2", next)]);
    assert_eq!(get_end_time(&a, &t, "1"), Ok(String::from("0:2:00")));
}

#[test]
fn no_end_without_a_next_track() {
    let t = track(None, vec![location("A", Some("0:1:0"))]);
    let a = album(vec![("1", track(None, vec![location("A", Some("0:1:0"))]))]);
    assert_eq!(get_end_time(&a, &t, "1"), Err(Error::NotFound));
    assert_eq!(get_next_track_time(&a, "1"), Err(Error::NotFound));
}

#[test]
fn no_end_where_the_next_track_has_no_timestamp() {
    let t = track(None, vec![location("A", Some("0:1:0"))]);
    let next = track(None, vec![location("B", None)]);
    let a = album(vec![("2", next)]);
    assert_eq!(get_end_time(&a, &t, "1"), Err(Error::InvalidData));
}

#[test]
fn no_end_where_the_position_is_no_number() {
    let t = track(None, vec![location("A", Some("0:1:0"))]);
    let a = album(vec![("2", track(None, vec![location("A", Some("0:2:0"))]))]);
    assert_eq!(get_end_time(&a, &t, "one"), Err(Error::InvalidData));
    assert_eq!(get_next_track_time(&a, ""), Err(Error::InvalidData));
}

#[test]
fn no_end_where_start_or_duration_is_no_duration() {
    let a = album(vec![]);
    let bad_duration = track(Some("half"), vec![location("A", Some("0:1:0"))]);
    assert_eq!(get_end_time(&a, &bad_duration, "1"), Err(Error::InvalidData));
    let bad_start = track(Some("30"), vec![location("A", Some("soon"))]);
    assert_eq!(get_end_time(&a, &bad_start, "1"), Err(Error::InvalidData));
    let no_start = track(Some("30"), vec![location("A", None)]);
    assert_eq!(get_end_time(&a, &no_start, "1"), Err(Error::InvalidData));
}

#[test]
fn no_end_where_the_sum_does_not_fit() {
    let a = album(vec![]);
    let t = track(Some("2147483647"), vec![location("A", Some("1"))]);
    assert_eq!(get_end_time(&a, &t, "1"), Err(Error::InvalidData));
    let u = track(Some("2147483646"), vec![location("A", Some("1"))]);
    assert_eq!(get_end_time(&a, &u, "1"), Ok(String::from("596523:14:7")));
}

#[test]
fn start_is_the_first_timestamp() {
    let t = track(
        None,
        vec![location("A", None), location("B", Some("0:3:0")), location("C", Some("0:4:0"))],
    );
    assert_eq!(get_track_start_time(&t), Ok(String::from("0:3:0")));
    let none = track(None, vec![location("A", None)]);
    assert_eq!(get_track_start_time(&none), Err(Error::InvalidData));
    let empty = track(None, vec![]);
    assert_eq!(get_track_start_time(&empty), Err(Error::InvalidData));
}

#[test]
fn next_track_is_looked_up_by_position_text() {
    let a = album(vec![
        ("9", track(None, vec![location("A", Some("0:0:0"))])),
        ("10", track(None, vec![location("A", Some("0:9:9"))])),
    ]);
    assert_eq!(get_next_track_time(&a, "9"), Ok(String::from("0:9:9")));
    assert_eq!(get_next_track_time(&a, "8"), Ok(String::from("0:0:0")));
    assert_eq!(get_next_track_time(&a, "10"), Err(Error::NotFound));
}
