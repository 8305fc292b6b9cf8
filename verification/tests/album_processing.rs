use yar::album::{album_action, album_advance, run_fits, AlbumJob, AlbumRun, Phase};
use yar::protocol::{Action, Event};
use yar::resolver::Resolution;
use yar::{Album, Config, Date, Error, Location, Track, Tracks};

fn config(download_covers: bool, keep_full_files: bool) -> Config<'static> {
    Config {
        debug_ytdl: false,
        debug_ffmpeg: false,
        debug: false,
        audio_fmt: "mp3",
        force: false,
        download_covers,
        keep_full_files,
    }
}

fn track(name: &str, url: &str, at: Option<&str>) -> Track {
    Track {
        name: String::from(name),
        duration: None,
        artists: None,
        artist: None,
        location: vec![Location { url: String::from(url), at: at.map(String::from) }],
        sample: None,
        lyrics: None,
        wave: None,
    }
}

fn album(tracks: Vec<(&str, Track)>) -> Album {
    let mut by_position = Tracks::new();
    for (position, track) in tracks {
        by_position.insert(String::from(position), track);
    }
    Album {
        name: String::from("Album Name"),
        artist: String::from("My Artist"),
        genre: String::from("Genre"),
        released: Date { year: 2020, month: 5, day: 17 },
        cover: String::from("https://example.org/cover.jpg"),
        tracks: by_position,
        track_count: 2,
    }
}

/// Processes an album with the given outcomes of its actions, and says what
/// was asked for and how it ended.
fn drive(job: &AlbumJob, events: Vec<Event>) -> (Vec<String>, Result<(), Error>, AlbumRun) {
    let mut asked = Vec::new();
    let mut run = AlbumRun::new();
    let mut events = events.into_iter();
    loop {
        assert!(run_fits(job, &run));
        match album_action(job, &run) {
            Action::Done(result) => {
                assert!(events.next().is_none());
                assert_eq!(run.outcome(), Some(result));
                return (asked, result, run);
            }
            Action::CreateDir(path) => asked.push(format!("mkdir {}", path)),
            Action::Probe(path) => asked.push(format!("probe {}", path)),
            Action::FetchCover(url) => asked.push(format!("cover {}", url)),
            Action::WriteCover(path, bytes) => asked.push(format!("write {} {:?}", path, bytes)),
            Action::ReadCover(path) => asked.push(format!("read {}", path)),
            Action::FetchFull(args) => asked.push(format!("full {}", args.join(" "))),
            Action::FetchTrack(args) => asked.push(format!("track {}", args.join(" "))),
            Action::Cut(args) => asked.push(format!("cut {}", args.join(" "))),
            Action::WriteTags(path, record) => asked.push(format!(
                "tags {} | {} | {}/{} | {:?}",
                path, record.title, record.track, record.total_tracks, record.cover
            )),
            Action::Remove(path) => asked.push(format!("remove {}", path)),
        }
        assert_eq!(run.outcome(), None);
        album_advance(job, &mut run, events.next().unwrap());
    }
}

#[test]
fn a_failed_track_does_not_abort_the_album() {
    let c = config(false, false);
    let a = album(vec![("1", track("One", "A", None)), ("2", track("Two", "B", None))]);
    let job = AlbumJob { config: &c, path_library: "lib/", album: &a };
    let (asked, result, _) = drive(
        &job,
        vec![
            Event::Finished(true),
            Event::Exists(false),
            Event::Bytes(Some(vec![7, 8])),
            Event::Exists(false),
            Event::Finished(false),
            Event::Exists(false),
            Event::Finished(true),
            Event::Finished(true),
        ],
    );
    assert_eq!(
        asked,
        vec![
            "mkdir lib/my-artist/album-name/",
            "probe lib/my-artist/album-name/cover.jpg",
            "cover https://example.org/cover.jpg",
            "probe lib/my-artist/album-name/1 - One.mp3",
            "track -x A -f mp3 --output lib/my-artist/album-name/1 - One.mp3",
            "probe lib/my-artist/album-name/2 - Two.mp3",
            "track -x B -f mp3 --output lib/my-artist/album-name/2 - Two.mp3",
            "tags lib/my-artist/album-name/2 - Two.mp3 | Two | 2/2 | Some([7, 8])",
        ]
    );
    assert_eq!(result, Ok(()));
}

#[test]
fn an_album_whose_only_track_fails_still_succeeds() {
    let c = config(false, false);
    let a = album(vec![("1", track("One", "A", None))]);
    let job = AlbumJob { config: &c, path_library: "lib/", album: &a };
    let (asked, result, _) = drive(
        &job,
        vec![
            Event::Finished(true),
            Event::Exists(false),
            Event::Bytes(None),
            Event::Exists(false),
            Event::Finished(false),
        ],
    );
    assert_eq!(asked.len(), 5);
    assert_eq!(result, Ok(()));
}

#[test]
fn a_fetched_cover_is_written_where_covers_are_kept() {
    let c = config(true, false);
    let a = album(vec![]);
    let job = AlbumJob { config: &c, path_library: "lib/", album: &a };
    let (asked, result, run) = drive(
        &job,
        vec![
            Event::Finished(true),
            Event::Exists(false),
            Event::Bytes(Some(vec![1, 2, 3])),
            Event::Finished(false),
        ],
    );
    assert_eq!(
        asked,
        vec![
            "mkdir lib/my-artist/album-name/",
            "probe lib/my-artist/album-name/cover.jpg",
            "cover https://example.org/cover.jpg",
            "write lib/my-artist/album-name/cover.jpg [1, 2, 3]",
        ]
    );
    assert_eq!(result, Ok(()));
    assert_eq!(run.cover, vec![1, 2, 3]);
}

#[test]
fn a_cover_on_disk_is_read() {
    let c = config(true, false);
    let a = album(vec![("1", track("One", "A", None))]);
    let job = AlbumJob { config: &c, path_library: "lib/", album: &a };
    let (asked, result, _) = drive(
        &job,
        vec![
            Event::Finished(true),
            Event::Exists(true),
            Event::Bytes(Some(vec![9])),
            Event::Exists(true),
            Event::Finished(true),
        ],
    );
    assert_eq!(
        asked,
        vec![
            "mkdir lib/my-artist/album-name/",
            "probe lib/my-artist/album-name/cover.jpg",
            "read lib/my-artist/album-name/cover.jpg",
            "probe lib/my-artist/album-name/1 - One.mp3",
            "tags lib/my-artist/album-name/1 - One.mp3 | One | 1/2 | Some([9])",
        ]
    );
    assert_eq!(result, Ok(()));
}

#[test]
fn an_album_goes_on_without_a_cover() {
    let c = config(true, false);
    let a = album(vec![("1", track("One", "A", None))]);
    let job = AlbumJob { config: &c, path_library: "lib/", album: &a };
    let (asked, result, _) = drive(
        &job,
        vec![
            Event::Finished(true),
            Event::Exists(true),
            Event::Bytes(None),
            Event::Exists(false),
            Event::Finished(true),
            Event::Finished(true),
        ],
    );
    assert_eq!(asked[5], "tags lib/my-artist/album-name/1 - One.mp3 | One | 1/2 | None");
    assert_eq!(result, Ok(()));
}

#[test]
fn tags_that_cannot_be_written_give_the_album_up() {
    let c = config(false, false);
    let a = album(vec![("1", track("One", "A", None)), ("2", track("Two", "B", None))]);
    let job = AlbumJob { config: &c, path_library: "lib/", album: &a };
    let (asked, result, _) = drive(
        &job,
        vec![
            Event::Finished(true),
            Event::Exists(false),
            Event::Bytes(None),
            Event::Exists(false),
            Event::Finished(true),
            Event::Finished(false),
        ],
    );
    assert_eq!(asked.len(), 6);
    assert_eq!(result, Err(Error::Unsupported));
}

#[test]
fn a_position_that_is_no_number_gives_the_album_up() {
    let c = config(false, false);
    let a = album(vec![("one", track("One", "A", None))]);
    let job = AlbumJob { config: &c, path_library: "lib/", album: &a };
    let (_, result, _) = drive(
        &job,
        vec![
            Event::Finished(true),
            Event::Exists(false),
            Event::Bytes(None),
            Event::Exists(false),
            Event::Finished(true),
        ],
    );
    assert_eq!(result, Err(Error::InvalidData));
}

#[test]
fn an_album_without_a_directory_is_given_up() {
    let c = config(false, false);
    let a = album(vec![("1", track("One", "A", None))]);
    let job = AlbumJob { config: &c, path_library: "lib/", album: &a };
    let (asked, result, _) = drive(&job, vec![Event::Finished(false)]);
    assert_eq!(asked, vec!["mkdir lib/my-artist/album-name/"]);
    assert_eq!(result, Err(Error::Io));
}

#[test]
fn full_recordings_are_removed_at_the_end() {
    let c = config(false, false);
    let a = album(vec![
        ("1", track("One", "A", Some("0:0:0"))),
        ("2", track("Two", "A", Some("0:3:0"))),
    ]);
    let job = AlbumJob { config: &c, path_library: "lib/", album: &a };
    let (asked, result, run) = drive(
        &job,
        vec![
            Event::Finished(true),
            Event::Exists(false),
            Event::Bytes(None),
            Event::Exists(false),
            Event::Exists(false),
            Event::Finished(true),
            Event::Finished(true),
            Event::Finished(true),
            Event::Exists(false),
            Event::Finished(true),
            Event::Finished(true),
            Event::Finished(false),
        ],
    );
    let dir = "lib/my-artist/album-name/";
    assert_eq!(
        asked[3..],
        vec![
            format!("probe {}1 - One.mp3", dir),
            format!("probe {}full.mp3", dir),
            format!("full -x A -f mp3 --output {}full.mp3", dir),
            format!("cut -i {0}full.mp3 -vn -c:a copy -ss 0:0:0 -to 0:3:0 {0}1 - One.mp3", dir),
            format!("tags {}1 - One.mp3 | One | 1/2 | None", dir),
            format!("probe {}2 - Two.mp3", dir),
            format!("cut -i {0}full.mp3 -vn -c:a copy -ss 0:3:0 {0}2 - Two.mp3", dir),
            format!("tags {}2 - Two.mp3 | Two | 2/2 | None", dir),
            format!("remove {}full.mp3", dir),
        ]
    );
    assert_eq!(result, Ok(()));
    assert_eq!(run.full_files, vec![format!("{}full.mp3", dir)]);
}

#[test]
fn full_recordings_are_kept_where_asked() {
    let c = config(false, true);
    let a = album(vec![("1", track("One", "A", Some("0:0:0")))]);
    let job = AlbumJob { config: &c, path_library: "lib/", album: &a };
    let (asked, result, run) = drive(
        &job,
        vec![
            Event::Finished(true),
            Event::Exists(false),
            Event::Bytes(None),
            Event::Exists(false),
            Event::Exists(true),
            Event::Finished(true),
            Event::Finished(true),
        ],
    );
    assert!(asked.iter().all(|a| !a.starts_with("remove") && !a.starts_with("full")));
    assert_eq!(result, Ok(()));
    assert_eq!(run.full_files.len(), 1);
}

#[test]
fn an_event_that_is_no_answer_gives_the_album_up() {
    let c = config(false, false);
    let a = album(vec![("1", track("One", "A", None))]);
    let job = AlbumJob { config: &c, path_library: "lib/", album: &a };
    let mut run = AlbumRun::new();
    album_advance(&job, &mut run, Event::Exists(true));
    assert_eq!(run.phase, Phase::Aborted(Error::Io));
    album_advance(&job, &mut run, Event::Finished(true));
    assert_eq!(run.phase, Phase::Aborted(Error::Io));
}

#[test]
fn a_state_that_does_not_fit_counts_as_given_up() {
    let c = config(false, false);
    let a = album(vec![("1", track("One", "A", None))]);
    let job = AlbumJob { config: &c, path_library: "lib/", album: &a };
    for phase in [
        Phase::Resolving(1, Resolution::ProbingOutput),
        Phase::Resolving(0, Resolution::Cutting(0)),
        Phase::Resolving(0, Resolution::Resolved),
        Phase::Tagging(5),
        Phase::Removing(0),
    ] {
        let mut run = AlbumRun { phase, cover: vec![], full_files: vec![] };
        assert!(!run_fits(&job, &run));
        assert!(matches!(album_action(&job, &run), Action::Done(Err(Error::NotFound))));
        album_advance(&job, &mut run, Event::Finished(true));
        assert_eq!(run.phase, Phase::Aborted(Error::NotFound));
    }
}
