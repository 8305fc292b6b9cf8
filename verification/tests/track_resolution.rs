use yar::protocol::{Action, Event};
use yar::resolver::{pending_action, resolve_start, resolve_step, state_fits, Job, Resolution};
use yar::{Album, Config, Date, Error, Location, Track, Tracks};

fn config(force: bool) -> Config<'static> {
    Config {
        debug_ytdl: false,
        debug_ffmpeg: false,
        debug: false,
        audio_fmt: "mp3",
        force,
        download_covers: true,
        keep_full_files: false,
    }
}

fn location(url: &str, at: Option<&str>) -> Location {
    Location { url: String::from(url), at: at.map(String::from) }
}

fn track(name: &str, duration: Option<&str>, location: Vec<Location>) -> Track {
    Track {
        name: String::from(name),
        duration: duration.map(String::from),
        artists: None,
        artist: None,
        location,
        sample: None,
        lyrics: None,
        wave: None,
    }
}

fn album(tracks: Vec<(&str, Track)>) -> Album {
    let mut by_position = Tracks::new();
    for (position, track) in tracks {
        by_position.insert(String::from(position), track);
    }
    Album {
        name: String::from("Album"),
        artist: String::from("Artist"),
        genre: String::from("Genre"),
        released: Date { year: 2020, month: 5, day: 17 },
        cover: String::from("https://example.org/cover.jpg"),
        tracks: by_position,
        track_count: 2,
    }
}

fn job_for<'a>(
    config: &'a Config<'a>,
    album: &'a Album,
    track: &'a Track,
    position: &'a str,
) -> Job<'a> {
    Job { config, out_dir: "out/", path_out: "out/1 - S.mp3", album, track, position }
}

/// Resolves a track with the given outcomes of its actions, and says what was
/// asked for and how it ended.
fn drive(
    job: &Job,
    files: &mut Vec<String>,
    events: Vec<Event>,
) -> (Vec<String>, Result<(), Error>) {
    let mut asked = Vec::new();
    let mut state = resolve_start();
    let mut events = events.into_iter();
    loop {
        match pending_action(job, state) {
            Action::Done(result) => {
                assert!(events.next().is_none());
                return (asked, result);
            }
            action => asked.push(format!("{:?}", action)),
        }
        let event = events.next().unwrap();
        state = resolve_step(job, files, state, &event);
        assert!(state_fits(job, state));
    }
}

fn probe(path: &str) -> String {
    format!("{:?}", Action::Probe(String::from(path)))
}

fn fetch_full(url: &str) -> String {
    let args = vec!["-x", url, "-f", "mp3", "--output", "out/full.mp3"];
    format!("{:?}", Action::FetchFull(args.into_iter().map(String::from).collect()))
}

fn fetch_track(url: &str) -> String {
    let args = vec!["-x", url, "-f", "mp3", "--output", "out/1 - S.mp3"];
    format!("{:?}", Action::FetchTrack(args.into_iter().map(String::from).collect()))
}

fn cut(start: &str, end: Option<&str>) -> String {
    let mut args = vec!["-i", "out/full.mp3", "-vn", "-c:a", "copy", "-ss", start];
    if let Some(end) = end {
        args.push("-to");
        args.push(end);
    }
    args.push("out/1 - S.mp3");
    format!("{:?}", Action::Cut(args.into_iter().map(String::from).collect()))
}

#[test]
fn an_existing_output_is_skipped() {
    let c = config(false);
    let t = track("S", None, vec![location("A", Some("0:1:0")), location("B", None)]);
    let a = album(vec![]);
    let job = job_for(&c, &a, &t, "1");
    let mut files = Vec::new();
    let (asked, result) = drive(&job, &mut files, vec![Event::Exists(true)]);
    assert_eq!(asked, vec![probe("out/1 - S.mp3")]);
    assert_eq!(result, Ok(()));
    assert!(files.is_empty());
    let state = resolve_step(&job, &mut files, resolve_start(), &Event::Exists(true));
    assert_eq!(state, Resolution::Skipped);
}

#[test]
fn a_forced_run_fetches_although_the_output_exists() {
    let c = config(true);
    let t = track("S", None, vec![location("B", None)]);
    let a = album(vec![]);
    let job = job_for(&c, &a, &t, "1");
    let mut files = Vec::new();
    let (asked, result) =
        drive(&job, &mut files, vec![Event::Exists(true), Event::Finished(true)]);
    assert_eq!(asked, vec![probe("out/1 - S.mp3"), fetch_track("B")]);
    assert_eq!(result, Ok(()));
}

#[test]
fn direct_sources_are_tried_in_order() {
    let c = config(false);
    let t = track("S", None, vec![location("B", None), location("C", None), location("D", None)]);
    let a = album(vec![]);
    let job = job_for(&c, &a, &t, "1");
    let mut files = Vec::new();
    let (asked, result) = drive(
        &job,
        &mut files,
        vec![Event::Exists(false), Event::Finished(false), Event::Finished(true)],
    );
    assert_eq!(asked, vec![probe("out/1 - S.mp3"), fetch_track("B"), fetch_track("C")]);
    assert_eq!(result, Ok(()));
    assert!(files.is_empty());
}

#[test]
fn all_locations_failed() {
    let c = config(false);
    let t = track("S", None, vec![location("B", None), location("C", None)]);
    let a = album(vec![]);
    let job = job_for(&c, &a, &t, "1");
    let mut files = Vec::new();
    let (asked, result) = drive(
        &job,
        &mut files,
        vec![Event::Exists(false), Event::Finished(false), Event::Finished(false)],
    );
    assert_eq!(asked, vec![probe("out/1 - S.mp3"), fetch_track("B"), fetch_track("C")]);
    assert_eq!(result, Err(Error::NotFound));
}

#[test]
fn a_track_without_locations_fails() {
    let c = config(false);
    let t = track("S", None, vec![]);
    let a = album(vec![]);
    let job = job_for(&c, &a, &t, "1");
    let mut files = Vec::new();
    let (asked, result) = drive(&job, &mut files, vec![Event::Exists(false)]);
    assert_eq!(asked, vec![probe("out/1 - S.mp3")]);
    assert_eq!(result, Err(Error::NotFound));
}

#[test]
fn a_slice_is_cut_out_of_the_fetched_full_recording() {
    let c = config(false);
    let t = track("S", Some("0:0:30"), vec![location("A", Some("0:1:0"))]);
    let a = album(vec![]);
    let job = job_for(&c, &a, &t, "1");
    let mut files = Vec::new();
    let (asked, result) = drive(
        &job,
        &mut files,
        vec![Event::Exists(false), Event::Exists(false), Event::Finished(true), Event::Finished(true)],
    );
    assert_eq!(
        asked,
        vec![
            probe("out/1 - S.mp3"),
            probe("out/full.mp3"),
            fetch_full("A"),
            cut("0:1:0", Some("0:1:30"))
        ]
    );
    assert_eq!(result, Ok(()));
    assert_eq!(files, vec![String::from("out/full.mp3")]);
}

#[test]
fn a_full_recording_on_disk_is_not_fetched() {
    let c = config(false);
    let t = track("S", None, vec![location("A", Some("0:1:0"))]);
    let next = track("T", None, vec![location("A", Some("0:2:00"))]);
    let a = album(vec![("2", next)]);
    let job = job_for(&c, &a, &t, "1");
    let mut files = Vec::new();
    let (asked, result) = drive(
        &job,
        &mut files,
        vec![Event::Exists(false), Event::Exists(true), Event::Finished(true)],
    );
    assert_eq!(
        asked,
        vec![probe("out/1 - S.mp3"), probe("out/full.mp3"), cut("0:1:0", Some("0:2:00"))]
    );
    assert_eq!(result, Ok(()));
    assert_eq!(files, vec![String::from("out/full.mp3")]);
}

#[test]
fn resolving_twice_fetches_the_full_recording_once() {
    let c = config(false);
    let first = track("S", None, vec![location("A", Some("0:0:0"))]);
    let second = track("S", None, vec![location("A", Some("0:2:00"))]);
    let a = album(vec![
        ("1", track("S", None, vec![location("A", Some("0:0:0"))])),
        ("2", track("S", None, vec![location("A", Some("0:2:00"))])),
    ]);
    let mut files = Vec::new();
    let job = job_for(&c, &a, &first, "1");
    let (asked, result) = drive(
        &job,
        &mut files,
        vec![Event::Exists(false), Event::Exists(false), Event::Finished(true), Event::Finished(true)],
    );
    assert_eq!(result, Ok(()));
    assert_eq!(asked.iter().filter(|a| a.starts_with("FetchFull")).count(), 1);
    assert_eq!(asked[3], cut("0:0:0", Some("0:2:00")));
    let job = job_for(&c, &a, &second, "2");
    let (asked, result) =
        drive(&job, &mut files, vec![Event::Exists(false), Event::Finished(true)]);
    assert_eq!(result, Ok(()));
    assert_eq!(asked, vec![probe("out/1 - S.mp3"), cut("0:2:00", None)]);
    assert_eq!(files, vec![String::from("out/full.mp3")]);
}

#[test]
fn a_failed_fetch_of_the_full_recording_fails_the_track() {
    let c = config(false);
    let t = track("S", None, vec![location("A", Some("0:1:0")), location("B", None)]);
    let a = album(vec![]);
    let job = job_for(&c, &a, &t, "1");
    let mut files = Vec::new();
    let (asked, result) = drive(
        &job,
        &mut files,
        vec![Event::Exists(false), Event::Exists(false), Event::Finished(false)],
    );
    assert_eq!(asked, vec![probe("out/1 - S.mp3"), probe("out/full.mp3"), fetch_full("A")]);
    assert_eq!(result, Err(Error::Io));
    assert!(files.is_empty());
}

#[test]
fn a_failed_cut_fails_the_track() {
    let c = config(false);
    let t = track("S", None, vec![location("A", Some("0:1:0")), location("B", None)]);
    let a = album(vec![]);
    let job = job_for(&c, &a, &t, "1");
    let mut files = vec![String::from("out/full.mp3")];
    let (asked, result) =
        drive(&job, &mut files, vec![Event::Exists(false), Event::Finished(false)]);
    assert_eq!(asked, vec![probe("out/1 - S.mp3"), cut("0:1:0", None)]);
    assert_eq!(result, Err(Error::Io));
}

#[test]
fn a_slice_after_a_failed_direct_source() {
    let c = config(false);
    let t = track("S", Some("x"), vec![location("B", None), location("A", Some("0:1:0"))]);
    let a = album(vec![]);
    let job = job_for(&c, &a, &t, "1");
    let mut files = vec![String::from("out/full.mp3")];
    let (asked, result) = drive(
        &job,
        &mut files,
        vec![Event::Exists(false), Event::Finished(false), Event::Finished(true)],
    );
    assert_eq!(asked, vec![probe("out/1 - S.mp3"), fetch_track("B"), cut("0:1:0", None)]);
    assert_eq!(result, Ok(()));
}

#[test]
fn an_event_that_is_no_answer_fails_the_track() {
    let c = config(false);
    let t = track("S", None, vec![location("B", None)]);
    let a = album(vec![]);
    let job = job_for(&c, &a, &t, "1");
    let mut files = Vec::new();
    assert_eq!(
        resolve_step(&job, &mut files, Resolution::ProbingOutput, &Event::Finished(true)),
        Resolution::Failed(Error::Io)
    );
    assert_eq!(
        resolve_step(&job, &mut files, Resolution::FetchingTrack(0), &Event::Exists(true)),
        Resolution::Failed(Error::Io)
    );
    assert_eq!(
        resolve_step(&job, &mut files, Resolution::FetchingTrack(0), &Event::Bytes(None)),
        Resolution::Failed(Error::Io)
    );
}

#[test]
fn nothing_follows_an_end() {
    let c = config(false);
    let t = track("S", None, vec![location("B", None)]);
    let a = album(vec![]);
    let job = job_for(&c, &a, &t, "1");
    let mut files = Vec::new();
    for state in [Resolution::Skipped, Resolution::Resolved, Resolution::Failed(Error::Io)] {
        assert_eq!(resolve_step(&job, &mut files, state, &Event::Finished(true)), state);
        assert_eq!(resolve_step(&job, &mut files, state, &Event::Exists(false)), state);
    }
    assert!(files.is_empty());
}

#[test]
fn a_state_that_does_not_fit_counts_as_failed() {
    let c = config(false);
    let t = track("S", None, vec![location("B", None)]);
    let a = album(vec![]);
    let job = job_for(&c, &a, &t, "1");
    let mut files = Vec::new();
    for state in [
        Resolution::Cutting(0),
        Resolution::ProbingFull(0),
        Resolution::FetchingFull(0),
        Resolution::FetchingTrack(1),
    ] {
        assert!(!state_fits(&job, state));
        assert!(matches!(pending_action(&job, state), Action::Done(Err(Error::NotFound))));
        assert_eq!(
            resolve_step(&job, &mut files, state, &Event::Finished(true)),
            Resolution::Failed(Error::NotFound)
        );
    }
}
