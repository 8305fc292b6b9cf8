use crate::error::Error;
use crate::model::{Album, AlbumView, Config, ConfigView};
use crate::naming::{
    album_dir, cover_path, get_path_album, get_path_cover, get_path_track, track_path,
};
use crate::protocol::{Action, ActionView, Event, EventView};
use crate::resolver::{
    fits, is_final, pending, pending_action, resolve_step, state_fits, step, Job, JobView,
    Resolution,
};
use crate::tagger::{assemble_tags, tag_record};
use crate::text::texts;
use vstd::prelude::*;

verus! {

/// All that processing one album depends on.
pub struct AlbumJob<'a> {
    pub config: &'a Config<'a>,
    /// The directory of the library, below which the album gets its own.
    pub path_library: &'a str,
    pub album: &'a Album,
}

/// What an `AlbumJob` holds, as mathematical values.
pub struct AlbumJobView {
    pub config: ConfigView,
    pub path_library: Seq<char>,
    pub album: AlbumView,
}

impl<'a> View for AlbumJob<'a> {
    type V = AlbumJobView;

    open spec fn view(&self) -> AlbumJobView {
        AlbumJobView {
            config: self.config@,
            path_library: self.path_library@,
            album: self.album@,
        }
    }
}

/// Where the processing of an album stands. But for the last two, each phase
/// waits for the outcome of one action.
#[derive(Clone, Copy, Debug, PartialEq, Eq, Structural)]
pub enum Phase {
    /// Creating the directory of the album.
    CreatingDir,
    /// Asked whether the cover image is on disk.
    ProbingCover,
    /// Fetching the cover image.
    FetchingCover,
    /// Writing the fetched cover image to disk.
    WritingCover,
    /// Reading the cover image from disk.
    ReadingCover,
    /// Resolving the track at this index, which has come this far.
    Resolving(usize, Resolution),
    /// Writing the tags of the track at this index.
    Tagging(usize),
    /// Removing the registered full recording at this index.
    Removing(usize),
    /// The album has been processed.
    Completed,
    /// The processing was given up.
    Aborted(Error),
}

/// The processing of one album: its phase, the bytes of the cover image, and
/// the shared full recordings that are registered.
#[derive(Debug)]
pub struct AlbumRun {
    pub phase: Phase,
    pub cover: Vec<u8>,
    pub full_files: Vec<String>,
}

/// What an `AlbumRun` holds, as mathematical values.
pub struct AlbumRunView {
    pub phase: Phase,
    pub cover: Seq<u8>,
    pub full_files: Seq<Seq<char>>,
}

impl View for AlbumRun {
    type V = AlbumRunView;

    open spec fn view(&self) -> AlbumRunView {
        AlbumRunView { phase: self.phase, cover: self.cover@, full_files: texts(self.full_files@) }
    }
}

/// What resolving the track at `index` depends on.
pub open spec fn track_job(job: AlbumJobView, index: int) -> JobView {
    let dir = album_dir(job.path_library, job.album);
    let entry = job.album.tracks[index];
    JobView {
        config: job.config,
        out_dir: dir,
        path_out: track_path(dir, entry.0, entry.1.name, job.config.audio_fmt),
        album: job.album,
        track: entry.1,
        position: entry.0,
    }
}

/// The phase in which the registered full recording at `index` is taken up:
/// it is removed, unless full recordings are kept; after the last one the
/// album is done.
pub open spec fn clean_up(job: AlbumJobView, files: Seq<Seq<char>>, index: int) -> Phase {
    if job.config.keep_full_files || index < 0 || index >= files.len() || index > usize::MAX {
        Phase::Completed
    } else {
        Phase::Removing(index as usize)
    }
}

/// The phase in which the track at `index` is taken up; after the last track
/// the cleaning up begins.
pub open spec fn take_track(job: AlbumJobView, files: Seq<Seq<char>>, index: int) -> Phase {
    if 0 <= index < job.album.tracks.len() && index <= usize::MAX {
        Phase::Resolving(index as usize, Resolution::ProbingOutput)
    } else {
        clean_up(job, files, 0)
    }
}

/// The phase after the resolving of the track at `index` has come to
/// `resolution`. A track that was resolved or skipped gets its tags; where
/// they cannot be assembled the album is given up. A track that failed is
/// left behind, and the next one is taken up.
pub open spec fn after_resolution(
    job: AlbumJobView,
    cover: Seq<u8>,
    files: Seq<Seq<char>>,
    index: usize,
    resolution: Resolution,
) -> Phase {
    let entry = job.album.tracks[index as int];
    match resolution {
        Resolution::Failed(_) => take_track(job, files, index + 1),
        Resolution::Skipped | Resolution::Resolved => match tag_record(
            job.album,
            entry.1,
            entry.0,
            cover,
        ) {
            Ok(_) => Phase::Tagging(index),
            Err(e) => Phase::Aborted(e),
        },
        _ => Phase::Resolving(index, resolution),
    }
}

/// Whether `state` is one that the processing of this album can be in.
pub open spec fn album_fits(job: AlbumJobView, state: AlbumRunView) -> bool {
    match state.phase {
        Phase::Resolving(i, resolution) => i < job.album.tracks.len() && fits(
            track_job(job, i as int),
            resolution,
        ) && !is_final(resolution),
        Phase::Tagging(i) => i < job.album.tracks.len() && tag_record(
            job.album,
            job.album.tracks[i as int].1,
            job.album.tracks[i as int].0,
            state.cover,
        ) is Ok,
        Phase::Removing(i) => i < state.full_files.len() && !job.config.keep_full_files,
        _ => true,
    }
}

/// The action that `state` waits for. A state that does not fit the album
/// counts as given up.
pub open spec fn awaited(job: AlbumJobView, state: AlbumRunView) -> ActionView {
    let dir = album_dir(job.path_library, job.album);
    if !album_fits(job, state) {
        ActionView::Done(Err(Error::NotFound))
    } else {
        match state.phase {
            Phase::CreatingDir => ActionView::CreateDir(dir),
            Phase::ProbingCover => ActionView::Probe(cover_path(dir)),
            Phase::FetchingCover => ActionView::FetchCover(job.album.cover),
            Phase::WritingCover => ActionView::WriteCover(cover_path(dir), state.cover),
            Phase::ReadingCover => ActionView::ReadCover(cover_path(dir)),
            Phase::Resolving(i, resolution) => pending(track_job(job, i as int), resolution),
            Phase::Tagging(i) => ActionView::WriteTags(
                track_job(job, i as int).path_out,
                tag_record(
                    job.album,
                    job.album.tracks[i as int].1,
                    job.album.tracks[i as int].0,
                    state.cover,
                )->Ok_0,
            ),
            Phase::Removing(i) => ActionView::Remove(state.full_files[i as int]),
            Phase::Completed => ActionView::Done(Ok(())),
            Phase::Aborted(e) => ActionView::Done(Err(e)),
        }
    }
}

/// The state after `event` has answered the action that `state` waited for.
///
/// The directory of the album is created first; without it the album is
/// given up. The cover image is fetched where it is not on disk or the run
/// is forced, and written to disk where covers are kept; else it is read from
/// disk. An album without the bytes of a cover goes on without one, and so
/// does one whose cover could not be written. Then the tracks are resolved
/// in order. A track that fails is left behind. A track that was resolved or
/// skipped gets its tags; where that fails the album is given up. After the
/// last track the registered full recordings are removed, unless they are
/// kept; a recording that cannot be removed is left behind. An event that
/// does not answer the pending action gives the album up, and so does a
/// state that does not fit the album. Nothing follows an end.
pub open spec fn advance(job: AlbumJobView, state: AlbumRunView, event: EventView) -> AlbumRunView {
    let files = state.full_files;
    if !album_fits(job, state) {
        AlbumRunView { phase: Phase::Aborted(Error::NotFound), ..state }
    } else {
        match state.phase {
            Phase::CreatingDir => match event {
                EventView::Finished(ok) => AlbumRunView {
                    phase: if ok {
                        Phase::ProbingCover
                    } else {
                        Phase::Aborted(Error::Io)
                    },
                    ..state
                },
                _ => AlbumRunView { phase: Phase::Aborted(Error::Io), ..state },
            },
            Phase::ProbingCover => match event {
                EventView::Exists(found) => AlbumRunView {
                    phase: if !found || job.config.force {
                        Phase::FetchingCover
                    } else {
                        Phase::ReadingCover
                    },
                    ..state
                },
                _ => AlbumRunView { phase: Phase::Aborted(Error::Io), ..state },
            },
            Phase::FetchingCover => match event {
                EventView::Bytes(Some(bytes)) => AlbumRunView {
                    phase: if job.config.download_covers {
                        Phase::WritingCover
                    } else {
                        take_track(job, files, 0)
                    },
                    cover: bytes,
                    ..state
                },
                EventView::Bytes(None) => AlbumRunView {
                    phase: take_track(job, files, 0),
                    cover: Seq::empty(),
                    ..state
                },
                _ => AlbumRunView { phase: Phase::Aborted(Error::Io), ..state },
            },
            Phase::WritingCover => match event {
                EventView::Finished(_) => AlbumRunView {
                    phase: take_track(job, files, 0),
                    ..state
                },
                _ => AlbumRunView { phase: Phase::Aborted(Error::Io), ..state },
            },
            Phase::ReadingCover => match event {
                EventView::Bytes(Some(bytes)) => AlbumRunView {
                    phase: take_track(job, files, 0),
                    cover: bytes,
                    ..state
                },
                EventView::Bytes(None) => AlbumRunView {
                    phase: take_track(job, files, 0),
                    cover: Seq::empty(),
                    ..state
                },
                _ => AlbumRunView { phase: Phase::Aborted(Error::Io), ..state },
            },
            Phase::Resolving(i, resolution) => {
                let next = step(track_job(job, i as int), files, resolution, event);
                AlbumRunView {
                    phase: after_resolution(job, state.cover, next.1, i, next.0),
                    full_files: next.1,
                    ..state
                }
            },
            Phase::Tagging(i) => match event {
                EventView::Finished(ok) => AlbumRunView {
                    phase: if ok {
                        take_track(job, files, i + 1)
                    } else {
                        Phase::Aborted(Error::Unsupported)
                    },
                    ..state
                },
                _ => AlbumRunView { phase: Phase::Aborted(Error::Io), ..state },
            },
            Phase::Removing(i) => match event {
                EventView::Finished(_) => AlbumRunView {
                    phase: clean_up(job, files, i + 1),
                    ..state
                },
                _ => AlbumRunView { phase: Phase::Aborted(Error::Io), ..state },
            },
            _ => state,
        }
    }
}

/// A copy of `bytes`.
fn copy_bytes(bytes: &Vec<u8>) -> (copy: Vec<u8>)
    ensures
        copy@ == bytes@,
{
    let mut copy: Vec<u8> = Vec::new();
    let mut i: usize = 0;
    while i < bytes.len()
        invariant
            i <= bytes.len(),
            copy@ == bytes@.take(i as int),
        decreases bytes.len() - i,
    {
        copy.push(bytes[i]);
        i += 1;
    }
    copy
}

/// The phase in which the registered full recording at `index` is taken up.
fn clean_up_from(job: &AlbumJob, files: &Vec<String>, index: usize) -> (phase: Phase)
    ensures
        phase == clean_up(job@, texts(files@), index as int),
{
    if job.config.keep_full_files || index >= files.len() {
        Phase::Completed
    } else {
        Phase::Removing(index)
    }
}

/// The phase in which the track at `index` is taken up.
fn take_track_at(job: &AlbumJob, files: &Vec<String>, index: usize) -> (phase: Phase)
    ensures
        phase == take_track(job@, texts(files@), index as int),
{
    if index < job.album.tracks.len() {
        Phase::Resolving(index, Resolution::ProbingOutput)
    } else {
        clean_up_from(job, files, 0)
    }
}

/// The directory of an album and the audio file of one of its tracks.
struct TrackPaths {
    dir: String,
    path_out: String,
}

/// The directory of the album and the audio file of the track at `index`.
fn track_paths(job: &AlbumJob, index: usize) -> (paths: TrackPaths)
    requires
        index < job@.album.tracks.len(),
    ensures
        paths.dir@ == track_job(job@, index as int).out_dir,
        paths.path_out@ == track_job(job@, index as int).path_out,
{
    let dir = get_path_album(job.path_library, job.album);
    let path_out = get_path_track(
        dir.as_str(),
        job.album.tracks.position(index).as_str(),
        job.album.tracks.track(index).name.as_str(),
        job.config.audio_fmt,
    );
    TrackPaths { dir, path_out }
}

/// What resolving the track at `index` depends on.
fn job_at<'a>(job: &'a AlbumJob<'a>, paths: &'a TrackPaths, index: usize) -> (resolving: Job<'a>)
    requires
        index < job@.album.tracks.len(),
        paths.dir@ == track_job(job@, index as int).out_dir,
        paths.path_out@ == track_job(job@, index as int).path_out,
    ensures
        resolving@ == track_job(job@, index as int),
{
    Job {
        config: job.config,
        out_dir: paths.dir.as_str(),
        path_out: paths.path_out.as_str(),
        album: job.album,
        track: job.album.tracks.track(index),
        position: job.album.tracks.position(index).as_str(),
    }
}

impl AlbumRun {
    /// The beginning of the processing of an album.
    pub fn new() -> (run: AlbumRun)
        ensures
            run@ == (AlbumRunView {
                phase: Phase::CreatingDir,
                cover: Seq::empty(),
                full_files: Seq::empty(),
            }),
    {
        let run = AlbumRun { phase: Phase::CreatingDir, cover: Vec::new(), full_files: Vec::new() };
        assert(texts(run.full_files@) == Seq::<Seq<char>>::empty());
        run
    }

    /// Whether the processing has ended, and how.
    pub fn outcome(&self) -> (outcome: Option<Result<(), Error>>)
        ensures
            outcome == match self.phase {
                Phase::Completed => Some(Ok::<(), Error>(())),
                Phase::Aborted(e) => Some(Err::<(), Error>(e)),
                _ => None::<Result<(), Error>>,
            },
    {
        match self.phase {
            Phase::Completed => Some(Ok(())),
            Phase::Aborted(e) => Some(Err(e)),
            _ => None,
        }
    }
}

/// Whether `run` is in a state that the processing of this album can be in.
pub fn run_fits(job: &AlbumJob, run: &AlbumRun) -> (yes: bool)
    ensures
        yes == album_fits(job@, run@),
{
    match run.phase {
        Phase::Resolving(i, resolution) => {
            if i >= job.album.tracks.len() {
                return false;
            }
            let paths = track_paths(job, i);
            let resolving = job_at(job, &paths, i);
            let done = match resolution {
                Resolution::Skipped => true,
                Resolution::Resolved => true,
                Resolution::Failed(_) => true,
                _ => false,
            };
            state_fits(&resolving, resolution) && !done
        },
        Phase::Tagging(i) => {
            if i >= job.album.tracks.len() {
                return false;
            }
            let track = job.album.tracks.track(i);
            let position = job.album.tracks.position(i);
            assemble_tags(job.album, track, position.as_str(), copy_bytes(&run.cover)).is_ok()
        },
        Phase::Removing(i) => i < run.full_files.len() && !job.config.keep_full_files,
        _ => true,
    }
}

/// The action that the processing of the album waits for.
pub fn album_action(job: &AlbumJob, run: &AlbumRun) -> (action: Action)
    ensures
        action@ == awaited(job@, run@),
{
    if !run_fits(job, run) {
        return Action::Done(Err(Error::NotFound));
    }
    let dir = get_path_album(job.path_library, job.album);
    match run.phase {
        Phase::CreatingDir => Action::CreateDir(dir),
        Phase::ProbingCover => Action::Probe(get_path_cover(dir.as_str())),
        Phase::FetchingCover => Action::FetchCover(job.album.cover.clone()),
        Phase::WritingCover => Action::WriteCover(
            get_path_cover(dir.as_str()),
            copy_bytes(&run.cover),
        ),
        Phase::ReadingCover => Action::ReadCover(get_path_cover(dir.as_str())),
        Phase::Resolving(i, resolution) => {
            let paths = track_paths(job, i);
            let resolving = job_at(job, &paths, i);
            pending_action(&resolving, resolution)
        },
        Phase::Tagging(i) => {
            let track = job.album.tracks.track(i);
            let position = job.album.tracks.position(i);
            let paths = track_paths(job, i);
            match assemble_tags(job.album, track, position.as_str(), copy_bytes(&run.cover)) {
                Ok(record) => Action::WriteTags(paths.path_out, record),
                Err(e) => Action::Done(Err(Error::NotFound)),
            }
        },
        Phase::Removing(i) => Action::Remove(run.full_files[i].clone()),
        Phase::Completed => Action::Done(Ok(())),
        Phase::Aborted(e) => Action::Done(Err(e)),
    }
}

/// Takes in the outcome of the action that the processing waited for.
pub fn album_advance(job: &AlbumJob, run: &mut AlbumRun, event: Event)
    ensures
        final(run)@ == advance(job@, old(run)@, event@),
{
    if !run_fits(job, run) {
        run.phase = Phase::Aborted(Error::NotFound);
        return ;
    }
    match run.phase {
        Phase::CreatingDir => {
            run.phase = match event {
                Event::Finished(true) => Phase::ProbingCover,
                _ => Phase::Aborted(Error::Io),
            };
        },
        Phase::ProbingCover => {
            run.phase = match event {
                Event::Exists(found) => if !found || job.config.force {
                    Phase::FetchingCover
                } else {
                    Phase::ReadingCover
                },
                _ => Phase::Aborted(Error::Io),
            };
        },
        Phase::FetchingCover => match event {
            Event::Bytes(Some(bytes)) => {
                run.cover = bytes;
                run.phase = if job.config.download_covers {
                    Phase::WritingCover
                } else {
                    take_track_at(job, &run.full_files, 0)
                };
            },
            Event::Bytes(None) => {
                run.cover = Vec::new();
                run.phase = take_track_at(job, &run.full_files, 0);
            },
            _ => {
                run.phase = Phase::Aborted(Error::Io);
            },
        },
        Phase::WritingCover => {
            run.phase = match event {
                Event::Finished(_) => take_track_at(job, &run.full_files, 0),
                _ => Phase::Aborted(Error::Io),
            };
        },
        Phase::ReadingCover => match event {
            Event::Bytes(Some(bytes)) => {
                run.cover = bytes;
                run.phase = take_track_at(job, &run.full_files, 0);
            },
            Event::Bytes(None) => {
                run.cover = Vec::new();
                run.phase = take_track_at(job, &run.full_files, 0);
            },
            _ => {
                run.phase = Phase::Aborted(Error::Io);
            },
        },
        Phase::Resolving(i, resolution) => {
            let paths = track_paths(job, i);
            let resolving = job_at(job, &paths, i);
            let next = resolve_step(&resolving, &mut run.full_files, resolution, &event);
            run.phase = match next {
                Resolution::Failed(_) => {
                    let tracks: usize = job.album.tracks.len();
                    assert(i < tracks);
                    take_track_at(job, &run.full_files, i + 1)
                },
                Resolution::Skipped | Resolution::Resolved => match assemble_tags(
                    job.album,
                    resolving.track,
                    resolving.position,
                    copy_bytes(&run.cover),
                ) {
                    Ok(_) => Phase::Tagging(i),
                    Err(e) => Phase::Aborted(e),
                },
                _ => Phase::Resolving(i, next),
            };
        },
        Phase::Tagging(i) => {
            run.phase = match event {
                Event::Finished(true) => {
                    let tracks: usize = job.album.tracks.len();
                    assert(i < tracks);
                    take_track_at(job, &run.full_files, i + 1)
                },
                Event::Finished(false) => Phase::Aborted(Error::Unsupported),
                _ => Phase::Aborted(Error::Io),
            };
        },
        Phase::Removing(i) => {
            run.phase = match event {
                Event::Finished(_) => {
                    let files: usize = run.full_files.len();
                    assert(i < files);
                    clean_up_from(job, &run.full_files, i + 1)
                },
                _ => Phase::Aborted(Error::Io),
            };
        },
        _ => {},
    }
}

/// Whether `event` is an outcome that `action` can have.
pub open spec fn answers(action: ActionView, event: EventView) -> bool {
    match action {
        ActionView::Probe(_) => event is Exists,
        ActionView::FetchCover(_) => event is Bytes,
        ActionView::ReadCover(_) => event is Bytes,
        ActionView::Done(_) => false,
        _ => event is Finished,
    }
}

/// Whether the album can be tagged: it declares no negative number of
/// tracks, and the position of each track is an unsigned 32-bit number.
pub open spec fn taggable(album: AlbumView) -> bool {
    album.track_count >= 0 && forall|i: int|
        0 <= i < album.tracks.len() ==> crate::number::u32_value(#[trigger] album.tracks[i].0)
            is Some
}

/// Whether each of `events`, taken as the outcomes of the actions from
/// `state` on, answers its action, the directory of the album can be
/// created, and no writing of tags fails.
pub open spec fn well_answered(
    job: AlbumJobView,
    state: AlbumRunView,
    events: Seq<EventView>,
) -> bool
    decreases events.len(),
{
    if events.len() == 0 || awaited(job, state) is Done {
        true
    } else {
        let action = awaited(job, state);
        answers(action, events[0]) && !((action is CreateDir || action is WriteTags) && events[0]
            == EventView::Finished(false)) && well_answered(
            job,
            advance(job, state, events[0]),
            events.drop_first(),
        )
    }
}

/// The state that the processing comes to from `state` when the outcomes of
/// the actions are `events`, one after the other. It goes no further than
/// its end, and no further than the events.
pub open spec fn process(
    job: AlbumJobView,
    state: AlbumRunView,
    events: Seq<EventView>,
) -> AlbumRunView
    decreases events.len(),
{
    if events.len() == 0 || awaited(job, state) is Done {
        state
    } else {
        process(job, advance(job, state, events[0]), events.drop_first())
    }
}

/// The state in which the processing of an album begins.
pub open spec fn beginning() -> AlbumRunView {
    AlbumRunView { phase: Phase::CreatingDir, cover: Seq::empty(), full_files: Seq::empty() }
}

/// Whatever the state and the event, the state after a step fits the album.
pub proof fn law_advance_fits(job: AlbumJobView, state: AlbumRunView, event: EventView)
    ensures
        album_fits(job, advance(job, state, event)),
        album_fits(job, beginning()),
{
    if album_fits(job, state) {
        match state.phase {
            Phase::Resolving(i, resolution) => {
                crate::resolver::law_step_fits(
                    track_job(job, i as int),
                    state.full_files,
                    resolution,
                    event,
                );
            },
            _ => {},
        }
    }
}

/// A track that fails is left behind: the album goes on with the next
/// track, or with the cleaning up after the last one, and is not given up.
pub proof fn law_failed_track_is_left_behind(
    job: AlbumJobView,
    state: AlbumRunView,
    event: EventView,
    index: usize,
    resolution: Resolution,
)
    requires
        album_fits(job, state),
        state.phase == Phase::Resolving(index, resolution),
        step(track_job(job, index as int), state.full_files, resolution, event).0 is Failed,
    ensures
        advance(job, state, event).phase == take_track(
            job,
            advance(job, state, event).full_files,
            index + 1,
        ),
        !(advance(job, state, event).phase is Aborted),
        advance(job, state, event).cover == state.cover,
{
}

/// What an album is given up for: its directory that cannot be created, tags
/// that cannot be assembled or written, and an event that does not answer
/// its action. Never for a track that cannot be had.
pub proof fn law_what_gives_an_album_up(job: AlbumJobView, state: AlbumRunView, event: EventView)
    requires
        album_fits(job, state),
        !(state.phase is Aborted),
        answers(awaited(job, state), event),
        advance(job, state, event).phase is Aborted,
    ensures
        state.phase is CreatingDir || state.phase is Tagging || (state.phase is Resolving && !(step(
            track_job(job, state.phase->Resolving_0 as int),
            state.full_files,
            state.phase->Resolving_1,
            event,
        ).0 is Failed)),
        state.phase is CreatingDir || state.phase is Tagging ==> event == EventView::Finished(
            false,
        ),
        state.phase is Resolving ==> !taggable(job.album),
{
    match state.phase {
        Phase::Resolving(i, resolution) => {
            let inner = track_job(job, i as int);
            let next = step(inner, state.full_files, resolution, event);
            assert(pending(inner, resolution) == awaited(job, state));
            assert(next.0 is Skipped || next.0 is Resolved);
        },
        _ => {},
    }
}

/// An album is not given up over its tracks. Where the album can be tagged,
/// its directory can be created and no writing of tags fails, the
/// processing is never given up, however the fetching and the cutting of
/// its tracks end, and whatever is on disk; and where it ends, it ends in
/// success.
pub proof fn law_track_failures_do_not_abort(
    job: AlbumJobView,
    state: AlbumRunView,
    events: Seq<EventView>,
)
    requires
        taggable(job.album),
        album_fits(job, state),
        !(state.phase is Aborted),
        well_answered(job, state, events),
    ensures
        !(process(job, state, events).phase is Aborted),
        album_fits(job, process(job, state, events)),
        awaited(job, process(job, state, events)) is Done ==> awaited(
            job,
            process(job, state, events),
        ) == ActionView::Done(Ok(())),
    decreases events.len(),
{
    if events.len() == 0 || awaited(job, state) is Done {
        match state.phase {
            Phase::Resolving(i, resolution) => {
                assert(awaited(job, state) == pending(track_job(job, i as int), resolution));
            },
            _ => {},
        }
    } else {
        let next = advance(job, state, events[0]);
        law_advance_fits(job, state, events[0]);
        if next.phase is Aborted {
            law_what_gives_an_album_up(job, state, events[0]);
        }
        law_track_failures_do_not_abort(job, next, events.drop_first());
    }
}

/// The actions that are carried out from `state` on when their outcomes
/// are `events`, each action with its outcome.
pub open spec fn history(
    job: AlbumJobView,
    state: AlbumRunView,
    events: Seq<EventView>,
) -> Seq<(ActionView, EventView)>
    decreases events.len(),
{
    if events.len() == 0 || awaited(job, state) is Done {
        Seq::empty()
    } else {
        seq![(awaited(job, state), events[0])] + history(
            job,
            advance(job, state, events[0]),
            events.drop_first(),
        )
    }
}

/// How often a shared full recording is fetched with success in `history`.
pub open spec fn fulls_fetched(history: Seq<(ActionView, EventView)>) -> nat
    decreases history.len(),
{
    if history.len() == 0 {
        0
    } else {
        fulls_fetched(history.drop_first()) + if history[0].0 is FetchFull && history[0].1
            == EventView::Finished(true) {
            1nat
        } else {
            0nat
        }
    }
}

/// Whether the processing is about to get the shared full recording: it has
/// asked the disk for it, or is fetching it.
pub open spec fn getting_full(phase: Phase) -> bool {
    phase is Resolving && (phase->Resolving_1 is ProbingFull || phase->Resolving_1
        is FetchingFull)
}

/// The shared full recording of the album.
pub open spec fn album_full(job: AlbumJobView) -> Seq<char> {
    crate::naming::full_path(album_dir(job.path_library, job.album))
}

/// From a state that gets the shared full recording only while it is not
/// registered, the recording is fetched with success at most once, and not at
/// all where it is registered.
proof fn lemma_fulls_in_history(job: AlbumJobView, state: AlbumRunView, events: Seq<EventView>)
    requires
        getting_full(state.phase) ==> !state.full_files.contains(album_full(job)),
    ensures
        fulls_fetched(history(job, state, events)) <= 1,
        state.full_files.contains(album_full(job)) ==> fulls_fetched(history(job, state, events))
            == 0,
    decreases events.len(),
{
    let full = album_full(job);
    if events.len() == 0 || awaited(job, state) is Done {
    } else {
        let next = advance(job, state, events[0]);
        let whole = history(job, state, events);
        let rest = history(job, next, events.drop_first());
        assert(whole.drop_first() == rest);
        assert(whole[0] == (awaited(job, state), events[0]));
        crate::cache::law_registration(state.full_files, full);
        match state.phase {
            Phase::Resolving(i, resolution) => {
                assert(track_job(job, i as int).out_dir == album_dir(job.path_library, job.album));
                assert(awaited(job, state) == pending(track_job(job, i as int), resolution));
            },
            _ => {},
        }
        lemma_fulls_in_history(job, next, events.drop_first());
    }
}

/// In the processing of one album the shared full recording is fetched with
/// success at most once, however many tracks are cut out of it; and where it
/// is registered from the start, it is not fetched at all.
pub proof fn law_album_fetches_full_once(
    job: AlbumJobView,
    files: Seq<Seq<char>>,
    cover: Seq<u8>,
    events: Seq<EventView>,
)
    ensures
        fulls_fetched(
            history(job, AlbumRunView { phase: Phase::CreatingDir, cover, full_files: files }, events),
        ) <= 1,
        files.contains(album_full(job)) ==> fulls_fetched(
            history(job, AlbumRunView { phase: Phase::CreatingDir, cover, full_files: files }, events),
        ) == 0,
{
    lemma_fulls_in_history(
        job,
        AlbumRunView { phase: Phase::CreatingDir, cover, full_files: files },
        events,
    );
}

} // verus!
