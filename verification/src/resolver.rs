use crate::cache::{after_lookup, has_full, is_registered, register_full, with_path};
use crate::commands::{downloader_args, ffmpeg_args, get_downloader_args, get_ffmpeg_args};
use crate::error::Error;
use crate::model::{Album, AlbumView, Config, ConfigView, Track, TrackView};
use crate::naming::{full_path, get_path_full};
use crate::protocol::{Action, ActionView, Event, EventView};
use crate::text::texts;
use crate::window::{end_time, get_end_time};
use vstd::prelude::*;

verus! {

/// All that resolving one track depends on.
pub struct Job<'a> {
    pub config: &'a Config<'a>,
    /// The directory of the album, in which the shared full recording lies.
    pub out_dir: &'a str,
    /// The audio file that the track is to become.
    pub path_out: &'a str,
    pub album: &'a Album,
    pub track: &'a Track,
    pub position: &'a str,
}

/// What a `Job` holds, as mathematical values.
pub struct JobView {
    pub config: ConfigView,
    pub out_dir: Seq<char>,
    pub path_out: Seq<char>,
    pub album: AlbumView,
    pub track: TrackView,
    pub position: Seq<char>,
}

impl<'a> View for Job<'a> {
    type V = JobView;

    open spec fn view(&self) -> JobView {
        JobView {
            config: self.config@,
            out_dir: self.out_dir@,
            path_out: self.path_out@,
            album: self.album@,
            track: self.track@,
            position: self.position@,
        }
    }
}

/// How far the resolving of one track has come. A track is pending in the
/// first five states, each of which waits for the outcome of one action, and
/// ends as skipped, resolved or failed.
#[derive(Clone, Copy, Debug, PartialEq, Eq, Structural)]
pub enum Resolution {
    /// Asked whether the audio file of the track exists.
    ProbingOutput,
    /// Asked whether the shared full recording exists on disk, for the slice
    /// source at this index.
    ProbingFull(usize),
    /// Fetching the shared full recording from the slice source at this
    /// index.
    FetchingFull(usize),
    /// Fetching the track from the direct source at this index.
    FetchingTrack(usize),
    /// Cutting the track out of the shared full recording, as the slice
    /// source at this index says.
    Cutting(usize),
    /// The audio file was there already and was left alone.
    Skipped,
    /// The audio file was made.
    Resolved,
    /// The audio file could not be made.
    Failed(Error),
}

/// Whether `state` is one that this job can be in: it names a source that
/// the track has, of the kind that the state is about.
pub open spec fn fits(job: JobView, state: Resolution) -> bool {
    match state {
        Resolution::ProbingFull(i) => i < job.track.location.len()
            && job.track.location[i as int].at is Some,
        Resolution::FetchingFull(i) => i < job.track.location.len()
            && job.track.location[i as int].at is Some,
        Resolution::Cutting(i) => i < job.track.location.len()
            && job.track.location[i as int].at is Some,
        Resolution::FetchingTrack(i) => i < job.track.location.len()
            && job.track.location[i as int].at is None,
        _ => true,
    }
}

/// Whether the resolving has ended.
pub open spec fn is_final(state: Resolution) -> bool {
    state is Skipped || state is Resolved || state is Failed
}

/// The state in which the source at `index` is taken up. A slice source
/// needs the shared full recording: one that is registered is cut at once,
/// for another the disk is asked first. A direct source is fetched. Beyond
/// the last source, all have failed.
pub open spec fn enter(job: JobView, files: Seq<Seq<char>>, index: int) -> Resolution {
    if index < 0 || index >= job.track.location.len() || index > usize::MAX {
        Resolution::Failed(Error::NotFound)
    } else if job.track.location[index].at is Some {
        if files.contains(full_path(job.out_dir)) {
            Resolution::Cutting(index as usize)
        } else {
            Resolution::ProbingFull(index as usize)
        }
    } else {
        Resolution::FetchingTrack(index as usize)
    }
}

/// The end timestamp for the cut, where one can be computed.
pub open spec fn cut_end(job: JobView) -> Option<Seq<char>> {
    match end_time(job.album, job.track, job.position) {
        Ok(end) => Some(end),
        Err(_) => None,
    }
}

/// The action that `state` waits for. A state that does not fit the job
/// counts as failed.
pub open spec fn pending(job: JobView, state: Resolution) -> ActionView {
    if !fits(job, state) {
        ActionView::Done(Err(Error::NotFound))
    } else {
        match state {
            Resolution::ProbingOutput => ActionView::Probe(job.path_out),
            Resolution::ProbingFull(i) => ActionView::Probe(full_path(job.out_dir)),
            Resolution::FetchingFull(i) => ActionView::FetchFull(
                downloader_args(
                    job.track.location[i as int].url,
                    job.config.audio_fmt,
                    full_path(job.out_dir),
                ),
            ),
            Resolution::FetchingTrack(i) => ActionView::FetchTrack(
                downloader_args(
                    job.track.location[i as int].url,
                    job.config.audio_fmt,
                    job.path_out,
                ),
            ),
            Resolution::Cutting(i) => ActionView::Cut(
                ffmpeg_args(
                    full_path(job.out_dir),
                    job.track.location[i as int].at->0,
                    cut_end(job),
                    job.path_out,
                ),
            ),
            Resolution::Skipped => ActionView::Done(Ok(())),
            Resolution::Resolved => ActionView::Done(Ok(())),
            Resolution::Failed(e) => ActionView::Done(Err(e)),
        }
    }
}

/// The state and the registered full recordings after `event` has answered
/// the action that `state` waited for.
///
/// An audio file that exists is left alone unless the run is forced. The
/// sources are tried in order. A slice source decides the track: the shared
/// full recording is fetched unless it is registered or on disk, it is
/// registered once it is at hand, and the cut ends the resolving either way;
/// a failed fetch of the recording fails the track. A direct source that
/// fails hands over to the next source. An event that does not answer the
/// pending action fails the track, and so does a state that does not fit the
/// job. Nothing follows an end.
pub open spec fn step(job: JobView, files: Seq<Seq<char>>, state: Resolution, event: EventView) -> (
    Resolution,
    Seq<Seq<char>>,
) {
    let full = full_path(job.out_dir);
    if !fits(job, state) {
        (Resolution::Failed(Error::NotFound), files)
    } else {
        match state {
            Resolution::ProbingOutput => match event {
                EventView::Exists(found) => if found && !job.config.force {
                    (Resolution::Skipped, files)
                } else {
                    (enter(job, files, 0), files)
                },
                _ => (Resolution::Failed(Error::Io), files),
            },
            Resolution::ProbingFull(i) => match event {
                EventView::Exists(found) => (
                    if files.contains(full) || found {
                        Resolution::Cutting(i)
                    } else {
                        Resolution::FetchingFull(i)
                    },
                    after_lookup(files, full, found),
                ),
                _ => (Resolution::Failed(Error::Io), files),
            },
            Resolution::FetchingFull(i) => match event {
                EventView::Finished(ok) => if ok {
                    (Resolution::Cutting(i), with_path(files, full))
                } else {
                    (Resolution::Failed(Error::Io), files)
                },
                _ => (Resolution::Failed(Error::Io), files),
            },
            Resolution::FetchingTrack(i) => match event {
                EventView::Finished(ok) => if ok {
                    (Resolution::Resolved, files)
                } else {
                    (enter(job, files, i + 1), files)
                },
                _ => (Resolution::Failed(Error::Io), files),
            },
            Resolution::Cutting(i) => match event {
                EventView::Finished(ok) => (
                    if ok {
                        Resolution::Resolved
                    } else {
                        Resolution::Failed(Error::Io)
                    },
                    files,
                ),
                _ => (Resolution::Failed(Error::Io), files),
            },
            _ => (state, files),
        }
    }
}

/// Whether `state` is one that `job` can be in.
pub fn state_fits(job: &Job, state: Resolution) -> (yes: bool)
    ensures
        yes == fits(job@, state),
{
    match state {
        Resolution::ProbingFull(i) => {
            if i < job.track.location.len() {
                assert(job@.track.location[i as int] == job.track.location@[i as int]@);
                job.track.location[i].at.is_some()
            } else {
                false
            }
        },
        Resolution::FetchingFull(i) => {
            if i < job.track.location.len() {
                assert(job@.track.location[i as int] == job.track.location@[i as int]@);
                job.track.location[i].at.is_some()
            } else {
                false
            }
        },
        Resolution::Cutting(i) => {
            if i < job.track.location.len() {
                assert(job@.track.location[i as int] == job.track.location@[i as int]@);
                job.track.location[i].at.is_some()
            } else {
                false
            }
        },
        Resolution::FetchingTrack(i) => {
            if i < job.track.location.len() {
                assert(job@.track.location[i as int] == job.track.location@[i as int]@);
                job.track.location[i].at.is_none()
            } else {
                false
            }
        },
        _ => true,
    }
}

/// The state in which the source at `index` is taken up.
pub fn enter_source(job: &Job, files: &Vec<String>, index: usize) -> (state: Resolution)
    ensures
        state == enter(job@, texts(files@), index as int),
        fits(job@, state),
{
    if index >= job.track.location.len() {
        return Resolution::Failed(Error::NotFound);
    }
    assert(job@.track.location[index as int] == job.track.location@[index as int]@);
    if job.track.location[index].at.is_some() {
        let path_full = get_path_full(job.out_dir);
        if is_registered(path_full.as_str(), files) {
            Resolution::Cutting(index)
        } else {
            Resolution::ProbingFull(index)
        }
    } else {
        Resolution::FetchingTrack(index)
    }
}

/// The state in which the resolving of a track begins.
pub fn resolve_start() -> (state: Resolution)
    ensures
        state == Resolution::ProbingOutput,
{
    Resolution::ProbingOutput
}

/// The action that `state` waits for.
pub fn pending_action(job: &Job, state: Resolution) -> (action: Action)
    ensures
        action@ == pending(job@, state),
{
    if !state_fits(job, state) {
        return Action::Done(Err(Error::NotFound));
    }
    match state {
        Resolution::ProbingOutput => Action::Probe(String::from_str(job.path_out)),
        Resolution::ProbingFull(_) => Action::Probe(get_path_full(job.out_dir)),
        Resolution::FetchingFull(i) => {
            assert(job@.track.location[i as int] == job.track.location@[i as int]@);
            let path_full = get_path_full(job.out_dir);
            Action::FetchFull(
                get_downloader_args(
                    job.track.location[i].url.as_str(),
                    job.config.audio_fmt,
                    path_full.as_str(),
                ),
            )
        },
        Resolution::FetchingTrack(i) => {
            assert(job@.track.location[i as int] == job.track.location@[i as int]@);
            Action::FetchTrack(
                get_downloader_args(
                    job.track.location[i].url.as_str(),
                    job.config.audio_fmt,
                    job.path_out,
                ),
            )
        },
        Resolution::Cutting(i) => {
            assert(job@.track.location[i as int] == job.track.location@[i as int]@);
            let path_full = get_path_full(job.out_dir);
            let end = match get_end_time(job.album, job.track, job.position) {
                Ok(end) => Some(end),
                Err(_) => None,
            };
            match &job.track.location[i].at {
                Some(start) => Action::Cut(
                    get_ffmpeg_args(path_full.as_str(), start.as_str(), end, job.path_out),
                ),
                None => Action::Done(Err(Error::NotFound)),
            }
        },
        Resolution::Skipped => Action::Done(Ok(())),
        Resolution::Resolved => Action::Done(Ok(())),
        Resolution::Failed(e) => Action::Done(Err(e)),
    }
}

/// Takes in the outcome of the pending action: gives the next state, and
/// registers in `files` a shared full recording that has come to hand.
pub fn resolve_step(job: &Job, files: &mut Vec<String>, state: Resolution, event: &Event) -> (next:
    Resolution)
    ensures
        (next, texts(final(files)@)) == step(job@, texts(old(files)@), state, event@),
        fits(job@, next),
{
    if !state_fits(job, state) {
        return Resolution::Failed(Error::NotFound);
    }
    match state {
        Resolution::ProbingOutput => match event {
            Event::Exists(found) => {
                if *found && !job.config.force {
                    Resolution::Skipped
                } else {
                    enter_source(job, files, 0)
                }
            },
            _ => Resolution::Failed(Error::Io),
        },
        Resolution::ProbingFull(i) => match event {
            Event::Exists(found) => {
                let path_full = get_path_full(job.out_dir);
                if has_full(path_full.as_str(), files, *found) {
                    Resolution::Cutting(i)
                } else {
                    Resolution::FetchingFull(i)
                }
            },
            _ => Resolution::Failed(Error::Io),
        },
        Resolution::FetchingFull(i) => match event {
            Event::Finished(ok) => {
                if *ok {
                    let path_full = get_path_full(job.out_dir);
                    register_full(path_full.as_str(), files);
                    Resolution::Cutting(i)
                } else {
                    Resolution::Failed(Error::Io)
                }
            },
            _ => Resolution::Failed(Error::Io),
        },
        Resolution::FetchingTrack(i) => match event {
            Event::Finished(ok) => {
                if *ok {
                    Resolution::Resolved
                } else {
                    let sources: usize = job.track.location.len();
                    assert(i < sources);
                    enter_source(job, files, i + 1)
                }
            },
            _ => Resolution::Failed(Error::Io),
        },
        Resolution::Cutting(_) => match event {
            Event::Finished(ok) => {
                if *ok {
                    Resolution::Resolved
                } else {
                    Resolution::Failed(Error::Io)
                }
            },
            _ => Resolution::Failed(Error::Io),
        },
        _ => state,
    }
}

/// Whatever the state and the event, the state after a step fits the job.
pub proof fn law_step_fits(
    job: JobView,
    files: Seq<Seq<char>>,
    state: Resolution,
    event: EventView,
)
    ensures
        fits(job, step(job, files, state, event).0),
        fits(job, Resolution::ProbingOutput),
{
}

/// What a run of the resolver has come to: the state and the registered
/// full recordings at its end, and the actions that were carried out.
pub struct Run {
    pub state: Resolution,
    pub files: Seq<Seq<char>>,
    pub actions: Seq<ActionView>,
}

/// The run from `state` in which the outcomes of the actions are `events`,
/// one after the other. It ends where the resolving has ended, or where the
/// events end.
pub open spec fn run(
    job: JobView,
    files: Seq<Seq<char>>,
    state: Resolution,
    events: Seq<EventView>,
) -> Run
    decreases events.len(),
{
    if events.len() == 0 || pending(job, state) is Done {
        Run { state, files, actions: Seq::empty() }
    } else {
        let next = step(job, files, state, events[0]);
        let rest = run(job, next.1, next.0, events.drop_first());
        Run {
            state: rest.state,
            files: rest.files,
            actions: seq![pending(job, state)] + rest.actions,
        }
    }
}

/// A whole resolving of a track: the run from the beginning.
pub open spec fn resolve(job: JobView, files: Seq<Seq<char>>, events: Seq<EventView>) -> Run {
    run(job, files, Resolution::ProbingOutput, events)
}

/// How often a shared full recording is fetched among `actions`.
pub open spec fn full_fetches(actions: Seq<ActionView>) -> nat
    decreases actions.len(),
{
    if actions.len() == 0 {
        0
    } else {
        full_fetches(actions.drop_first()) + if actions[0] is FetchFull {
            1nat
        } else {
            0nat
        }
    }
}

/// Whether anything is fetched or cut among `actions`.
pub open spec fn fetches_or_cuts(actions: Seq<ActionView>) -> bool {
    exists|i: int|
        0 <= i < actions.len() && (#[trigger] actions[i] is FetchFull || actions[i] is FetchTrack
            || actions[i] is Cut)
}

/// Whether a track is cut out of a shared full recording among `actions`.
pub open spec fn cuts(actions: Seq<ActionView>) -> bool {
    exists|i: int| 0 <= i < actions.len() && #[trigger] actions[i] is Cut
}

/// A track whose audio file exists is left alone unless the run is forced:
/// the one action of its resolving is the question whether the file exists,
/// so nothing is fetched and nothing is cut, and no full recording is
/// registered.
pub proof fn law_existing_output_is_skipped(
    job: JobView,
    files: Seq<Seq<char>>,
    events: Seq<EventView>,
)
    requires
        !job.config.force,
        events.len() > 0,
        events[0] == EventView::Exists(true),
    ensures
        resolve(job, files, events) == (Run {
            state: Resolution::Skipped,
            files,
            actions: seq![ActionView::Probe(job.path_out)],
        }),
        !fetches_or_cuts(resolve(job, files, events).actions),
        resolve(job, files, events).state == Resolution::Skipped,
{
    let rest = run(job, files, Resolution::Skipped, events.drop_first());
    assert(rest.actions == Seq::<ActionView>::empty());
    let actions = resolve(job, files, events).actions;
    assert(actions == seq![ActionView::Probe(job.path_out)]);
}

/// One step fetches the shared full recording at most once over all that
/// follows, and not at all once the track is being cut or has ended.
proof fn lemma_fetches_in_run(
    job: JobView,
    files: Seq<Seq<char>>,
    state: Resolution,
    events: Seq<EventView>,
)
    ensures
        full_fetches(run(job, files, state, events).actions) <= 1,
        state is Cutting || pending(job, state) is Done ==> full_fetches(
            run(job, files, state, events).actions,
        ) == 0,
    decreases events.len(),
{
    if events.len() == 0 || pending(job, state) is Done {
    } else {
        let next = step(job, files, state, events[0]);
        let rest = run(job, next.1, next.0, events.drop_first());
        let actions = run(job, files, state, events).actions;
        lemma_fetches_in_run(job, next.1, next.0, events.drop_first());
        assert(actions.drop_first() == rest.actions);
        assert(actions[0] == pending(job, state));
        if state is FetchingFull {
            assert(next.0 is Cutting || next.0 is Failed);
        }
    }
}

/// With the shared full recording registered, a run that does not start in
/// the middle of getting it never fetches it, and registers nothing.
proof fn lemma_registered_in_run(
    job: JobView,
    files: Seq<Seq<char>>,
    state: Resolution,
    events: Seq<EventView>,
)
    requires
        files.contains(full_path(job.out_dir)),
        !(state is ProbingFull),
        !(state is FetchingFull),
    ensures
        full_fetches(run(job, files, state, events).actions) == 0,
        run(job, files, state, events).files == files,
    decreases events.len(),
{
    if events.len() == 0 || pending(job, state) is Done {
    } else {
        let next = step(job, files, state, events[0]);
        let rest = run(job, next.1, next.0, events.drop_first());
        let actions = run(job, files, state, events).actions;
        lemma_registered_in_run(job, next.1, next.0, events.drop_first());
        assert(actions.drop_first() == rest.actions);
        assert(actions[0] == pending(job, state));
    }
}

/// A run keeps what is registered; and where it cuts, having come to the
/// cutting in its own course, the shared full recording is registered at its
/// end.
proof fn lemma_cut_in_run(
    job: JobView,
    files: Seq<Seq<char>>,
    state: Resolution,
    events: Seq<EventView>,
)
    requires
        state is Cutting ==> files.contains(full_path(job.out_dir)),
    ensures
        forall|path: Seq<char>|
            files.contains(path) ==> run(job, files, state, events).files.contains(path),
        cuts(run(job, files, state, events).actions) ==> run(
            job,
            files,
            state,
            events,
        ).files.contains(full_path(job.out_dir)),
    decreases events.len(),
{
    let full = full_path(job.out_dir);
    if events.len() == 0 || pending(job, state) is Done {
    } else {
        let next = step(job, files, state, events[0]);
        let rest = run(job, next.1, next.0, events.drop_first());
        let whole = run(job, files, state, events);
        crate::cache::law_registration(files, full);
        lemma_cut_in_run(job, next.1, next.0, events.drop_first());
        assert forall|path: Seq<char>| files.contains(path) implies whole.files.contains(path) by {
            assert(next.1.contains(path));
        }
        if cuts(whole.actions) {
            let i = choose|i: int|
                0 <= i < whole.actions.len() && #[trigger] whole.actions[i] is Cut;
            if i == 0 {
                assert(state is Cutting);
                assert(next.1.contains(full));
            } else {
                assert(rest.actions[i - 1] == whole.actions[i]);
            }
        }
    }
}

/// One resolving of a track fetches the shared full recording at most once.
pub proof fn law_one_fetch_per_resolving(
    job: JobView,
    files: Seq<Seq<char>>,
    events: Seq<EventView>,
)
    ensures
        full_fetches(resolve(job, files, events).actions) <= 1,
{
    lemma_fetches_in_run(job, files, Resolution::ProbingOutput, events);
}

/// A shared full recording that is registered is not fetched again, whatever
/// the outcomes of the actions are, and the registry stays as it is.
pub proof fn law_registered_full_is_not_fetched(
    job: JobView,
    files: Seq<Seq<char>>,
    events: Seq<EventView>,
)
    requires
        files.contains(full_path(job.out_dir)),
    ensures
        full_fetches(resolve(job, files, events).actions) == 0,
        resolve(job, files, events).files == files,
{
    lemma_registered_in_run(job, files, Resolution::ProbingOutput, events);
}

/// A resolving keeps what was registered, and one that cuts leaves the
/// shared full recording registered: fetched in its course, or found on disk,
/// or registered before.
pub proof fn law_cut_registers_full(job: JobView, files: Seq<Seq<char>>, events: Seq<EventView>)
    ensures
        forall|path: Seq<char>|
            files.contains(path) ==> resolve(job, files, events).files.contains(path),
        cuts(resolve(job, files, events).actions) ==> resolve(job, files, events).files.contains(
            full_path(job.out_dir),
        ),
{
    lemma_cut_in_run(job, files, Resolution::ProbingOutput, events);
}

/// Two tracks resolved one after the other in one album directory, the
/// second with what the first has registered: where the first comes to cut
/// its track, both together fetch the shared full recording at most once, and
/// the second does not fetch it at all. This holds whether the recording was
/// fetched by the first, lay on disk before, or was registered from the
/// start.
pub proof fn law_resolving_twice_fetches_once(
    first: JobView,
    second: JobView,
    files: Seq<Seq<char>>,
    first_events: Seq<EventView>,
    second_events: Seq<EventView>,
)
    requires
        first.out_dir == second.out_dir,
        cuts(resolve(first, files, first_events).actions),
    ensures
        full_fetches(resolve(first, files, first_events).actions) + full_fetches(
            resolve(second, resolve(first, files, first_events).files, second_events).actions,
        ) <= 1,
        full_fetches(
            resolve(second, resolve(first, files, first_events).files, second_events).actions,
        ) == 0,
{
    law_one_fetch_per_resolving(first, files, first_events);
    law_cut_registers_full(first, files, first_events);
    law_registered_full_is_not_fetched(
        second,
        resolve(first, files, first_events).files,
        second_events,
    );
}

/// A track without sources fails as not found, once its audio file is found
/// missing or the run is forced, and nothing is asked of the outside but
/// whether the audio file exists.
pub proof fn law_no_sources_fail(job: JobView, files: Seq<Seq<char>>, events: Seq<EventView>)
    requires
        job.track.location.len() == 0,
        events.len() > 0,
        events[0] is Exists,
        job.config.force || events[0] == EventView::Exists(false),
    ensures
        resolve(job, files, events) == (Run {
            state: Resolution::Failed(Error::NotFound),
            files,
            actions: seq![ActionView::Probe(job.path_out)],
        }),
{
    let rest = run(job, files, Resolution::Failed(Error::NotFound), events.drop_first());
    assert(rest.actions == Seq::<ActionView>::empty());
    assert(resolve(job, files, events).actions == seq![ActionView::Probe(job.path_out)]);
}

} // verus!
