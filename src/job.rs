use vstd::prelude::*;
use crate::extension::{default_extensions, extension_set, keep_nonempty, views};
use crate::route::{mode_of_index, Mode};
use crate::validate::{check_path, path_verdict, PathKind, PathMeta, ValidationError};

verus! {

/// Name of the transient workspace created under the destination.
pub const WORKSPACE_DIR: &'static str = "tmp";

/// The parameters of one extraction, as entered.
#[derive(Default)]
pub struct Param {
    /// Directory holding the packages.
    pub target: String,
    /// Directory receiving the extracted files.
    pub saved: String,
    /// Name the converter's output folders by title.
    pub as_title: bool,
    /// Legacy merge flag; the mode in `cobo_status` decides.
    pub all_combine: bool,
    /// Position of the chosen mode: 0 per folder, 1 merged, 2 both.
    pub cobo_status: usize,
    /// Extensions kept besides the defaults.
    pub addition_suffix: Vec<String>,
}

/// One run's configuration.
pub struct Job {
    pub source: String,
    pub destination: String,
    pub name_by_title: bool,
    pub mode: Mode,
    pub extra_extensions: Vec<String>,
}

/// The converter's argument line:
/// `extract [-n ]-o <workspace> <source>`.
pub open spec fn command_spec(name_by_title: bool, workspace: Seq<char>, source: Seq<char>) -> Seq<char> {
    "extract "@ + (if name_by_title {
        "-n "@
    } else {
        Seq::empty()
    }) + "-o "@ + workspace + " "@ + source
}

/// `s` with each backslash turned into '/'.
pub open spec fn slashed(s: Seq<char>) -> Seq<char>
    decreases s.len(),
{
    if s.len() == 0 {
        Seq::empty()
    } else if s.last() == '\\' {
        slashed(s.drop_last()) + "/"@
    } else {
        slashed(s.drop_last()).push(s.last())
    }
}

proof fn lemma_slashed_plain(s: Seq<char>, start: int, end: int)
    requires
        0 <= start <= end <= s.len(),
        forall|k: int| start <= k < end ==> s[k] != '\\',
    ensures
        slashed(s.take(end)) == slashed(s.take(start)) + s.subrange(start, end),
    decreases end - start,
{
    if end > start {
        lemma_slashed_plain(s, start, end - 1);
        assert(s.take(end).drop_last() =~= s.take(end - 1));
        assert(s.take(end).last() == s[end - 1]);
        assert(s.subrange(start, end - 1).push(s[end - 1]) =~= s.subrange(start, end));
    } else {
        assert(s.subrange(start, end) =~= Seq::<char>::empty());
    }
}

/// Appends `s` to `out` with each backslash turned into '/'.
fn append_slashed(out: &mut String, s: &str)
    ensures
        final(out)@ == old(out)@ + slashed(s@),
{
    proof {
        reveal_strlit("/");
    }
    let n = s.unicode_len();
    let mut start: usize = 0;
    let mut i: usize = 0;
    while i < n
        invariant
            n == s@.len(),
            start <= i <= n,
            out@ == old(out)@ + slashed(s@.take(start as int)),
            forall|k: int| start <= k < i ==> s@[k] != '\\',
        decreases n - i,
    {
        if s.get_char(i) == '\\' {
            proof {
                lemma_slashed_plain(s@, start as int, i as int);
                assert(s@.take(i + 1).drop_last() =~= s@.take(i as int));
                assert(s@.take(i + 1).last() == s@[i as int]);
            }
            out.append(s.substring_char(start, i));
            out.append("/");
            start = i + 1;
        }
        i = i + 1;
    }
    proof {
        lemma_slashed_plain(s@, start as int, n as int);
        assert(s@.take(n as int) =~= s@);
    }
    out.append(s.substring_char(start, n));
}

/// The shell line that runs the converter binary `exe` from the working
/// directory with `args`: a dot and a backslash, `exe`, a space, `args`,
/// with each backslash in `exe` and `args` turned into '/'.
pub fn shell_line(exe: &str, args: &str) -> (r: String)
    ensures
        r@ == ".\\"@ + slashed(exe@) + " "@ + slashed(args@),
{
    let mut r = String::from_str(".\\");
    append_slashed(&mut r, exe);
    r.append(" ");
    append_slashed(&mut r, args);
    r
}

impl Job {
    pub fn from_param(p: Param) -> (r: Job)
        ensures
            r.source == p.target,
            r.destination == p.saved,
            r.name_by_title == p.as_title,
            r.mode == mode_of_index(p.cobo_status),
            r.extra_extensions == p.addition_suffix,
    {
        Job {
            source: p.target,
            destination: p.saved,
            name_by_title: p.as_title,
            mode: Mode::from_index(p.cobo_status),
            extra_extensions: p.addition_suffix,
        }
    }

    /// The argument line that extracts this job's source into `workspace`.
    pub fn command_line(&self, workspace: &str) -> (r: String)
        ensures
            r@ == command_spec(self.name_by_title, workspace@, self.source@),
    {
        let mut c = String::from_str("extract ");
        if self.name_by_title {
            c.append("-n ");
        }
        c.append("-o ");
        c.append(workspace);
        c.append(" ");
        c.append(self.source.as_str());
        proof {
            reveal_strlit("extract ");
            reveal_strlit("-n ");
            reveal_strlit("-o ");
            reveal_strlit(" ");
            if self.name_by_title {
                assert(c@ =~= command_spec(self.name_by_title, workspace@, self.source@));
            } else {
                assert(c@ =~= command_spec(self.name_by_title, workspace@, self.source@));
            }
        }
        c
    }

    /// The extensions this job's scan keeps.
    pub fn extensions(&self) -> (r: Vec<String>)
        ensures
            views(r@) == default_extensions() + keep_nonempty(views(self.extra_extensions@)),
    {
        extension_set(&self.extra_extensions)
    }
}

/// What a run is doing: each stage names the work the caller carries out
/// next and reports back as an event; `Done` ends the run.
#[derive(Clone, Copy, Debug, PartialEq, Eq)]
pub enum Stage {
    /// Read the metadata of the source path.
    CheckSource,
    /// Read the metadata of the destination path.
    CheckDestination,
    /// Create the workspace directory under the destination.
    CreateWorkspace,
    /// Run the converter into the workspace.
    Extract,
    /// Scan the workspace and report how many files were found.
    Scan,
    /// Place the files found.
    Route,
    /// Delete the workspace and everything in it.
    RemoveWorkspace,
    /// Delete the temporary converter binary.
    RemoveBinary,
    Done,
}

/// What the caller reports after carrying out a stage.
#[derive(Clone, Copy, Debug, PartialEq, Eq)]
pub enum Event {
    Meta(PathMeta),
    Succeeded,
    Failed,
    Found(usize),
}

/// Why a run failed.
#[derive(Clone, Copy, Debug, PartialEq, Eq)]
pub enum JobError {
    Source(ValidationError),
    Destination(ValidationError),
    Workspace,
    CleanupWorkspace,
    CleanupBinary,
}

#[derive(Clone, Copy, Debug, PartialEq, Eq)]
pub struct RunState {
    pub stage: Stage,
    /// Files found by the scan.
    pub found: usize,
    pub error: Option<JobError>,
}

/// The state a run starts in. An empty source has no metadata to read, so
/// the run fails at once, before any directory is touched.
pub open spec fn initial(source: Seq<char>) -> RunState {
    if source.len() == 0 {
        RunState { stage: Stage::Done, found: 0, error: Some(JobError::Source(ValidationError::NotFound)) }
    } else {
        RunState { stage: Stage::CheckSource, found: 0, error: None }
    }
}

/// The verdict on `path` from a reported event: anything but metadata
/// counts as unreadable metadata.
pub open spec fn verdict_of(path: Seq<char>, e: Event) -> Result<PathKind, ValidationError> {
    match e {
        Event::Meta(m) => path_verdict(path, m),
        _ => path_verdict(path, PathMeta::Missing),
    }
}

pub open spec fn failed(s: RunState, err: JobError) -> RunState {
    RunState { stage: Stage::Done, found: s.found, error: Some(err) }
}

pub open spec fn moved(s: RunState, stage: Stage) -> RunState {
    RunState { stage, ..s }
}

/// One transition of a run with the given source and destination.
pub open spec fn step(s: RunState, source: Seq<char>, dest: Seq<char>, e: Event) -> RunState {
    match s.stage {
        Stage::CheckSource => match verdict_of(source, e) {
            Ok(_) => if dest.len() == 0 {
                failed(s, JobError::Destination(ValidationError::NotFound))
            } else {
                moved(s, Stage::CheckDestination)
            },
            Err(v) => failed(s, JobError::Source(v)),
        },
        Stage::CheckDestination => match verdict_of(dest, e) {
            Ok(_) => moved(s, Stage::CreateWorkspace),
            Err(v) => failed(s, JobError::Destination(v)),
        },
        Stage::CreateWorkspace => if e is Succeeded {
            moved(s, Stage::Extract)
        } else {
            failed(s, JobError::Workspace)
        },
        Stage::Extract => moved(s, Stage::Scan),
        Stage::Scan => match e {
            Event::Found(n) => if n == 0 {
                RunState { stage: Stage::RemoveWorkspace, found: 0, error: s.error }
            } else {
                RunState { stage: Stage::Route, found: n, error: s.error }
            },
            _ => RunState { stage: Stage::RemoveWorkspace, found: 0, error: s.error },
        },
        Stage::Route => moved(s, Stage::RemoveWorkspace),
        Stage::RemoveWorkspace => if e is Succeeded {
            moved(s, Stage::RemoveBinary)
        } else {
            RunState { stage: Stage::RemoveBinary, found: s.found, error: Some(JobError::CleanupWorkspace) }
        },
        Stage::RemoveBinary => if s.error is Some || e is Succeeded {
            moved(s, Stage::Done)
        } else {
            failed(s, JobError::CleanupBinary)
        },
        Stage::Done => s,
    }
}

/// The result of a finished run: the number of files found, or the error.
pub open spec fn outcome_of(s: RunState) -> Option<Result<usize, JobError>> {
    if s.stage is Done {
        Some(
            match s.error {
                Some(e) => Err(e),
                None => Ok(s.found),
            },
        )
    } else {
        None
    }
}

/// One run of a job.
pub struct Run {
    pub job: Job,
    pub state: RunState,
}

fn verdict_exec(path: &str, e: Event) -> (r: Result<PathKind, ValidationError>)
    ensures
        r == verdict_of(path@, e),
{
    match e {
        Event::Meta(m) => check_path(path, m),
        _ => check_path(path, PathMeta::Missing),
    }
}

impl Run {
    pub fn start(job: Job) -> (r: Run)
        ensures
            r.job == job,
            r.state == initial(job.source@),
    {
        let state = if job.source.as_str().is_empty() {
            RunState { stage: Stage::Done, found: 0, error: Some(JobError::Source(ValidationError::NotFound)) }
        } else {
            RunState { stage: Stage::CheckSource, found: 0, error: None }
        };
        Run { job, state }
    }

    /// Takes in what the caller reports for the current stage and returns
    /// the next stage.
    pub fn advance(&mut self, e: Event) -> (r: Stage)
        ensures
            final(self).job == old(self).job,
            final(self).state == step(old(self).state, old(self).job.source@, old(self).job.destination@, e),
            r == final(self).state.stage,
    {
        let s = self.state;
        let next = match s.stage {
            Stage::CheckSource => match verdict_exec(self.job.source.as_str(), e) {
                Ok(_) => if self.job.destination.as_str().is_empty() {
                    RunState { stage: Stage::Done, found: s.found, error: Some(JobError::Destination(ValidationError::NotFound)) }
                } else {
                    RunState { stage: Stage::CheckDestination, ..s }
                },
                Err(v) => RunState { stage: Stage::Done, found: s.found, error: Some(JobError::Source(v)) },
            },
            Stage::CheckDestination => match verdict_exec(self.job.destination.as_str(), e) {
                Ok(_) => RunState { stage: Stage::CreateWorkspace, ..s },
                Err(v) => RunState { stage: Stage::Done, found: s.found, error: Some(JobError::Destination(v)) },
            },
            Stage::CreateWorkspace => match e {
                Event::Succeeded => RunState { stage: Stage::Extract, ..s },
                _ => RunState { stage: Stage::Done, found: s.found, error: Some(JobError::Workspace) },
            },
            Stage::Extract => RunState { stage: Stage::Scan, ..s },
            Stage::Scan => match e {
                Event::Found(n) => if n == 0 {
                    RunState { stage: Stage::RemoveWorkspace, found: 0, error: s.error }
                } else {
                    RunState { stage: Stage::Route, found: n, error: s.error }
                },
                _ => RunState { stage: Stage::RemoveWorkspace, found: 0, error: s.error },
            },
            Stage::Route => RunState { stage: Stage::RemoveWorkspace, ..s },
            Stage::RemoveWorkspace => match e {
                Event::Succeeded => RunState { stage: Stage::RemoveBinary, ..s },
                _ => RunState { stage: Stage::RemoveBinary, found: s.found, error: Some(JobError::CleanupWorkspace) },
            },
            Stage::RemoveBinary => {
                let done = match (s.error, e) {
                    (Some(_), _) => true,
                    (None, Event::Succeeded) => true,
                    _ => false,
                };
                if done {
                    RunState { stage: Stage::Done, ..s }
                } else {
                    RunState { stage: Stage::Done, found: s.found, error: Some(JobError::CleanupBinary) }
                }
            },
            Stage::Done => s,
        };
        self.state = next;
        next.stage
    }

    /// The result, once the run is done.
    pub fn outcome(&self) -> (r: Option<Result<usize, JobError>>)
        ensures
            r == outcome_of(self.state),
    {
        match self.state.stage {
            Stage::Done => Some(
                match self.state.error {
                    Some(e) => Err(e),
                    None => Ok(self.state.found),
                },
            ),
            _ => None,
        }
    }
}

/// The stages during which the workspace exists and its removal has not yet
/// been asked for.
pub open spec fn holds_workspace(s: RunState) -> bool {
    s.stage is Extract || s.stage is Scan || s.stage is Route
}

/// The workspace comes into being only through a successful creation.
pub proof fn law_workspace_only_after_creation(s: RunState, source: Seq<char>, dest: Seq<char>, e: Event)
    requires
        !holds_workspace(s),
        holds_workspace(step(s, source, dest, e)),
    ensures
        s.stage is CreateWorkspace,
        e is Succeeded,
{
}

/// While the workspace exists, no event ends the run: each leads either to
/// more work on the workspace or to its removal.
pub proof fn law_no_finish_while_workspace_held(s: RunState, source: Seq<char>, dest: Seq<char>, e: Event)
    requires
        holds_workspace(s),
    ensures
        ({
            let t = step(s, source, dest, e);
            t.stage !is Done && (holds_workspace(t) || t.stage is RemoveWorkspace)
        }),
{
}

/// From any stage that holds the workspace, its removal is asked for within
/// three events, whatever they report.
pub proof fn law_removal_within_three(s: RunState, source: Seq<char>, dest: Seq<char>, e1: Event, e2: Event, e3: Event)
    requires
        holds_workspace(s),
    ensures
        ({
            let t1 = step(s, source, dest, e1);
            let t2 = step(t1, source, dest, e2);
            let t3 = step(t2, source, dest, e3);
            t1.stage is RemoveWorkspace || t2.stage is RemoveWorkspace || t3.stage is RemoveWorkspace
        }),
{
}

/// Whatever the removal of the workspace reports, the removal of the
/// temporary binary comes next, and then the run is done.
pub proof fn law_cleanup_completes(s: RunState, source: Seq<char>, dest: Seq<char>, e1: Event, e2: Event)
    requires
        s.stage is RemoveWorkspace,
    ensures
        step(s, source, dest, e1).stage is RemoveBinary,
        step(step(s, source, dest, e1), source, dest, e2).stage is Done,
{
}

/// A run reports the number of files its scan found, whatever became of them
/// while they were placed, once both removals succeed.
pub proof fn law_count_is_discovered(s: RunState, source: Seq<char>, dest: Seq<char>, routed: Event)
    requires
        s.stage is Route,
        s.error is None,
    ensures
        outcome_of(
            step(step(step(s, source, dest, routed), source, dest, Event::Succeeded), source, dest, Event::Succeeded),
        ) == Some(Ok::<usize, JobError>(s.found)),
{
}

/// A scan that finds nothing skips placing, goes on to clean up, and the run
/// reports zero files with no error once both removals succeed.
pub proof fn law_empty_scan(s: RunState, source: Seq<char>, dest: Seq<char>)
    requires
        s.stage is Scan,
        s.error is None,
    ensures
        step(s, source, dest, Event::Found(0)).stage is RemoveWorkspace,
        outcome_of(
            step(
                step(step(s, source, dest, Event::Found(0)), source, dest, Event::Succeeded),
                source,
                dest,
                Event::Succeeded,
            ),
        ) == Some(Ok::<usize, JobError>(0)),
{
}

/// No workspace is asked for unless both paths passed validation: creation is
/// reached only from the destination check with a valid destination, and that
/// check only after a valid, non-empty source.
pub proof fn law_validation_first(s: RunState, source: Seq<char>, dest: Seq<char>, e: Event)
    ensures
        step(s, source, dest, e).stage is CreateWorkspace && s.stage !is CreateWorkspace ==> s.stage is CheckDestination
            && verdict_of(dest, e) is Ok,
        step(s, source, dest, e).stage is CheckDestination && s.stage !is CheckDestination ==> s.stage is CheckSource
            && verdict_of(source, e) is Ok && dest.len() > 0,
        initial(source).stage is CheckSource || initial(source).stage is Done,
        source.len() == 0 ==> outcome_of(initial(source)) == Some(
            Err::<usize, JobError>(JobError::Source(ValidationError::NotFound)),
        ),
{
}

} // verus!
