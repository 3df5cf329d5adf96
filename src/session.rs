use vstd::prelude::*;
use crate::text::{is_space, trim, trim_spec};
use crate::workspace::{
    codecluster_dir_in, codecluster_dir_spec, default_path_spec, host_data_dir,
    lemma_default_path_unpadded, workspace_file_in, workspace_file_spec, WorkspaceError,
};

verus! {

/// A file-system request that a session hands to its host.
pub enum Request {
    /// Does anything exist at `path`?
    CheckExists { path: String },
    /// The whole text of the file at `path`.
    ReadFile { path: String },
    /// Create the directory `path` and its missing ancestors.
    CreateDirAll { path: String },
    /// Replace the file at `path` by exactly `contents`.
    WriteFile { path: String, contents: String },
}

pub enum RequestView {
    CheckExists(Seq<char>),
    ReadFile(Seq<char>),
    CreateDirAll(Seq<char>),
    WriteFile(Seq<char>, Seq<char>),
}

impl View for Request {
    type V = RequestView;

    open spec fn view(&self) -> RequestView {
        match self {
            Request::CheckExists { path } => RequestView::CheckExists(path@),
            Request::ReadFile { path } => RequestView::ReadFile(path@),
            Request::CreateDirAll { path } => RequestView::CreateDirAll(path@),
            Request::WriteFile { path, contents } => RequestView::WriteFile(path@, contents@),
        }
    }
}

/// The host's answer to the pending request.
pub enum Reply {
    /// Answers `CheckExists`.
    Exists(bool),
    /// Answers `ReadFile`.
    Contents(Result<String, std::io::Error>),
    /// Answers `CreateDirAll` and `WriteFile`.
    Done(Result<(), std::io::Error>),
}

pub enum ReplyView {
    Exists(bool),
    Contents(Result<Seq<char>, std::io::Error>),
    Done(Result<(), std::io::Error>),
}

impl View for Reply {
    type V = ReplyView;

    open spec fn view(&self) -> ReplyView {
        match self {
            Reply::Exists(b) => ReplyView::Exists(*b),
            Reply::Contents(Ok(c)) => ReplyView::Contents(Ok(c@)),
            Reply::Contents(Err(e)) => ReplyView::Contents(Err(*e)),
            Reply::Done(r) => ReplyView::Done(*r),
        }
    }
}

/// Where a session waits for the host.
pub enum Stage {
    /// Asked whether the workspace file exists, to report it.
    Checking { data_dir: String },
    /// Asked whether the workspace file exists, to read it; when it is
    /// missing, `create_if_missing` says whether to record the default path.
    Probing { data_dir: String, create_if_missing: bool },
    /// Asked for the workspace file's text.
    Loading { data_dir: String },
    /// Asked for the store's directory, in order to write `contents`.
    Creating { data_dir: String, contents: String },
    /// Asked to write `contents` to the workspace file.
    Writing { data_dir: String, contents: String },
}

pub enum StageView {
    Checking(Seq<char>),
    Probing(Seq<char>, bool),
    Loading(Seq<char>),
    Creating(Seq<char>, Seq<char>),
    Writing(Seq<char>, Seq<char>),
}

impl View for Stage {
    type V = StageView;

    open spec fn view(&self) -> StageView {
        match self {
            Stage::Checking { data_dir } => StageView::Checking(data_dir@),
            Stage::Probing { data_dir, create_if_missing } => StageView::Probing(
                data_dir@,
                *create_if_missing,
            ),
            Stage::Loading { data_dir } => StageView::Loading(data_dir@),
            Stage::Creating { data_dir, contents } => StageView::Creating(data_dir@, contents@),
            Stage::Writing { data_dir, contents } => StageView::Writing(data_dir@, contents@),
        }
    }
}

/// What a session does next: wait for the answer to a request, or end.
pub enum Step {
    /// The host is to carry out `request` and pass its reply to `resume` with `stage`.
    Pending { stage: Stage, request: Request },
    /// The session asked whether the workspace file exists; this is the answer.
    Answered(bool),
    /// The session is over, with the workspace path or an error.
    Finished(Result<String, WorkspaceError>),
}

pub enum StepView {
    Pending(StageView, RequestView),
    Answered(bool),
    Finished(Result<Seq<char>, WorkspaceError>),
}

impl View for Step {
    type V = StepView;

    open spec fn view(&self) -> StepView {
        match self {
            Step::Pending { stage, request } => StepView::Pending(stage@, request@),
            Step::Answered(b) => StepView::Answered(*b),
            Step::Finished(Ok(p)) => StepView::Finished(Ok(p@)),
            Step::Finished(Err(e)) => StepView::Finished(Err(*e)),
        }
    }
}

/// The view of a data directory as the host reports it.
pub open spec fn dir_view(d: Option<String>) -> Option<Seq<char>> {
    match d {
        Some(s) => Some(s@),
        None => None,
    }
}

/// The first step of asking whether the workspace file exists: with no data
/// directory the answer is `false`.
pub open spec fn begin_exists_spec(d: Option<Seq<char>>) -> StepView {
    match d {
        Some(d) => StepView::Pending(
            StageView::Checking(d),
            RequestView::CheckExists(workspace_file_spec(d)),
        ),
        None => StepView::Answered(false),
    }
}

/// The first step of reading the workspace path, or of finding the current one.
pub open spec fn begin_probe_spec(d: Option<Seq<char>>, create_if_missing: bool) -> StepView {
    match d {
        Some(d) => StepView::Pending(
            StageView::Probing(d, create_if_missing),
            RequestView::CheckExists(workspace_file_spec(d)),
        ),
        None => StepView::Finished(Err(WorkspaceError::DataDirNotFound)),
    }
}

/// The first step of recording `p` as the workspace path.
pub open spec fn begin_write_spec(d: Option<Seq<char>>, p: Seq<char>) -> StepView {
    match d {
        Some(d) => StepView::Pending(
            StageView::Creating(d, p),
            RequestView::CreateDirAll(codecluster_dir_spec(d)),
        ),
        None => StepView::Finished(Err(WorkspaceError::DataDirNotFound)),
    }
}

/// Whether `reply` is of the kind that the request made at `stage` calls for.
pub open spec fn fits(stage: StageView, reply: ReplyView) -> bool {
    match stage {
        StageView::Checking(_) | StageView::Probing(_, _) => reply is Exists,
        StageView::Loading(_) => reply is Contents,
        StageView::Creating(_, _) | StageView::Writing(_, _) => reply is Done,
    }
}

/// The step that follows `stage` once the host has answered with `reply`.
/// (A reply that does not fit the stage is ruled out by `resume`'s precondition.)
pub open spec fn resume_spec(stage: StageView, reply: ReplyView) -> StepView {
    match (stage, reply) {
        (StageView::Checking(_), ReplyView::Exists(b)) => StepView::Answered(b),
        (StageView::Probing(d, create), ReplyView::Exists(b)) => if b {
            StepView::Pending(StageView::Loading(d), RequestView::ReadFile(workspace_file_spec(d)))
        } else if create {
            begin_write_spec(Some(d), default_path_spec(d))
        } else {
            StepView::Finished(Err(WorkspaceError::WorkspaceFileNotFound))
        },
        (StageView::Loading(_), ReplyView::Contents(Ok(c))) => StepView::Finished(Ok(trim_spec(c))),
        (StageView::Loading(_), ReplyView::Contents(Err(e))) => StepView::Finished(
            Err(WorkspaceError::ReadFailed(e)),
        ),
        (StageView::Creating(d, c), ReplyView::Done(Ok(_))) => StepView::Pending(
            StageView::Writing(d, c),
            RequestView::WriteFile(workspace_file_spec(d), c),
        ),
        (StageView::Writing(_, c), ReplyView::Done(Ok(_))) => StepView::Finished(Ok(c)),
        (StageView::Creating(_, _), ReplyView::Done(Err(e))) => StepView::Finished(
            Err(WorkspaceError::WriteFailed(e)),
        ),
        (StageView::Writing(_, _), ReplyView::Done(Err(e))) => StepView::Finished(
            Err(WorkspaceError::WriteFailed(e)),
        ),
        _ => StepView::Answered(false),
    }
}

/// The first step of asking whether the workspace file exists under `data_dir`.
pub fn begin_exists(data_dir: Option<String>) -> (r: Step)
    ensures
        r@ == begin_exists_spec(dir_view(data_dir)),
{
    match data_dir {
        Some(d) => {
            let path = workspace_file_in(d.as_str());
            Step::Pending { stage: Stage::Checking { data_dir: d }, request: Request::CheckExists { path } }
        },
        None => Step::Answered(false),
    }
}

/// The first step of reading the workspace path under `data_dir` (when
/// `create_if_missing` is false), or of finding the current one (when true).
pub fn begin_probe(data_dir: Option<String>, create_if_missing: bool) -> (r: Step)
    ensures
        r@ == begin_probe_spec(dir_view(data_dir), create_if_missing),
{
    match data_dir {
        Some(d) => {
            let path = workspace_file_in(d.as_str());
            Step::Pending {
                stage: Stage::Probing { data_dir: d, create_if_missing },
                request: Request::CheckExists { path },
            }
        },
        None => Step::Finished(Err(WorkspaceError::DataDirNotFound)),
    }
}

/// The first step of recording `workspace_path` under `data_dir`.
pub fn begin_write(data_dir: Option<String>, workspace_path: String) -> (r: Step)
    ensures
        r@ == begin_write_spec(dir_view(data_dir), workspace_path@),
{
    match data_dir {
        Some(d) => {
            let path = codecluster_dir_in(d.as_str());
            Step::Pending {
                stage: Stage::Creating { data_dir: d, contents: workspace_path },
                request: Request::CreateDirAll { path },
            }
        },
        None => Step::Finished(Err(WorkspaceError::DataDirNotFound)),
    }
}

/// Whether `reply` is of the kind that the request made at `stage` calls for.
pub fn fits_stage(stage: &Stage, reply: &Reply) -> (r: bool)
    ensures
        r == fits(stage@, reply@),
{
    match stage {
        Stage::Checking { .. } | Stage::Probing { .. } => matches!(reply, Reply::Exists(_)),
        Stage::Loading { .. } => matches!(reply, Reply::Contents(_)),
        Stage::Creating { .. } | Stage::Writing { .. } => matches!(reply, Reply::Done(_)),
    }
}

/// The step that follows `stage` once the host has answered with `reply`.
pub fn resume(stage: Stage, reply: Reply) -> (r: Step)
    requires
        fits(stage@, reply@),
    ensures
        r@ == resume_spec(stage@, reply@),
{
    match (stage, reply) {
        (Stage::Checking { .. }, Reply::Exists(b)) => Step::Answered(b),
        (Stage::Probing { data_dir, create_if_missing }, Reply::Exists(b)) => {
            if b {
                let path = workspace_file_in(data_dir.as_str());
                Step::Pending { stage: Stage::Loading { data_dir }, request: Request::ReadFile { path } }
            } else if create_if_missing {
                let default_path = codecluster_dir_in(data_dir.as_str());
                begin_write(Some(data_dir), default_path)
            } else {
                Step::Finished(Err(WorkspaceError::WorkspaceFileNotFound))
            }
        },
        (Stage::Loading { .. }, Reply::Contents(Ok(c))) => Step::Finished(Ok(trim(c.as_str()))),
        (Stage::Loading { .. }, Reply::Contents(Err(e))) => Step::Finished(
            Err(WorkspaceError::ReadFailed(e)),
        ),
        (Stage::Creating { data_dir, contents }, Reply::Done(Ok(_))) => {
            let path = workspace_file_in(data_dir.as_str());
            let request = Request::WriteFile { path, contents: contents.clone() };
            Step::Pending { stage: Stage::Writing { data_dir, contents }, request }
        },
        (Stage::Writing { contents, .. }, Reply::Done(Ok(_))) => Step::Finished(Ok(contents)),
        (Stage::Creating { .. }, Reply::Done(Err(e))) => Step::Finished(
            Err(WorkspaceError::WriteFailed(e)),
        ),
        (Stage::Writing { .. }, Reply::Done(Err(e))) => Step::Finished(
            Err(WorkspaceError::WriteFailed(e)),
        ),
        _ => Step::Answered(false),
    }
}

/// Starts asking whether the workspace file exists under the user's data
/// directory; with no data directory the answer is `false`.
pub fn workspace_file_exists() -> (r: Step)
    ensures
        exists|d: Option<Seq<char>>| r@ == #[trigger] begin_exists_spec(d),
{
    let d = host_data_dir();
    let r = begin_exists(d);
    assert(r@ == begin_exists_spec(dir_view(d)));
    r
}

/// Starts reading the workspace path under the user's data directory.
pub fn read_workspace_path() -> (r: Step)
    ensures
        exists|d: Option<Seq<char>>| r@ == #[trigger] begin_probe_spec(d, false),
{
    let d = host_data_dir();
    let r = begin_probe(d, false);
    assert(r@ == begin_probe_spec(dir_view(d), false));
    r
}

/// Starts recording `workspace_path` under the user's data directory.
pub fn write_workspace_path(workspace_path: &str) -> (r: Step)
    ensures
        exists|d: Option<Seq<char>>| r@ == #[trigger] begin_write_spec(d, workspace_path@),
{
    let d = host_data_dir();
    let r = begin_write(d, workspace_path.to_string());
    assert(r@ == begin_write_spec(dir_view(d), workspace_path@));
    r
}

/// Starts finding the current workspace path under the user's data directory:
/// the recorded one, or else the default path, which is then recorded.
pub fn get_current_workspace_path() -> (r: Step)
    ensures
        exists|d: Option<Seq<char>>| r@ == #[trigger] begin_probe_spec(d, true),
{
    let d = host_data_dir();
    let r = begin_probe(d, true);
    assert(r@ == begin_probe_spec(dir_view(d), true));
    r
}

/// A host on which every request succeeds: the files it holds, with their
/// text, and the directories it has been asked to create.
pub struct Disk {
    pub files: Map<Seq<char>, Seq<char>>,
    pub dirs: Set<Seq<char>>,
}

/// How such a host answers `req`, and what it holds afterwards. A session reads
/// a file only after the host has said that it exists, so the error given for a
/// missing one is left unspecified.
pub open spec fn serve(disk: Disk, req: RequestView) -> (Disk, ReplyView) {
    match req {
        RequestView::CheckExists(p) => (
            disk,
            ReplyView::Exists(disk.files.contains_key(p) || disk.dirs.contains(p)),
        ),
        RequestView::ReadFile(p) => (
            disk,
            ReplyView::Contents(
                if disk.files.contains_key(p) {
                    Ok(disk.files[p])
                } else {
                    Err(arbitrary())
                },
            ),
        ),
        RequestView::CreateDirAll(p) => (
            Disk { files: disk.files, dirs: disk.dirs.insert(p) },
            ReplyView::Done(Ok(())),
        ),
        RequestView::WriteFile(p, c) => (
            Disk { files: disk.files.insert(p, c), dirs: disk.dirs },
            ReplyView::Done(Ok(())),
        ),
    }
}

/// Runs `step` against such a host for at most `fuel` requests.
pub open spec fn run(disk: Disk, step: StepView, fuel: nat) -> (Disk, StepView)
    decreases fuel,
{
    match step {
        StepView::Pending(stage, req) => if fuel == 0 {
            (disk, step)
        } else {
            let (next, reply) = serve(disk, req);
            run(next, resume_spec(stage, reply), (fuel - 1) as nat)
        },
        _ => (disk, step),
    }
}

/// Runs `step` against such a host to its end (no session makes more than
/// three requests).
pub open spec fn settle(disk: Disk, step: StepView) -> (Disk, StepView) {
    run(disk, step, 3)
}

/// Whether nothing exists yet at the workspace file under the data directory `d`.
pub open spec fn fresh(disk: Disk, d: Seq<char>) -> bool {
    !disk.files.contains_key(workspace_file_spec(d)) && !disk.dirs.contains(workspace_file_spec(d))
}

/// Recording `p` and then reading the workspace path gives `p` without
/// white space at either end.
pub proof fn lemma_write_then_read(disk: Disk, d: Seq<char>, p: Seq<char>)
    ensures
        settle(disk, begin_write_spec(Some(d), p)).1 == StepView::Finished(Ok(p)),
        settle(settle(disk, begin_write_spec(Some(d), p)).0, begin_probe_spec(Some(d), false)).1
            == StepView::Finished(Ok(trim_spec(p))),
{
    reveal_with_fuel(run, 4);
}

/// The workspace file does not exist before anything is recorded under a
/// fresh data directory, and exists right after a path is recorded.
pub proof fn lemma_exists_after_write(disk: Disk, d: Seq<char>, p: Seq<char>)
    requires
        fresh(disk, d),
    ensures
        settle(disk, begin_exists_spec(Some(d))).1 == StepView::Answered(false),
        settle(settle(disk, begin_write_spec(Some(d), p)).0, begin_exists_spec(Some(d))).1
            == StepView::Answered(true),
{
    reveal_with_fuel(run, 4);
}

/// On a fresh data directory the current workspace path is the default path;
/// afterwards the workspace file exists and reading it gives that path again
/// (when the data directory does not start with white space, which reading trims).
pub proof fn lemma_current_initialises(disk: Disk, d: Seq<char>)
    requires
        fresh(disk, d),
    ensures
        settle(disk, begin_probe_spec(Some(d), true)).1 == StepView::Finished(
            Ok(default_path_spec(d)),
        ),
        settle(settle(disk, begin_probe_spec(Some(d), true)).0, begin_exists_spec(Some(d))).1
            == StepView::Answered(true),
        !is_space(default_path_spec(d)[0]) ==> settle(
            settle(disk, begin_probe_spec(Some(d), true)).0,
            begin_probe_spec(Some(d), false),
        ).1 == StepView::Finished(Ok(default_path_spec(d))),
{
    reveal_with_fuel(run, 4);
    if !is_space(default_path_spec(d)[0]) {
        lemma_default_path_unpadded(d);
    }
}

/// Finding the current workspace path twice on a fresh data directory writes
/// nothing the second time, and gives the same path both times (when the data
/// directory does not start with white space, which reading trims).
pub proof fn lemma_current_twice(disk: Disk, d: Seq<char>)
    requires
        fresh(disk, d),
    ensures
        settle(settle(disk, begin_probe_spec(Some(d), true)).0, begin_probe_spec(Some(d), true)).0
            == settle(disk, begin_probe_spec(Some(d), true)).0,
        !is_space(default_path_spec(d)[0]) ==> settle(
            settle(disk, begin_probe_spec(Some(d), true)).0,
            begin_probe_spec(Some(d), true),
        ).1 == settle(disk, begin_probe_spec(Some(d), true)).1,
{
    reveal_with_fuel(run, 4);
    if !is_space(default_path_spec(d)[0]) {
        lemma_default_path_unpadded(d);
    }
}

} // verus!
