//! Opening a shard, as a sequence of steps that the caller performs one at a
//! time: create the file's directory, connect, switch auto-vacuum to FULL,
//! read the mode back and rebuild a shard whose auto-vacuum was off, switch to
//! WAL, create the data table if missing, and resolve the file's full path.
//! Any failed step ends the sequence.
use vstd::prelude::*;

verus! {

/// The SQL statements that opening a shard runs.
#[derive(Debug, Clone, Copy, PartialEq, Eq, Structural)]
pub enum Statement {
    EnableAutoVacuum,
    ReadAutoVacuum,
    Rebuild,
    EnableWal,
}

/// Why opening a shard stopped.
#[derive(Debug, Clone, Copy, PartialEq, Eq, Structural)]
pub enum StartupError {
    /// A step failed; the caller holds its error.
    StepFailed,
    /// The auto-vacuum mode could not be read back.
    MissingAutoVacuum,
}

/// Where the sequence stands: the step whose outcome it waits for, or its end.
#[derive(Debug, Clone, Copy, PartialEq, Eq, Structural)]
pub enum StartupPhase {
    CreatingDirectory,
    Connecting,
    EnablingAutoVacuum,
    ReadingAutoVacuum,
    Rebuilding,
    EnablingWal,
    CreatingTable,
    Resolving,
    Ready,
    Failed(StartupError),
}

/// The next thing the caller does.
#[derive(Debug, PartialEq)]
pub enum StartupAction {
    /// Creates this directory and its missing parents.
    CreateDirectory(String),
    /// Connects to the database at this connection URL, with one connection.
    Connect(String),
    /// Runs this statement.
    Execute(Statement),
    /// Runs this statement and reads the `auto_vacuum` column of its one row.
    ReadMode(Statement),
    /// Creates the data table if it does not exist.
    CreateDataTable,
    /// Resolves this path to its full form.
    Canonicalize(String),
    /// The shard is open.
    Finish,
    /// Opening the shard failed.
    Abort(StartupError),
}

/// The outcome of the last action.
#[derive(Debug, Clone, Copy, PartialEq, Eq, Structural)]
pub enum StartupEvent {
    /// The action succeeded.
    Succeeded,
    /// The mode read back, or `None` where the statement gave no row.
    AutoVacuumMode(Option<i64>),
    /// The action failed.
    Failed,
}

/// The state of the sequence.
#[derive(Debug, PartialEq)]
pub struct Startup {
    pub path: String,
    pub phase: StartupPhase,
}

/// The connection URL of the database file at `path`, created if missing.
pub open spec fn connection_url_text(path: Seq<char>) -> Seq<char> {
    "sqlite://"@ + path + "?mode=rwc"@
}

/// The text of a statement.
pub open spec fn sql_text(statement: Statement) -> Seq<char> {
    match statement {
        Statement::EnableAutoVacuum => "PRAGMA auto_vacuum = FULL"@,
        Statement::ReadAutoVacuum => "PRAGMA auto_vacuum"@,
        Statement::Rebuild => "VACUUM"@,
        Statement::EnableWal => "PRAGMA journal_mode = WAL"@,
    }
}

/// Whether the sequence has ended.
pub open spec fn is_terminal(phase: StartupPhase) -> bool {
    phase is Ready || phase is Failed
}

/// The phase after `phase` on `event`: each step waits for its own outcome,
/// and any other outcome fails the sequence.
pub open spec fn next_phase(phase: StartupPhase, event: StartupEvent) -> StartupPhase {
    if is_terminal(phase) {
        phase
    } else {
        match (phase, event) {
            (StartupPhase::CreatingDirectory, StartupEvent::Succeeded) => StartupPhase::Connecting,
            (StartupPhase::Connecting, StartupEvent::Succeeded) => StartupPhase::EnablingAutoVacuum,
            (StartupPhase::EnablingAutoVacuum, StartupEvent::Succeeded) =>
                StartupPhase::ReadingAutoVacuum,
            (StartupPhase::ReadingAutoVacuum, StartupEvent::AutoVacuumMode(Some(mode))) => if mode
                == 0 {
                StartupPhase::Rebuilding
            } else {
                StartupPhase::EnablingWal
            },
            (StartupPhase::ReadingAutoVacuum, StartupEvent::AutoVacuumMode(None)) =>
                StartupPhase::Failed(StartupError::MissingAutoVacuum),
            (StartupPhase::Rebuilding, StartupEvent::Succeeded) => StartupPhase::EnablingWal,
            (StartupPhase::EnablingWal, StartupEvent::Succeeded) => StartupPhase::CreatingTable,
            (StartupPhase::CreatingTable, StartupEvent::Succeeded) => StartupPhase::Resolving,
            (StartupPhase::Resolving, StartupEvent::Succeeded) => StartupPhase::Ready,
            _ => StartupPhase::Failed(StartupError::StepFailed),
        }
    }
}

/// The action that a phase asks of the caller, for the shard file at `path`;
/// the directory is only created in the first phase, so any action holding a
/// text other than the path and its connection URL is left open here.
pub open spec fn action_matches(phase: StartupPhase, path: Seq<char>, action: StartupAction) -> bool {
    match phase {
        StartupPhase::CreatingDirectory => action is CreateDirectory,
        StartupPhase::Connecting => action matches StartupAction::Connect(url) && url@
            == connection_url_text(path),
        StartupPhase::EnablingAutoVacuum => action == StartupAction::Execute(
            Statement::EnableAutoVacuum,
        ),
        StartupPhase::ReadingAutoVacuum => action == StartupAction::ReadMode(
            Statement::ReadAutoVacuum,
        ),
        StartupPhase::Rebuilding => action == StartupAction::Execute(Statement::Rebuild),
        StartupPhase::EnablingWal => action == StartupAction::Execute(Statement::EnableWal),
        StartupPhase::CreatingTable => action == StartupAction::CreateDataTable,
        StartupPhase::Resolving => action matches StartupAction::Canonicalize(p) && p@ == path,
        StartupPhase::Ready => action == StartupAction::Finish,
        StartupPhase::Failed(error) => action == StartupAction::Abort(error),
    }
}

/// The position of a phase in the sequence; every step moves forward.
pub open spec fn rank(phase: StartupPhase) -> int {
    match phase {
        StartupPhase::CreatingDirectory => 0,
        StartupPhase::Connecting => 1,
        StartupPhase::EnablingAutoVacuum => 2,
        StartupPhase::ReadingAutoVacuum => 3,
        StartupPhase::Rebuilding => 4,
        StartupPhase::EnablingWal => 5,
        StartupPhase::CreatingTable => 6,
        StartupPhase::Resolving => 7,
        StartupPhase::Ready => 8,
        StartupPhase::Failed(_) => 8,
    }
}

impl Statement {
    /// The SQL text of the statement.
    pub fn sql(&self) -> (s: &'static str)
        ensures
            s@ == sql_text(*self),
    {
        match self {
            Statement::EnableAutoVacuum => "PRAGMA auto_vacuum = FULL",
            Statement::ReadAutoVacuum => "PRAGMA auto_vacuum",
            Statement::Rebuild => "VACUUM",
            Statement::EnableWal => "PRAGMA journal_mode = WAL",
        }
    }
}

/// Whether position `i` of `s` starts a component: the text's start or just
/// after a `/`.
pub open spec fn starts_component(s: Seq<char>, i: int) -> bool {
    i == 0 || s[i - 1] == '/'
}

/// Whether position `i` of `s` ends a component: the text's end or a `/`.
pub open spec fn ends_component(s: Seq<char>, i: int) -> bool {
    i == s.len() || s[i] == '/'
}

/// Whether `s` is path components joined by single `/`, read alike on every
/// platform: not empty, no `/` first or last, no `//`, no `\\` or `:`, and no
/// `.` component (which paths drop, except at their start).
pub open spec fn plain_names(s: Seq<char>) -> bool {
    &&& s.len() > 0
    &&& s[0] != '/'
    &&& s.last() != '/'
    &&& forall|i: int| 0 <= i < s.len() ==> #[trigger] s[i] != '\\' && s[i] != ':'
    &&& forall|i: int| 0 <= i < s.len() - 1 ==> !(#[trigger] s[i] == '/' && s[i + 1] == '/')
    &&& forall|i: int|
        0 <= i < s.len() && #[trigger] s[i] == '.' && starts_component(s, i) ==> !ends_component(
            s,
            i + 1,
        )
}

/// The position of the last `/` of `s`, or -1 where there is none.
pub open spec fn last_slash(s: Seq<char>) -> int
    decreases s.len(),
{
    if s.len() == 0 {
        -1
    } else if s.last() == '/' {
        s.len() - 1
    } else {
        last_slash(s.drop_last())
    }
}

/// The parent of `path` where it is components joined by single `/`, after
/// an optional leading `/` or `./`: the text before its last `/`, or `/` where
/// that slash is the first character, or the empty text where there is no
/// slash; `None` for any other shape.
pub open spec fn slash_parent(path: Seq<char>) -> Option<Seq<char>> {
    let body = if path.len() > 0 && path[0] == '/' {
        path.drop_first()
    } else if path.len() > 1 && path[0] == '.' && path[1] == '/' {
        path.subrange(2, path.len() as int)
    } else {
        path
    };
    if !plain_names(body) {
        None
    } else if last_slash(path) == -1 {
        Some(Seq::empty())
    } else if last_slash(path) == 0 {
        Some(seq!['/'])
    } else {
        Some(path.subrange(0, last_slash(path)))
    }
}

/// The parent directory of `path`, as `std::path::Path::parent` gives it:
/// the path without its final component, so a proper prefix of it, and none
/// for an empty path. For components joined by single `/` (optionally after a
/// leading `/` or `./`, the one place where a `.` component is kept), where
/// every platform reads the components alike, that is the text before the
/// last `/`, or `/` for a single component under the root, or the empty text
/// for a single component; its documentation shows these (`/foo/bar` has the
/// parent `/foo`, `/foo` the parent `/`, `foo/bar` the parent `foo` and `foo`
/// the parent ``). What it gives for other shapes depends on the
/// platform's path syntax and is not stated here.
#[verifier::external_body]
fn path_parent(path: &str) -> (parent: Option<String>)
    ensures
        path@.len() == 0 ==> parent is None,
        slash_parent(path@) is Some ==> (parent is Some && parent->0@ == slash_parent(path@)->0),
        parent matches Some(p) ==> p@.len() < path@.len() && p@ == path@.subrange(
            0,
            p@.len() as int,
        ),
{
    match std::path::Path::new(path).parent() {
        Some(p) => Some(p.to_string_lossy().into_owned()),
        None => None,
    }
}

/// The connection URL of the database file at `path`, created if missing.
pub fn connection_url(path: &str) -> (url: String)
    ensures
        url@ == connection_url_text(path@),
{
    let mut url = String::from_str("sqlite://");
    url.append(path);
    url.append("?mode=rwc");
    url
}

/// Whether a shard whose auto-vacuum mode reads `mode` must be rebuilt once:
/// only one created with auto-vacuum off (mode 0).
pub fn needs_rebuild(mode: i64) -> (rebuild: bool)
    ensures
        rebuild <==> mode == 0,
{
    mode == 0
}

/// The first step for the shard file at `path`, whose parent directory is
/// `parent`: create that directory where it is named, else connect.
pub fn start_with_parent(path: String, parent: Option<String>) -> (r: (Startup, StartupAction))
    ensures
        r.0.path@ == path@,
        match parent {
            Some(dir) if dir@.len() > 0 => r.0.phase == StartupPhase::CreatingDirectory
                && r.1 == StartupAction::CreateDirectory(dir),
            _ => r.0.phase == StartupPhase::Connecting && action_matches(
                StartupPhase::Connecting,
                path@,
                r.1,
            ),
        },
{
    match parent {
        Some(dir) => {
            if dir.unicode_len() > 0 {
                return (
                    Startup { path, phase: StartupPhase::CreatingDirectory },
                    StartupAction::CreateDirectory(dir),
                );
            }
        },
        None => {},
    }
    let url = connection_url(path.as_str());
    (Startup { path, phase: StartupPhase::Connecting }, StartupAction::Connect(url))
}

/// The first step for the shard file at `path`: create its parent directory
/// where the path names a non-empty one (a proper prefix of the path), else
/// connect; an empty path or a single plain name connects at once, and plain
/// names joined by `/` create the directory before the last `/`.
pub fn start(path: String) -> (r: (Startup, StartupAction))
    ensures
        r.0.path@ == path@,
        r.0.phase == StartupPhase::CreatingDirectory || r.0.phase == StartupPhase::Connecting,
        action_matches(r.0.phase, path@, r.1),
        r.1 matches StartupAction::CreateDirectory(dir) ==> 0 < dir@.len() < path@.len() && dir@
            == path@.subrange(0, dir@.len() as int),
        path@.len() == 0 ==> r.0.phase == StartupPhase::Connecting,
        slash_parent(path@) == Some(Seq::<char>::empty()) ==> r.0.phase
            == StartupPhase::Connecting,
        slash_parent(path@) is Some && slash_parent(path@)->0.len() > 0 ==> (r.1 matches StartupAction::CreateDirectory(
            dir,
        ) && dir@ == slash_parent(path@)->0),
{
    let parent = path_parent(path.as_str());
    start_with_parent(path, parent)
}

/// The next step after `event`, the outcome of the action that `state` asked for.
pub fn advance(state: Startup, event: StartupEvent) -> (r: (Startup, StartupAction))
    ensures
        r.0.path@ == state.path@,
        r.0.phase == next_phase(state.phase, event),
        !(r.0.phase is CreatingDirectory),
        action_matches(r.0.phase, state.path@, r.1),
{
    let phase = match (state.phase, event) {
        (StartupPhase::Ready, _) => StartupPhase::Ready,
        (StartupPhase::Failed(error), _) => StartupPhase::Failed(error),
        (StartupPhase::CreatingDirectory, StartupEvent::Succeeded) => StartupPhase::Connecting,
        (StartupPhase::Connecting, StartupEvent::Succeeded) => StartupPhase::EnablingAutoVacuum,
        (StartupPhase::EnablingAutoVacuum, StartupEvent::Succeeded) =>
            StartupPhase::ReadingAutoVacuum,
        (StartupPhase::ReadingAutoVacuum, StartupEvent::AutoVacuumMode(Some(mode))) => {
            if needs_rebuild(mode) {
                StartupPhase::Rebuilding
            } else {
                StartupPhase::EnablingWal
            }
        },
        (StartupPhase::ReadingAutoVacuum, StartupEvent::AutoVacuumMode(None)) =>
            StartupPhase::Failed(StartupError::MissingAutoVacuum),
        (StartupPhase::Rebuilding, StartupEvent::Succeeded) => StartupPhase::EnablingWal,
        (StartupPhase::EnablingWal, StartupEvent::Succeeded) => StartupPhase::CreatingTable,
        (StartupPhase::CreatingTable, StartupEvent::Succeeded) => StartupPhase::Resolving,
        (StartupPhase::Resolving, StartupEvent::Succeeded) => StartupPhase::Ready,
        _ => StartupPhase::Failed(StartupError::StepFailed),
    };
    let action = match phase {
        StartupPhase::Connecting => StartupAction::Connect(connection_url(state.path.as_str())),
        StartupPhase::EnablingAutoVacuum => StartupAction::Execute(Statement::EnableAutoVacuum),
        StartupPhase::ReadingAutoVacuum => StartupAction::ReadMode(Statement::ReadAutoVacuum),
        StartupPhase::Rebuilding => StartupAction::Execute(Statement::Rebuild),
        StartupPhase::EnablingWal => StartupAction::Execute(Statement::EnableWal),
        StartupPhase::CreatingTable => StartupAction::CreateDataTable,
        StartupPhase::Resolving => StartupAction::Canonicalize(state.path.clone()),
        StartupPhase::Ready => StartupAction::Finish,
        StartupPhase::Failed(error) => StartupAction::Abort(error),
        StartupPhase::CreatingDirectory => StartupAction::Abort(StartupError::StepFailed),
    };
    (Startup { path: state.path, phase }, action)
}

/// Every step of an unfinished sequence moves it strictly forward, so opening
/// a shard takes at most eight steps after the first; a finished one stays as it is.
pub proof fn lemma_startup_progresses(phase: StartupPhase, event: StartupEvent)
    ensures
        !is_terminal(phase) ==> rank(next_phase(phase, event)) > rank(phase),
        is_terminal(phase) ==> next_phase(phase, event) == phase,
        0 <= rank(next_phase(phase, event)) <= 8,
{
}

/// A shard is rebuilt exactly when the mode read back is 0; the data table is
/// created only after WAL is on, and the shard is ready only after its path
/// was resolved.
pub proof fn lemma_startup_order(phase: StartupPhase, event: StartupEvent)
    ensures
        (next_phase(phase, event) == StartupPhase::Rebuilding) <==> (phase
            == StartupPhase::ReadingAutoVacuum && event == StartupEvent::AutoVacuumMode(Some(0))),
        next_phase(phase, event) == StartupPhase::CreatingTable ==> phase
            == StartupPhase::EnablingWal,
        next_phase(phase, event) == StartupPhase::EnablingWal ==> (phase
            == StartupPhase::Rebuilding || phase == StartupPhase::ReadingAutoVacuum),
        next_phase(phase, event) == StartupPhase::Ready ==> (phase == StartupPhase::Resolving
            || phase == StartupPhase::Ready),
{
}

/// Each step follows from exactly one earlier step: the shard is opened in
/// the fixed order directory, connection, auto-vacuum on, mode read back,
/// rebuild (only for mode 0), WAL, data table, full path; a success moves on
/// to the next step, and the mode decides between rebuilding and WAL.
pub proof fn lemma_startup_steps(phase: StartupPhase, event: StartupEvent)
    ensures
        (next_phase(phase, event) == StartupPhase::Connecting) <==> (phase
            == StartupPhase::CreatingDirectory && event == StartupEvent::Succeeded),
        (next_phase(phase, event) == StartupPhase::EnablingAutoVacuum) <==> (phase
            == StartupPhase::Connecting && event == StartupEvent::Succeeded),
        (next_phase(phase, event) == StartupPhase::ReadingAutoVacuum) <==> (phase
            == StartupPhase::EnablingAutoVacuum && event == StartupEvent::Succeeded),
        (next_phase(phase, event) == StartupPhase::EnablingWal) <==> ((phase
            == StartupPhase::Rebuilding && event == StartupEvent::Succeeded) || (phase
            == StartupPhase::ReadingAutoVacuum && event is AutoVacuumMode && event->0 is Some
            && event->0->0 != 0)),
        (next_phase(phase, event) == StartupPhase::CreatingTable) <==> (phase
            == StartupPhase::EnablingWal && event == StartupEvent::Succeeded),
        (next_phase(phase, event) == StartupPhase::Resolving) <==> (phase
            == StartupPhase::CreatingTable && event == StartupEvent::Succeeded),
        (next_phase(phase, event) == StartupPhase::Ready) <==> ((phase == StartupPhase::Resolving
            && event == StartupEvent::Succeeded) || phase == StartupPhase::Ready),
        next_phase(phase, event) != StartupPhase::CreatingDirectory,
        phase == StartupPhase::ReadingAutoVacuum && event == StartupEvent::AutoVacuumMode(None)
            ==> next_phase(phase, event) == StartupPhase::Failed(StartupError::MissingAutoVacuum),
        !is_terminal(phase) && event == StartupEvent::Failed ==> next_phase(phase, event)
            == StartupPhase::Failed(StartupError::StepFailed),
{
}

/// Each step asks for its own SQL: auto-vacuum is switched to FULL, then read
/// back, the rebuild is a VACUUM, and WAL is the journal mode.
pub proof fn lemma_step_statements(path: Seq<char>, action: StartupAction)
    ensures
        action_matches(StartupPhase::EnablingAutoVacuum, path, action) ==> (action matches StartupAction::Execute(
            st,
        ) && sql_text(st) == "PRAGMA auto_vacuum = FULL"@),
        action_matches(StartupPhase::ReadingAutoVacuum, path, action) ==> (action matches StartupAction::ReadMode(
            st,
        ) && sql_text(st) == "PRAGMA auto_vacuum"@),
        action_matches(StartupPhase::Rebuilding, path, action) ==> (action matches StartupAction::Execute(
            st,
        ) && sql_text(st) == "VACUUM"@),
        action_matches(StartupPhase::EnablingWal, path, action) ==> (action matches StartupAction::Execute(
            st,
        ) && sql_text(st) == "PRAGMA journal_mode = WAL"@),
        action_matches(StartupPhase::Connecting, path, action) ==> (action matches StartupAction::Connect(
            url,
        ) && url@ == "sqlite://"@ + path + "?mode=rwc"@),
        action_matches(StartupPhase::Resolving, path, action) ==> (action matches StartupAction::Canonicalize(
            p,
        ) && p@ == path),
{
}

} // verus!
