use patchwork::startup::{
    advance, connection_url, needs_rebuild, start, start_with_parent, Startup, StartupAction,
    StartupError, StartupEvent, StartupPhase, Statement,
};

fn run(path: &str, mode: Option<i64>) -> Vec<StartupAction> {
    let (mut state, mut action) = start(path.to_string());
    let mut actions = Vec::new();
    loop {
        let event = match &action {
            StartupAction::ReadMode(_) => StartupEvent::AutoVacuumMode(mode),
            StartupAction::Finish | StartupAction::Abort(_) => {
                actions.push(action);
                return actions;
            }
            _ => StartupEvent::Succeeded,
        };
        actions.push(action);
        let (next, next_action) = advance(state, event);
        state = next;
        action = next_action;
    }
}

#[test]
fn existing_shard_without_auto_vacuum_is_rebuilt_once() {
    assert_eq!(
        run("nested/shard.sqlite", Some(0)),
        vec![
            StartupAction::CreateDirectory("nested".to_string()),
            StartupAction::Connect("sqlite://nested/shard.sqlite?mode=rwc".to_string()),
            StartupAction::Execute(Statement::EnableAutoVacuum),
            StartupAction::ReadMode(Statement::ReadAutoVacuum),
            StartupAction::Execute(Statement::Rebuild),
            StartupAction::Execute(Statement::EnableWal),
            StartupAction::CreateDataTable,
            StartupAction::Canonicalize("nested/shard.sqlite".to_string()),
            StartupAction::Finish,
        ]
    );
}

#[test]
fn new_shard_skips_the_rebuild() {
    assert_eq!(
        run("shard.sqlite", Some(1)),
        vec![
            StartupAction::Connect("sqlite://shard.sqlite?mode=rwc".to_string()),
            StartupAction::Execute(Statement::EnableAutoVacuum),
            StartupAction::ReadMode(Statement::ReadAutoVacuum),
            StartupAction::Execute(Statement::EnableWal),
            StartupAction::CreateDataTable,
            StartupAction::Canonicalize("shard.sqlite".to_string()),
            StartupAction::Finish,
        ]
    );
}

#[test]
fn missing_mode_aborts() {
    let actions = run("shard.sqlite", None);
    assert_eq!(
        actions.last(),
        Some(&StartupAction::Abort(StartupError::MissingAutoVacuum))
    );
}

#[test]
fn failed_step_aborts_and_stays_failed() {
    let state = Startup { path: "a/b.sqlite".to_string(), phase: StartupPhase::EnablingWal };
    let (state, action) = advance(state, StartupEvent::Failed);
    assert_eq!(state.phase, StartupPhase::Failed(StartupError::StepFailed));
    assert_eq!(action, StartupAction::Abort(StartupError::StepFailed));
    let (state, action) = advance(state, StartupEvent::Succeeded);
    assert_eq!(state.phase, StartupPhase::Failed(StartupError::StepFailed));
    assert_eq!(action, StartupAction::Abort(StartupError::StepFailed));
}

#[test]
fn unexpected_outcome_aborts() {
    let state = Startup { path: "b.sqlite".to_string(), phase: StartupPhase::Connecting };
    let (state, action) = advance(state, StartupEvent::AutoVacuumMode(Some(1)));
    assert_eq!(state.phase, StartupPhase::Failed(StartupError::StepFailed));
    assert_eq!(action, StartupAction::Abort(StartupError::StepFailed));
}

#[test]
fn empty_parent_is_not_created() {
    let (state, action) = start_with_parent("x.sqlite".to_string(), Some(String::new()));
    assert_eq!(state.phase, StartupPhase::Connecting);
    assert_eq!(action, StartupAction::Connect("sqlite://x.sqlite?mode=rwc".to_string()));
    let (state, action) = start_with_parent("d/x.sqlite".to_string(), Some("d".to_string()));
    assert_eq!(state.phase, StartupPhase::CreatingDirectory);
    assert_eq!(action, StartupAction::CreateDirectory("d".to_string()));
}

#[test]
fn statements_and_urls() {
    assert_eq!(Statement::EnableAutoVacuum.sql(), "PRAGMA auto_vacuum = FULL");
    assert_eq!(Statement::ReadAutoVacuum.sql(), "PRAGMA auto_vacuum");
    assert_eq!(Statement::Rebuild.sql(), "VACUUM");
    assert_eq!(Statement::EnableWal.sql(), "PRAGMA journal_mode = WAL");
    assert_eq!(connection_url("/tmp/s.sqlite"), "sqlite:///tmp/s.sqlite?mode=rwc");
    assert!(needs_rebuild(0));
    assert!(!needs_rebuild(1));
    assert!(!needs_rebuild(2));
}

#[test]
fn empty_path_connects_at_once() {
    let (state, action) = start(String::new());
    assert_eq!(state.phase, StartupPhase::Connecting);
    assert_eq!(action, StartupAction::Connect("sqlite://?mode=rwc".to_string()));
}

#[test]
fn plain_file_name_connects_and_directory_is_created() {
    let (state, action) = start("x.sqlite".to_string());
    assert_eq!(state.phase, StartupPhase::Connecting);
    assert_eq!(action, StartupAction::Connect("sqlite://x.sqlite?mode=rwc".to_string()));
    let (state, action) = start("shards/x.sqlite".to_string());
    assert_eq!(state.phase, StartupPhase::CreatingDirectory);
    assert_eq!(action, StartupAction::CreateDirectory("shards".to_string()));
}

#[test]
fn absolute_nested_path_creates_its_directory() {
    let (state, action) = start("/tmp/d/nested/shard.sqlite".to_string());
    assert_eq!(state.phase, StartupPhase::CreatingDirectory);
    assert_eq!(action, StartupAction::CreateDirectory("/tmp/d/nested".to_string()));
    let (_, action) = start("/shard.sqlite".to_string());
    assert_eq!(action, StartupAction::CreateDirectory("/".to_string()));
    let (_, action) = start("a/b/c.sqlite".to_string());
    assert_eq!(action, StartupAction::CreateDirectory("a/b".to_string()));
}
