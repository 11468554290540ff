use cli_scaffold::errors::{CommandError, InstallError};
use cli_scaffold::executor::{Action, CommonCommands, Event, Execution, Step};

fn install(destdir: &str, prefix: &str, mode: &str) -> CommonCommands {
    CommonCommands::Install {
        destdir: destdir.to_owned(),
        prefix: prefix.to_owned(),
        mode: mode.to_owned(),
    }
}

fn ok() -> Event {
    Event::Ran { ok: true, detail: String::new() }
}

fn failed(detail: &str) -> Event {
    Event::Ran { ok: false, detail: detail.to_owned() }
}

/// Drive a run through events, recording the action sequence, until it
/// stops; returns (actions, outcome).
fn drive(ex: &mut Execution, mut events: Vec<Event>) -> (Vec<Action>, Result<(), CommandError>) {
    events.reverse();
    let mut actions = Vec::new();
    loop {
        match ex.step() {
            Step::Done => return (actions, Ok(())),
            Step::Fail(e) => return (actions, Err(e)),
            Step::Run(action) => {
                actions.push(action);
                let ev = events.pop().expect("run asked for more events than supplied");
                ex.advance(ev);
            }
        }
    }
}

#[test]
fn successful_install_places_artifact_with_parsed_mode() {
    let cmd = install("/tmp/x", "opt", "755");
    let mut ex = cmd.execute("foo");
    let (actions, outcome) = drive(&mut ex, vec![Event::Exists(true), ok(), ok(), ok()]);
    assert!(outcome.is_ok());
    assert_eq!(actions.len(), 4);
    match &actions[0] {
        Action::CheckArtifact { path } => assert_eq!(path, "target/release/foo"),
        a => panic!("expected the artifact check first, got {:?}", a),
    }
    match &actions[1] {
        Action::CreateDir { path } => assert_eq!(path, "/tmp/x/opt/bin"),
        a => panic!("expected the directory creation second, got {:?}", a),
    }
    match &actions[2] {
        Action::CopyFile { from, to } => {
            assert_eq!(from, "target/release/foo");
            assert_eq!(to, "/tmp/x/opt/bin/foo");
        }
        a => panic!("expected the copy third, got {:?}", a),
    }
    match &actions[3] {
        Action::SetPermissions { path, mode } => {
            assert_eq!(path, "/tmp/x/opt/bin/foo");
            assert_eq!(*mode, 0o755);
        }
        a => panic!("expected the permission change last, got {:?}", a),
    }
}

#[test]
fn default_arguments_install_under_usr_bin() {
    let cmd = install("/", "usr", "755");
    let mut ex = cmd.execute("prog");
    let (actions, outcome) = drive(&mut ex, vec![Event::Exists(true), ok(), ok(), ok()]);
    assert!(outcome.is_ok());
    match &actions[3] {
        Action::SetPermissions { path, mode } => {
            assert_eq!(path, "/usr/bin/prog");
            assert_eq!(*mode, 0o755);
        }
        a => panic!("expected the permission change last, got {:?}", a),
    }
}

#[test]
fn absolute_prefix_replaces_destdir() {
    let cmd = install("/tmp/x", "/abs", "700");
    let mut ex = cmd.execute("p");
    let (actions, _) = drive(&mut ex, vec![Event::Exists(true), ok(), ok(), ok()]);
    match &actions[1] {
        Action::CreateDir { path } => assert_eq!(path, "/abs/bin"),
        a => panic!("expected the directory creation second, got {:?}", a),
    }
}

#[test]
fn missing_artifact_fails_not_built_and_mutates_nothing() {
    let cmd = install("/tmp/x", "opt", "755");
    let mut ex = cmd.execute("foo");
    let (actions, outcome) = drive(&mut ex, vec![Event::Exists(false)]);
    match outcome {
        Err(CommandError::Install(InstallError::NotBuilt)) => {}
        other => panic!("expected NotBuilt, got {:?}", other),
    }
    // The only action asked for was the pure existence check.
    assert_eq!(actions.len(), 1);
    assert!(matches!(actions[0], Action::CheckArtifact { .. }));
    // A failed run never asks for anything again.
    ex.advance(Event::Exists(true));
    ex.advance(ok());
    assert!(matches!(ex.step(), Step::Fail(CommandError::Install(InstallError::NotBuilt))));
}

#[test]
fn install_twice_succeeds_and_creates_the_directory_once_per_run() {
    let cmd = install("/tmp/x", "opt", "755");
    for _ in 0..2 {
        let mut ex = cmd.execute("foo");
        // The directory already existing is still a successful creation.
        let (actions, outcome) = drive(&mut ex, vec![Event::Exists(true), ok(), ok(), ok()]);
        assert!(outcome.is_ok());
        let creations = actions
            .iter()
            .filter(|a| matches!(a, Action::CreateDir { .. }))
            .count();
        assert_eq!(creations, 1);
    }
}

#[test]
fn invalid_mode_fails_only_after_the_copy_and_names_the_string() {
    let cmd = install("/tmp/x", "opt", "75a");
    let mut ex = cmd.execute("foo");
    let (actions, outcome) = drive(&mut ex, vec![Event::Exists(true), ok(), ok()]);
    match outcome {
        Err(CommandError::Install(InstallError::InvalidMode(s))) => assert_eq!(s, "75a"),
        other => panic!("expected InvalidMode, got {:?}", other),
    }
    // Check, create and copy ran; no permission change was ever asked for.
    assert_eq!(actions.len(), 3);
    assert!(matches!(actions[2], Action::CopyFile { .. }));
}

#[test]
fn directory_creation_failure_carries_the_cause() {
    let cmd = install("/tmp/x", "opt", "755");
    let mut ex = cmd.execute("foo");
    let (_, outcome) = drive(&mut ex, vec![Event::Exists(true), failed("permission denied")]);
    match outcome {
        Err(CommandError::Install(InstallError::DirectoryCreationFailed(d))) => {
            assert_eq!(d, "permission denied")
        }
        other => panic!("expected DirectoryCreationFailed, got {:?}", other),
    }
}

#[test]
fn copy_failure_names_the_destination() {
    let cmd = install("/tmp/x", "opt", "755");
    let mut ex = cmd.execute("foo");
    let (_, outcome) = drive(&mut ex, vec![Event::Exists(true), ok(), failed("disk full")]);
    match outcome {
        Err(CommandError::Install(InstallError::CopyFailed(p))) => {
            assert_eq!(p, "/tmp/x/opt/bin/foo")
        }
        other => panic!("expected CopyFailed, got {:?}", other),
    }
}

#[test]
fn permission_failure_carries_the_cause() {
    let cmd = install("/tmp/x", "opt", "755");
    let mut ex = cmd.execute("foo");
    let (_, outcome) = drive(
        &mut ex,
        vec![Event::Exists(true), ok(), ok(), failed("operation not permitted")],
    );
    match outcome {
        Err(CommandError::Install(InstallError::PermissionSetFailed(d))) => {
            assert_eq!(d, "operation not permitted")
        }
        other => panic!("expected PermissionSetFailed, got {:?}", other),
    }
}

#[test]
fn build_runs_the_toolchain_once() {
    let mut ex = CommonCommands::Build.execute("foo");
    let (actions, outcome) = drive(&mut ex, vec![ok()]);
    assert!(outcome.is_ok());
    assert_eq!(actions.len(), 1);
    assert!(matches!(actions[0], Action::RunBuild));
}

#[test]
fn build_failure_carries_the_cause() {
    let mut ex = CommonCommands::Build.execute("foo");
    let (_, outcome) = drive(&mut ex, vec![failed("exit status 101")]);
    match outcome {
        Err(CommandError::BuildFailed(d)) => assert_eq!(d, "exit status 101"),
        other => panic!("expected BuildFailed, got {:?}", other),
    }
}
