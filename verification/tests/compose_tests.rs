use cli_scaffold::commands::{Commands, Empty};
use cli_scaffold::executor::{Action, CommonCommands, Event, Step};

#[derive(Debug)]
enum HostCommands {
    Greet,
    Farewell,
}

#[test]
fn common_build_reaches_the_build_handler() {
    let cmd: Commands<HostCommands> = Commands::Common(CommonCommands::Build);
    let mut ex = cmd.execute("host");
    match ex.step() {
        Step::Run(Action::RunBuild) => {}
        s => panic!("expected the build action, got {:?}", s),
    }
    ex.advance(Event::Ran { ok: true, detail: String::new() });
    assert!(matches!(ex.step(), Step::Done));
}

#[test]
fn custom_commands_pass_through_as_success() {
    for host in [HostCommands::Greet, HostCommands::Farewell] {
        let cmd: Commands<HostCommands> = Commands::Custom(host);
        let ex = cmd.execute("host");
        // No build or install action: the run is complete at once.
        assert!(matches!(ex.step(), Step::Done));
    }
}

#[test]
fn empty_custom_set_still_composes() {
    let build: Commands<Empty> = Commands::Common(CommonCommands::Build);
    assert!(matches!(build.execute("e").step(), Step::Run(Action::RunBuild)));

    let install: Commands<Empty> = Commands::Common(CommonCommands::Install {
        destdir: "/".to_owned(),
        prefix: "usr".to_owned(),
        mode: "755".to_owned(),
    });
    match install.execute("e").step() {
        Step::Run(Action::CheckArtifact { path }) => assert_eq!(path, "target/release/e"),
        s => panic!("expected the artifact check, got {:?}", s),
    }
}
