//! The built-in commands and their execution machine.
//!
//! The two built-in commands are Build and Install. Executing one is a
//! strictly ordered sequence of outside actions — run the build toolchain,
//! check for the artifact, create the installation directory, copy the
//! artifact, set its permission bits — with a decision after each. The
//! decisions live here, verified: [`Execution`] tells the host which
//! [`Action`] to perform next, the host performs it and reports the outcome
//! as an [`Event`], and [`Execution::advance`] decides what follows. A
//! failure is final: once a run has failed, no further action is issued.

use vstd::prelude::*;

use crate::errors::{CommandError, CommandErrorModel, InstallError, InstallErrorModel};
use crate::mode::{mode_ok, octal_value, parse_mode};
use crate::paths::{join_path, path_join, release_artifact, release_artifact_path};

verus! {

/// One outside action the host must perform on the machine's behalf.
#[derive(Debug)]
pub enum Action {
    /// Run the build toolchain to produce a release artifact.
    RunBuild,
    /// Report whether a file exists at `path`.
    CheckArtifact { path: String },
    /// Create the directory at `path`, with any missing ancestors;
    /// an already existing directory is success.
    CreateDir { path: String },
    /// Copy the file at `from` to `to`, overwriting any file at `to`.
    CopyFile { from: String, to: String },
    /// Apply the permission bits `mode` to the file at `path`.
    SetPermissions { path: String, mode: u32 },
}

/// The mathematical shape of an [`Action`].
#[verifier::ext_equal]
pub enum ActionModel {
    RunBuild,
    CheckArtifact(Seq<char>),
    CreateDir(Seq<char>),
    CopyFile(Seq<char>, Seq<char>),
    SetPermissions(Seq<char>, u32),
}

impl View for Action {
    type V = ActionModel;

    open spec fn view(&self) -> ActionModel {
        match self {
            Action::RunBuild => ActionModel::RunBuild,
            Action::CheckArtifact { path } => ActionModel::CheckArtifact(path@),
            Action::CreateDir { path } => ActionModel::CreateDir(path@),
            Action::CopyFile { from, to } => ActionModel::CopyFile(from@, to@),
            Action::SetPermissions { path, mode } => ActionModel::SetPermissions(path@, *mode),
        }
    }
}

/// The outcome of one performed [`Action`], reported back by the host.
#[derive(Debug)]
pub enum Event {
    /// Outcome of `CheckArtifact`: whether the file exists.
    Exists(bool),
    /// Outcome of any other action: whether it succeeded, and on failure
    /// the text of the underlying cause.
    Ran { ok: bool, detail: String },
}

/// The mathematical shape of an [`Event`].
#[verifier::ext_equal]
pub enum EventModel {
    Exists(bool),
    Ran(bool, Seq<char>),
}

impl View for Event {
    type V = EventModel;

    open spec fn view(&self) -> EventModel {
        match self {
            Event::Exists(found) => EventModel::Exists(*found),
            Event::Ran { ok, detail } => EventModel::Ran(*ok, detail@),
        }
    }
}

/// What an execution asks of the host next: perform an action, or stop
/// with the run's result.
#[derive(Debug)]
pub enum Step {
    /// Perform this action and report its outcome.
    Run(Action),
    /// The command completed successfully.
    Done,
    /// The command failed.
    Fail(CommandError),
}

/// The mathematical shape of a [`Step`].
#[verifier::ext_equal]
pub enum StepModel {
    Run(ActionModel),
    Done,
    Fail(CommandErrorModel),
}

impl View for Step {
    type V = StepModel;

    open spec fn view(&self) -> StepModel {
        match self {
            Step::Run(a) => StepModel::Run(a@),
            Step::Done => StepModel::Done,
            Step::Fail(e) => StepModel::Fail(e@),
        }
    }
}

/// Where an execution stands in its ordered sequence of actions.
enum Phase {
    Build,
    CheckArtifact,
    CreateDir,
    Copy,
    SetPermissions { mode: u32 },
    Done,
    Failed(CommandError),
}

/// The mathematical shape of an execution's phase.
#[verifier::ext_equal]
pub enum PhaseModel {
    Build,
    CheckArtifact,
    CreateDir,
    Copy,
    SetPermissions(u32),
    Done,
    Failed(CommandErrorModel),
}

spec fn phase_model(p: Phase) -> PhaseModel {
    match p {
        Phase::Build => PhaseModel::Build,
        Phase::CheckArtifact => PhaseModel::CheckArtifact,
        Phase::CreateDir => PhaseModel::CreateDir,
        Phase::Copy => PhaseModel::Copy,
        Phase::SetPermissions { mode } => PhaseModel::SetPermissions(mode),
        Phase::Done => PhaseModel::Done,
        Phase::Failed(e) => PhaseModel::Failed(e@),
    }
}

/// The two built-in commands every host program obtains from this library.
#[derive(Debug)]
pub enum CommonCommands {
    /// Build the project: run the build toolchain for a release artifact.
    Build,
    /// Install the project: place the built artifact at
    /// `destdir` / `prefix` / `bin` / name with the permission bits that
    /// the octal string `mode` denotes.
    Install { destdir: String, prefix: String, mode: String },
}

/// The mathematical shape of a [`CommonCommands`] value.
#[verifier::ext_equal]
pub enum CommonCommandModel {
    Build,
    Install { destdir: Seq<char>, prefix: Seq<char>, mode: Seq<char> },
}

impl View for CommonCommands {
    type V = CommonCommandModel;

    open spec fn view(&self) -> CommonCommandModel {
        match self {
            CommonCommands::Build => CommonCommandModel::Build,
            CommonCommands::Install { destdir, prefix, mode } => CommonCommandModel::Install {
                destdir: destdir@,
                prefix: prefix@,
                mode: mode@,
            },
        }
    }
}

/// The run of one built-in command: the paths it works on and the phase it
/// has reached.
pub struct Execution {
    artifact: String,
    bin_dir: String,
    target: String,
    mode: String,
    phase: Phase,
}

/// The mathematical shape of an [`Execution`].
#[verifier::ext_equal]
pub struct ExecutionModel {
    pub artifact: Seq<char>,
    pub bin_dir: Seq<char>,
    pub target: Seq<char>,
    pub mode: Seq<char>,
    pub phase: PhaseModel,
}

impl View for Execution {
    type V = ExecutionModel;

    closed spec fn view(&self) -> ExecutionModel {
        ExecutionModel {
            artifact: self.artifact@,
            bin_dir: self.bin_dir@,
            target: self.target@,
            mode: self.mode@,
            phase: phase_model(self.phase),
        }
    }
}

/// The installation directory: `destdir` / `prefix` / `bin`.
pub open spec fn install_bin_dir(destdir: Seq<char>, prefix: Seq<char>) -> Seq<char> {
    path_join(path_join(destdir, prefix), "bin"@)
}

/// The installed artifact's path: `destdir` / `prefix` / `bin` / `name`.
pub open spec fn install_target(destdir: Seq<char>, prefix: Seq<char>, name: Seq<char>) -> Seq<
    char,
> {
    path_join(install_bin_dir(destdir, prefix), name)
}

/// The execution that a command starts in: Build awaits the toolchain run,
/// Install awaits the artifact existence check.
pub open spec fn init_model(cmd: CommonCommandModel, name: Seq<char>) -> ExecutionModel {
    match cmd {
        CommonCommandModel::Build => ExecutionModel {
            artifact: Seq::empty(),
            bin_dir: Seq::empty(),
            target: Seq::empty(),
            mode: Seq::empty(),
            phase: PhaseModel::Build,
        },
        CommonCommandModel::Install { destdir, prefix, mode } => ExecutionModel {
            artifact: release_artifact(name),
            bin_dir: install_bin_dir(destdir, prefix),
            target: install_target(destdir, prefix, name),
            mode: mode,
            phase: PhaseModel::CheckArtifact,
        },
    }
}

/// An execution with nothing left to do.
pub open spec fn completed_model() -> ExecutionModel {
    ExecutionModel {
        artifact: Seq::empty(),
        bin_dir: Seq::empty(),
        target: Seq::empty(),
        mode: Seq::empty(),
        phase: PhaseModel::Done,
    }
}

/// What an execution asks of the host in each phase. Only the three
/// mutating actions — create, copy, set permissions — touch the filesystem;
/// the artifact check is a pure existence query.
pub open spec fn step_model(ex: ExecutionModel) -> StepModel {
    match ex.phase {
        PhaseModel::Build => StepModel::Run(ActionModel::RunBuild),
        PhaseModel::CheckArtifact => StepModel::Run(ActionModel::CheckArtifact(ex.artifact)),
        PhaseModel::CreateDir => StepModel::Run(ActionModel::CreateDir(ex.bin_dir)),
        PhaseModel::Copy => StepModel::Run(ActionModel::CopyFile(ex.artifact, ex.target)),
        PhaseModel::SetPermissions(m) => StepModel::Run(ActionModel::SetPermissions(ex.target, m)),
        PhaseModel::Done => StepModel::Done,
        PhaseModel::Failed(e) => StepModel::Fail(e),
    }
}

/// The phase that follows `ex.phase` once the pending action's outcome is
/// `ev`. An event of the wrong shape for the phase changes nothing, and the
/// two final phases never change.
pub open spec fn next_phase(ex: ExecutionModel, ev: EventModel) -> PhaseModel {
    match (ex.phase, ev) {
        (PhaseModel::Build, EventModel::Ran(ok, detail)) => if ok {
            PhaseModel::Done
        } else {
            PhaseModel::Failed(CommandErrorModel::BuildFailed(detail))
        },
        (PhaseModel::CheckArtifact, EventModel::Exists(found)) => if found {
            PhaseModel::CreateDir
        } else {
            PhaseModel::Failed(CommandErrorModel::Install(InstallErrorModel::NotBuilt))
        },
        (PhaseModel::CreateDir, EventModel::Ran(ok, detail)) => if ok {
            PhaseModel::Copy
        } else {
            PhaseModel::Failed(
                CommandErrorModel::Install(InstallErrorModel::DirectoryCreationFailed(detail)),
            )
        },
        (PhaseModel::Copy, EventModel::Ran(ok, _)) => if ok {
            if mode_ok(ex.mode) {
                PhaseModel::SetPermissions(octal_value(ex.mode) as u32)
            } else {
                PhaseModel::Failed(
                    CommandErrorModel::Install(InstallErrorModel::InvalidMode(ex.mode)),
                )
            }
        } else {
            PhaseModel::Failed(CommandErrorModel::Install(InstallErrorModel::CopyFailed(ex.target)))
        },
        (PhaseModel::SetPermissions(_), EventModel::Ran(ok, detail)) => if ok {
            PhaseModel::Done
        } else {
            PhaseModel::Failed(
                CommandErrorModel::Install(InstallErrorModel::PermissionSetFailed(detail)),
            )
        },
        _ => ex.phase,
    }
}

/// The execution that follows `ex` on event `ev`: the paths never change,
/// only the phase moves.
pub open spec fn next_model(ex: ExecutionModel, ev: EventModel) -> ExecutionModel {
    ExecutionModel { phase: next_phase(ex, ev), ..ex }
}

impl CommonCommands {
    /// Begin executing this command for the program called `name`.
    ///
    /// The returned execution carries the fully composed paths: the
    /// conventional build-output location of `name`, the installation
    /// directory `destdir` / `prefix` / `bin`, and the installed artifact's
    /// path inside it.
    pub fn execute(&self, name: &str) -> (r: Execution)
        ensures
            r@ == init_model(self@, name@),
    {
        match self {
            CommonCommands::Build => Execution {
                artifact: String::new(),
                bin_dir: String::new(),
                target: String::new(),
                mode: String::new(),
                phase: Phase::Build,
            },
            CommonCommands::Install { destdir, prefix, mode } => {
                let bin_dir = join_path(join_path(destdir.as_str(), prefix.as_str()).as_str(), "bin");
                let target = join_path(bin_dir.as_str(), name);
                Execution {
                    artifact: release_artifact_path(name),
                    bin_dir,
                    target,
                    mode: mode.clone(),
                    phase: Phase::CheckArtifact,
                }
            },
        }
    }
}

impl Execution {
    /// An execution that is already complete: what a command outside this
    /// library's knowledge maps to.
    pub fn completed() -> (r: Execution)
        ensures
            r@ == completed_model(),
    {
        Execution {
            artifact: String::new(),
            bin_dir: String::new(),
            target: String::new(),
            mode: String::new(),
            phase: Phase::Done,
        }
    }

    /// What the host must do now: perform an action, or stop with the
    /// run's result.
    pub fn step(&self) -> (r: Step)
        ensures
            r@ == step_model(self@),
    {
        match &self.phase {
            Phase::Build => Step::Run(Action::RunBuild),
            Phase::CheckArtifact => Step::Run(Action::CheckArtifact { path: self.artifact.clone() }),
            Phase::CreateDir => Step::Run(Action::CreateDir { path: self.bin_dir.clone() }),
            Phase::Copy => Step::Run(
                Action::CopyFile { from: self.artifact.clone(), to: self.target.clone() },
            ),
            Phase::SetPermissions { mode } => Step::Run(
                Action::SetPermissions { path: self.target.clone(), mode: *mode },
            ),
            Phase::Done => Step::Done,
            Phase::Failed(e) => Step::Fail(e.clone()),
        }
    }

    /// Consume the outcome of the pending action and move to the next
    /// phase, exactly as [`next_model`] describes.
    pub fn advance(&mut self, ev: Event)
        ensures
            final(self)@ == next_model(old(self)@, ev@),
    {
        let next: Phase = match (&self.phase, ev) {
            (Phase::Build, Event::Ran { ok, detail }) => {
                if ok {
                    Phase::Done
                } else {
                    Phase::Failed(CommandError::BuildFailed(detail))
                }
            },
            (Phase::CheckArtifact, Event::Exists(found)) => {
                if found {
                    Phase::CreateDir
                } else {
                    Phase::Failed(CommandError::Install(InstallError::NotBuilt))
                }
            },
            (Phase::CreateDir, Event::Ran { ok, detail }) => {
                if ok {
                    Phase::Copy
                } else {
                    Phase::Failed(CommandError::Install(InstallError::DirectoryCreationFailed(detail)))
                }
            },
            (Phase::Copy, Event::Ran { ok, .. }) => {
                if ok {
                    match parse_mode(self.mode.as_str()) {
                        Ok(m) => Phase::SetPermissions { mode: m },
                        Err(e) => Phase::Failed(CommandError::Install(e)),
                    }
                } else {
                    Phase::Failed(CommandError::Install(InstallError::CopyFailed(self.target.clone())))
                }
            },
            (Phase::SetPermissions { .. }, Event::Ran { ok, detail }) => {
                if ok {
                    Phase::Done
                } else {
                    Phase::Failed(CommandError::Install(InstallError::PermissionSetFailed(detail)))
                }
            },
            _ => {
                return;
            },
        };
        self.phase = next;
    }
}

/// The execution that `ex` reaches after consuming the events of `evs` in
/// order.
pub open spec fn run_model(ex: ExecutionModel, evs: Seq<EventModel>) -> ExecutionModel
    decreases evs.len(),
{
    if evs.len() == 0 {
        ex
    } else {
        run_model(next_model(ex, evs[0]), evs.drop_first())
    }
}

/// Law: a failure is final. A failed execution asks for no action, and no
/// sequence of further events moves it.
pub proof fn lemma_failed_is_final(ex: ExecutionModel, evs: Seq<EventModel>)
    requires
        ex.phase is Failed,
    ensures
        step_model(ex) == StepModel::Fail(ex.phase->Failed_0),
        run_model(ex, evs) == ex,
    decreases evs.len(),
{
    if evs.len() > 0 {
        assert(next_model(ex, evs[0]) =~= ex);
        lemma_failed_is_final(ex, evs.drop_first());
    }
}

/// Law: install never mutates the filesystem when the build artifact is
/// missing. The first thing an install run asks for is the pure existence
/// check of the artifact; if the answer is that it does not exist, the run
/// fails with `NotBuilt` at once, and — whatever events follow — never asks
/// for another action.
pub proof fn lemma_install_not_built(
    destdir: Seq<char>,
    prefix: Seq<char>,
    mode: Seq<char>,
    name: Seq<char>,
    evs: Seq<EventModel>,
)
    requires
        evs.len() > 0,
        evs[0] == EventModel::Exists(false),
    ensures
        ({
            let ex = init_model(CommonCommandModel::Install { destdir, prefix, mode }, name);
            let end = run_model(ex, evs);
            &&& step_model(ex) == StepModel::Run(ActionModel::CheckArtifact(release_artifact(name)))
            &&& end.phase == PhaseModel::Failed(
                CommandErrorModel::Install(InstallErrorModel::NotBuilt),
            )
            &&& step_model(end) == StepModel::Fail(
                CommandErrorModel::Install(InstallErrorModel::NotBuilt),
            )
        }),
{
    let ex = init_model(CommonCommandModel::Install { destdir, prefix, mode }, name);
    let failed = next_model(ex, evs[0]);
    lemma_failed_is_final(failed, evs.drop_first());
}

/// Law: the directory-creation action is asked for in the `CreateDir`
/// phase and nowhere else; once answered, the run leaves that phase; and no
/// later phase ever returns to it. Along any run, the installation
/// directory is therefore created at most once.
pub proof fn lemma_create_dir_at_most_once(ex: ExecutionModel, ev: EventModel)
    ensures
        (step_model(ex) matches StepModel::Run(a) && a is CreateDir) <==> ex.phase is CreateDir,
        ex.phase is CreateDir && ev is Ran ==> !(next_model(ex, ev).phase is CreateDir),
        next_model(ex, ev).phase is CreateDir ==> ex.phase is CheckArtifact || ex.phase
            is CreateDir,
{
}

/// Law: once an execution has passed the artifact check and the directory
/// creation, no sequence of events brings either back: the existence check
/// and the directory-creation action are each asked for in one contiguous
/// stretch of a run only.
pub proof fn lemma_create_dir_never_returns(ex: ExecutionModel, evs: Seq<EventModel>)
    requires
        !(ex.phase is CheckArtifact),
        !(ex.phase is CreateDir),
    ensures
        !(run_model(ex, evs).phase is CheckArtifact),
        !(run_model(ex, evs).phase is CreateDir),
    decreases evs.len(),
{
    if evs.len() > 0 {
        lemma_create_dir_never_returns(next_model(ex, evs[0]), evs.drop_first());
    }
}

/// Law: a successful install run is the strict sequence artifact check,
/// directory creation, copy, permission setting — each asked for exactly
/// once, in this order — and it places the artifact of `name` at
/// `destdir` / `prefix` / `bin` / `name` with exactly the permission bits
/// that the mode string denotes.
pub proof fn lemma_install_success_run(
    destdir: Seq<char>,
    prefix: Seq<char>,
    mode: Seq<char>,
    name: Seq<char>,
    d1: Seq<char>,
    d2: Seq<char>,
    d3: Seq<char>,
)
    requires
        mode_ok(mode),
    ensures
        ({
            let ex0 = init_model(CommonCommandModel::Install { destdir, prefix, mode }, name);
            let ex1 = next_model(ex0, EventModel::Exists(true));
            let ex2 = next_model(ex1, EventModel::Ran(true, d1));
            let ex3 = next_model(ex2, EventModel::Ran(true, d2));
            let ex4 = next_model(ex3, EventModel::Ran(true, d3));
            &&& step_model(ex0) == StepModel::Run(
                ActionModel::CheckArtifact(release_artifact(name)),
            )
            &&& step_model(ex1) == StepModel::Run(
                ActionModel::CreateDir(install_bin_dir(destdir, prefix)),
            )
            &&& step_model(ex2) == StepModel::Run(
                ActionModel::CopyFile(release_artifact(name), install_target(destdir, prefix, name)),
            )
            &&& step_model(ex3) == StepModel::Run(
                ActionModel::SetPermissions(
                    install_target(destdir, prefix, name),
                    octal_value(mode) as u32,
                ),
            )
            &&& step_model(ex4) == StepModel::Done
        }),
{
}

} // verus!
