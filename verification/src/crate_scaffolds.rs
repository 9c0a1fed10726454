//! Setting up the target crate, step by step.
//!
//! The set-up touches the file system and runs `cargo`, which this library
//! does not do itself. It decides: [`scaffold_crate`] gives the first step,
//! [`ScaffoldState`] names the step that is under way,
//! [`ScaffoldState::action`] says what the caller has to perform for it, and
//! [`ScaffoldState::step`] takes the outcome and moves on. The steps run in a
//! fixed order and the first failure ends the run; nothing is undone.

use crate::catalog::TaskNames;
use crate::cli::{Cli, ParameterError, TEMP_DIR};
use crate::errors::ProcessError;
use crate::makefiles::MakefileGenerationError;
use crate::tasks::strings;
use crate::text::views;
use crate::yamls::YAMLGenerationError;
use vstd::prelude::*;

verus! {

/// Why the set-up of the target crate failed.
#[derive(Debug)]
pub enum CrateScaffoldingError {
    /// A file or directory operation failed.
    IOError(std::io::Error),
    /// A process could not be run.
    ProcessError(ProcessError),
    /// The sample specification could not be written.
    YAMLGenerationError(YAMLGenerationError),
    /// The pipeline configuration could not be built or written.
    MakefileGenerationError(MakefileGenerationError),
    /// The target directory holds something already.
    NonEmptyTargetDir(String),
    /// The target directory is not there when the crate is to be initialised.
    MissingCrateDir(String),
    /// The task runner ran the task and reported a failure.
    CargoMakeTaskFailed(TaskNames),
    /// `cargo init` ran and reported a failure.
    CargoInitFailed { crate_dir: String, error_string: String },
    /// `cargo install` of the task runner ran and reported a failure.
    CargoMakeInstallFailed { error_string: String },
}

/// What a finished process left behind.
#[derive(Debug)]
pub struct ProcessOutput {
    /// Whether the exit status reports success.
    pub success: bool,
    /// The captured standard output.
    pub stdout: String,
    /// Everything captured of the process, for error messages.
    pub report: String,
}

/// What the caller performs for a step.
#[derive(Debug, Clone, Copy, PartialEq, Eq, Structural)]
pub enum ScaffoldAction {
    /// Find out whether the target directory exists as a directory.
    CheckTargetIsDir,
    /// Remove the target directory with everything in it.
    RemoveTargetDir,
    /// Create the target directory and the missing directories above it.
    CreateTargetDir,
    /// Find out whether the target directory holds any entry.
    CheckTargetHasEntry,
    /// Run [`CARGO`] with the arguments of [`cargo_init_args`].
    InitCrate,
    /// Create the working subdirectory inside the target directory.
    CreateTempDir,
    /// Write [`gitignore_contents`] to the ignore file, replacing it.
    WriteGitignore,
    /// Write the sample specification to the local specification path.
    WriteTestingSpec,
    /// Build the pipeline configuration and write its document.
    WriteMakefile,
}

impl ScaffoldAction {
    /// Whether the action changes something inside the target directory.
    pub open spec fn writes_into_target(self) -> bool {
        match self {
            ScaffoldAction::InitCrate => true,
            ScaffoldAction::CreateTempDir => true,
            ScaffoldAction::WriteGitignore => true,
            ScaffoldAction::WriteTestingSpec => true,
            ScaffoldAction::WriteMakefile => true,
            _ => false,
        }
    }
}

/// The outcome of an action, as the caller reports it.
#[derive(Debug)]
pub enum ScaffoldReply {
    /// The operation was carried out.
    Completed,
    /// The answer to a check.
    Answer(bool),
    /// The process ran to its end.
    Exited(ProcessOutput),
    /// A file or directory operation failed, or the process could not be run.
    IoFailed(std::io::Error),
    /// The pipeline configuration could not be built or written.
    MakefileFailed(MakefileGenerationError),
}

/// The step of the set-up that is under way, or how the set-up ended.
#[derive(Debug)]
pub enum ScaffoldState {
    /// Test generation: asked whether the target directory exists.
    CheckingTestDir,
    /// Test generation: removing what an earlier run left.
    RemovingTestDir,
    /// Test generation: creating the target directory afresh.
    CreatingTestDir,
    /// Creating the target directory unless it is there.
    CreatingCrateDir,
    /// Asked whether the target directory holds anything.
    CheckingCrateDirEmpty,
    /// Asked whether the target directory is there for `cargo init`.
    CheckingCrateDir,
    /// `cargo init` is running.
    InitializingCrate,
    /// Creating the working subdirectory.
    CreatingTempDir,
    /// Writing the ignore file.
    WritingGitignore,
    /// Test generation: writing the sample specification.
    WritingTestingSpec,
    /// Building and writing the pipeline configuration.
    WritingMakefile,
    /// Every step succeeded.
    Done,
    /// A step failed; no step follows.
    Failed(CrateScaffoldingError),
}

/// The first step: test generation starts by looking for an old target
/// directory, every other run by creating the target directory.
pub open spec fn start_state(cli: Cli) -> ScaffoldState {
    if cli.spec_is_test_generation() {
        ScaffoldState::CheckingTestDir
    } else {
        ScaffoldState::CreatingCrateDir
    }
}

/// The state after `reply` came in for the step `state`. A reply that does
/// not answer the step leaves the state as it is.
pub open spec fn next_state(cli: Cli, state: ScaffoldState, reply: ScaffoldReply) -> ScaffoldState {
    match (state, reply) {
        (ScaffoldState::CheckingTestDir, ScaffoldReply::Answer(is_dir)) => if is_dir {
            ScaffoldState::RemovingTestDir
        } else {
            ScaffoldState::CreatingTestDir
        },
        (ScaffoldState::RemovingTestDir, ScaffoldReply::Completed) => ScaffoldState::CreatingTestDir,
        (ScaffoldState::RemovingTestDir, ScaffoldReply::IoFailed(e)) => ScaffoldState::Failed(
            CrateScaffoldingError::IOError(e),
        ),
        (ScaffoldState::CreatingTestDir, ScaffoldReply::Completed) => ScaffoldState::CheckingCrateDir,
        (ScaffoldState::CreatingTestDir, ScaffoldReply::IoFailed(e)) => ScaffoldState::Failed(
            CrateScaffoldingError::IOError(e),
        ),
        (ScaffoldState::CreatingCrateDir, ScaffoldReply::Completed) => {
            ScaffoldState::CheckingCrateDirEmpty
        },
        (ScaffoldState::CreatingCrateDir, ScaffoldReply::IoFailed(e)) => ScaffoldState::Failed(
            CrateScaffoldingError::IOError(e),
        ),
        (ScaffoldState::CheckingCrateDirEmpty, ScaffoldReply::Answer(has_entry)) => if has_entry {
            ScaffoldState::Failed(CrateScaffoldingError::NonEmptyTargetDir(cli.output_project_dir))
        } else {
            ScaffoldState::CheckingCrateDir
        },
        (ScaffoldState::CheckingCrateDirEmpty, ScaffoldReply::IoFailed(e)) => ScaffoldState::Failed(
            CrateScaffoldingError::IOError(e),
        ),
        (ScaffoldState::CheckingCrateDir, ScaffoldReply::Answer(is_dir)) => if is_dir {
            ScaffoldState::InitializingCrate
        } else {
            ScaffoldState::Failed(CrateScaffoldingError::MissingCrateDir(cli.output_project_dir))
        },
        (ScaffoldState::InitializingCrate, ScaffoldReply::Exited(output)) => if output.success {
            ScaffoldState::CreatingTempDir
        } else {
            ScaffoldState::Failed(
                CrateScaffoldingError::CargoInitFailed {
                    crate_dir: cli.output_project_dir,
                    error_string: output.report,
                },
            )
        },
        (ScaffoldState::InitializingCrate, ScaffoldReply::IoFailed(e)) => ScaffoldState::Failed(
            CrateScaffoldingError::IOError(e),
        ),
        (ScaffoldState::CreatingTempDir, ScaffoldReply::Completed) => ScaffoldState::WritingGitignore,
        (ScaffoldState::CreatingTempDir, ScaffoldReply::IoFailed(e)) => ScaffoldState::Failed(
            CrateScaffoldingError::IOError(e),
        ),
        (ScaffoldState::WritingGitignore, ScaffoldReply::Completed) => if !cli.spec_is_test_generation() {
            ScaffoldState::WritingMakefile
        } else if cli.inner_cli.local_api_spec_filepath_opt is Some {
            ScaffoldState::WritingTestingSpec
        } else {
            ScaffoldState::Failed(
                CrateScaffoldingError::YAMLGenerationError(
                    YAMLGenerationError::ParameterError(ParameterError::TestingYAMLSpecPathMissing),
                ),
            )
        },
        (ScaffoldState::WritingGitignore, ScaffoldReply::IoFailed(e)) => ScaffoldState::Failed(
            CrateScaffoldingError::IOError(e),
        ),
        (ScaffoldState::WritingTestingSpec, ScaffoldReply::Completed) => ScaffoldState::WritingMakefile,
        (ScaffoldState::WritingTestingSpec, ScaffoldReply::IoFailed(e)) => ScaffoldState::Failed(
            CrateScaffoldingError::YAMLGenerationError(YAMLGenerationError::IOError(e)),
        ),
        (ScaffoldState::WritingMakefile, ScaffoldReply::Completed) => ScaffoldState::Done,
        (ScaffoldState::WritingMakefile, ScaffoldReply::MakefileFailed(e)) => ScaffoldState::Failed(
            CrateScaffoldingError::MakefileGenerationError(e),
        ),
        (state, _) => state,
    }
}

/// Begins the set-up of the target crate: gives its first step.
pub fn scaffold_crate(cli: &Cli) -> (state: ScaffoldState)
    ensures
        state == start_state(*cli),
{
    if cli.is_test_generation() {
        ScaffoldState::CheckingTestDir
    } else {
        ScaffoldState::CreatingCrateDir
    }
}

impl ScaffoldState {
    /// What the caller has to perform for the step; nothing once the set-up
    /// has ended.
    pub open spec fn spec_action(&self) -> Option<ScaffoldAction> {
        match *self {
            ScaffoldState::CheckingTestDir => Some(ScaffoldAction::CheckTargetIsDir),
            ScaffoldState::RemovingTestDir => Some(ScaffoldAction::RemoveTargetDir),
            ScaffoldState::CreatingTestDir => Some(ScaffoldAction::CreateTargetDir),
            ScaffoldState::CreatingCrateDir => Some(ScaffoldAction::CreateTargetDir),
            ScaffoldState::CheckingCrateDirEmpty => Some(ScaffoldAction::CheckTargetHasEntry),
            ScaffoldState::CheckingCrateDir => Some(ScaffoldAction::CheckTargetIsDir),
            ScaffoldState::InitializingCrate => Some(ScaffoldAction::InitCrate),
            ScaffoldState::CreatingTempDir => Some(ScaffoldAction::CreateTempDir),
            ScaffoldState::WritingGitignore => Some(ScaffoldAction::WriteGitignore),
            ScaffoldState::WritingTestingSpec => Some(ScaffoldAction::WriteTestingSpec),
            ScaffoldState::WritingMakefile => Some(ScaffoldAction::WriteMakefile),
            ScaffoldState::Done => None,
            ScaffoldState::Failed(_) => None,
        }
    }

    /// Whether `reply` is an outcome that the action of the step can have.
    pub open spec fn spec_expects(self, reply: ScaffoldReply) -> bool {
        match self.spec_action() {
            Some(ScaffoldAction::CheckTargetIsDir) => reply is Answer,
            Some(ScaffoldAction::CheckTargetHasEntry) => reply is Answer || reply is IoFailed,
            Some(ScaffoldAction::InitCrate) => reply is Exited || reply is IoFailed,
            Some(ScaffoldAction::WriteMakefile) => reply is Completed || reply is MakefileFailed,
            Some(_) => reply is Completed || reply is IoFailed,
            None => false,
        }
    }

    /// What the caller has to perform for the step.
    #[verifier::when_used_as_spec(spec_action)]
    pub fn action(&self) -> (action: Option<ScaffoldAction>)
        ensures
            action == self.spec_action(),
    {
        match self {
            ScaffoldState::CheckingTestDir => Some(ScaffoldAction::CheckTargetIsDir),
            ScaffoldState::RemovingTestDir => Some(ScaffoldAction::RemoveTargetDir),
            ScaffoldState::CreatingTestDir => Some(ScaffoldAction::CreateTargetDir),
            ScaffoldState::CreatingCrateDir => Some(ScaffoldAction::CreateTargetDir),
            ScaffoldState::CheckingCrateDirEmpty => Some(ScaffoldAction::CheckTargetHasEntry),
            ScaffoldState::CheckingCrateDir => Some(ScaffoldAction::CheckTargetIsDir),
            ScaffoldState::InitializingCrate => Some(ScaffoldAction::InitCrate),
            ScaffoldState::CreatingTempDir => Some(ScaffoldAction::CreateTempDir),
            ScaffoldState::WritingGitignore => Some(ScaffoldAction::WriteGitignore),
            ScaffoldState::WritingTestingSpec => Some(ScaffoldAction::WriteTestingSpec),
            ScaffoldState::WritingMakefile => Some(ScaffoldAction::WriteMakefile),
            ScaffoldState::Done => None,
            ScaffoldState::Failed(_) => None,
        }
    }

    /// Whether `reply` is an outcome that the action of the step can have.
    pub fn expects(&self, reply: &ScaffoldReply) -> (b: bool)
        ensures
            b == self.spec_expects(*reply),
    {
        match self.action() {
            Some(ScaffoldAction::CheckTargetIsDir) => match reply {
                ScaffoldReply::Answer(_) => true,
                _ => false,
            },
            Some(ScaffoldAction::CheckTargetHasEntry) => match reply {
                ScaffoldReply::Answer(_) => true,
                ScaffoldReply::IoFailed(_) => true,
                _ => false,
            },
            Some(ScaffoldAction::InitCrate) => match reply {
                ScaffoldReply::Exited(_) => true,
                ScaffoldReply::IoFailed(_) => true,
                _ => false,
            },
            Some(ScaffoldAction::WriteMakefile) => match reply {
                ScaffoldReply::Completed => true,
                ScaffoldReply::MakefileFailed(_) => true,
                _ => false,
            },
            Some(_) => match reply {
                ScaffoldReply::Completed => true,
                ScaffoldReply::IoFailed(_) => true,
                _ => false,
            },
            None => false,
        }
    }

    /// Takes the outcome of the step's action and gives the step that
    /// follows, or the end of the set-up.
    pub fn step(self, cli: &Cli, reply: ScaffoldReply) -> (next: ScaffoldState)
        requires
            self.spec_expects(reply),
        ensures
            next == next_state(*cli, self, reply),
    {
        match (self, reply) {
            (ScaffoldState::CheckingTestDir, ScaffoldReply::Answer(is_dir)) => {
                if is_dir {
                    ScaffoldState::RemovingTestDir
                } else {
                    ScaffoldState::CreatingTestDir
                }
            },
            (ScaffoldState::RemovingTestDir, ScaffoldReply::Completed) => {
                ScaffoldState::CreatingTestDir
            },
            (ScaffoldState::CreatingTestDir, ScaffoldReply::Completed) => {
                ScaffoldState::CheckingCrateDir
            },
            (ScaffoldState::CreatingCrateDir, ScaffoldReply::Completed) => {
                ScaffoldState::CheckingCrateDirEmpty
            },
            (ScaffoldState::CheckingCrateDirEmpty, ScaffoldReply::Answer(has_entry)) => {
                if has_entry {
                    ScaffoldState::Failed(
                        CrateScaffoldingError::NonEmptyTargetDir(
                            cli.get_output_project_dir_string(),
                        ),
                    )
                } else {
                    ScaffoldState::CheckingCrateDir
                }
            },
            (ScaffoldState::CheckingCrateDir, ScaffoldReply::Answer(is_dir)) => {
                if is_dir {
                    ScaffoldState::InitializingCrate
                } else {
                    ScaffoldState::Failed(
                        CrateScaffoldingError::MissingCrateDir(cli.get_output_project_dir_string()),
                    )
                }
            },
            (ScaffoldState::InitializingCrate, ScaffoldReply::Exited(output)) => {
                if output.success {
                    ScaffoldState::CreatingTempDir
                } else {
                    ScaffoldState::Failed(
                        CrateScaffoldingError::CargoInitFailed {
                            crate_dir: cli.get_output_project_dir_string(),
                            error_string: output.report,
                        },
                    )
                }
            },
            (ScaffoldState::CreatingTempDir, ScaffoldReply::Completed) => {
                ScaffoldState::WritingGitignore
            },
            (ScaffoldState::WritingGitignore, ScaffoldReply::Completed) => {
                if !cli.is_test_generation() {
                    ScaffoldState::WritingMakefile
                } else if cli.inner_cli.local_api_spec_filepath_opt.is_some() {
                    ScaffoldState::WritingTestingSpec
                } else {
                    ScaffoldState::Failed(
                        CrateScaffoldingError::YAMLGenerationError(
                            YAMLGenerationError::ParameterError(
                                ParameterError::TestingYAMLSpecPathMissing,
                            ),
                        ),
                    )
                }
            },
            (ScaffoldState::WritingTestingSpec, ScaffoldReply::Completed) => {
                ScaffoldState::WritingMakefile
            },
            (ScaffoldState::WritingTestingSpec, ScaffoldReply::IoFailed(e)) => {
                ScaffoldState::Failed(
                    CrateScaffoldingError::YAMLGenerationError(YAMLGenerationError::IOError(e)),
                )
            },
            (ScaffoldState::WritingMakefile, ScaffoldReply::Completed) => ScaffoldState::Done,
            (ScaffoldState::WritingMakefile, ScaffoldReply::MakefileFailed(e)) => {
                ScaffoldState::Failed(CrateScaffoldingError::MakefileGenerationError(e))
            },
            (_, ScaffoldReply::IoFailed(e)) => ScaffoldState::Failed(
                CrateScaffoldingError::IOError(e),
            ),
            (state, _) => state,
        }
    }

    /// Like [`ScaffoldState::step`] for any reply: one that does not answer
    /// the step is handed back with the state as it was.
    pub fn try_step(self, cli: &Cli, reply: ScaffoldReply) -> (r: Result<
        ScaffoldState,
        (ScaffoldState, ScaffoldReply),
    >)
        ensures
            match r {
                Ok(next) => self.spec_expects(reply) && next == next_state(*cli, self, reply),
                Err(given) => !self.spec_expects(reply) && given == (self, reply),
            },
    {
        if self.expects(&reply) {
            Ok(self.step(cli, reply))
        } else {
            Err((self, reply))
        }
    }

    /// How the set-up ended; nothing while a step is under way.
    pub fn outcome(self) -> (r: Option<Result<(), CrateScaffoldingError>>)
        ensures
            match self {
                ScaffoldState::Done => r == Some(Ok::<(), CrateScaffoldingError>(())),
                ScaffoldState::Failed(e) => r == Some(Err::<(), CrateScaffoldingError>(e)),
                _ => r is None,
            },
    {
        match self {
            ScaffoldState::Done => Some(Ok(())),
            ScaffoldState::Failed(e) => Some(Err(e)),
            _ => None,
        }
    }
}

/// The program that initialises the crate and installs the task runner.
pub const CARGO: &'static str = "cargo";

/// The arguments with which [`CARGO`] initialises the target directory as a
/// library crate, with coloured output.
pub open spec fn spec_cargo_init_args(cli: Cli) -> Seq<Seq<char>> {
    seq!["init"@, "--lib"@, "--color"@, "always"@, cli.output_project_dir@]
}

/// The arguments with which [`CARGO`] initialises the target directory.
pub fn cargo_init_args(cli: &Cli) -> (args: Vec<String>)
    ensures
        views(args@) == spec_cargo_init_args(*cli),
{
    let mut args = strings(&["init", "--lib", "--color", "always"]);
    let dir = cli.get_output_project_dir_string();
    proof {
        args@.lemma_push_map_commute(|l: String| l@, dir);
    }
    args.push(dir);
    assert(views(args@) =~= spec_cargo_init_args(*cli));
    args
}

/// The arguments with which [`CARGO`] installs the task runner, over any
/// version that is installed.
pub fn cargo_make_install_args() -> (args: Vec<String>)
    ensures
        views(args@) == seq!["install"@, "--force"@, "cargo-make"@],
{
    let args = strings(&["install", "--force", "cargo-make"]);
    assert(views(args@) =~= seq!["install"@, "--force"@, "cargo-make"@]);
    args
}

/// Judges the installation of the task runner by what became of the
/// `cargo install` process: it succeeded where the process ran and reported
/// success.
pub fn install_cargo_make(ran: Result<ProcessOutput, ProcessError>) -> (r: Result<
    (),
    CrateScaffoldingError,
>)
    ensures
        match ran {
            Ok(output) => if output.success {
                r == Ok::<(), CrateScaffoldingError>(())
            } else {
                r == Err::<(), CrateScaffoldingError>(
                    CrateScaffoldingError::CargoMakeInstallFailed { error_string: output.report },
                )
            },
            Err(e) => r == Err::<(), CrateScaffoldingError>(CrateScaffoldingError::ProcessError(e)),
        },
{
    match ran {
        Ok(output) => {
            if output.success {
                Ok(())
            } else {
                Err(CrateScaffoldingError::CargoMakeInstallFailed { error_string: output.report })
            }
        },
        Err(e) => Err(CrateScaffoldingError::ProcessError(e)),
    }
}

/// The ignore file: one entry, the working subdirectory at the root of the
/// crate, on a line of its own after an empty line.
pub open spec fn spec_gitignore_contents() -> Seq<char> {
    "\n/"@ + TEMP_DIR@
}

/// The text of the ignore file.
pub fn gitignore_contents() -> (contents: String)
    ensures
        contents@ == spec_gitignore_contents(),
{
    let mut contents: String = "\n/".to_owned();
    contents.append(TEMP_DIR);
    contents
}

/// The state after the replies came in one after the other, from the first
/// step on.
pub open spec fn run(cli: Cli, replies: Seq<ScaffoldReply>) -> ScaffoldState
    decreases replies.len(),
{
    if replies.len() == 0 {
        start_state(cli)
    } else {
        next_state(cli, run(cli, replies.drop_last()), replies.last())
    }
}

/// Whether each reply answers the step that was under way when it came in.
pub open spec fn accepted(cli: Cli, replies: Seq<ScaffoldReply>) -> bool
    decreases replies.len(),
{
    replies.len() == 0 || (accepted(cli, replies.drop_last()) && run(
        cli,
        replies.drop_last(),
    ).spec_expects(replies.last()))
}

/// In an accepted run every reply answers the step before it, and the state
/// after it is the next state of that step.
pub proof fn lemma_run_prefix(cli: Cli, replies: Seq<ScaffoldReply>, k: int)
    requires
        accepted(cli, replies),
        0 <= k < replies.len(),
    ensures
        accepted(cli, replies.take(k)),
        accepted(cli, replies.take(k + 1)),
        run(cli, replies.take(k)).spec_expects(replies[k]),
        run(cli, replies.take(k + 1)) == next_state(cli, run(cli, replies.take(k)), replies[k]),
    decreases replies.len(),
{
    let shorter = replies.drop_last();
    if k + 1 == replies.len() {
        assert(replies.take(k + 1) =~= replies);
        assert(replies.take(k) =~= shorter);
    } else {
        lemma_run_prefix(cli, shorter, k);
        assert(shorter.take(k) =~= replies.take(k));
        assert(shorter.take(k + 1) =~= replies.take(k + 1));
    }
}

/// Outside test generation, the report that the target directory holds an
/// entry ends the run: the set-up has failed for a target that is not empty,
/// no reply is accepted any more, and up to then nothing was asked for that
/// writes into the target directory.
pub proof fn lemma_non_empty_target_ends_run(cli: Cli, replies: Seq<ScaffoldReply>)
    requires
        !cli.spec_is_test_generation(),
        accepted(cli, replies),
        replies.len() >= 2,
        replies[1] == ScaffoldReply::Answer(true),
    ensures
        replies.len() == 2,
        run(cli, replies) == ScaffoldState::Failed(
            CrateScaffoldingError::NonEmptyTargetDir(cli.output_project_dir),
        ),
        forall|k: int|
            0 <= k <= replies.len() ==> !(#[trigger] run(cli, replies.take(k)).spec_action()
                matches Some(action) && action.writes_into_target()),
{
    assert(replies.take(0) =~= Seq::<ScaffoldReply>::empty());
    lemma_run_prefix(cli, replies, 0);
    lemma_run_prefix(cli, replies, 1);
    if replies.len() > 2 {
        lemma_run_prefix(cli, replies, 2);
    }
    assert(replies.take(2) =~= replies);
}

/// Outside test generation, nothing that writes into the target directory is
/// asked for before the target directory was reported to hold no entry.
pub proof fn lemma_standard_run_writes_into_empty_target(
    cli: Cli,
    replies: Seq<ScaffoldReply>,
    k: int,
)
    requires
        !cli.spec_is_test_generation(),
        accepted(cli, replies),
        0 <= k <= replies.len(),
        run(cli, replies.take(k)).spec_action() matches Some(action) && action.writes_into_target(),
    ensures
        k >= 2,
        replies[0] == ScaffoldReply::Completed,
        replies[1] == ScaffoldReply::Answer(false),
{
    assert(replies.take(0) =~= Seq::<ScaffoldReply>::empty());
    if replies.len() >= 1 {
        lemma_run_prefix(cli, replies, 0);
    }
    if replies.len() >= 2 {
        lemma_run_prefix(cli, replies, 1);
    }
    if replies.len() >= 3 {
        lemma_run_prefix(cli, replies, 2);
    }
}

/// In test generation, nothing that writes into the target directory is
/// asked for before the target directory was created anew; and where the
/// directory was reported to exist, it was removed before that.
pub proof fn lemma_test_run_writes_into_fresh_target(
    cli: Cli,
    replies: Seq<ScaffoldReply>,
    k: int,
)
    requires
        cli.spec_is_test_generation(),
        accepted(cli, replies),
        0 <= k <= replies.len(),
        run(cli, replies.take(k)).spec_action() matches Some(action) && action.writes_into_target(),
    ensures
        k >= 2,
        replies[0] is Answer,
        replies[0] == ScaffoldReply::Answer(false) ==> {
            &&& run(cli, replies.take(1)).spec_action() == Some(ScaffoldAction::CreateTargetDir)
            &&& replies[1] == ScaffoldReply::Completed
        },
        replies[0] == ScaffoldReply::Answer(true) ==> {
            &&& k >= 3
            &&& run(cli, replies.take(1)).spec_action() == Some(ScaffoldAction::RemoveTargetDir)
            &&& replies[1] == ScaffoldReply::Completed
            &&& run(cli, replies.take(2)).spec_action() == Some(ScaffoldAction::CreateTargetDir)
            &&& replies[2] == ScaffoldReply::Completed
        },
{
    assert(replies.take(0) =~= Seq::<ScaffoldReply>::empty());
    if replies.len() >= 1 {
        lemma_run_prefix(cli, replies, 0);
    }
    if replies.len() >= 2 {
        lemma_run_prefix(cli, replies, 1);
    }
    if replies.len() >= 3 {
        lemma_run_prefix(cli, replies, 2);
    }
    if replies.len() >= 4 {
        lemma_run_prefix(cli, replies, 3);
    }
}

/// What can be said of the target directory from outside: it is not there,
/// it is there and holds nothing, or it holds something.
#[derive(Debug, Clone, Copy, PartialEq, Eq, Structural)]
pub enum TargetDir {
    Absent,
    Empty,
    Occupied,
}

/// Whether `reply` is a true outcome of `action` on a target directory in
/// the condition `dir`: a check is answered as the directory is, and a
/// directory that is not there cannot be written into.
pub open spec fn answers_truly(dir: TargetDir, action: ScaffoldAction, reply: ScaffoldReply) -> bool {
    match (action, reply) {
        (ScaffoldAction::CheckTargetIsDir, ScaffoldReply::Answer(is_dir)) => is_dir == (dir
            != TargetDir::Absent),
        (ScaffoldAction::CheckTargetHasEntry, ScaffoldReply::Answer(has_entry)) => has_entry == (dir
            == TargetDir::Occupied),
        _ => true,
    }
}

/// The condition of the target directory after `action` ended in `reply`.
/// An action that fails leaves it as it was, as far as this model goes.
pub open spec fn target_after(dir: TargetDir, action: ScaffoldAction, reply: ScaffoldReply) -> TargetDir {
    match (action, reply) {
        (ScaffoldAction::RemoveTargetDir, ScaffoldReply::Completed) => TargetDir::Absent,
        (ScaffoldAction::CreateTargetDir, ScaffoldReply::Completed) => if dir == TargetDir::Absent {
            TargetDir::Empty
        } else {
            dir
        },
        (ScaffoldAction::InitCrate, ScaffoldReply::Exited(_)) => TargetDir::Occupied,
        (ScaffoldAction::CreateTempDir, ScaffoldReply::Completed) => TargetDir::Occupied,
        (ScaffoldAction::WriteGitignore, ScaffoldReply::Completed) => TargetDir::Occupied,
        (ScaffoldAction::WriteTestingSpec, ScaffoldReply::Completed) => TargetDir::Occupied,
        (ScaffoldAction::WriteMakefile, ScaffoldReply::Completed) => TargetDir::Occupied,
        _ => dir,
    }
}

/// The condition of the target directory after the replies, when it was
/// `dir` before the first step and nothing but the set-up touches it.
pub open spec fn target_at(cli: Cli, dir: TargetDir, replies: Seq<ScaffoldReply>) -> TargetDir
    decreases replies.len(),
{
    if replies.len() == 0 {
        dir
    } else {
        let before = target_at(cli, dir, replies.drop_last());
        match run(cli, replies.drop_last()).spec_action() {
            Some(action) => target_after(before, action, replies.last()),
            None => before,
        }
    }
}

/// Whether every reply is a true outcome for the target directory as it was
/// when the reply came in.
pub open spec fn faithful(cli: Cli, dir: TargetDir, replies: Seq<ScaffoldReply>) -> bool
    decreases replies.len(),
{
    replies.len() == 0 || (faithful(cli, dir, replies.drop_last()) && (run(
        cli,
        replies.drop_last(),
    ).spec_action() matches Some(action) ==> answers_truly(
        target_at(cli, dir, replies.drop_last()),
        action,
        replies.last(),
    )))
}

/// In a faithful run every reply is a true outcome of the action before it,
/// and the target directory changes as that action changes it.
pub proof fn lemma_target_prefix(cli: Cli, dir: TargetDir, replies: Seq<ScaffoldReply>, k: int)
    requires
        accepted(cli, replies),
        faithful(cli, dir, replies),
        0 <= k < replies.len(),
    ensures
        faithful(cli, dir, replies.take(k)),
        faithful(cli, dir, replies.take(k + 1)),
        run(cli, replies.take(k)).spec_expects(replies[k]),
        run(cli, replies.take(k + 1)) == next_state(cli, run(cli, replies.take(k)), replies[k]),
        run(cli, replies.take(k)).spec_action() matches Some(action) && answers_truly(
            target_at(cli, dir, replies.take(k)),
            action,
            replies[k],
        ) && target_at(cli, dir, replies.take(k + 1)) == target_after(
            target_at(cli, dir, replies.take(k)),
            action,
            replies[k],
        ),
    decreases replies.len(),
{
    let shorter = replies.drop_last();
    lemma_run_prefix(cli, replies, k);
    if k + 1 == replies.len() {
        assert(replies.take(k + 1) =~= replies);
        assert(replies.take(k) =~= shorter);
    } else {
        lemma_target_prefix(cli, dir, shorter, k);
        assert(shorter.take(k) =~= replies.take(k));
        assert(shorter.take(k + 1) =~= replies.take(k + 1));
    }
}

/// How far the set-up has come: a number that grows with every step.
spec fn progress(state: ScaffoldState) -> nat {
    match state {
        ScaffoldState::CheckingTestDir => 0,
        ScaffoldState::CreatingCrateDir => 0,
        ScaffoldState::RemovingTestDir => 1,
        ScaffoldState::CheckingCrateDirEmpty => 1,
        ScaffoldState::CreatingTestDir => 2,
        ScaffoldState::CheckingCrateDir => 3,
        ScaffoldState::InitializingCrate => 4,
        ScaffoldState::CreatingTempDir => 5,
        ScaffoldState::WritingGitignore => 6,
        ScaffoldState::WritingTestingSpec => 7,
        ScaffoldState::WritingMakefile => 8,
        ScaffoldState::Done => 9,
        ScaffoldState::Failed(_) => 10,
    }
}

/// Every accepted reply takes the set-up further.
proof fn lemma_run_progresses(cli: Cli, replies: Seq<ScaffoldReply>)
    requires
        accepted(cli, replies),
    ensures
        progress(run(cli, replies)) >= replies.len(),
    decreases replies.len(),
{
    if replies.len() > 0 {
        lemma_run_progresses(cli, replies.drop_last());
    }
}

/// The set-up ends: no run takes more than ten replies.
pub proof fn lemma_run_ends(cli: Cli, replies: Seq<ScaffoldReply>)
    requires
        accepted(cli, replies),
    ensures
        replies.len() <= 10,
{
    lemma_run_progresses(cli, replies);
}

/// `cargo init` is asked for only when the target directory is there and
/// holds nothing, whatever its condition was at the start: outside test
/// generation because the run fails on a directory that holds something, in
/// test generation because the directory is removed and created anew.
pub proof fn lemma_crate_is_initialised_in_empty_target(
    cli: Cli,
    dir: TargetDir,
    replies: Seq<ScaffoldReply>,
)
    requires
        accepted(cli, replies),
        faithful(cli, dir, replies),
        run(cli, replies).spec_action() == Some(ScaffoldAction::InitCrate),
    ensures
        target_at(cli, dir, replies) == TargetDir::Empty,
        cli.spec_is_test_generation() && dir != TargetDir::Absent ==> {
            &&& replies.len() == 4
            &&& run(cli, replies.take(1)).spec_action() == Some(ScaffoldAction::RemoveTargetDir)
            &&& replies[1] == ScaffoldReply::Completed
            &&& run(cli, replies.take(2)).spec_action() == Some(ScaffoldAction::CreateTargetDir)
            &&& replies[2] == ScaffoldReply::Completed
        },
{
    lemma_run_progresses(cli, replies);
    assert(replies.take(0) =~= Seq::<ScaffoldReply>::empty());
    assert(replies.take(replies.len() as int) =~= replies);
    if replies.len() >= 1 {
        lemma_target_prefix(cli, dir, replies, 0);
    }
    if replies.len() >= 2 {
        lemma_target_prefix(cli, dir, replies, 1);
    }
    if replies.len() >= 3 {
        lemma_target_prefix(cli, dir, replies, 2);
    }
    if replies.len() >= 4 {
        lemma_target_prefix(cli, dir, replies, 3);
    }
}

/// Outside test generation a target directory that holds something is left
/// as it is: nothing is asked for that writes into it, and once the question
/// for entries is answered the set-up has failed for a target that is not
/// empty.
pub proof fn lemma_occupied_target_is_left_alone(cli: Cli, replies: Seq<ScaffoldReply>, k: int)
    requires
        !cli.spec_is_test_generation(),
        accepted(cli, replies),
        faithful(cli, TargetDir::Occupied, replies),
        0 <= k <= replies.len(),
    ensures
        target_at(cli, TargetDir::Occupied, replies.take(k)) == TargetDir::Occupied,
        !(run(cli, replies.take(k)).spec_action() matches Some(action)
            && action.writes_into_target()),
        replies.len() <= 2,
        replies.len() == 2 && replies[1] is Answer ==> run(cli, replies) == ScaffoldState::Failed(
            CrateScaffoldingError::NonEmptyTargetDir(cli.output_project_dir),
        ),
{
    assert(replies.take(0) =~= Seq::<ScaffoldReply>::empty());
    assert(replies.take(replies.len() as int) =~= replies);
    if replies.len() >= 1 {
        lemma_target_prefix(cli, TargetDir::Occupied, replies, 0);
    }
    if replies.len() >= 2 {
        lemma_target_prefix(cli, TargetDir::Occupied, replies, 1);
    }
    if replies.len() >= 3 {
        lemma_target_prefix(cli, TargetDir::Occupied, replies, 2);
    }
}

} // verus!
