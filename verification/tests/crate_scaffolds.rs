use openapi_scaffold::cli::{Cli, InnerCli, ParameterError, SubCommands};
use openapi_scaffold::crate_scaffolds::{
    cargo_init_args, cargo_make_install_args, gitignore_contents, install_cargo_make,
    scaffold_crate, CARGO,
    CrateScaffoldingError, ProcessOutput, ScaffoldAction, ScaffoldReply, ScaffoldState,
};
use openapi_scaffold::errors::ProcessError;
use openapi_scaffold::makefiles::{MakefileGenerationError, MakefileSpec};
use openapi_scaffold::yamls::{create_testing_spec_file, YAMLGenerationError, PETSTORE_YAML};
use std::io::{Error as IOError, ErrorKind};

fn sample_cli(test_generation: bool) -> Cli {
    Cli {
        inner_cli: InnerCli {
            site_or_api_name: "petstore".to_string(),
            api_url: "https://petstore.example.com/v1".to_string(),
            api_spec_url_opt: None,
            local_api_spec_filepath_opt: Some("/tmp/petstore_client/petstore.yaml".to_string()),
            command: if test_generation { Some(SubCommands::TestGeneration) } else { None },
        },
        lib_name: "petstore_client".to_string(),
        spec_file_name_opt: Some("petstore.yaml".to_string()),
        output_project_dir: "/tmp/petstore_client".to_string(),
        this_crate_name: "apigen".to_string(),
        this_crate_ver: "0.3.1".to_string(),
    }
}

fn exited(success: bool) -> ScaffoldReply {
    ScaffoldReply::Exited(ProcessOutput {
        success,
        stdout: "Created library package".to_string(),
        report: "Output { status: .. }".to_string(),
    })
}

fn denied() -> ScaffoldReply {
    ScaffoldReply::IoFailed(IOError::new(ErrorKind::PermissionDenied, "denied"))
}

/// Feeds the replies to the set-up; gives the actions asked for and the state reached.
fn drive(cli: &Cli, replies: Vec<ScaffoldReply>) -> (Vec<ScaffoldAction>, ScaffoldState) {
    let mut state = scaffold_crate(cli);
    let mut actions = Vec::new();
    for reply in replies {
        actions.push(state.action().expect("a reply after the end"));
        state = state.try_step(cli, reply).expect("a reply that answers the step");
    }
    if let Some(action) = state.action() {
        actions.push(action);
    }
    (actions, state)
}

#[test]
fn standard_run_goes_through_every_step() {
    let cli = sample_cli(false);
    let (actions, state) = drive(
        &cli,
        vec![
            ScaffoldReply::Completed,
            ScaffoldReply::Answer(false),
            ScaffoldReply::Answer(true),
            exited(true),
            ScaffoldReply::Completed,
            ScaffoldReply::Completed,
            ScaffoldReply::Completed,
        ],
    );
    assert_eq!(
        actions,
        vec![
            ScaffoldAction::CreateTargetDir,
            ScaffoldAction::CheckTargetHasEntry,
            ScaffoldAction::CheckTargetIsDir,
            ScaffoldAction::InitCrate,
            ScaffoldAction::CreateTempDir,
            ScaffoldAction::WriteGitignore,
            ScaffoldAction::WriteMakefile,
        ]
    );
    assert!(matches!(state, ScaffoldState::Done));
    assert!(matches!(state.outcome(), Some(Ok(()))));
}

#[test]
fn empty_target_without_spec_url_gets_ten_tasks_and_one_ignore_line() {
    let cli = sample_cli(false);
    let (actions, state) = drive(
        &cli,
        vec![
            ScaffoldReply::Completed,
            ScaffoldReply::Answer(false),
            ScaffoldReply::Answer(true),
            exited(true),
            ScaffoldReply::Completed,
            ScaffoldReply::Completed,
        ],
    );
    assert_eq!(actions.last(), Some(&ScaffoldAction::WriteMakefile));
    assert!(matches!(state, ScaffoldState::WritingMakefile));
    let spec = MakefileSpec::try_from(&cli).unwrap();
    assert!(!spec.tasks.contains_key("spec-download-default"));
    assert_eq!(spec.tasks.len(), 10);
    let ignore = gitignore_contents();
    let lines: Vec<&str> = ignore.lines().filter(|l| !l.is_empty()).collect();
    assert_eq!(lines, vec!["/temp"]);
}

#[test]
fn non_empty_target_fails_before_any_write() {
    let cli = sample_cli(false);
    let (actions, state) =
        drive(&cli, vec![ScaffoldReply::Completed, ScaffoldReply::Answer(true)]);
    assert_eq!(
        actions,
        vec![ScaffoldAction::CreateTargetDir, ScaffoldAction::CheckTargetHasEntry]
    );
    assert_eq!(state.action(), None);
    match state.outcome() {
        Some(Err(CrateScaffoldingError::NonEmptyTargetDir(dir))) => {
            assert_eq!(dir, "/tmp/petstore_client")
        }
        other => panic!("unexpected {other:?}"),
    }
}

#[test]
fn spec_url_is_an_env_entry_and_adds_a_task() {
    let mut cli = sample_cli(false);
    cli.inner_cli.api_spec_url_opt = Some("https://example.com/spec.json".to_string());
    let spec = MakefileSpec::try_from(&cli).unwrap();
    assert_eq!(spec.env.spec_file_url, "https://example.com/spec.json");
    assert_eq!(spec.env.get("SPEC_FILE_URL").unwrap(), "https://example.com/spec.json");
    assert!(spec.tasks.contains_key("spec-download-default"));
}

#[test]
fn test_generation_wipes_the_target_and_writes_the_sample() {
    let cli = sample_cli(true);
    let (actions, state) = drive(
        &cli,
        vec![
            ScaffoldReply::Answer(true),
            ScaffoldReply::Completed,
            ScaffoldReply::Completed,
            ScaffoldReply::Answer(true),
            exited(true),
            ScaffoldReply::Completed,
            ScaffoldReply::Completed,
            ScaffoldReply::Completed,
            ScaffoldReply::Completed,
        ],
    );
    assert_eq!(
        actions,
        vec![
            ScaffoldAction::CheckTargetIsDir,
            ScaffoldAction::RemoveTargetDir,
            ScaffoldAction::CreateTargetDir,
            ScaffoldAction::CheckTargetIsDir,
            ScaffoldAction::InitCrate,
            ScaffoldAction::CreateTempDir,
            ScaffoldAction::WriteGitignore,
            ScaffoldAction::WriteTestingSpec,
            ScaffoldAction::WriteMakefile,
        ]
    );
    assert!(matches!(state.outcome(), Some(Ok(()))));
    let file = create_testing_spec_file(&cli).unwrap();
    assert_eq!(file.path, "/tmp/petstore_client/petstore.yaml");
    assert_eq!(file.contents, PETSTORE_YAML);
}

#[test]
fn test_generation_skips_removal_of_an_absent_target() {
    let cli = sample_cli(true);
    let (actions, state) =
        drive(&cli, vec![ScaffoldReply::Answer(false), ScaffoldReply::Completed]);
    assert_eq!(
        actions,
        vec![
            ScaffoldAction::CheckTargetIsDir,
            ScaffoldAction::CreateTargetDir,
            ScaffoldAction::CheckTargetIsDir,
        ]
    );
    assert!(matches!(state, ScaffoldState::CheckingCrateDir));
}

#[test]
fn test_generation_without_local_spec_path_fails_after_the_ignore_file() {
    let mut cli = sample_cli(true);
    cli.inner_cli.local_api_spec_filepath_opt = None;
    let (actions, state) = drive(
        &cli,
        vec![
            ScaffoldReply::Answer(false),
            ScaffoldReply::Completed,
            ScaffoldReply::Answer(true),
            exited(true),
            ScaffoldReply::Completed,
            ScaffoldReply::Completed,
        ],
    );
    assert_eq!(actions.last(), Some(&ScaffoldAction::WriteGitignore));
    assert!(matches!(
        state.outcome(),
        Some(Err(CrateScaffoldingError::YAMLGenerationError(
            YAMLGenerationError::ParameterError(ParameterError::TestingYAMLSpecPathMissing)
        )))
    ));
}

#[test]
fn missing_crate_dir_stops_before_cargo_init() {
    let cli = sample_cli(false);
    let (actions, state) = drive(
        &cli,
        vec![ScaffoldReply::Completed, ScaffoldReply::Answer(false), ScaffoldReply::Answer(false)],
    );
    assert!(!actions.contains(&ScaffoldAction::InitCrate));
    match state.outcome() {
        Some(Err(CrateScaffoldingError::MissingCrateDir(dir))) => {
            assert_eq!(dir, "/tmp/petstore_client")
        }
        other => panic!("unexpected {other:?}"),
    }
}

#[test]
fn failed_cargo_init_carries_the_captured_output() {
    let cli = sample_cli(false);
    let (_, state) = drive(
        &cli,
        vec![
            ScaffoldReply::Completed,
            ScaffoldReply::Answer(false),
            ScaffoldReply::Answer(true),
            exited(false),
        ],
    );
    match state.outcome() {
        Some(Err(CrateScaffoldingError::CargoInitFailed { crate_dir, error_string })) => {
            assert_eq!(crate_dir, "/tmp/petstore_client");
            assert_eq!(error_string, "Output { status: .. }");
        }
        other => panic!("unexpected {other:?}"),
    }
}

#[test]
fn io_failure_ends_the_run_at_any_step() {
    let cli = sample_cli(false);
    let before: Vec<fn() -> ScaffoldReply> = vec![
        || ScaffoldReply::Completed,
        || ScaffoldReply::Answer(false),
        || ScaffoldReply::Answer(true),
        || exited(true),
        || ScaffoldReply::Completed,
        || ScaffoldReply::Completed,
    ];
    for failing in [0usize, 1, 3, 4, 5] {
        let mut replies: Vec<ScaffoldReply> = before[..failing].iter().map(|f| f()).collect();
        replies.push(denied());
        let (actions, state) = drive(&cli, replies);
        assert_eq!(actions.len(), failing + 1);
        match state.outcome() {
            Some(Err(CrateScaffoldingError::IOError(e))) => {
                assert_eq!(e.kind(), ErrorKind::PermissionDenied)
            }
            other => panic!("step {failing}: unexpected {other:?}"),
        }
    }
}

#[test]
fn io_failure_of_the_sample_is_a_yaml_generation_error() {
    let cli = sample_cli(true);
    let (_, state) = drive(
        &cli,
        vec![
            ScaffoldReply::Answer(false),
            ScaffoldReply::Completed,
            ScaffoldReply::Answer(true),
            exited(true),
            ScaffoldReply::Completed,
            ScaffoldReply::Completed,
            denied(),
        ],
    );
    assert!(matches!(
        state.outcome(),
        Some(Err(CrateScaffoldingError::YAMLGenerationError(YAMLGenerationError::IOError(_))))
    ));
}

#[test]
fn makefile_failure_is_carried_along() {
    let cli = sample_cli(false);
    let (_, state) = drive(
        &cli,
        vec![
            ScaffoldReply::Completed,
            ScaffoldReply::Answer(false),
            ScaffoldReply::Answer(true),
            exited(true),
            ScaffoldReply::Completed,
            ScaffoldReply::Completed,
            ScaffoldReply::MakefileFailed(MakefileGenerationError::ParameterError(
                ParameterError::SpecFileNameMissing,
            )),
        ],
    );
    assert!(matches!(
        state.outcome(),
        Some(Err(CrateScaffoldingError::MakefileGenerationError(
            MakefileGenerationError::ParameterError(ParameterError::SpecFileNameMissing)
        )))
    ));
}

#[test]
fn makefile_write_failure_keeps_its_cause() {
    let state = ScaffoldState::WritingMakefile;
    let cli = sample_cli(false);
    let reply = ScaffoldReply::MakefileFailed(MakefileGenerationError::IOError(IOError::new(
        ErrorKind::Other,
        "disk full",
    )));
    match state.try_step(&cli, reply).unwrap().outcome() {
        Some(Err(CrateScaffoldingError::MakefileGenerationError(
            MakefileGenerationError::IOError(e),
        ))) => assert_eq!(e.to_string(), "disk full"),
        other => panic!("unexpected {other:?}"),
    }
}

#[test]
fn a_reply_that_does_not_answer_the_step_is_handed_back() {
    let cli = sample_cli(false);
    let state = scaffold_crate(&cli);
    assert!(!state.expects(&ScaffoldReply::Answer(true)));
    assert!(state.expects(&ScaffoldReply::Completed));
    match state.try_step(&cli, ScaffoldReply::Answer(true)) {
        Err((ScaffoldState::CreatingCrateDir, ScaffoldReply::Answer(true))) => {}
        other => panic!("unexpected {other:?}"),
    }
}

#[test]
fn nothing_is_expected_after_the_end() {
    for state in [
        ScaffoldState::Done,
        ScaffoldState::Failed(CrateScaffoldingError::NonEmptyTargetDir("x".to_string())),
    ] {
        assert_eq!(state.action(), None);
        assert!(!state.expects(&ScaffoldReply::Completed));
        assert!(!state.expects(&ScaffoldReply::Answer(false)));
        assert!(!state.expects(&exited(true)));
        assert!(!state.expects(&denied()));
    }
}

#[test]
fn outcome_is_open_while_a_step_is_under_way() {
    assert!(ScaffoldState::InitializingCrate.outcome().is_none());
    assert!(scaffold_crate(&sample_cli(true)).outcome().is_none());
}

#[test]
fn step_moves_on_an_expected_reply() {
    let cli = sample_cli(false);
    let state = scaffold_crate(&cli);
    assert!(state.expects(&ScaffoldReply::Completed));
    let state = state.step(&cli, ScaffoldReply::Completed);
    assert!(matches!(state, ScaffoldState::CheckingCrateDirEmpty));
}

#[test]
fn crate_is_initialised_and_runner_installed_by_cargo() {
    assert_eq!(CARGO, "cargo");
}

#[test]
fn cargo_init_args_name_the_target() {
    assert_eq!(
        cargo_init_args(&sample_cli(false)),
        vec!["init", "--lib", "--color", "always", "/tmp/petstore_client"]
    );
}

#[test]
fn gitignore_names_the_working_directory() {
    assert_eq!(gitignore_contents(), "\n/temp");
}

#[test]
fn cargo_make_install_is_forced() {
    assert_eq!(cargo_make_install_args(), vec!["install", "--force", "cargo-make"]);
}

#[test]
fn install_cargo_make_succeeds_with_the_process() {
    let ran = Ok(ProcessOutput {
        success: true,
        stdout: String::new(),
        report: String::new(),
    });
    assert!(matches!(install_cargo_make(ran), Ok(())));
}

#[test]
fn install_cargo_make_reports_a_failed_process() {
    let ran = Ok(ProcessOutput {
        success: false,
        stdout: String::new(),
        report: "exit status: 101".to_string(),
    });
    match install_cargo_make(ran) {
        Err(CrateScaffoldingError::CargoMakeInstallFailed { error_string }) => {
            assert_eq!(error_string, "exit status: 101")
        }
        other => panic!("unexpected {other:?}"),
    }
}

#[test]
fn install_cargo_make_reports_a_process_that_did_not_run() {
    let ran = Err(ProcessError::IOError(IOError::new(ErrorKind::NotFound, "no cargo")));
    match install_cargo_make(ran) {
        Err(CrateScaffoldingError::ProcessError(ProcessError::IOError(e))) => {
            assert_eq!(e.kind(), ErrorKind::NotFound)
        }
        other => panic!("unexpected {other:?}"),
    }
}

#[test]
fn encoding_failure_of_the_makefile_keeps_its_cause() {
    let cause = toml::to_string(&7u8).unwrap_err();
    let message = cause.to_string();
    let reply = ScaffoldReply::MakefileFailed(MakefileGenerationError::TomlSerError(cause));
    match ScaffoldState::WritingMakefile.try_step(&sample_cli(false), reply).unwrap().outcome() {
        Some(Err(CrateScaffoldingError::MakefileGenerationError(
            MakefileGenerationError::TomlSerError(e),
        ))) => assert_eq!(e.to_string(), message),
        other => panic!("unexpected {other:?}"),
    }
}

#[test]
fn yaml_failure_of_the_makefile_keeps_its_cause() {
    let cause = serde_yaml::from_str::<u8>("[").unwrap_err();
    let message = cause.to_string();
    let reply = ScaffoldReply::MakefileFailed(MakefileGenerationError::SerdeYAMLError(cause));
    match ScaffoldState::WritingMakefile.try_step(&sample_cli(false), reply).unwrap().outcome() {
        Some(Err(CrateScaffoldingError::MakefileGenerationError(
            MakefileGenerationError::SerdeYAMLError(e),
        ))) => assert_eq!(e.to_string(), message),
        other => panic!("unexpected {other:?}"),
    }
}

#[test]
fn run_ends_within_ten_replies() {
    let cli = sample_cli(true);
    let (actions, state) = drive(
        &cli,
        vec![
            ScaffoldReply::Answer(true),
            ScaffoldReply::Completed,
            ScaffoldReply::Completed,
            ScaffoldReply::Answer(true),
            exited(true),
            ScaffoldReply::Completed,
            ScaffoldReply::Completed,
            ScaffoldReply::Completed,
            ScaffoldReply::Completed,
        ],
    );
    assert_eq!(actions.len(), 9);
    assert_eq!(state.action(), None);
    assert!(!state.expects(&ScaffoldReply::Completed));
}
