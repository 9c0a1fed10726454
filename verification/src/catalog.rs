//! The fixed catalog of pipeline tasks.
//!
//! Each constructor returns one task of the pipeline under its name. Values
//! such as `${OUTPUT_DIR}` are substitution tokens: they name entries of the
//! environment section and are resolved by the task runner, never here.

use crate::cargos::{configurator_entries, CargoConfigurator};
use crate::cli::Cli;
use crate::makefiles::MakefileGenerationError;
use crate::tasks::{strings, NamedTask, NamedTaskView, Task, TaskView};
use crate::text::{join_lines, trim_lines, trim_lines_vec, trimmed_lines, views};
use crate::yaml::yaml_document;
use vstd::prelude::*;

verus! {

/// The tasks of the pipeline.
#[derive(Debug, Clone, Copy, PartialEq, Eq, Structural)]
pub enum TaskNames {
    CargoFixGenerated,
    CrateScaffold,
    GenerateAll,
    LibCodeGenerate,
    LibCodeGenerateDryRun,
    OpenapiCliCheck,
    OpenapiCliBashInstall,
    OutputDirClean,
    OutputDirCreate,
    SpecDownload,
    SpecDownloadDefault,
}

/// Name of the task that repairs the generated code.
pub const CARGO_FIX_GENERATED: &'static str = "cargo-fix-generated";

/// Name of the task that sequences the set-up of the output directory.
pub const CRATE_SCAFFOLD: &'static str = "crate-scaffold";

/// Name of the task that runs the whole generation.
pub const GENERATE_ALL: &'static str = "generate-all";

/// Name of the task that runs the generator.
pub const LIB_CODE_GENERATE: &'static str = "lib-code-generate";

/// Name of the task that runs the generator without writing.
pub const LIB_CODE_GENERATE_DRY_RUN: &'static str = "lib-code-generate-dry-run";

/// Name of the task that looks for the generator executable.
pub const OPENAPI_CLI_CHECK: &'static str = "openapi-cli-check";

/// Name of the task that installs the generator.
pub const OPENAPI_CLI_BASH_INSTALL: &'static str = "openapi-cli-bash-install";

/// Name of the task that empties the output directory.
pub const OUTPUT_DIR_CLEAN: &'static str = "output-dir-clean";

/// Name of the task that creates the output directory.
pub const OUTPUT_DIR_CREATE: &'static str = "output-dir-create";

/// Name of the task that downloads the specification from a given URL.
pub const SPEC_DOWNLOAD: &'static str = "spec-download";

/// Name of the task that downloads the specification from its known URL.
pub const SPEC_DOWNLOAD_DEFAULT: &'static str = "spec-download-default";

impl TaskNames {
    /// The key of the task in the graph.
    pub open spec fn spec_name(self) -> Seq<char> {
        match self {
            TaskNames::CargoFixGenerated => CARGO_FIX_GENERATED@,
            TaskNames::CrateScaffold => CRATE_SCAFFOLD@,
            TaskNames::GenerateAll => GENERATE_ALL@,
            TaskNames::LibCodeGenerate => LIB_CODE_GENERATE@,
            TaskNames::LibCodeGenerateDryRun => LIB_CODE_GENERATE_DRY_RUN@,
            TaskNames::OpenapiCliCheck => OPENAPI_CLI_CHECK@,
            TaskNames::OpenapiCliBashInstall => OPENAPI_CLI_BASH_INSTALL@,
            TaskNames::OutputDirClean => OUTPUT_DIR_CLEAN@,
            TaskNames::OutputDirCreate => OUTPUT_DIR_CREATE@,
            TaskNames::SpecDownload => SPEC_DOWNLOAD@,
            TaskNames::SpecDownloadDefault => SPEC_DOWNLOAD_DEFAULT@,
        }
    }

    /// The key of the task in the graph.
    pub fn name(&self) -> (name: &'static str)
        ensures
            name@ == self.spec_name(),
    {
        match self {
            TaskNames::CargoFixGenerated => CARGO_FIX_GENERATED,
            TaskNames::CrateScaffold => CRATE_SCAFFOLD,
            TaskNames::GenerateAll => GENERATE_ALL,
            TaskNames::LibCodeGenerate => LIB_CODE_GENERATE,
            TaskNames::LibCodeGenerateDryRun => LIB_CODE_GENERATE_DRY_RUN,
            TaskNames::OpenapiCliCheck => OPENAPI_CLI_CHECK,
            TaskNames::OpenapiCliBashInstall => OPENAPI_CLI_BASH_INSTALL,
            TaskNames::OutputDirClean => OUTPUT_DIR_CLEAN,
            TaskNames::OutputDirCreate => OUTPUT_DIR_CREATE,
            TaskNames::SpecDownload => SPEC_DOWNLOAD,
            TaskNames::SpecDownloadDefault => SPEC_DOWNLOAD_DEFAULT,
        }
    }
}

/// The repair task: `cargo fix` over the generated code, also where the tree
/// has uncommitted changes or does not build, for every target and feature.
pub open spec fn cargo_fix_task() -> NamedTaskView {
    NamedTaskView {
        name: CARGO_FIX_GENERATED@,
        task: TaskView {
            description: Some("Fix ${LIB_NAME} project generated code'."@),
            command: Some("cargo"@),
            args: Some(
                seq![
                    "fix"@,
                    "--broken-code"@,
                    "--allow-dirty"@,
                    "--all-targets"@,
                    "--all-features"@,
                    "--verbose"@,
                    "--verbose"@,
                ],
            ),
            ..TaskView::empty()
        },
    }
}

/// The sequencing task: it does nothing itself and only orders the creation
/// and the cleaning of the output directory before it.
pub open spec fn crate_scaffold_task() -> NamedTaskView {
    NamedTaskView {
        name: CRATE_SCAFFOLD@,
        task: TaskView {
            description: Some("Setup ${LIB_NAME} project'."@),
            dependencies: Some(seq![OUTPUT_DIR_CREATE@, OUTPUT_DIR_CLEAN@]),
            ..TaskView::empty()
        },
    }
}

/// The options every run of the generator gets: the `generate` sub-command,
/// Rust as target language, the output directory, the specification and the
/// configuration file.
pub open spec fn code_generation_opts() -> Seq<Seq<char>> {
    seq![
        "generate"@,
        "--generator-name"@,
        "rust"@,
        "--output"@,
        "${OUTPUT_DIR}"@,
        "--input-spec"@,
        "${SPEC_FILE_PATH}"@,
        "--config"@,
        "${OPEN_API_GENERATOR_CONFIG_PATH}"@,
    ]
}

/// The script that gates the generator tasks: it exits with status zero when
/// the generator executable is found on the search path, and otherwise tells
/// the user how to install it and exits with status one.
pub const GENERATOR_CONDITION_SCRIPT: &'static str = r#"
          #!/bin/bash
          # check if openapi cli command exists
          if command -v ${OPEN_API_GENERATOR_CLI_SCRIPT} >& /dev/null ;  then
            echo "Found OpenAPI CLI command."
            exit 0
          else 
            echo "Missing OpenAPI CLI command. Try running `cargo make openapi-cli-bash-install`"
            exit 1
          fi
          "#;

/// The generator task, or its dry-run variant: the same invocation with
/// `--dry-run` appended, under a name of its own.
pub open spec fn lib_code_generator_task(dry_run: bool) -> NamedTaskView {
    NamedTaskView {
        name: if dry_run {
            LIB_CODE_GENERATE_DRY_RUN@
        } else {
            LIB_CODE_GENERATE@
        },
        task: TaskView {
            description: Some("Generate ${LIB_NAME} code"@),
            condition_script: Some(trimmed_lines(GENERATOR_CONDITION_SCRIPT@)),
            command: Some("${OPEN_API_GENERATOR_CLI_SCRIPT}"@),
            args: Some(
                if dry_run {
                    code_generation_opts().push("--dry-run"@)
                } else {
                    code_generation_opts()
                },
            ),
            ..TaskView::empty()
        },
    }
}

/// The task that checks that the generator executable exists.
pub open spec fn openapi_cli_check_task() -> NamedTaskView {
    NamedTaskView {
        name: OPENAPI_CLI_CHECK@,
        task: TaskView {
            description: Some("Check that openapi cli generator tool is installed"@),
            command: Some("command"@),
            args: Some(seq!["-v"@, "${OPEN_API_GENERATOR_CLI_SCRIPT}"@]),
            ..TaskView::empty()
        },
    }
}

/// The interactive installer of the generator.
///
/// It downloads the artifact and then asks whether to enable, review or
/// delete it. Enabling marks it executable and adds its directory to the
/// search path in the user's shell profile unless the line is already there.
/// Reviewing opens a pager and asks again. Deleting removes the download.
pub const OPENAPI_CLI_INSTALL_SCRIPT: &'static str = r#"#!/bin/bash
          # enable the downloaded cli artifact file 
          CLI_SUBDIR=$HOME/${OPEN_API_GENERATOR_CLI_SUBDIR}
          CLI_PATH=$HOME/${OPEN_API_GENERATOR_CLI_PATH}
          CLI_SCRIPT=${OPEN_API_GENERATOR_CLI_SCRIPT}
          if [[ ! -s "$HOME/.bash_profile" && -s "$HOME/.profile" ]] ; then
              PROFILE_FILE="$HOME/.profile"
          else 
              PROFILE_FILE="$HOME/.bash_profile"
          fi
          # echo $CLI_SCRIPT
          function check_cli
          {
              source $PROFILE_FILE
              if command -v $CLI_SCRIPT >& /dev/null
              then 
                  echo "Install success. You can now run the \"$CLI_SCRIPT\" command"
                  echo "After running \"source $PROFILE_FILE\""
                  exit 0
              else 
                  echo "Install failed."
                  exit 0
              fi
          }
          function enable_cli
          {
              chmod u+x $CLI_PATH
              line_to_add="export PATH=\$PATH:$CLI_SUBDIR/"
              if ! grep -q "$line_to_add" "${PROFILE_FILE}" ; then 
                  echo "Adding \"$line_to_add\" to ${PROFILE_FILE}."
                  echo "\# OpenAPI Generator CLI" >> $PROFILE_FILE
                  echo "$line_to_add" >> $PROFILE_FILE
              else 
                  echo "Line already found in $PROFILE_FILE"
              fi
              check_cli
          } 
          # review the downloaded cli artifact file and optionally enable 
          function deal_with_cli 
          {
              echo Downloaded Open API Generator CLI script at $CLI_PATH
              echo Do you want to enable, review the script or delete it?
              select erd in "Enable" "Review" "Delete"; do
                  case $erd in
                      Enable) 
                          enable_cli
                          break
                          ;;
                      Review)
                          less $CLI_PATH
                          deal_with_cli
                          break
                          ;;
                      Delete)
                          rm $CLI_PATH
                          rm -rf $CLI_SUBDIR
                          exit 1
                          ;;
                  esac
              done 
          }
          # get the cli
          function get_cli 
          {
              mkdir -p $CLI_SUBDIR
              wget -N ${OPEN_API_GENERATOR_CLI_URL} -O $CLI_PATH
          }
  
          get_cli
          deal_with_cli
          "#;

/// The task that installs the generator.
pub open spec fn openapi_cli_install_task() -> NamedTaskView {
    NamedTaskView {
        name: OPENAPI_CLI_BASH_INSTALL@,
        task: TaskView {
            description: Some("Install Open API generator CLI'."@),
            script: Some(OPENAPI_CLI_INSTALL_SCRIPT@),
            ..TaskView::empty()
        },
    }
}

/// The task that removes everything inside the output directory.
pub open spec fn output_dir_clean_task() -> NamedTaskView {
    NamedTaskView {
        name: OUTPUT_DIR_CLEAN@,
        task: TaskView {
            description: Some("Setup ${LIB_NAME} output dir at ${OUTPUT_DIR}'."@),
            command: Some("rm"@),
            args: Some(seq!["-rf"@, "${OUTPUT_DIR}/*"@]),
            ..TaskView::empty()
        },
    }
}

/// The task that creates the output directory, with the directories above it
/// where they are missing.
pub open spec fn output_dir_create_task() -> NamedTaskView {
    NamedTaskView {
        name: OUTPUT_DIR_CREATE@,
        task: TaskView {
            description: Some("Create ${LIB_NAME} output dir at ${OUTPUT_DIR}'."@),
            command: Some("mkdir"@),
            args: Some(seq!["-p"@, "${OUTPUT_DIR}"@]),
            ..TaskView::empty()
        },
    }
}

/// The task that downloads the specification from the URL known when the
/// graph was built.
pub open spec fn spec_download_default_task() -> NamedTaskView {
    NamedTaskView {
        name: SPEC_DOWNLOAD_DEFAULT@,
        task: TaskView {
            description: Some(
                "Downloads ${API_NAME} Open API specification from '${API_URL}'."@,
            ),
            command: Some("wget"@),
            args: Some(seq!["${SPEC_FILE_URL}"@, "-O"@, "${SPEC_FILE_PATH}"@]),
            ..TaskView::empty()
        },
    }
}

/// The task that downloads the specification from the URL given as its
/// argument.
pub open spec fn spec_download_task() -> NamedTaskView {
    NamedTaskView {
        name: SPEC_DOWNLOAD@,
        task: TaskView {
            description: Some(
                "Downloads ${API_NAME} Open API specification from specified vararg'."@,
            ),
            command: Some("wget"@),
            args: Some(seq!["${@}"@, "-O"@, "${SPEC_FILE_PATH}"@]),
            ..TaskView::empty()
        },
    }
}

/// Start of the update program: its manifest header up to the name of the
/// generating tool.
pub const GENERATE_ALL_HEAD: &'static str = "
      //! ```cargo
      //! [dependencies]
      //! ";

/// Between the tool's name and its version in the manifest header.
pub const GENERATE_ALL_VERSION: &'static str = " = { version = \"";

/// Rest of the manifest header, up to the crate path of the import.
pub const GENERATE_ALL_IMPORT: &'static str = "\" }
      //! serde_yaml = { version = \"0.9.19\" }
      //! tokio = { version = \"1.26.0\", features = [\"full\"] }
      //! ```
      use ";

/// Rest of the import and the entry point, up to the embedded configuration.
pub const GENERATE_ALL_MAIN: &'static str = "::generate{ cli::CLIError, cargos };
      #[tokio::main]
      fn main() -> Result<(), CLIError>  {
        let configurator_yaml: &'static str = \"";

/// End of the update program: it reads the configuration back and runs the
/// manifest update.
pub const GENERATE_ALL_TAIL: &'static str = "\";
        let cargo_configurator: cargos::CargoConfigurator = serde_yaml::from_str(configurator_yaml)?;
        cargo_configurator.update_cargo_toml().await?;
        Ok(())
      }
    ";

/// The update program before its lines are trimmed: the fixed text with the
/// tool's name (twice), its version and the configuration document filled in.
pub open spec fn generate_all_source(
    this_crate_name: Seq<char>,
    this_crate_ver: Seq<char>,
    configurator_yaml: Seq<char>,
) -> Seq<char> {
    GENERATE_ALL_HEAD@ + this_crate_name + GENERATE_ALL_VERSION@ + this_crate_ver
        + GENERATE_ALL_IMPORT@ + this_crate_name + GENERATE_ALL_MAIN@ + configurator_yaml
        + GENERATE_ALL_TAIL@
}

/// The update program as the task carries it: every line trimmed, empty
/// lines left out.
pub open spec fn generate_all_script(
    this_crate_name: Seq<char>,
    this_crate_ver: Seq<char>,
    configurator_yaml: Seq<char>,
) -> Seq<char> {
    join_lines(
        trimmed_lines(generate_all_source(this_crate_name, this_crate_ver, configurator_yaml)),
    )
}

/// The task that runs the whole generation: after the generator and the
/// repair task it runs the update program with the Rust script runner.
pub open spec fn generate_all_task(
    this_crate_name: Seq<char>,
    this_crate_ver: Seq<char>,
    configurator_yaml: Seq<char>,
) -> NamedTaskView {
    NamedTaskView {
        name: GENERATE_ALL@,
        task: TaskView {
            description: Some("Generate ${LIB_NAME} code and try to get it up to par"@),
            dependencies: Some(seq![LIB_CODE_GENERATE@, CARGO_FIX_GENERATED@]),
            script_runner: Some("@rust"@),
            script: Some(generate_all_script(this_crate_name, this_crate_ver, configurator_yaml)),
            ..TaskView::empty()
        },
    }
}

/// Fills the update program in: the name of the generating tool, its version
/// and the configuration document go into the fixed text, then the lines are
/// trimmed.
pub fn make_generate_all_script(
    this_crate_name: &str,
    this_crate_ver: &str,
    configurator_yaml: &str,
) -> (script: String)
    ensures
        script@ == generate_all_script(this_crate_name@, this_crate_ver@, configurator_yaml@),
{
    let mut source: String = GENERATE_ALL_HEAD.to_owned();
    source.append(this_crate_name);
    source.append(GENERATE_ALL_VERSION);
    source.append(this_crate_ver);
    source.append(GENERATE_ALL_IMPORT);
    source.append(this_crate_name);
    source.append(GENERATE_ALL_MAIN);
    source.append(configurator_yaml);
    source.append(GENERATE_ALL_TAIL);
    trim_lines(source.as_str())
}

/// The options every run of the generator gets.
pub fn make_code_generation_opts() -> (opts: Vec<String>)
    ensures
        views(opts@) == code_generation_opts(),
{
    let opts = strings(
        &[
            "generate",
            "--generator-name",
            "rust",
            "--output",
            "${OUTPUT_DIR}",
            "--input-spec",
            "${SPEC_FILE_PATH}",
            "--config",
            "${OPEN_API_GENERATOR_CONFIG_PATH}",
        ],
    );
    assert(views(opts@) =~= code_generation_opts());
    opts
}

impl NamedTask {
    /// Makes the task that repairs the generated code.
    pub fn make_cargo_fix_task() -> (named: NamedTask)
        ensures
            named@ == cargo_fix_task(),
    {
        let args = strings(
            &[
                "fix",
                "--broken-code",
                "--allow-dirty",
                "--all-targets",
                "--all-features",
                "--verbose",
                "--verbose",
            ],
        );
        let named = NamedTask {
            name: CARGO_FIX_GENERATED.to_owned(),
            task: Task {
                description: Some("Fix ${LIB_NAME} project generated code'.".to_owned()),
                command: Some("cargo".to_owned()),
                args: Some(args),
                dependencies: None,
                condition_script: None,
                script_runner: None,
                script: None,
            },
        };
        assert(named@.task.args->0 =~= cargo_fix_task().task.args->0);
        named
    }
    /// Makes the task that sequences the set-up of the output directory.
    pub fn make_crate_scaffold_task() -> (named: NamedTask)
        ensures
            named@ == crate_scaffold_task(),
    {
        let dependencies = strings(&[OUTPUT_DIR_CREATE, OUTPUT_DIR_CLEAN]);
        let named = NamedTask {
            name: CRATE_SCAFFOLD.to_owned(),
            task: Task {
                description: Some("Setup ${LIB_NAME} project'.".to_owned()),
                command: None,
                args: None,
                dependencies: Some(dependencies),
                condition_script: None,
                script_runner: None,
                script: None,
            },
        };
        assert(named@.task.dependencies->0 =~= crate_scaffold_task().task.dependencies->0);
        named
    }

    /// Makes the task that runs the generator on the specification; with
    /// `Some(true)` its dry-run variant.
    pub fn make_lib_code_generator_task(is_dry_run: Option<bool>) -> (named: NamedTask)
        ensures
            named@ == lib_code_generator_task(is_dry_run == Some(true)),
    {
        let mut args = make_code_generation_opts();
        let mut name = LIB_CODE_GENERATE;
        if let Some(true) = is_dry_run {
            let flag: String = "--dry-run".to_owned();
            proof {
                args@.lemma_push_map_commute(|l: String| l@, flag);
            }
            args.push(flag);
            name = LIB_CODE_GENERATE_DRY_RUN;
        }
        NamedTask {
            name: name.to_owned(),
            task: Task {
                description: Some("Generate ${LIB_NAME} code".to_owned()),
                command: Some("${OPEN_API_GENERATOR_CLI_SCRIPT}".to_owned()),
                args: Some(args),
                dependencies: None,
                condition_script: Some(trim_lines_vec(GENERATOR_CONDITION_SCRIPT)),
                script_runner: None,
                script: None,
            },
        }
    }

    /// Makes the task that checks for the generator executable.
    pub fn make_openapi_cli_check_task() -> (named: NamedTask)
        ensures
            named@ == openapi_cli_check_task(),
    {
        let args = strings(&["-v", "${OPEN_API_GENERATOR_CLI_SCRIPT}"]);
        let named = NamedTask {
            name: OPENAPI_CLI_CHECK.to_owned(),
            task: Task {
                description: Some(
                    "Check that openapi cli generator tool is installed".to_owned(),
                ),
                command: Some("command".to_owned()),
                args: Some(args),
                dependencies: None,
                condition_script: None,
                script_runner: None,
                script: None,
            },
        };
        assert(named@.task.args->0 =~= openapi_cli_check_task().task.args->0);
        named
    }

    /// Makes the task that installs the generator.
    pub fn make_openapi_cli_install_task() -> (named: NamedTask)
        ensures
            named@ == openapi_cli_install_task(),
    {
        NamedTask {
            name: OPENAPI_CLI_BASH_INSTALL.to_owned(),
            task: Task {
                description: Some("Install Open API generator CLI'.".to_owned()),
                command: None,
                args: None,
                dependencies: None,
                condition_script: None,
                script_runner: None,
                script: Some(OPENAPI_CLI_INSTALL_SCRIPT.to_owned()),
            },
        }
    }

    /// Makes the task that empties the output directory.
    pub fn make_output_dir_clean_task() -> (named: NamedTask)
        ensures
            named@ == output_dir_clean_task(),
    {
        let args = strings(&["-rf", "${OUTPUT_DIR}/*"]);
        let named = NamedTask {
            name: OUTPUT_DIR_CLEAN.to_owned(),
            task: Task {
                description: Some("Setup ${LIB_NAME} output dir at ${OUTPUT_DIR}'.".to_owned()),
                command: Some("rm".to_owned()),
                args: Some(args),
                dependencies: None,
                condition_script: None,
                script_runner: None,
                script: None,
            },
        };
        assert(named@.task.args->0 =~= output_dir_clean_task().task.args->0);
        named
    }

    /// Makes the task that creates the output directory.
    pub fn make_output_dir_create_task() -> (named: NamedTask)
        ensures
            named@ == output_dir_create_task(),
    {
        let args = strings(&["-p", "${OUTPUT_DIR}"]);
        let named = NamedTask {
            name: OUTPUT_DIR_CREATE.to_owned(),
            task: Task {
                description: Some(
                    "Create ${LIB_NAME} output dir at ${OUTPUT_DIR}'.".to_owned(),
                ),
                command: Some("mkdir".to_owned()),
                args: Some(args),
                dependencies: None,
                condition_script: None,
                script_runner: None,
                script: None,
            },
        };
        assert(named@.task.args->0 =~= output_dir_create_task().task.args->0);
        named
    }

    /// Makes the task that downloads the specification from its known URL.
    pub fn make_spec_download_default_task() -> (named: NamedTask)
        ensures
            named@ == spec_download_default_task(),
    {
        let args = strings(&["${SPEC_FILE_URL}", "-O", "${SPEC_FILE_PATH}"]);
        let named = NamedTask {
            name: SPEC_DOWNLOAD_DEFAULT.to_owned(),
            task: Task {
                description: Some(
                    "Downloads ${API_NAME} Open API specification from '${API_URL}'.".to_owned(),
                ),
                command: Some("wget".to_owned()),
                args: Some(args),
                dependencies: None,
                condition_script: None,
                script_runner: None,
                script: None,
            },
        };
        assert(named@.task.args->0 =~= spec_download_default_task().task.args->0);
        named
    }

    /// Makes the task that downloads the specification from a given URL.
    pub fn make_spec_download_task() -> (named: NamedTask)
        ensures
            named@ == spec_download_task(),
    {
        let args = strings(&["${@}", "-O", "${SPEC_FILE_PATH}"]);
        let named = NamedTask {
            name: SPEC_DOWNLOAD.to_owned(),
            task: Task {
                description: Some(
                    "Downloads ${API_NAME} Open API specification from specified vararg'.".to_owned(),
                ),
                command: Some("wget".to_owned()),
                args: Some(args),
                dependencies: None,
                condition_script: None,
                script_runner: None,
                script: None,
            },
        };
        assert(named@.task.args->0 =~= spec_download_task().task.args->0);
        named
    }
    /// Makes the task that runs the whole generation from the configuration
    /// document already written as YAML.
    pub fn make_generate_all_task_with(
        this_crate_name: &str,
        this_crate_ver: &str,
        configurator_yaml: &str,
    ) -> (named: NamedTask)
        ensures
            named@ == generate_all_task(this_crate_name@, this_crate_ver@, configurator_yaml@),
    {
        let script = make_generate_all_script(this_crate_name, this_crate_ver, configurator_yaml);
        let dependencies = strings(&[LIB_CODE_GENERATE, CARGO_FIX_GENERATED]);
        let named = NamedTask {
            name: GENERATE_ALL.to_owned(),
            task: Task {
                description: Some(
                    "Generate ${LIB_NAME} code and try to get it up to par".to_owned(),
                ),
                command: None,
                args: None,
                dependencies: Some(dependencies),
                condition_script: None,
                script_runner: Some("@rust".to_owned()),
                script: Some(script),
            },
        };
        proof {
            let spec = generate_all_task(this_crate_name@, this_crate_ver@, configurator_yaml@);
            assert(named@.task.dependencies->0 =~= spec.task.dependencies->0);
        }
        named
    }

    /// Makes the task that runs the whole generation. The configuration of
    /// the manifest update is written as YAML first; where that fails there
    /// is no task.
    pub fn make_generate_all_task(cli: &Cli) -> (r: Result<NamedTask, MakefileGenerationError>)
        ensures
            match r {
                Ok(named) => yaml_document(
                    configurator_entries(cli.lib_name@, cli.this_crate_name@, cli.this_crate_ver@),
                ) matches Some(yaml) && named@ == generate_all_task(
                    cli.this_crate_name@,
                    cli.this_crate_ver@,
                    yaml,
                ),
                Err(e) => yaml_document(
                    configurator_entries(cli.lib_name@, cli.this_crate_name@, cli.this_crate_ver@),
                ) is None && e is SerdeYAMLError,
            },
    {
        let cargo_configurator = CargoConfigurator::new(cli);
        match cargo_configurator.to_yaml() {
            Ok(configurator_yaml) => Ok(
                NamedTask::make_generate_all_task_with(
                    cargo_configurator.this_crate_name.as_str(),
                    cargo_configurator.this_crate_ver.as_str(),
                    configurator_yaml.as_str(),
                ),
            ),
            Err(e) => Err(MakefileGenerationError::SerdeYAMLError(e)),
        }
    }
}

} // verus!
