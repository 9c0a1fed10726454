//! The resolved command line: every value the generators need, as plain data.

use vstd::prelude::*;

verus! {

/// A required value that the command line did not provide.
#[derive(Debug, Clone, Copy, PartialEq, Eq, Structural)]
pub enum ParameterError {
    /// No name for the specification file could be resolved.
    SpecFileNameMissing,
    /// Test generation was requested without a path for the sample specification.
    TestingYAMLSpecPathMissing,
}

/// Sub-commands that change how the target directory is prepared.
#[derive(Debug, Clone, Copy, PartialEq, Eq, Structural)]
pub enum SubCommands {
    /// Generate into a scratch directory that is wiped on every run.
    TestGeneration,
}

/// Well-known locations inside the target project directory.
#[derive(Debug, Clone, Copy, PartialEq, Eq, Structural)]
pub enum Paths {
    /// The manifest of the scaffolded crate.
    CargoTomlFile,
    /// The version-control ignore file.
    GitignoreFile,
    /// The internal working subdirectory.
    TempDir,
}

/// Name of the manifest file.
pub const CARGO_TOML_FILE: &'static str = "Cargo.toml";

/// Name of the ignore file.
pub const GITIGNORE_FILE: &'static str = ".gitignore";

/// Name of the internal working subdirectory.
pub const TEMP_DIR: &'static str = "temp";

impl Paths {
    /// The location relative to the project directory.
    pub open spec fn spec_path(self) -> Seq<char> {
        match self {
            Paths::CargoTomlFile => CARGO_TOML_FILE@,
            Paths::GitignoreFile => GITIGNORE_FILE@,
            Paths::TempDir => TEMP_DIR@,
        }
    }

    /// The location relative to the project directory.
    pub fn path(&self) -> (p: &'static str)
        ensures
            p@ == self.spec_path(),
    {
        match self {
            Paths::CargoTomlFile => CARGO_TOML_FILE,
            Paths::GitignoreFile => GITIGNORE_FILE,
            Paths::TempDir => TEMP_DIR,
        }
    }
}

/// The arguments as the user gave them.
#[derive(Debug, Clone)]
pub struct InnerCli {
    /// Name of the site or API the crate is generated for.
    pub site_or_api_name: String,
    /// Base URL of the API.
    pub api_url: String,
    /// Where the specification can be downloaded from, if known.
    pub api_spec_url_opt: Option<String>,
    /// Path of a specification file on this machine, if any.
    pub local_api_spec_filepath_opt: Option<String>,
    /// The sub-command, if one was given.
    pub command: Option<SubCommands>,
}

/// The command line together with everything resolved from it.
#[derive(Debug, Clone)]
pub struct Cli {
    /// The arguments as given.
    pub inner_cli: InnerCli,
    /// Package name of the crate to scaffold.
    pub lib_name: String,
    /// File name of the specification, when one could be resolved.
    pub spec_file_name_opt: Option<String>,
    /// The target project directory.
    pub output_project_dir: String,
    /// Package name of the generating tool.
    pub this_crate_name: String,
    /// Package version of the generating tool.
    pub this_crate_ver: String,
}

impl Cli {
    /// Whether the run generates into a scratch directory.
    pub open spec fn spec_is_test_generation(&self) -> bool {
        self.inner_cli.command matches Some(SubCommands::TestGeneration)
    }

    /// Whether the run generates into a scratch directory.
    #[verifier::when_used_as_spec(spec_is_test_generation)]
    pub fn is_test_generation(&self) -> (b: bool)
        ensures
            b == self.spec_is_test_generation(),
    {
        match self.inner_cli.command {
            Some(SubCommands::TestGeneration) => true,
            None => false,
        }
    }

    /// Package name of the crate to scaffold.
    pub fn get_lib_name(&self) -> (name: String)
        ensures
            name == self.lib_name,
    {
        self.lib_name.clone()
    }

    /// The target project directory.
    pub fn get_output_project_dir_string(&self) -> (dir: String)
        ensures
            dir == self.output_project_dir,
    {
        self.output_project_dir.clone()
    }

    /// File name of the specification; an error when none was resolved.
    pub fn try_get_spec_file_name(&self) -> (r: Result<String, ParameterError>)
        ensures
            match self.spec_file_name_opt {
                Some(name) => r == Ok::<String, ParameterError>(name),
                None => r == Err::<String, ParameterError>(ParameterError::SpecFileNameMissing),
            },
    {
        match &self.spec_file_name_opt {
            Some(name) => Ok(name.clone()),
            None => Err(ParameterError::SpecFileNameMissing),
        }
    }
}

} // verus!
