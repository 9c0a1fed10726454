//! The pipeline configuration: the environment entries and the task mapping
//! that the task runner reads from one document.

use crate::catalog::{
    cargo_fix_task, crate_scaffold_task, generate_all_task, lib_code_generator_task,
    openapi_cli_check_task, openapi_cli_install_task, output_dir_clean_task,
    output_dir_create_task, spec_download_default_task, spec_download_task, TaskNames,
    CARGO_FIX_GENERATED, CRATE_SCAFFOLD, GENERATE_ALL, LIB_CODE_GENERATE,
    LIB_CODE_GENERATE_DRY_RUN, OPENAPI_CLI_BASH_INSTALL, OPENAPI_CLI_CHECK, OUTPUT_DIR_CLEAN,
    OUTPUT_DIR_CREATE, SPEC_DOWNLOAD, SPEC_DOWNLOAD_DEFAULT,
};
use crate::cargos::configurator_entries;
use crate::cli::{Cli, ParameterError, TEMP_DIR};
use crate::task_map::{dependencies_resolved, named_views, tasks_of, TaskMap};
use crate::tasks::{NamedTask, NamedTaskView, TaskView};
use crate::yaml::yaml_document;
use vstd::prelude::*;

verus! {

/// Why the pipeline configuration could not be built or written.
#[derive(Debug)]
pub enum MakefileGenerationError {
    /// The environment has no entry of this name.
    EnvMissingKey(String),
    /// Writing the document failed.
    IOError(std::io::Error),
    /// A required value is missing.
    ParameterError(ParameterError),
    /// The configuration embedded in a task could not be encoded.
    SerdeYAMLError(serde_yaml::Error),
    /// The document could not be encoded.
    TomlSerError(toml::ser::Error),
}

/// The environment entries of the pipeline. In the document each entry goes
/// by the upper-case form of its field name; a `${NAME}` inside a value
/// stands for the entry of that name and is resolved by the task runner.
#[derive(Debug, Clone)]
pub struct MakefileEnv {
    pub api_url: String,
    pub api_name: String,
    pub lib_name: String,
    pub output_dir: String,
    pub output_temp_dir: String,
    pub open_api_generator_cli_url: String,
    pub open_api_generator_cli_subdir: String,
    pub open_api_generator_cli_path: String,
    pub open_api_generator_cli_script: String,
    pub open_api_generator_config_file: String,
    pub open_api_generator_config_path: String,
    pub spec_file_download_dir: String,
    pub spec_file_name: String,
    pub spec_file_path: String,
    pub spec_file_url: String,
}

/// What a [`MakefileEnv`] holds, as mathematical values.
pub struct MakefileEnvView {
    pub api_url: Seq<char>,
    pub api_name: Seq<char>,
    pub lib_name: Seq<char>,
    pub output_dir: Seq<char>,
    pub output_temp_dir: Seq<char>,
    pub open_api_generator_cli_url: Seq<char>,
    pub open_api_generator_cli_subdir: Seq<char>,
    pub open_api_generator_cli_path: Seq<char>,
    pub open_api_generator_cli_script: Seq<char>,
    pub open_api_generator_config_file: Seq<char>,
    pub open_api_generator_config_path: Seq<char>,
    pub spec_file_download_dir: Seq<char>,
    pub spec_file_name: Seq<char>,
    pub spec_file_path: Seq<char>,
    pub spec_file_url: Seq<char>,
}

impl MakefileEnvView {
    /// The entries by the names they have in the document, in the order of
    /// the fields.
    pub open spec fn entries(self) -> Seq<(Seq<char>, Seq<char>)> {
        seq![
            ("API_URL"@, self.api_url),
            ("API_NAME"@, self.api_name),
            ("LIB_NAME"@, self.lib_name),
            ("OUTPUT_DIR"@, self.output_dir),
            ("OUTPUT_TEMP_DIR"@, self.output_temp_dir),
            ("OPEN_API_GENERATOR_CLI_URL"@, self.open_api_generator_cli_url),
            ("OPEN_API_GENERATOR_CLI_SUBDIR"@, self.open_api_generator_cli_subdir),
            ("OPEN_API_GENERATOR_CLI_PATH"@, self.open_api_generator_cli_path),
            ("OPEN_API_GENERATOR_CLI_SCRIPT"@, self.open_api_generator_cli_script),
            ("OPEN_API_GENERATOR_CONFIG_FILE"@, self.open_api_generator_config_file),
            ("OPEN_API_GENERATOR_CONFIG_PATH"@, self.open_api_generator_config_path),
            ("SPEC_FILE_DOWNLOAD_DIR"@, self.spec_file_download_dir),
            ("SPEC_FILE_NAME"@, self.spec_file_name),
            ("SPEC_FILE_PATH"@, self.spec_file_path),
            ("SPEC_FILE_URL"@, self.spec_file_url),
        ]
    }
}

/// The contents of a list of pairs of strings.
pub open spec fn pair_views(pairs: Seq<(String, String)>) -> Seq<(Seq<char>, Seq<char>)> {
    pairs.map_values(|p: (String, String)| (p.0@, p.1@))
}

/// Whether the entry at `i` is the first one named `name`.
pub open spec fn is_first_named(
    entries: Seq<(Seq<char>, Seq<char>)>,
    name: Seq<char>,
    i: int,
) -> bool {
    &&& 0 <= i < entries.len()
    &&& entries[i].0 == name
    &&& forall|k: int| 0 <= k < i ==> (#[trigger] entries[k]).0 != name
}

/// The value of the first entry named `name`, if there is one.
pub open spec fn lookup(entries: Seq<(Seq<char>, Seq<char>)>, name: Seq<char>) -> Option<
    Seq<char>,
> {
    if exists|i: int| is_first_named(entries, name, i) {
        Some(entries[choose|i: int| is_first_named(entries, name, i)].1)
    } else {
        None
    }
}

/// The first name, in the order of the fields, for which the entries hold no
/// value.
pub open spec fn missing_name(entries: Seq<(Seq<char>, Seq<char>)>) -> Option<Seq<char>> {
    if lookup(entries, "API_URL"@) is None {
        Some("API_URL"@)
    } else if lookup(entries, "API_NAME"@) is None {
        Some("API_NAME"@)
    } else if lookup(entries, "LIB_NAME"@) is None {
        Some("LIB_NAME"@)
    } else if lookup(entries, "OUTPUT_DIR"@) is None {
        Some("OUTPUT_DIR"@)
    } else if lookup(entries, "OUTPUT_TEMP_DIR"@) is None {
        Some("OUTPUT_TEMP_DIR"@)
    } else if lookup(entries, "OPEN_API_GENERATOR_CLI_URL"@) is None {
        Some("OPEN_API_GENERATOR_CLI_URL"@)
    } else if lookup(entries, "OPEN_API_GENERATOR_CLI_SUBDIR"@) is None {
        Some("OPEN_API_GENERATOR_CLI_SUBDIR"@)
    } else if lookup(entries, "OPEN_API_GENERATOR_CLI_PATH"@) is None {
        Some("OPEN_API_GENERATOR_CLI_PATH"@)
    } else if lookup(entries, "OPEN_API_GENERATOR_CLI_SCRIPT"@) is None {
        Some("OPEN_API_GENERATOR_CLI_SCRIPT"@)
    } else if lookup(entries, "OPEN_API_GENERATOR_CONFIG_FILE"@) is None {
        Some("OPEN_API_GENERATOR_CONFIG_FILE"@)
    } else if lookup(entries, "OPEN_API_GENERATOR_CONFIG_PATH"@) is None {
        Some("OPEN_API_GENERATOR_CONFIG_PATH"@)
    } else if lookup(entries, "SPEC_FILE_DOWNLOAD_DIR"@) is None {
        Some("SPEC_FILE_DOWNLOAD_DIR"@)
    } else if lookup(entries, "SPEC_FILE_NAME"@) is None {
        Some("SPEC_FILE_NAME"@)
    } else if lookup(entries, "SPEC_FILE_PATH"@) is None {
        Some("SPEC_FILE_PATH"@)
    } else if lookup(entries, "SPEC_FILE_URL"@) is None {
        Some("SPEC_FILE_URL"@)
    } else {
        None
    }
}

/// The environment read from entries that hold a value for every name.
pub open spec fn env_of_entries(entries: Seq<(Seq<char>, Seq<char>)>) -> MakefileEnvView {
    MakefileEnvView {
        api_url: lookup(entries, "API_URL"@).unwrap(),
        api_name: lookup(entries, "API_NAME"@).unwrap(),
        lib_name: lookup(entries, "LIB_NAME"@).unwrap(),
        output_dir: lookup(entries, "OUTPUT_DIR"@).unwrap(),
        output_temp_dir: lookup(entries, "OUTPUT_TEMP_DIR"@).unwrap(),
        open_api_generator_cli_url: lookup(entries, "OPEN_API_GENERATOR_CLI_URL"@).unwrap(),
        open_api_generator_cli_subdir: lookup(entries, "OPEN_API_GENERATOR_CLI_SUBDIR"@).unwrap(),
        open_api_generator_cli_path: lookup(entries, "OPEN_API_GENERATOR_CLI_PATH"@).unwrap(),
        open_api_generator_cli_script: lookup(entries, "OPEN_API_GENERATOR_CLI_SCRIPT"@).unwrap(),
        open_api_generator_config_file: lookup(entries, "OPEN_API_GENERATOR_CONFIG_FILE"@).unwrap(),
        open_api_generator_config_path: lookup(entries, "OPEN_API_GENERATOR_CONFIG_PATH"@).unwrap(),
        spec_file_download_dir: lookup(entries, "SPEC_FILE_DOWNLOAD_DIR"@).unwrap(),
        spec_file_name: lookup(entries, "SPEC_FILE_NAME"@).unwrap(),
        spec_file_path: lookup(entries, "SPEC_FILE_PATH"@).unwrap(),
        spec_file_url: lookup(entries, "SPEC_FILE_URL"@).unwrap(),
    }
}

impl View for MakefileEnv {
    type V = MakefileEnvView;

    open spec fn view(&self) -> MakefileEnvView {
        MakefileEnvView {
            api_url: self.api_url@,
            api_name: self.api_name@,
            lib_name: self.lib_name@,
            output_dir: self.output_dir@,
            output_temp_dir: self.output_temp_dir@,
            open_api_generator_cli_url: self.open_api_generator_cli_url@,
            open_api_generator_cli_subdir: self.open_api_generator_cli_subdir@,
            open_api_generator_cli_path: self.open_api_generator_cli_path@,
            open_api_generator_cli_script: self.open_api_generator_cli_script@,
            open_api_generator_config_file: self.open_api_generator_config_file@,
            open_api_generator_config_path: self.open_api_generator_config_path@,
            spec_file_download_dir: self.spec_file_download_dir@,
            spec_file_name: self.spec_file_name@,
            spec_file_path: self.spec_file_path@,
            spec_file_url: self.spec_file_url@,
        }
    }
}

/// File name of the generator's configuration document.
pub const OPEN_API_GENERATOR_CONFIG_FILE: &'static str = "generator_config.yaml";

/// Where the generator's launcher script is downloaded from.
pub const OPEN_API_GENERATOR_CLI_URL: &'static str =
    "https://raw.githubusercontent.com/OpenAPITools/openapi-generator/master/bin/utils/openapi-generator-cli.sh";

/// Directory of the launcher script, below the user's home directory.
pub const OPEN_API_GENERATOR_CLI_SUBDIR: &'static str = "bin/openapitools";

/// File name of the launcher script.
pub const OPEN_API_GENERATOR_CLI_SCRIPT: &'static str = "openapi-generator-cli";

/// File name of the pipeline configuration document.
pub const MAKEFILE_NAME: &'static str = "Makefile.toml";

/// The entries for a command line whose specification file is named
/// `spec_file_name`. The URL of the specification is empty where none was
/// given.
pub open spec fn makefile_env(cli: Cli, spec_file_name: Seq<char>) -> MakefileEnvView {
    MakefileEnvView {
        api_url: cli.inner_cli.api_url@,
        api_name: cli.inner_cli.site_or_api_name@,
        lib_name: cli.lib_name@,
        output_dir: "."@,
        output_temp_dir: "./"@ + TEMP_DIR@,
        open_api_generator_cli_url: OPEN_API_GENERATOR_CLI_URL@,
        open_api_generator_cli_subdir: OPEN_API_GENERATOR_CLI_SUBDIR@,
        open_api_generator_cli_path: "${OPEN_API_GENERATOR_CLI_SUBDIR}/${OPEN_API_GENERATOR_CLI_SCRIPT}"@,
        open_api_generator_cli_script: OPEN_API_GENERATOR_CLI_SCRIPT@,
        open_api_generator_config_file: OPEN_API_GENERATOR_CONFIG_FILE@,
        open_api_generator_config_path: "${OPEN_API_GENERATOR_CONFIG_FILE}"@,
        spec_file_download_dir: "${OUTPUT_TEMP_DIR}/specdl"@,
        spec_file_name: spec_file_name,
        spec_file_path: "${SPEC_FILE_NAME}"@,
        spec_file_url: match cli.inner_cli.api_spec_url_opt {
            Some(url) => url@,
            None => Seq::empty(),
        },
    }
}

/// The value of the first entry named `name`, if there is one.
pub fn lookup_entry(entries: &Vec<(String, String)>, name: &str) -> (r: Option<String>)
    ensures
        match r {
            Some(value) => lookup(pair_views(entries@), name@) == Some(value@),
            None => lookup(pair_views(entries@), name@) is None,
        },
{
    let wanted: String = name.to_owned();
    let mut i: usize = 0;
    while i < entries.len()
        invariant
            i <= entries.len(),
            wanted@ == name@,
            forall|k: int| 0 <= k < i ==> (#[trigger] pair_views(entries@)[k]).0 != name@,
        decreases entries.len() - i,
    {
        if entries[i].0 == wanted {
            proof {
                let all = pair_views(entries@);
                assert(is_first_named(all, name@, i as int));
                let first = choose|f: int| is_first_named(all, name@, f);
                assert(first == i);
            }
            return Some(entries[i].1.clone());
        }
        i += 1;
    }
    proof {
        let all = pair_views(entries@);
        assert forall|f: int| !is_first_named(all, name@, f) by {
            if 0 <= f < all.len() {
                assert(all[f].0 != name@);
            }
        }
    }
    None
}

/// Reading an environment back from its own entries gives the environment:
/// no name is missing and every field has its value.
pub proof fn lemma_env_entries_read_back(env: MakefileEnvView)
    ensures
        missing_name(env.entries()) is None,
        env_of_entries(env.entries()) == env,
{
    let entries = env.entries();
    lemma_env_names_differ();
    assert(is_first_named(entries, "API_URL"@, 0));
    assert(is_first_named(entries, "API_NAME"@, 1));
    assert(is_first_named(entries, "LIB_NAME"@, 2));
    assert(is_first_named(entries, "OUTPUT_DIR"@, 3));
    assert(is_first_named(entries, "OUTPUT_TEMP_DIR"@, 4));
    assert(is_first_named(entries, "OPEN_API_GENERATOR_CLI_URL"@, 5));
    assert(is_first_named(entries, "OPEN_API_GENERATOR_CLI_SUBDIR"@, 6));
    assert(is_first_named(entries, "OPEN_API_GENERATOR_CLI_PATH"@, 7));
    assert(is_first_named(entries, "OPEN_API_GENERATOR_CLI_SCRIPT"@, 8));
    assert(is_first_named(entries, "OPEN_API_GENERATOR_CONFIG_FILE"@, 9));
    assert(is_first_named(entries, "OPEN_API_GENERATOR_CONFIG_PATH"@, 10));
    assert(is_first_named(entries, "SPEC_FILE_DOWNLOAD_DIR"@, 11));
    assert(is_first_named(entries, "SPEC_FILE_NAME"@, 12));
    assert(is_first_named(entries, "SPEC_FILE_PATH"@, 13));
    assert(is_first_named(entries, "SPEC_FILE_URL"@, 14));
}

/// The names of the entries differ from one another.
proof fn lemma_env_names_differ()
    ensures
        forall|env: MakefileEnvView, i: int, j: int|
            0 <= i < j < 15 ==> (#[trigger] env.entries()[i]).0 != (#[trigger] env.entries()[j]).0,
{
    reveal_strlit("API_URL");
    reveal_strlit("API_NAME");
    reveal_strlit("LIB_NAME");
    reveal_strlit("OUTPUT_DIR");
    reveal_strlit("OUTPUT_TEMP_DIR");
    reveal_strlit("OPEN_API_GENERATOR_CLI_URL");
    reveal_strlit("OPEN_API_GENERATOR_CLI_SUBDIR");
    reveal_strlit("OPEN_API_GENERATOR_CLI_PATH");
    reveal_strlit("OPEN_API_GENERATOR_CLI_SCRIPT");
    reveal_strlit("OPEN_API_GENERATOR_CONFIG_FILE");
    reveal_strlit("OPEN_API_GENERATOR_CONFIG_PATH");
    reveal_strlit("SPEC_FILE_DOWNLOAD_DIR");
    reveal_strlit("SPEC_FILE_NAME");
    reveal_strlit("SPEC_FILE_PATH");
    reveal_strlit("SPEC_FILE_URL");
    assert forall|env: MakefileEnvView, i: int, j: int| 0 <= i < j < 15 implies (
    #[trigger] env.entries()[i]).0 != (#[trigger] env.entries()[j]).0 by {
        let a = env.entries()[i].0;
        let b = env.entries()[j].0;
        if a.len() == b.len() {
            assert(a[0] != b[0] || a[10] != b[10] || a[25] != b[25] || a[28] != b[28]);
        }
    }
}

impl MakefileEnv {
    /// The entries by the names they have in the document, in the order of
    /// the fields.
    pub fn entries(&self) -> (entries: Vec<(String, String)>)
        ensures
            pair_views(entries@) == self@.entries(),
    {
        let mut entries: Vec<(String, String)> = Vec::new();
        entries.push(("API_URL".to_owned(), self.api_url.clone()));
        entries.push(("API_NAME".to_owned(), self.api_name.clone()));
        entries.push(("LIB_NAME".to_owned(), self.lib_name.clone()));
        entries.push(("OUTPUT_DIR".to_owned(), self.output_dir.clone()));
        entries.push(("OUTPUT_TEMP_DIR".to_owned(), self.output_temp_dir.clone()));
        entries.push(
            ("OPEN_API_GENERATOR_CLI_URL".to_owned(), self.open_api_generator_cli_url.clone()),
        );
        entries.push(
            ("OPEN_API_GENERATOR_CLI_SUBDIR".to_owned(), self.open_api_generator_cli_subdir.clone()),
        );
        entries.push(
            ("OPEN_API_GENERATOR_CLI_PATH".to_owned(), self.open_api_generator_cli_path.clone()),
        );
        entries.push(
            ("OPEN_API_GENERATOR_CLI_SCRIPT".to_owned(), self.open_api_generator_cli_script.clone()),
        );
        entries.push(
            (
                "OPEN_API_GENERATOR_CONFIG_FILE".to_owned(),
                self.open_api_generator_config_file.clone(),
            ),
        );
        entries.push(
            (
                "OPEN_API_GENERATOR_CONFIG_PATH".to_owned(),
                self.open_api_generator_config_path.clone(),
            ),
        );
        entries.push(("SPEC_FILE_DOWNLOAD_DIR".to_owned(), self.spec_file_download_dir.clone()));
        entries.push(("SPEC_FILE_NAME".to_owned(), self.spec_file_name.clone()));
        entries.push(("SPEC_FILE_PATH".to_owned(), self.spec_file_path.clone()));
        entries.push(("SPEC_FILE_URL".to_owned(), self.spec_file_url.clone()));
        assert(pair_views(entries@) =~= self@.entries());
        entries
    }

    /// The value of the entry that goes by `name` in the document; an error
    /// where no entry has that name.
    pub fn get(&self, name: &str) -> (r: Result<String, MakefileGenerationError>)
        ensures
            match r {
                Ok(value) => lookup(self@.entries(), name@) == Some(value@),
                Err(e) => {
                    &&& lookup(self@.entries(), name@) is None
                    &&& e matches MakefileGenerationError::EnvMissingKey(key)
                    &&& key@ == name@
                },
            },
    {
        let entries = self.entries();
        match lookup_entry(&entries, name) {
            Some(value) => Ok(value),
            None => Err(MakefileGenerationError::EnvMissingKey(name.to_owned())),
        }
    }

    /// Reads the environment back from the entries of a document: every
    /// field takes the value of the first entry that goes by its name. The
    /// first name without an entry is reported as missing.
    pub fn from_entries(entries: &Vec<(String, String)>) -> (r: Result<
        MakefileEnv,
        MakefileGenerationError,
    >)
        ensures
            match r {
                Ok(env) => missing_name(pair_views(entries@)) is None && env@ == env_of_entries(
                    pair_views(entries@),
                ),
                Err(e) => {
                    &&& missing_name(pair_views(entries@)) matches Some(name)
                    &&& e matches MakefileGenerationError::EnvMissingKey(key)
                    &&& key@ == name
                },
            },
    {
        let api_url = match lookup_entry(entries, "API_URL") {
            Some(value) => value,
            None => {
                return Err(MakefileGenerationError::EnvMissingKey("API_URL".to_owned()));
            },
        };
        let api_name = match lookup_entry(entries, "API_NAME") {
            Some(value) => value,
            None => {
                return Err(MakefileGenerationError::EnvMissingKey("API_NAME".to_owned()));
            },
        };
        let lib_name = match lookup_entry(entries, "LIB_NAME") {
            Some(value) => value,
            None => {
                return Err(MakefileGenerationError::EnvMissingKey("LIB_NAME".to_owned()));
            },
        };
        let output_dir = match lookup_entry(entries, "OUTPUT_DIR") {
            Some(value) => value,
            None => {
                return Err(MakefileGenerationError::EnvMissingKey("OUTPUT_DIR".to_owned()));
            },
        };
        let output_temp_dir = match lookup_entry(entries, "OUTPUT_TEMP_DIR") {
            Some(value) => value,
            None => {
                return Err(MakefileGenerationError::EnvMissingKey("OUTPUT_TEMP_DIR".to_owned()));
            },
        };
        let open_api_generator_cli_url = match lookup_entry(entries, "OPEN_API_GENERATOR_CLI_URL") {
            Some(value) => value,
            None => {
                return Err(MakefileGenerationError::EnvMissingKey("OPEN_API_GENERATOR_CLI_URL".to_owned()));
            },
        };
        let open_api_generator_cli_subdir = match lookup_entry(entries, "OPEN_API_GENERATOR_CLI_SUBDIR") {
            Some(value) => value,
            None => {
                return Err(MakefileGenerationError::EnvMissingKey("OPEN_API_GENERATOR_CLI_SUBDIR".to_owned()));
            },
        };
        let open_api_generator_cli_path = match lookup_entry(entries, "OPEN_API_GENERATOR_CLI_PATH") {
            Some(value) => value,
            None => {
                return Err(MakefileGenerationError::EnvMissingKey("OPEN_API_GENERATOR_CLI_PATH".to_owned()));
            },
        };
        let open_api_generator_cli_script = match lookup_entry(entries, "OPEN_API_GENERATOR_CLI_SCRIPT") {
            Some(value) => value,
            None => {
                return Err(MakefileGenerationError::EnvMissingKey("OPEN_API_GENERATOR_CLI_SCRIPT".to_owned()));
            },
        };
        let open_api_generator_config_file = match lookup_entry(entries, "OPEN_API_GENERATOR_CONFIG_FILE") {
            Some(value) => value,
            None => {
                return Err(MakefileGenerationError::EnvMissingKey("OPEN_API_GENERATOR_CONFIG_FILE".to_owned()));
            },
        };
        let open_api_generator_config_path = match lookup_entry(entries, "OPEN_API_GENERATOR_CONFIG_PATH") {
            Some(value) => value,
            None => {
                return Err(MakefileGenerationError::EnvMissingKey("OPEN_API_GENERATOR_CONFIG_PATH".to_owned()));
            },
        };
        let spec_file_download_dir = match lookup_entry(entries, "SPEC_FILE_DOWNLOAD_DIR") {
            Some(value) => value,
            None => {
                return Err(MakefileGenerationError::EnvMissingKey("SPEC_FILE_DOWNLOAD_DIR".to_owned()));
            },
        };
        let spec_file_name = match lookup_entry(entries, "SPEC_FILE_NAME") {
            Some(value) => value,
            None => {
                return Err(MakefileGenerationError::EnvMissingKey("SPEC_FILE_NAME".to_owned()));
            },
        };
        let spec_file_path = match lookup_entry(entries, "SPEC_FILE_PATH") {
            Some(value) => value,
            None => {
                return Err(MakefileGenerationError::EnvMissingKey("SPEC_FILE_PATH".to_owned()));
            },
        };
        let spec_file_url = match lookup_entry(entries, "SPEC_FILE_URL") {
            Some(value) => value,
            None => {
                return Err(MakefileGenerationError::EnvMissingKey("SPEC_FILE_URL".to_owned()));
            },
        };
        Ok(
            MakefileEnv {
                api_url,
                api_name,
                lib_name,
                output_dir,
                output_temp_dir,
                open_api_generator_cli_url,
                open_api_generator_cli_subdir,
                open_api_generator_cli_path,
                open_api_generator_cli_script,
                open_api_generator_config_file,
                open_api_generator_config_path,
                spec_file_download_dir,
                spec_file_name,
                spec_file_path,
                spec_file_url,
            },
        )
    }

    /// The entries for this command line; an error where no name for the
    /// specification file was resolved.
    pub fn try_from(cli: &Cli) -> (r: Result<MakefileEnv, MakefileGenerationError>)
        ensures
            match cli.spec_file_name_opt {
                Some(name) => r is Ok && r->Ok_0@ == makefile_env(*cli, name@),
                None => r == Err::<MakefileEnv, MakefileGenerationError>(
                    MakefileGenerationError::ParameterError(ParameterError::SpecFileNameMissing),
                ),
            },
    {
        let spec_file_name = match cli.try_get_spec_file_name() {
            Ok(name) => name,
            Err(e) => {
                return Err(MakefileGenerationError::ParameterError(e));
            },
        };
        let mut output_temp_dir: String = "./".to_owned();
        output_temp_dir.append(TEMP_DIR);
        let spec_file_url = match &cli.inner_cli.api_spec_url_opt {
            Some(url) => url.clone(),
            None => String::new(),
        };
        Ok(
            MakefileEnv {
                api_url: cli.inner_cli.api_url.clone(),
                api_name: cli.inner_cli.site_or_api_name.clone(),
                lib_name: cli.get_lib_name(),
                output_dir: ".".to_owned(),
                output_temp_dir,
                open_api_generator_cli_url: OPEN_API_GENERATOR_CLI_URL.to_owned(),
                open_api_generator_cli_subdir: OPEN_API_GENERATOR_CLI_SUBDIR.to_owned(),
                open_api_generator_cli_path: "${OPEN_API_GENERATOR_CLI_SUBDIR}/${OPEN_API_GENERATOR_CLI_SCRIPT}".to_owned(),
                open_api_generator_cli_script: OPEN_API_GENERATOR_CLI_SCRIPT.to_owned(),
                open_api_generator_config_file: OPEN_API_GENERATOR_CONFIG_FILE.to_owned(),
                open_api_generator_config_path: "${OPEN_API_GENERATOR_CONFIG_FILE}".to_owned(),
                spec_file_download_dir: "${OUTPUT_TEMP_DIR}/specdl".to_owned(),
                spec_file_name,
                spec_file_path: "${SPEC_FILE_NAME}".to_owned(),
                spec_file_url,
            },
        )
    }
}

/// The mapping with `named.task` under `named.name`.
pub open spec fn with_task(
    tasks: Map<Seq<char>, TaskView>,
    named: NamedTaskView,
) -> Map<Seq<char>, TaskView> {
    tasks.insert(named.name, named.task)
}

/// The task catalog: the ten tasks every pipeline has, with `generate_all`
/// as the task that runs the whole generation, and the download of the
/// specification from its known URL where `with_default_download` holds.
pub open spec fn catalog(generate_all: NamedTaskView, with_default_download: bool) -> Map<
    Seq<char>,
    TaskView,
> {
    let fixed = with_task(
        with_task(
            with_task(
                with_task(
                    with_task(
                        with_task(
                            with_task(
                                with_task(
                                    with_task(
                                        with_task(Map::empty(), cargo_fix_task()),
                                        crate_scaffold_task(),
                                    ),
                                    generate_all,
                                ),
                                lib_code_generator_task(false),
                            ),
                            lib_code_generator_task(true),
                        ),
                        openapi_cli_check_task(),
                    ),
                    openapi_cli_install_task(),
                ),
                output_dir_clean_task(),
            ),
            output_dir_create_task(),
        ),
        spec_download_task(),
    );
    if with_default_download {
        with_task(fixed, spec_download_default_task())
    } else {
        fixed
    }
}

/// The names of the catalog's tasks.
pub open spec fn catalog_names(with_default_download: bool) -> Set<Seq<char>> {
    let fixed = set![
        CARGO_FIX_GENERATED@,
        CRATE_SCAFFOLD@,
        GENERATE_ALL@,
        LIB_CODE_GENERATE@,
        LIB_CODE_GENERATE_DRY_RUN@,
        OPENAPI_CLI_CHECK@,
        OPENAPI_CLI_BASH_INSTALL@,
        OUTPUT_DIR_CLEAN@,
        OUTPUT_DIR_CREATE@,
        SPEC_DOWNLOAD@,
    ];
    if with_default_download {
        fixed.insert(SPEC_DOWNLOAD_DEFAULT@)
    } else {
        fixed
    }
}

/// The pipeline configuration: what is written to the document that the task
/// runner reads.
#[derive(Debug)]
pub struct MakefileSpec {
    /// The environment section.
    pub env: MakefileEnv,
    /// The tasks section.
    pub tasks: TaskMap,
}

impl MakefileSpec {
    /// Puts the catalog together around the given task for the whole
    /// generation.
    pub fn assemble(env: MakefileEnv, generate_all: NamedTask, with_default_download: bool) -> (spec:
        MakefileSpec)
        ensures
            spec.env == env,
            spec.tasks@ == catalog(generate_all@, with_default_download),
    {
        let mut tasks = TaskMap::new();
        tasks.insert(NamedTask::make_cargo_fix_task());
        tasks.insert(NamedTask::make_crate_scaffold_task());
        tasks.insert(generate_all);
        tasks.insert(NamedTask::make_lib_code_generator_task(None));
        tasks.insert(NamedTask::make_lib_code_generator_task(Some(true)));
        tasks.insert(NamedTask::make_openapi_cli_check_task());
        tasks.insert(NamedTask::make_openapi_cli_install_task());
        tasks.insert(NamedTask::make_output_dir_clean_task());
        tasks.insert(NamedTask::make_output_dir_create_task());
        tasks.insert(NamedTask::make_spec_download_task());
        if with_default_download {
            tasks.insert(NamedTask::make_spec_download_default_task());
        }
        MakefileSpec { env, tasks }
    }

    /// Reads the pipeline configuration back from the entries of its two
    /// sections. The environment needs an entry for each of its names; among
    /// tasks of one name the last counts.
    pub fn from_entries(env: &Vec<(String, String)>, tasks: Vec<NamedTask>) -> (r: Result<
        MakefileSpec,
        MakefileGenerationError,
    >)
        ensures
            match r {
                Ok(spec) => {
                    &&& missing_name(pair_views(env@)) is None
                    &&& spec.env@ == env_of_entries(pair_views(env@))
                    &&& spec.tasks@ == tasks_of(named_views(tasks@))
                },
                Err(e) => {
                    &&& missing_name(pair_views(env@)) matches Some(name)
                    &&& e matches MakefileGenerationError::EnvMissingKey(key)
                    &&& key@ == name
                },
            },
    {
        match MakefileEnv::from_entries(env) {
            Ok(env) => Ok(MakefileSpec { env, tasks: TaskMap::from_entries(tasks) }),
            Err(e) => Err(e),
        }
    }

    /// The pipeline configuration for this command line.
    ///
    /// It fails where no name for the specification file was resolved, and
    /// otherwise where the configuration embedded in the generation task
    /// cannot be written as YAML. The download of the specification from its
    /// known URL is part of the catalog exactly when the command line gave
    /// that URL, and every dependency of a task is a task of the catalog.
    pub fn try_from(cli: &Cli) -> (r: Result<MakefileSpec, MakefileGenerationError>)
        ensures
            match r {
                Ok(spec) => {
                    &&& cli.spec_file_name_opt matches Some(name)
                    &&& spec.env@ == makefile_env(*cli, name@)
                    &&& yaml_document(
                        configurator_entries(
                            cli.lib_name@,
                            cli.this_crate_name@,
                            cli.this_crate_ver@,
                        ),
                    ) matches Some(yaml)
                    &&& spec.tasks@ == catalog(
                        generate_all_task(cli.this_crate_name@, cli.this_crate_ver@, yaml),
                        cli.inner_cli.api_spec_url_opt is Some,
                    )
                    &&& spec.tasks@.dom() == catalog_names(cli.inner_cli.api_spec_url_opt is Some)
                    &&& spec.tasks@.dom().contains(SPEC_DOWNLOAD_DEFAULT@)
                        <==> cli.inner_cli.api_spec_url_opt is Some
                    &&& spec.tasks@.dom().len() == if cli.inner_cli.api_spec_url_opt is Some {
                        11nat
                    } else {
                        10nat
                    }
                    &&& dependencies_resolved(spec.tasks@)
                },
                Err(e) => if cli.spec_file_name_opt is None {
                    e == MakefileGenerationError::ParameterError(
                        ParameterError::SpecFileNameMissing,
                    )
                } else {
                    e is SerdeYAMLError && yaml_document(
                        configurator_entries(
                            cli.lib_name@,
                            cli.this_crate_name@,
                            cli.this_crate_ver@,
                        ),
                    ) is None
                },
            },
    {
        let env = match MakefileEnv::try_from(cli) {
            Ok(env) => env,
            Err(e) => {
                return Err(e);
            },
        };
        let generate_all = match NamedTask::make_generate_all_task(cli) {
            Ok(named) => named,
            Err(e) => {
                return Err(e);
            },
        };
        let with_default_download = cli.inner_cli.api_spec_url_opt.is_some();
        proof {
            lemma_catalog_names(generate_all@, with_default_download);
            let yaml = yaml_document(
                configurator_entries(cli.lib_name@, cli.this_crate_name@, cli.this_crate_ver@),
            )->0;
            lemma_catalog_dependencies_resolved(
                cli.this_crate_name@,
                cli.this_crate_ver@,
                yaml,
                with_default_download,
            );
        }
        Ok(MakefileSpec::assemble(env, generate_all, with_default_download))
    }
}

/// Different tasks have different names.
pub proof fn lemma_task_names_differ(a: TaskNames, b: TaskNames)
    requires
        a != b,
    ensures
        a.spec_name() != b.spec_name(),
{
    reveal_strlit("cargo-fix-generated");
    reveal_strlit("crate-scaffold");
    reveal_strlit("generate-all");
    reveal_strlit("lib-code-generate");
    reveal_strlit("lib-code-generate-dry-run");
    reveal_strlit("openapi-cli-check");
    reveal_strlit("openapi-cli-bash-install");
    reveal_strlit("output-dir-clean");
    reveal_strlit("output-dir-create");
    reveal_strlit("spec-download");
    reveal_strlit("spec-download-default");
    assert(LIB_CODE_GENERATE@[0] != OPENAPI_CLI_CHECK@[0]);
    assert(LIB_CODE_GENERATE@[0] != OUTPUT_DIR_CREATE@[0]);
    assert(OPENAPI_CLI_CHECK@[1] != OUTPUT_DIR_CREATE@[1]);
    if a.spec_name() == b.spec_name() {
        assert(a.spec_name().len() == b.spec_name().len());
    }
}

/// A catalog whose generation task goes by its proper name holds exactly the
/// ten fixed names, and the name of the default download if and only if it
/// was built with that download.
pub proof fn lemma_catalog_names(generate_all: NamedTaskView, with_default_download: bool)
    requires
        generate_all.name == GENERATE_ALL@,
    ensures
        catalog(generate_all, with_default_download).dom() == catalog_names(with_default_download),
        catalog_names(with_default_download).contains(SPEC_DOWNLOAD_DEFAULT@)
            <==> with_default_download,
        catalog_names(with_default_download).finite(),
        catalog_names(with_default_download).len() == if with_default_download {
            11nat
        } else {
            10nat
        },
{
    assert(catalog(generate_all, with_default_download).dom() =~= catalog_names(
        with_default_download,
    ));
    lemma_catalog_names_count(with_default_download);
}

/// The catalog has ten names, eleven with the default download, and the name
/// of the default download is none of the ten.
proof fn lemma_catalog_names_count(with_default_download: bool)
    ensures
        catalog_names(with_default_download).contains(SPEC_DOWNLOAD_DEFAULT@)
            <==> with_default_download,
        catalog_names(with_default_download).finite(),
        catalog_names(with_default_download).len() == if with_default_download {
            11nat
        } else {
            10nat
        },
{
    let names = seq![
        TaskNames::CargoFixGenerated,
        TaskNames::CrateScaffold,
        TaskNames::GenerateAll,
        TaskNames::LibCodeGenerate,
        TaskNames::LibCodeGenerateDryRun,
        TaskNames::OpenapiCliCheck,
        TaskNames::OpenapiCliBashInstall,
        TaskNames::OutputDirClean,
        TaskNames::OutputDirCreate,
        TaskNames::SpecDownload,
        TaskNames::SpecDownloadDefault,
    ];
    let all = names.map_values(|t: TaskNames| t.spec_name());
    assert forall|i: int, j: int| 0 <= i < all.len() && 0 <= j < all.len() && i != j implies all[i]
        != all[j] by {
        lemma_task_names_differ(names[i], names[j]);
    }
    let kept = if with_default_download {
        all
    } else {
        all.drop_last()
    };
    assert(kept.no_duplicates());
    kept.unique_seq_to_set();
    assert forall|name: Seq<char>| kept.to_set().contains(name) <==> catalog_names(
        with_default_download,
    ).contains(name) by {
        if catalog_names(with_default_download).contains(name) {
            if name == CARGO_FIX_GENERATED@ {
                assert(kept[0] == name);
            } else if name == CRATE_SCAFFOLD@ {
                assert(kept[1] == name);
            } else if name == GENERATE_ALL@ {
                assert(kept[2] == name);
            } else if name == LIB_CODE_GENERATE@ {
                assert(kept[3] == name);
            } else if name == LIB_CODE_GENERATE_DRY_RUN@ {
                assert(kept[4] == name);
            } else if name == OPENAPI_CLI_CHECK@ {
                assert(kept[5] == name);
            } else if name == OPENAPI_CLI_BASH_INSTALL@ {
                assert(kept[6] == name);
            } else if name == OUTPUT_DIR_CLEAN@ {
                assert(kept[7] == name);
            } else if name == OUTPUT_DIR_CREATE@ {
                assert(kept[8] == name);
            } else if name == SPEC_DOWNLOAD@ {
                assert(kept[9] == name);
            } else {
                assert(kept[10] == name);
            }
        }
    }
    assert(kept.to_set() =~= catalog_names(with_default_download));
    if !with_default_download {
        assert forall|i: int| 0 <= i < 10 implies all[i] != SPEC_DOWNLOAD_DEFAULT@ by {
            assert(all[10] == SPEC_DOWNLOAD_DEFAULT@);
        }
    }
}

/// No task of the catalog both runs a command and carries a script.
pub proof fn lemma_catalog_tasks_run_one_thing(
    this_crate_name: Seq<char>,
    this_crate_ver: Seq<char>,
    configurator_yaml: Seq<char>,
    with_default_download: bool,
    name: Seq<char>,
)
    requires
        catalog(
            generate_all_task(this_crate_name, this_crate_ver, configurator_yaml),
            with_default_download,
        ).dom().contains(name),
    ensures
        ({
            let task = catalog(
                generate_all_task(this_crate_name, this_crate_ver, configurator_yaml),
                with_default_download,
            )[name];
            task.command is None || task.script is None
        }),
{
}

/// In the catalog built around the generation task, every name that a task
/// lists as a dependency is the name of a task of the catalog.
pub proof fn lemma_catalog_dependencies_resolved(
    this_crate_name: Seq<char>,
    this_crate_ver: Seq<char>,
    configurator_yaml: Seq<char>,
    with_default_download: bool,
)
    ensures
        dependencies_resolved(
            catalog(
                generate_all_task(this_crate_name, this_crate_ver, configurator_yaml),
                with_default_download,
            ),
        ),
{
    let generate_all = generate_all_task(this_crate_name, this_crate_ver, configurator_yaml);
    let tasks = catalog(generate_all, with_default_download);
    assert forall|name: Seq<char>, i: int|
        #![trigger tasks[name].dependency_names()[i]]
        tasks.dom().contains(name) && 0 <= i < tasks[name].dependency_names().len()
            implies tasks.dom().contains(tasks[name].dependency_names()[i]) by {
        let task = tasks[name];
        assert(task == cargo_fix_task().task || task == crate_scaffold_task().task || task
            == generate_all.task || task == lib_code_generator_task(false).task || task
            == lib_code_generator_task(true).task || task == openapi_cli_check_task().task || task
            == openapi_cli_install_task().task || task == output_dir_clean_task().task || task
            == output_dir_create_task().task || task == spec_download_task().task || task
            == spec_download_default_task().task);
    }
}

} // verus!
