use openapi_scaffold::cli::{Cli, InnerCli, ParameterError};
use openapi_scaffold::makefiles::{lookup_entry, MakefileEnv, MakefileGenerationError, MakefileSpec};
use openapi_scaffold::tasks::{NamedTask, Task};

fn sample_cli() -> Cli {
    Cli {
        inner_cli: InnerCli {
            site_or_api_name: "petstore".to_string(),
            api_url: "https://petstore.example.com/v1".to_string(),
            api_spec_url_opt: None,
            local_api_spec_filepath_opt: Some("specs/petstore.yaml".to_string()),
            command: None,
        },
        lib_name: "petstore_client".to_string(),
        spec_file_name_opt: Some("petstore.yaml".to_string()),
        output_project_dir: "/tmp/petstore_client".to_string(),
        this_crate_name: "apigen".to_string(),
        this_crate_ver: "0.3.1".to_string(),
    }
}

fn sorted_names(spec: &MakefileSpec) -> Vec<String> {
    let mut names: Vec<String> = spec.tasks.entries().iter().map(|e| e.name.clone()).collect();
    names.sort();
    names
}

const FIXED_NAMES: [&str; 10] = [
    "cargo-fix-generated",
    "crate-scaffold",
    "generate-all",
    "lib-code-generate",
    "lib-code-generate-dry-run",
    "openapi-cli-bash-install",
    "openapi-cli-check",
    "output-dir-clean",
    "output-dir-create",
    "spec-download",
];

#[test]
fn env_holds_every_entry() {
    let env = MakefileEnv::try_from(&sample_cli()).unwrap();
    assert_eq!(env.api_url, "https://petstore.example.com/v1");
    assert_eq!(env.api_name, "petstore");
    assert_eq!(env.lib_name, "petstore_client");
    assert_eq!(env.output_dir, ".");
    assert_eq!(env.output_temp_dir, "./temp");
    assert_eq!(
        env.open_api_generator_cli_url,
        "https://raw.githubusercontent.com/OpenAPITools/openapi-generator/master/bin/utils/openapi-generator-cli.sh"
    );
    assert_eq!(env.open_api_generator_cli_subdir, "bin/openapitools");
    assert_eq!(
        env.open_api_generator_cli_path,
        "${OPEN_API_GENERATOR_CLI_SUBDIR}/${OPEN_API_GENERATOR_CLI_SCRIPT}"
    );
    assert_eq!(env.open_api_generator_cli_script, "openapi-generator-cli");
    assert_eq!(env.open_api_generator_config_file, "generator_config.yaml");
    assert_eq!(env.open_api_generator_config_path, "${OPEN_API_GENERATOR_CONFIG_FILE}");
    assert_eq!(env.spec_file_download_dir, "${OUTPUT_TEMP_DIR}/specdl");
    assert_eq!(env.spec_file_name, "petstore.yaml");
    assert_eq!(env.spec_file_path, "${SPEC_FILE_NAME}");
    assert_eq!(env.spec_file_url, "");
}

#[test]
fn env_fails_without_a_spec_file_name() {
    let mut cli = sample_cli();
    cli.spec_file_name_opt = None;
    assert!(matches!(
        MakefileEnv::try_from(&cli),
        Err(MakefileGenerationError::ParameterError(ParameterError::SpecFileNameMissing))
    ));
}

#[test]
fn env_entries_go_by_upper_case_names() {
    let env = MakefileEnv::try_from(&sample_cli()).unwrap();
    let entries = env.entries();
    let names: Vec<&str> = entries.iter().map(|(name, _)| name.as_str()).collect();
    assert_eq!(
        names,
        vec![
            "API_URL",
            "API_NAME",
            "LIB_NAME",
            "OUTPUT_DIR",
            "OUTPUT_TEMP_DIR",
            "OPEN_API_GENERATOR_CLI_URL",
            "OPEN_API_GENERATOR_CLI_SUBDIR",
            "OPEN_API_GENERATOR_CLI_PATH",
            "OPEN_API_GENERATOR_CLI_SCRIPT",
            "OPEN_API_GENERATOR_CONFIG_FILE",
            "OPEN_API_GENERATOR_CONFIG_PATH",
            "SPEC_FILE_DOWNLOAD_DIR",
            "SPEC_FILE_NAME",
            "SPEC_FILE_PATH",
            "SPEC_FILE_URL",
        ]
    );
    assert_eq!(entries[2].1, "petstore_client");
    assert_eq!(entries[4].1, "./temp");
    assert_eq!(entries[12].1, "petstore.yaml");
    assert_eq!(entries[14].1, "");
}

#[test]
fn env_lookup_finds_entries_by_name() {
    let env = MakefileEnv::try_from(&sample_cli()).unwrap();
    assert_eq!(env.get("LIB_NAME").unwrap(), "petstore_client");
    assert_eq!(env.get("SPEC_FILE_PATH").unwrap(), "${SPEC_FILE_NAME}");
    assert_eq!(env.get("API_URL").unwrap(), "https://petstore.example.com/v1");
}

#[test]
fn env_lookup_reports_the_missing_key() {
    let env = MakefileEnv::try_from(&sample_cli()).unwrap();
    match env.get("lib_name") {
        Err(MakefileGenerationError::EnvMissingKey(key)) => assert_eq!(key, "lib_name"),
        other => panic!("unexpected {other:?}"),
    }
}

#[test]
fn catalog_without_spec_url_has_the_ten_fixed_tasks() {
    let spec = MakefileSpec::try_from(&sample_cli()).unwrap();
    assert_eq!(sorted_names(&spec), FIXED_NAMES);
    assert_eq!(spec.tasks.len(), 10);
    assert!(!spec.tasks.contains_key("spec-download-default"));
    assert_eq!(spec.env.spec_file_url, "");
}

#[test]
fn catalog_with_spec_url_adds_the_default_download() {
    let mut cli = sample_cli();
    cli.inner_cli.api_spec_url_opt = Some("https://example.com/spec.json".to_string());
    let spec = MakefileSpec::try_from(&cli).unwrap();
    assert_eq!(spec.env.spec_file_url, "https://example.com/spec.json");
    assert_eq!(spec.tasks.len(), 11);
    let mut expected: Vec<&str> = FIXED_NAMES.to_vec();
    expected.push("spec-download-default");
    assert_eq!(sorted_names(&spec), expected);
    let task = spec.tasks.get("spec-download-default").unwrap();
    assert_eq!(task.command.as_deref(), Some("wget"));
    assert_eq!(
        task.args,
        Some(vec!["${SPEC_FILE_URL}".to_string(), "-O".to_string(), "${SPEC_FILE_PATH}".to_string()])
    );
}

#[test]
fn catalog_holds_each_task_under_its_name() {
    let spec = MakefileSpec::try_from(&sample_cli()).unwrap();
    for entry in spec.tasks.entries() {
        let held = spec.tasks.get(&entry.name).unwrap();
        assert_eq!(held.description, entry.task.description);
    }
    assert_eq!(spec.tasks.get("cargo-fix-generated").unwrap().command.as_deref(), Some("cargo"));
    assert_eq!(spec.tasks.get("output-dir-create").unwrap().command.as_deref(), Some("mkdir"));
    assert_eq!(
        spec.tasks.get("lib-code-generate-dry-run").unwrap().args.as_ref().unwrap().last().unwrap(),
        "--dry-run"
    );
    assert_eq!(
        spec.tasks.get("generate-all").unwrap().script,
        NamedTask::make_generate_all_task(&sample_cli()).unwrap().task.script
    );
}

#[test]
fn catalog_dependencies_name_catalog_tasks() {
    for url in [None, Some("https://example.com/spec.json".to_string())] {
        let mut cli = sample_cli();
        cli.inner_cli.api_spec_url_opt = url;
        let spec = MakefileSpec::try_from(&cli).unwrap();
        assert!(spec.tasks.dependencies_resolved());
        for entry in spec.tasks.entries() {
            for name in entry.task.dependencies.iter().flatten() {
                assert!(spec.tasks.contains_key(name), "{} -> {}", entry.name, name);
            }
        }
    }
}

#[test]
fn spec_fails_without_a_spec_file_name() {
    let mut cli = sample_cli();
    cli.spec_file_name_opt = None;
    assert!(matches!(
        MakefileSpec::try_from(&cli),
        Err(MakefileGenerationError::ParameterError(ParameterError::SpecFileNameMissing))
    ));
}

#[test]
fn assemble_puts_the_given_generation_task_in() {
    let env = MakefileEnv::try_from(&sample_cli()).unwrap();
    let generate_all = NamedTask {
        name: "generate-all".to_string(),
        task: Task { command: Some("true".to_string()), ..Task::default() },
    };
    let spec = MakefileSpec::assemble(env, generate_all, true);
    assert_eq!(spec.tasks.len(), 11);
    assert_eq!(spec.tasks.get("generate-all").unwrap().command.as_deref(), Some("true"));
    assert_eq!(spec.env.lib_name, "petstore_client");
}

#[test]
fn assemble_lets_a_later_task_replace_an_earlier_one() {
    let env = MakefileEnv::try_from(&sample_cli()).unwrap();
    let mut shadow = NamedTask::make_output_dir_clean_task();
    shadow.name = "cargo-fix-generated".to_string();
    let spec = MakefileSpec::assemble(env, shadow, false);
    assert_eq!(spec.tasks.len(), 9);
    assert!(!spec.tasks.contains_key("generate-all"));
    assert_eq!(spec.tasks.get("cargo-fix-generated").unwrap().command.as_deref(), Some("rm"));
}

fn pairs(items: &[(&str, &str)]) -> Vec<(String, String)> {
    items.iter().map(|(k, v)| (k.to_string(), v.to_string())).collect()
}

#[test]
fn lookup_entry_takes_the_first_of_a_name() {
    let entries = pairs(&[("A", "1"), ("B", "2"), ("A", "3")]);
    assert_eq!(lookup_entry(&entries, "A"), Some("1".to_string()));
    assert_eq!(lookup_entry(&entries, "B"), Some("2".to_string()));
    assert_eq!(lookup_entry(&entries, "C"), None);
    assert_eq!(lookup_entry(&Vec::new(), "A"), None);
}

#[test]
fn env_reads_back_from_its_entries() {
    let env = MakefileEnv::try_from(&sample_cli()).unwrap();
    let mut entries = env.entries();
    entries.reverse();
    let read = MakefileEnv::from_entries(&entries).unwrap();
    assert_eq!(read.entries(), env.entries());
}

#[test]
fn env_read_back_reports_the_first_missing_name() {
    let env = MakefileEnv::try_from(&sample_cli()).unwrap();
    let mut entries = env.entries();
    entries.retain(|(name, _)| name != "OUTPUT_DIR" && name != "SPEC_FILE_URL");
    match MakefileEnv::from_entries(&entries) {
        Err(MakefileGenerationError::EnvMissingKey(key)) => assert_eq!(key, "OUTPUT_DIR"),
        other => panic!("unexpected {other:?}"),
    }
    match MakefileEnv::from_entries(&Vec::new()) {
        Err(MakefileGenerationError::EnvMissingKey(key)) => assert_eq!(key, "API_URL"),
        other => panic!("unexpected {other:?}"),
    }
}

#[test]
fn spec_reads_back_from_its_entries() {
    let spec = MakefileSpec::try_from(&sample_cli()).unwrap();
    let read =
        MakefileSpec::from_entries(&spec.env.entries(), spec.tasks.entries().clone()).unwrap();
    assert_eq!(read.env.entries(), spec.env.entries());
    assert_eq!(sorted_names(&read), sorted_names(&spec));
    for entry in spec.tasks.entries() {
        let held = read.tasks.get(&entry.name).unwrap();
        assert_eq!(held.description, entry.task.description);
        assert_eq!(held.script, entry.task.script);
    }
    assert!(matches!(
        MakefileSpec::from_entries(&Vec::new(), Vec::new()),
        Err(MakefileGenerationError::EnvMissingKey(_))
    ));
}

fn text_value(text: &str) -> toml::Value {
    toml::Value::String(text.to_string())
}

fn list_value(items: &[String]) -> toml::Value {
    toml::Value::Array(items.iter().map(|item| text_value(item)).collect())
}

fn task_table(task: &Task) -> toml::Table {
    let mut table = toml::Table::new();
    if let Some(text) = &task.description {
        table.insert("description".to_string(), text_value(text));
    }
    if let Some(text) = &task.command {
        table.insert("command".to_string(), text_value(text));
    }
    if let Some(items) = &task.args {
        table.insert("args".to_string(), list_value(items));
    }
    if let Some(items) = &task.dependencies {
        table.insert("dependencies".to_string(), list_value(items));
    }
    if let Some(items) = &task.condition_script {
        table.insert("condition_script".to_string(), list_value(items));
    }
    if let Some(text) = &task.script_runner {
        table.insert("script_runner".to_string(), text_value(text));
    }
    if let Some(text) = &task.script {
        table.insert("script".to_string(), text_value(text));
    }
    table
}

fn read_text(table: &toml::Table, key: &str) -> Option<String> {
    table.get(key).map(|value| value.as_str().unwrap().to_string())
}

fn read_list(table: &toml::Table, key: &str) -> Option<Vec<String>> {
    table.get(key).map(|value| {
        value.as_array().unwrap().iter().map(|item| item.as_str().unwrap().to_string()).collect()
    })
}

fn read_task(table: &toml::Table) -> Task {
    Task {
        description: read_text(table, "description"),
        command: read_text(table, "command"),
        args: read_list(table, "args"),
        dependencies: read_list(table, "dependencies"),
        condition_script: read_list(table, "condition_script"),
        script_runner: read_text(table, "script_runner"),
        script: read_text(table, "script"),
    }
}

#[test]
fn document_round_trip_keeps_env_and_tasks() {
    let mut cli = sample_cli();
    cli.inner_cli.api_spec_url_opt = Some("https://example.com/spec.json".to_string());
    let spec = MakefileSpec::try_from(&cli).unwrap();

    let mut env = toml::Table::new();
    for (name, value) in spec.env.entries() {
        assert!(env.insert(name, text_value(&value)).is_none());
    }
    let mut tasks = toml::Table::new();
    for entry in spec.tasks.entries() {
        assert!(tasks.insert(entry.name.clone(), toml::Value::Table(task_table(&entry.task))).is_none());
    }
    let mut document = toml::Table::new();
    document.insert("env".to_string(), toml::Value::Table(env));
    document.insert("tasks".to_string(), toml::Value::Table(tasks));
    let written = toml::to_string_pretty(&document).unwrap();

    let parsed: toml::Table = toml::from_str(&written).unwrap();
    let env_entries: Vec<(String, String)> = parsed["env"]
        .as_table()
        .unwrap()
        .iter()
        .map(|(name, value)| (name.clone(), value.as_str().unwrap().to_string()))
        .collect();
    let task_entries: Vec<NamedTask> = parsed["tasks"]
        .as_table()
        .unwrap()
        .iter()
        .map(|(name, value)| NamedTask {
            name: name.clone(),
            task: read_task(value.as_table().unwrap()),
        })
        .collect();
    assert_eq!(env_entries.len(), 15);
    assert_eq!(task_entries.len(), 11);
    let read = MakefileSpec::from_entries(&env_entries, task_entries).unwrap();

    assert_eq!(read.env.entries(), spec.env.entries());
    assert_eq!(read.tasks.len(), spec.tasks.len());
    for entry in spec.tasks.entries() {
        let held = read.tasks.get(&entry.name).unwrap();
        assert_eq!(held.description, entry.task.description);
        assert_eq!(held.command, entry.task.command);
        assert_eq!(held.args, entry.task.args);
        assert_eq!(held.dependencies, entry.task.dependencies);
        assert_eq!(held.condition_script, entry.task.condition_script);
        assert_eq!(held.script_runner, entry.task.script_runner);
        assert_eq!(held.script, entry.task.script);
    }
}
