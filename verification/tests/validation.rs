use dungeon::cli;
use dungeon::config;
use dungeon::container::engine::{self, HostContext};
use dungeon::container::persist::PersistMode;
use dungeon::error::AppError;

struct TestInput<'a> {
    toml: &'a str,
    args: &'a [&'a str],
    env: &'a [(&'a str, &'a str)],
    cwd_name: &'a str,
    cwd_entries: &'a [&'a str],
}

fn empty_defaults() -> config::Config {
    config::Config::default()
}

fn host_for(input: &TestInput<'_>) -> HostContext {
    let cwd = format!("/testroot/{}", input.cwd_name);
    let mut entries: Vec<(String, String)> = Vec::new();
    for e in input.cwd_entries {
        let name = e.trim_end_matches('/');
        entries.push((name.to_string(), format!("{}/{}", cwd, name)));
    }
    HostContext {
        cwd,
        home: "/testroot/home".to_string(),
        env: input.env.iter().map(|(k, v)| (k.to_string(), v.to_string())).collect(),
        uid: "1000".to_string(),
        gid: "1000".to_string(),
        entries,
    }
}

fn file_config(toml_text: &str) -> Result<config::Config, AppError> {
    if toml_text.trim().is_empty() {
        Ok(config::Config::default())
    } else {
        config::parse_config(toml_text)
    }
}

fn run_case(
    input: &TestInput<'_>,
    defaults: fn() -> config::Config,
) -> Result<String, AppError> {
    let env_pairs: Vec<(String, String)> = input
        .env
        .iter()
        .map(|(k, v)| (k.to_string(), v.to_string()))
        .collect();
    let argv: Vec<String> = input.args.iter().map(|s| s.to_string()).collect();
    let parsed = cli::parse_args_with_sources(
        argv,
        defaults(),
        file_config(input.toml)?,
        config::load_from_env(&env_pairs)?,
    )?;
    let host = host_for(input);
    let resolved = config::resolve(
        &parsed,
        defaults(),
        file_config(input.toml)?,
        config::load_from_env(&env_pairs)?,
        &host,
    )?;
    let keep = resolved.persist_mode == PersistMode::Create;
    let name_opt = if keep { Some(&resolved.container_name) } else { None };
    let spec = engine::build_container_command(
        &resolved.settings,
        &resolved.paths,
        keep,
        name_opt,
        parsed.skip_cwd,
        &host,
    )?;
    let command = format!("{} {}", spec.program, spec.args.join(" "));
    Ok(command
        .replace(host.cwd.as_str(), "<CWD>")
        .replace(host.home.as_str(), "<HOME>")
        .replace("1000:1000", "<UID>:<GID>"))
}

#[test]
fn errors_on_unknown_config_keys() {
    let input = TestInput {
        toml: "unknown = 'value'",
        args: &[],
        env: &[],
        cwd_name: "unknown-config",
        cwd_entries: &[],
    };

    let result = run_case(&input, empty_defaults);
    assert!(result.is_err());
}

#[test]
fn errors_when_skip_cwd_with_paths() {
    let input = TestInput {
        toml: "",
        args: &["--skip-cwd", "folder1"],
        env: &[],
        cwd_name: "skip-cwd-paths",
        cwd_entries: &["folder1/"],
    };

    let result = run_case(&input, empty_defaults);
    assert!(result.is_err());
}

#[test]
fn errors_on_group_name_conflict() {
    let input = TestInput {
        toml: "[env]\nrun = 'bash'\n",
        args: &[],
        env: &[],
        cwd_name: "conflicting-group",
        cwd_entries: &[],
    };

    let result = run_case(&input, empty_defaults);
    assert!(result.is_err());
}

#[test]
fn persisted_allows_group_flags_without_overrides() {
    let defaults = config::Config::default();
    let file_cfg = config::Config {
        settings: config::Settings::empty(),
        always_on_groups: None,
        groups: vec![("x11".to_string(), config::GroupConfig::default())],
    };
    let env_cfg = config::Config::default();
    let args = vec!["--persisted".to_string()];

    let parsed =
        cli::parse_args_with_sources(args, defaults, file_cfg, env_cfg).expect("parse args");

    assert_eq!(parsed.persist_mode, PersistMode::Reuse);
}

#[test]
fn persisted_allows_engine_flag() {
    let defaults = config::Config::default();
    let file_cfg = config::Config::default();
    let env_cfg = config::Config::default();
    let args = vec![
        "--persisted".to_string(),
        "--engine".to_string(),
        "docker".to_string(),
    ];

    let parsed =
        cli::parse_args_with_sources(args, defaults, file_cfg, env_cfg).expect("parse args");

    assert_eq!(parsed.persist_mode, PersistMode::Reuse);
    assert_eq!(parsed.settings.engine, Some(dungeon::Engine::Docker));
}

#[test]
fn debug_rejects_persistence_flags() {
    let defaults = config::Config::default();
    let file_cfg = config::Config::default();
    let env_cfg = config::Config::default();
    let args = vec!["--debug".to_string(), "--persist".to_string()];

    let result = cli::parse_args_with_sources(args, defaults, file_cfg, env_cfg);

    assert!(result.is_err());
}

#[test]
fn debug_rejects_reset_cache() {
    let defaults = config::Config::default();
    let file_cfg = config::Config::default();
    let env_cfg = config::Config::default();
    let args = vec!["--debug".to_string(), "--reset-cache".to_string()];

    let result = cli::parse_args_with_sources(args, defaults, file_cfg, env_cfg);

    assert!(result.is_err());
}
