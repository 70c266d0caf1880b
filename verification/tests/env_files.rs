use dungeon::cli;
use dungeon::config;
use dungeon::container::engine::{self, HostContext};
use dungeon::container::persist::PersistMode;
use dungeon::error::AppError;

struct TestInput<'a> {
    toml: &'a str,
    args: &'a [&'a str],
    env: &'a [(&'a str, &'a str)],
    cwd_name: &'a str,
    cwd_entries: &'a [&'a str],
}

/// The compiled-in defaults of a build that ships the two standard cache
/// volume mounts.
fn defaults_with_cache_volumes() -> config::Config {
    let mut settings = config::Settings::empty();
    settings.cache = Some(vec![
        "/home/dungeon/.cache".to_string(),
        "/home/dungeon/.npm".to_string(),
    ]);
    config::Config { settings, always_on_groups: None, groups: Vec::new() }
}

fn host_for(input: &TestInput<'_>) -> HostContext {
    let cwd = format!("/testroot/{}", input.cwd_name);
    let mut entries: Vec<(String, String)> = Vec::new();
    for e in input.cwd_entries {
        let name = e.trim_end_matches('/');
        entries.push((name.to_string(), format!("{}/{}", cwd, name)));
    }
    HostContext {
        cwd,
        home: "/testroot/home".to_string(),
        env: input.env.iter().map(|(k, v)| (k.to_string(), v.to_string())).collect(),
        uid: "1000".to_string(),
        gid: "1000".to_string(),
        entries,
    }
}

fn file_config(toml_text: &str) -> Result<config::Config, AppError> {
    if toml_text.trim().is_empty() {
        Ok(config::Config::default())
    } else {
        config::parse_config(toml_text)
    }
}

fn run_case(
    input: &TestInput<'_>,
    defaults: fn() -> config::Config,
) -> Result<String, AppError> {
    let env_pairs: Vec<(String, String)> = input
        .env
        .iter()
        .map(|(k, v)| (k.to_string(), v.to_string()))
        .collect();
    let argv: Vec<String> = input.args.iter().map(|s| s.to_string()).collect();
    let parsed = cli::parse_args_with_sources(
        argv,
        defaults(),
        file_config(input.toml)?,
        config::load_from_env(&env_pairs)?,
    )?;
    let host = host_for(input);
    let resolved = config::resolve(
        &parsed,
        defaults(),
        file_config(input.toml)?,
        config::load_from_env(&env_pairs)?,
        &host,
    )?;
    let keep = resolved.persist_mode == PersistMode::Create;
    let name_opt = if keep { Some(&resolved.container_name) } else { None };
    let spec = engine::build_container_command(
        &resolved.settings,
        &resolved.paths,
        keep,
        name_opt,
        parsed.skip_cwd,
        &host,
    )?;
    let command = format!("{} {}", spec.program, spec.args.join(" "));
    Ok(command
        .replace(host.cwd.as_str(), "<CWD>")
        .replace(host.home.as_str(), "<HOME>")
        .replace("1000:1000", "<UID>:<GID>"))
}

fn assert_command(input: TestInput<'_>, defaults: fn() -> config::Config, expected: &str) {
    let command = run_case(&input, defaults).expect("build command");
    assert_eq!(command, expected);
}

#[test]
fn includes_env_and_env_files() {
    let input = TestInput {
        toml: "\nrun = \"echo ok\"\nenv_files = [\".env\", \"config.env\"]\n",
        args: &[],
        env: &[("DUNGEON_ENVS", "FOO=bar")],
        cwd_name: "env-project",
        cwd_entries: &[],
    };

    let expected = "podman run -it --userns=keep-id -w /home/dungeon/env-project --rm --env FOO=bar --env-file .env --env-file config.env -v dungeon-cache:/home/dungeon/.cache -v dungeon-cache:/home/dungeon/.npm -v <CWD>:/home/dungeon/env-project localhost/dungeon bash -ic echo ok";

    assert_command(input, defaults_with_cache_volumes, expected);
}
