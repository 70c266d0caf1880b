use dungeon::cli;
use dungeon::config;
use dungeon::container::engine::{self, HostContext};
use dungeon::container::persist::PersistMode;
use dungeon::error::AppError;

struct TestInput<'a> {
    toml: &'a str,
    args: &'a [&'a str],
    env: &'a [(&'a str, &'a str)],
    cwd_name: &'a str,
    cwd_entries: &'a [&'a str],
}

fn empty_defaults() -> config::Config {
    config::Config::default()
}

fn host_for(input: &TestInput<'_>) -> HostContext {
    let cwd = format!("/testroot/{}", input.cwd_name);
    let mut entries: Vec<(String, String)> = Vec::new();
    for e in input.cwd_entries {
        let name = e.trim_end_matches('/');
        entries.push((name.to_string(), format!("{}/{}", cwd, name)));
    }
    HostContext {
        cwd,
        home: "/testroot/home".to_string(),
        env: input.env.iter().map(|(k, v)| (k.to_string(), v.to_string())).collect(),
        uid: "1000".to_string(),
        gid: "1000".to_string(),
        entries,
    }
}

fn file_config(toml_text: &str) -> Result<config::Config, AppError> {
    if toml_text.trim().is_empty() {
        Ok(config::Config::default())
    } else {
        config::parse_config(toml_text)
    }
}

fn run_case(
    input: &TestInput<'_>,
    defaults: fn() -> config::Config,
) -> Result<String, AppError> {
    let env_pairs: Vec<(String, String)> = input
        .env
        .iter()
        .map(|(k, v)| (k.to_string(), v.to_string()))
        .collect();
    let argv: Vec<String> = input.args.iter().map(|s| s.to_string()).collect();
    let parsed = cli::parse_args_with_sources(
        argv,
        defaults(),
        file_config(input.toml)?,
        config::load_from_env(&env_pairs)?,
    )?;
    let host = host_for(input);
    let resolved = config::resolve(
        &parsed,
        defaults(),
        file_config(input.toml)?,
        config::load_from_env(&env_pairs)?,
        &host,
    )?;
    let keep = resolved.persist_mode == PersistMode::Create;
    let name_opt = if keep { Some(&resolved.container_name) } else { None };
    let spec = engine::build_container_command(
        &resolved.settings,
        &resolved.paths,
        keep,
        name_opt,
        parsed.skip_cwd,
        &host,
    )?;
    let command = format!("{} {}", spec.program, spec.args.join(" "));
    Ok(command
        .replace(host.cwd.as_str(), "<CWD>")
        .replace(host.home.as_str(), "<HOME>")
        .replace("1000:1000", "<UID>:<GID>"))
}

fn assert_command(input: TestInput<'_>, defaults: fn() -> config::Config, expected: &str) {
    let command = run_case(&input, defaults).expect("build command");
    assert_eq!(command, expected);
}

#[test]
fn merges_mounts_ports_and_cache() {
    let input = TestInput {
        toml: "\nports = [\"127.0.0.1:3000:3000\"]\ncaches = [\"/var/cache/pacman/pkg:ro\"]\nmounts = [\"~/data:/data:ro\"]\n",
        args: &[
            "run",
            "--port",
            "127.0.0.1:8080:8080",
            "--cache",
            "deps:rw",
            "--mount",
            "$HOME/.codex:/home/dungeon/.codex:rw",
        ],
        env: &[],
        cwd_name: "mounts-root",
        cwd_entries: &[],
    };

    let expected = "podman run -it --userns=keep-id -w /home/dungeon/mounts-root --rm -p 127.0.0.1:3000:3000 -p 127.0.0.1:8080:8080 -v <HOME>/data:/data:ro -v <HOME>/.codex:/home/dungeon/.codex:rw -v dungeon-cache:/var/cache/pacman/pkg:ro -v dungeon-cache:deps:rw -v <CWD>:/home/dungeon/mounts-root localhost/dungeon bash";

    assert_command(input, empty_defaults, expected);
}
