use dungeon::cli;
use dungeon::config;
use dungeon::config::merge;
use dungeon::container::engine::{self, HostContext};
use dungeon::container::mounts;
use dungeon::container::persist::{self, PersistMode};
use dungeon::error::AppError;

fn host(cwd: &str) -> HostContext {
    HostContext {
        cwd: cwd.to_string(),
        home: "/testroot/home".to_string(),
        env: vec![("FOO".to_string(), "bar".to_string())],
        uid: "1000".to_string(),
        gid: "1000".to_string(),
        entries: vec![(
            "file1".to_string(),
            format!("{}/file1", cwd),
        )],
    }
}

fn settings_with_image(image: &str) -> config::Settings {
    let mut s = config::Settings::empty();
    s.image = Some(image.to_string());
    s
}

#[test]
fn persisted_name_is_content_addressed() {
    let cwd = "/testroot/alpha".to_string();
    let first = persist::persisted_container_name(&cwd, &Vec::new()).expect("name");
    let second = persist::persisted_container_name(&cwd, &Vec::new()).expect("name");
    assert_eq!(first, second);
    assert_eq!(first, "dungeon-alpha-06e55949");

    let with_path = persist::persisted_container_name(
        &cwd,
        &vec!["/testroot/alpha/file1".to_string()],
    )
    .expect("name");
    assert_eq!(with_path, "dungeon-alpha-ee7e86fc");
    assert_ne!(first, with_path);

    let other_cwd = "/testroot/beta".to_string();
    let other = persist::persisted_container_name(&other_cwd, &Vec::new()).expect("name");
    assert_eq!(other, "dungeon-beta-425c4728");
    assert_ne!(first, other);
}

#[test]
fn discard_is_idempotent_on_absent_names() {
    let name = "dungeon-alpha-06e55949".to_string();
    assert!(persist::ensure_container_exists(PersistMode::Discard, &name, false).is_ok());
    assert!(persist::ensure_container_exists(PersistMode::Discard, &name, true).is_ok());
    let spec = persist::discard_container(&name, dungeon::Engine::Podman);
    assert_eq!(
        format!("{} {}", spec.program, spec.args.join(" ")),
        "podman rm -f dungeon-alpha-06e55949"
    );
}

#[test]
fn create_requires_absent_container() {
    let name = "dungeon-alpha-06e55949".to_string();
    assert!(persist::ensure_container_exists(PersistMode::Create, &name, false).is_ok());
    let err = persist::ensure_container_exists(PersistMode::Create, &name, true);
    match err {
        Err(AppError::Message(m)) => {
            assert_eq!(
                m,
                "ERROR: container \"dungeon-alpha-06e55949\" already exists, use --persisted to connect"
            );
        },
        _ => panic!("expected the already-exists error"),
    }
}

#[test]
fn reuse_requires_existing_container() {
    let name = "dungeon-alpha-06e55949".to_string();
    assert!(persist::ensure_container_exists(PersistMode::Reuse, &name, true).is_ok());
    let err = persist::ensure_container_exists(PersistMode::Reuse, &name, false);
    match err {
        Err(AppError::Message(m)) => {
            assert_eq!(
                m,
                "ERROR: container \"dungeon-alpha-06e55949\" does not exist"
            );
        },
        _ => panic!("expected the does-not-exist error"),
    }
}

#[test]
fn session_starts_stopped_container_before_exec() {
    let name = "dungeon-alpha-06e55949".to_string();
    let stopped = persist::ensure_container_session(&name, dungeon::Engine::Docker, false);
    assert_eq!(stopped.len(), 2);
    assert_eq!(
        format!("{} {}", stopped[0].program, stopped[0].args.join(" ")),
        "docker start dungeon-alpha-06e55949"
    );
    assert_eq!(
        format!("{} {}", stopped[1].program, stopped[1].args.join(" ")),
        "docker exec -it dungeon-alpha-06e55949 bash"
    );
    let running = persist::ensure_container_session(&name, dungeon::Engine::Docker, true);
    assert_eq!(running.len(), 1);
}

#[test]
fn persistence_flags_are_mutually_exclusive() {
    assert!(merge::resolve_persist_mode(true, true, false).is_err());
    assert!(merge::resolve_persist_mode(true, false, true).is_err());
    assert!(merge::resolve_persist_mode(false, true, true).is_err());
    assert!(merge::resolve_persist_mode(true, true, true).is_err());
    assert_eq!(
        merge::resolve_persist_mode(false, false, false).expect("mode"),
        PersistMode::Ephemeral
    );
    assert_eq!(
        merge::resolve_persist_mode(true, false, false).expect("mode"),
        PersistMode::Create
    );
    assert_eq!(
        merge::resolve_persist_mode(false, true, false).expect("mode"),
        PersistMode::Reuse
    );
    assert_eq!(
        merge::resolve_persist_mode(false, false, true).expect("mode"),
        PersistMode::Discard
    );
}

#[test]
fn scalar_fields_replace_and_list_fields_append() {
    let mut defaults = settings_with_image("A");
    defaults.ports = Some(vec!["1".to_string()]);
    let mut file = settings_with_image("B");
    file.ports = Some(vec!["2".to_string()]);
    let cli_settings = settings_with_image("C");

    let resolved = merge::resolve_settings(
        config::Sources {
            defaults,
            file,
            env: config::Settings::empty(),
            cli: cli_settings,
        },
        &Vec::new(),
        &Vec::new(),
    )
    .expect("resolve settings");

    assert_eq!(resolved.image, Some("C".to_string()));
    assert_eq!(resolved.ports, Some(vec!["1".to_string(), "2".to_string()]));
}

#[test]
fn unknown_group_in_order_is_fatal() {
    let result = merge::resolve_settings(
        config::Sources {
            defaults: config::Settings::empty(),
            file: config::Settings::empty(),
            env: config::Settings::empty(),
            cli: config::Settings::empty(),
        },
        &Vec::new(),
        &vec!["nope".to_string()],
    );
    match result {
        Err(AppError::Message(m)) => assert_eq!(m, "ERROR: unknown group \"nope\""),
        _ => panic!("expected the unknown-group error"),
    }
}

#[test]
fn unknown_always_on_group_is_fatal() {
    let defaults = config::Config::default();
    let file_cfg =
        config::parse_config("always_on_groups = [\"nope\"]").expect("parse config");
    let env_cfg = config::Config::default();
    let result = cli::parse_args_with_sources(vec![], defaults, file_cfg, env_cfg);
    match result {
        Err(AppError::Message(m)) => {
            assert_eq!(m, "ERROR: always_on_groups includes unknown group \"nope\"");
        },
        _ => panic!("expected the unknown always-on group error"),
    }
}

#[test]
fn empty_group_name_is_fatal() {
    let groups = vec![("  ".to_string(), config::GroupConfig::default())];
    let result = dungeon::config::groups::merge_group_definitions(&groups, &Vec::new());
    match result {
        Err(AppError::Message(m)) => assert_eq!(m, "ERROR: group name cannot be empty"),
        _ => panic!("expected the empty-name error"),
    }
}

#[test]
fn disabled_group_removes_default_definition() {
    let base = vec![("codex".to_string(), config::GroupConfig::default())];
    let overrides = vec![(
        "codex".to_string(),
        config::GroupConfig { settings: config::Settings::empty(), disabled: true },
    )];
    let merged =
        dungeon::config::groups::merge_group_definitions(&base, &overrides).expect("merge");
    assert_eq!(merged.len(), 0);
}

#[test]
fn env_forwarding_resolves_from_host_snapshot() {
    let mut settings = config::Settings::empty();
    settings.env_vars = Some(vec!["FOO".to_string()]);
    let spec = engine::build_container_command(
        &settings,
        &Vec::new(),
        false,
        None,
        false,
        &host("/testroot/alpha"),
    )
    .expect("build");
    let command = format!("{} {}", spec.program, spec.args.join(" "));
    assert!(command.contains("--env FOO=bar"));

    let mut missing = config::Settings::empty();
    missing.env_vars = Some(vec!["MISSING_VAR".to_string()]);
    let err = engine::build_container_command(
        &missing,
        &Vec::new(),
        false,
        None,
        false,
        &host("/testroot/alpha"),
    );
    match err {
        Err(AppError::Message(m)) => {
            assert_eq!(m, "ERROR: env \"MISSING_VAR\" is not set on host");
        },
        _ => panic!("expected the env-not-set error"),
    }
}

#[test]
fn build_is_deterministic_for_fixed_inputs() {
    let mut settings = settings_with_image("localhost/custom");
    settings.ports = Some(vec!["8080:8080".to_string()]);
    settings.env_vars = Some(vec!["FOO".to_string(), "X=1".to_string()]);
    let first = engine::build_container_command(
        &settings,
        &vec!["file1".to_string()],
        false,
        None,
        false,
        &host("/testroot/alpha"),
    )
    .expect("build");
    let second = engine::build_container_command(
        &settings,
        &vec!["file1".to_string()],
        false,
        None,
        false,
        &host("/testroot/alpha"),
    )
    .expect("build");
    assert_eq!(first.program, second.program);
    assert_eq!(first.args, second.args);
}

#[test]
fn missing_explicit_path_is_fatal() {
    let result = engine::build_container_command(
        &config::Settings::empty(),
        &vec!["ghost".to_string()],
        false,
        None,
        false,
        &host("/testroot/alpha"),
    );
    match result {
        Err(AppError::Message(m)) => assert_eq!(m, "ERROR: 'ghost' does not exist"),
        _ => panic!("expected the does-not-exist error"),
    }
}

#[test]
fn persisted_run_names_the_container() {
    let parsed = cli::parse_args_with_sources(
        vec!["--persist".to_string()],
        config::Config::default(),
        config::Config::default(),
        config::Config::default(),
    )
    .expect("parse args");
    assert_eq!(parsed.persist_mode, PersistMode::Create);
    let resolved = config::resolve(
        &parsed,
        config::Config::default(),
        config::Config::default(),
        config::Config::default(),
        &host("/testroot/alpha"),
    )
    .expect("resolve");
    assert_eq!(resolved.container_name, "dungeon-alpha-06e55949");
    let spec = engine::build_container_command(
        &resolved.settings,
        &resolved.paths,
        true,
        Some(&resolved.container_name),
        false,
        &host("/testroot/alpha"),
    )
    .expect("build");
    let command = format!("{} {}", spec.program, spec.args.join(" "));
    assert!(command.contains("--name dungeon-alpha-06e55949"));
    assert!(!command.contains("--rm"));
}

#[test]
fn mount_specs_are_validated() {
    assert!(mounts::parse_host_mount_spec("justsource").is_err());
    assert!(mounts::parse_host_mount_spec("a:b:c:d").is_err());
    assert!(mounts::parse_host_mount_spec(" :target").is_err());
    assert!(mounts::parse_host_mount_spec("src:dst:rx").is_err());
    let parsed = mounts::parse_host_mount_spec(" src : dst : RO ").expect("parse");
    assert_eq!(parsed.0, "src");
    assert_eq!(parsed.1, "dst");
    assert_eq!(parsed.2, ":ro");

    assert!(mounts::parse_cache_mount_spec("a:b:c").is_err());
    assert!(mounts::parse_cache_mount_spec("  ").is_err());
    let cache = mounts::parse_cache_mount_spec("deps:rw").expect("parse");
    assert_eq!(cache.0, "deps");
    assert_eq!(cache.1, ":rw");
}

#[test]
fn host_paths_resolve_lexically() {
    let home = "/testroot/home".to_string();
    let cwd = "/testroot/alpha".to_string();
    assert_eq!(
        mounts::resolve_host_path(&home, &cwd, "~/data").expect("resolve"),
        "/testroot/home/data"
    );
    assert_eq!(
        mounts::resolve_host_path(&home, &cwd, "$HOME/.codex").expect("resolve"),
        "/testroot/home/.codex"
    );
    assert_eq!(
        mounts::resolve_host_path(&home, &cwd, "relative/dir").expect("resolve"),
        "/testroot/alpha/relative/dir"
    );
    assert_eq!(
        mounts::resolve_host_path(&home, &cwd, "/a/b/../c/./d").expect("resolve"),
        "/a/c/d"
    );
    assert!(mounts::resolve_host_path(&home, &cwd, "  ").is_err());

    let once = mounts::clean_path("/a/b/../c/./d");
    let twice = mounts::clean_path(once.as_str());
    assert_eq!(once, twice);

    assert_eq!(mounts::container_path("deps"), "/home/dungeon/deps");
    assert_eq!(mounts::container_path("/opt/data"), "/opt/data");
}

#[test]
fn container_names_are_sanitized_and_bounded() {
    assert_eq!(persist::sanitize_container_base("My Project!"), "My-Project");
    assert_eq!(persist::sanitize_container_base("---"), "project");
    assert_eq!(persist::sanitize_container_base(""), "project");
    assert_eq!(
        persist::sanitize_container_base("abcdefghijklmnopqrstuvwxyz0123456789"),
        "abcdefghijklmnopqrstuvwxyz012345"
    );
    assert!(persist::validate_container_name("ok-name").is_ok());
    assert!(persist::validate_container_name("   ").is_err());
    let long = "x".repeat(64);
    assert!(persist::validate_container_name(long.as_str()).is_err());
}

#[test]
fn env_lists_split_on_commas() {
    let items = dungeon::config::parse::split_env_list(" a , , b,c ");
    assert_eq!(
        items,
        vec!["a".to_string(), "b".to_string(), "c".to_string()]
    );
    let env = vec![("DUNGEON_PORTS".to_string(), "80:80, 443:443".to_string())];
    let cfg = config::load_from_env(&env).expect("env config");
    assert_eq!(
        cfg.settings.ports,
        Some(vec!["80:80".to_string(), "443:443".to_string()])
    );
}

#[test]
fn group_tables_reject_unknown_keys() {
    let result = config::parse_config("[codex]\nbogus = 'x'\n");
    match result {
        Err(AppError::Message(m)) => {
            assert_eq!(m, "group \"codex\" has unknown key \"bogus\"");
        },
        _ => panic!("expected the unknown-key error"),
    }
    let parsed = config::parse_config("[codex]\nimage = 'x'\n").expect("parse");
    assert_eq!(parsed.groups.len(), 1);
    assert_eq!(parsed.groups[0].0, "codex");
    assert_eq!(parsed.groups[0].1.settings.image, Some("x".to_string()));
    assert!(!parsed.groups[0].1.disabled);
}

#[test]
fn subprocess_errors_carry_their_exit_code() {
    let err = AppError::Subprocess(7, "engine exited with code 7".to_string());
    assert_eq!(err.exit_code(), 7);
    let msg = AppError::message("boom".to_string());
    assert_eq!(msg.exit_code(), 1);
    assert_eq!(msg.text().as_str(), "boom");
}
