use dungeon::cli::{self, Action};
use dungeon::config::{self, Config, GroupConfig, Settings};

fn parse(args: &[&str]) -> Result<cli::ParsedCLI, dungeon::error::AppError> {
    cli::parse_args_with_sources(
        args.iter().map(|s| s.to_string()).collect(),
        Config::default(),
        Config::default(),
        Config::default(),
    )
}

fn config_with_groups(names: &[&str]) -> Config {
    let mut groups = Vec::new();
    for name in names {
        groups.push((name.to_string(), GroupConfig::default()));
    }
    Config { settings: Settings::empty(), always_on_groups: None, groups }
}

#[test]
fn help_short_circuits_everything_else() {
    let parsed = parse(&["run", "--help"]).expect("parse");
    assert!(parsed.show_help);
    assert!(!parsed.show_version);
    assert!(matches!(parsed.action, Action::Nothing));

    let parsed = parse(&["--version"]).expect("parse");
    assert!(parsed.show_version);
    assert!(matches!(parsed.action, Action::Nothing));
}

#[test]
fn value_flags_accept_both_token_forms() {
    let parsed = parse(&["--image", "img-a", "--run=echo hi"]).expect("parse");
    assert_eq!(parsed.settings.image, Some("img-a".to_string()));
    assert_eq!(parsed.settings.run_command, Some("echo hi".to_string()));
}

#[test]
fn missing_flag_value_is_an_error() {
    assert!(parse(&["--run"]).is_err());
    assert!(parse(&["run", "--image"]).is_err());
}

#[test]
fn unknown_flags_are_rejected() {
    assert!(parse(&["--bogus"]).is_err());
    assert!(parse(&["run", "--debug=yes"]).is_err());
}

#[test]
fn repeatable_flags_accumulate_in_order() {
    let parsed = parse(&["--port", "1:1", "--env-file", "a.env", "--port", "2:2"])
        .expect("parse");
    assert_eq!(
        parsed.settings.ports,
        Some(vec!["1:1".to_string(), "2:2".to_string()])
    );
    assert_eq!(parsed.settings.env_files, Some(vec!["a.env".to_string()]));
}

#[test]
fn group_flags_record_command_line_order() {
    let file_cfg = config_with_groups(&["alpha", "beta"]);
    let parsed = cli::parse_args_with_sources(
        vec!["--beta".to_string(), "--alpha".to_string()],
        Config::default(),
        file_cfg,
        Config::default(),
    )
    .expect("parse");

    let mut alpha_order = 0;
    let mut beta_order = 0;
    for (name, flag) in &parsed.group_flags {
        assert!(flag.set);
        if name == "alpha" {
            alpha_order = flag.order;
        } else if name == "beta" {
            beta_order = flag.order;
        }
    }
    assert!(beta_order < alpha_order);

    let order = dungeon::config::groups::resolve_group_order(&Vec::new(), &parsed.group_flags);
    assert_eq!(order, vec!["beta".to_string(), "alpha".to_string()]);
}

#[test]
fn flagged_group_already_always_on_is_not_reordered() {
    let base = vec!["alpha".to_string()];
    let flags = vec![
        ("alpha".to_string(), dungeon::cli::GroupFlag { set: true, order: 1 }),
        ("beta".to_string(), dungeon::cli::GroupFlag { set: true, order: 2 }),
    ];
    let order = dungeon::config::groups::resolve_group_order(&base, &flags);
    assert_eq!(order, vec!["alpha".to_string(), "beta".to_string()]);
}

#[test]
fn subcommand_tokens_select_their_parsers() {
    assert!(parse(&["image"]).is_err());
    assert!(parse(&["image", "publish"]).is_err());
    assert!(parse(&["image", "build"]).is_err());
    assert!(parse(&["cache"]).is_err());
    assert!(parse(&["cache", "grow"]).is_err());
    let parsed = parse(&["cache", "reset"]).expect("parse");
    assert!(matches!(parsed.action, Action::CacheReset(_)));
}

#[test]
fn normalize_group_order_trims_and_rejects_blanks() {
    let trimmedv = config::groups::normalize_group_order(&vec![
        " codex ".to_string(),
        "obsidian".to_string(),
    ])
    .expect("normalize");
    assert_eq!(trimmedv, vec!["codex".to_string(), "obsidian".to_string()]);
    assert!(config::groups::normalize_group_order(&vec!["   ".to_string()]).is_err());
}

#[test]
fn group_selection_validates_against_registry() {
    let registry = vec![("codex".to_string(), GroupConfig::default())];
    let selection = config::groups::build_group_selection(
        &registry,
        &vec!["codex".to_string()],
    )
    .expect("selection");
    assert_eq!(selection, vec![("codex".to_string(), true)]);
    assert!(config::groups::build_group_selection(&registry, &vec!["nope".to_string()])
        .is_err());
}
