//! Layered configuration: the settings model, the group registry, and the
//! merge rules that combine compiled defaults, the user file, the
//! environment and the command line into one resolved configuration.

pub mod groups;
pub mod merge;
pub mod parse;
pub mod types;

pub use parse::{load_defaults, load_from_env, load_from_file, parse_config};
pub use types::{
    Config, ConfigView, GroupConfig, GroupConfigView, ResolvedConfig, ResolvedConfigView,
    Settings, SettingsView, Sources,
};

use vstd::prelude::*;

use crate::cli::{ParsedCLI, flag_lookup};
use crate::config::groups::{
    flags_view, spec_build_selection, spec_merge_group_definitions, spec_normalize_order,
    spec_resolve_group_order,
};
use crate::config::merge::{always_on_of, spec_resolve_settings};
use crate::config::parse::{spec_env_config, spec_parse_config, toml_raw_of};
use crate::container::engine::{HostContext, pair_lookup, pairs_view};
use crate::container::persist::{PersistMode, spec_persisted_name};
use crate::error::AppError;

verus! {

/// The canonical forms of the explicit paths, looked up in the host
/// snapshot; a path without one does not exist.
pub open spec fn spec_canonical_paths(
    paths: Seq<Seq<char>>,
    entries: Seq<(Seq<char>, Seq<char>)>,
) -> Result<Seq<Seq<char>>, Seq<char>>
    decreases paths.len(),
{
    if paths.len() == 0 {
        Result::Ok(Seq::empty())
    } else {
        match pair_lookup(entries, paths[0]) {
            Option::None => Result::Err("ERROR: '"@ + paths[0] + "' does not exist"@),
            Option::Some(c) => match spec_canonical_paths(paths.drop_first(), entries) {
                Result::Err(m) => Result::Err(m),
                Result::Ok(rest) => Result::Ok(seq![c] + rest),
            },
        }
    }
}

/// The canonical forms of the explicit paths; executable form.
#[verifier::loop_isolation(false)]
fn canonical_paths(paths: &Vec<String>, entries: &Vec<(String, String)>) -> (r: Result<
    Vec<String>,
    AppError,
>)
    ensures
        match r {
            Result::Ok(out) => spec_canonical_paths(
                paths.deep_view(),
                crate::container::engine::pairs_view(entries@),
            ) == Result::<Seq<Seq<char>>, Seq<char>>::Ok(out.deep_view()),
            Result::Err(e) => e matches AppError::Message(m) && spec_canonical_paths(
                paths.deep_view(),
                crate::container::engine::pairs_view(entries@),
            ) == Result::<Seq<Seq<char>>, Seq<char>>::Err(m@),
        },
{
    let ghost pv = paths.deep_view();
    let ghost ev = crate::container::engine::pairs_view(entries@);
    let mut out: Vec<String> = Vec::new();
    let mut i: usize = 0;
    proof {
        assert(pv.skip(0) =~= pv);
        assert(out.deep_view() =~= Seq::<Seq<char>>::empty());
    }
    while i < paths.len()
        invariant
            i <= paths.len(),
            pv.len() == paths.len(),
            spec_canonical_paths(pv, ev) == (match spec_canonical_paths(pv.skip(i as int), ev) {
                Result::Ok(rest) => Result::<Seq<Seq<char>>, Seq<char>>::Ok(
                    out.deep_view() + rest,
                ),
                Result::Err(m) => Result::<Seq<Seq<char>>, Seq<char>>::Err(m),
            }),
        decreases paths.len() - i,
    {
        proof {
            assert(pv.skip(i as int)[0] == pv[i as int]);
            assert(pv.skip(i as int).drop_first() =~= pv.skip(i + 1));
        }
        match crate::container::engine::lookup_pair(entries, &paths[i]) {
            Option::None => {
                let mut msg = String::new();
                msg.append("ERROR: '");
                msg.append(paths[i].as_str());
                msg.append("' does not exist");
                proof {
                    assert(msg@ =~= "ERROR: '"@ + pv[i as int] + "' does not exist"@);
                }
                return Result::Err(AppError::message(msg));
            },
            Option::Some(c) => {
                let ghost pre = out.deep_view();
                let ghost cv = c@;
                out.push(c);
                proof {
                    assert(out.deep_view() =~= pre.push(cv));
                    let rest = spec_canonical_paths(pv.skip(i + 1), ev);
                    if rest is Ok {
                        assert(pre.push(cv) + rest->Ok_0 =~= pre + (seq![cv] + rest->Ok_0));
                    }
                }
            },
        }
        i = i + 1;
    }
    proof {
        assert(pv.skip(i as int) =~= Seq::<Seq<char>>::empty());
        assert(out.deep_view() + Seq::<Seq<char>>::empty() =~= out.deep_view());
    }
    Result::Ok(out)
}

/// The name an invocation addresses, from the mode, the canonical working
/// directory, the raw explicit paths and the snapshot: the content-addressed
/// name of cwd and paths when creating, of cwd alone when reusing or
/// discarding, and the empty string for an ephemeral run.
pub open spec fn spec_named_for_mode(
    persist_mode: PersistMode,
    cwd: Seq<char>,
    paths: Seq<Seq<char>>,
    entries: Seq<(Seq<char>, Seq<char>)>,
) -> Result<Seq<char>, Seq<char>> {
    match persist_mode {
        PersistMode::Create => match spec_canonical_paths(paths, entries) {
            Result::Err(m) => Result::Err(m),
            Result::Ok(canon) => Result::Ok(spec_persisted_name(cwd, canon)),
        },
        PersistMode::Reuse => Result::Ok(spec_persisted_name(cwd, Seq::empty())),
        PersistMode::Discard => Result::Ok(spec_persisted_name(cwd, Seq::empty())),
        PersistMode::Ephemeral => Result::Ok(Seq::empty()),
    }
}

/// The outcome of resolution over the models of the parsed command line, the
/// three configuration sources and the host snapshot: the merged group
/// registry, the validated always-on order, the group application order, the
/// merged settings, and the container name.
pub open spec fn spec_resolve(
    cli_settings: SettingsView,
    cli_flags: Seq<(Seq<char>, crate::cli::GroupFlag)>,
    persist_mode: PersistMode,
    paths: Seq<Seq<char>>,
    defaults: ConfigView,
    file: ConfigView,
    env: ConfigView,
    cwd: Seq<char>,
    entries: Seq<(Seq<char>, Seq<char>)>,
) -> Result<ResolvedConfigView, Seq<char>> {
    match spec_merge_group_definitions(defaults.groups, file.groups) {
        Result::Err(m) => Result::Err(m),
        Result::Ok(registry) => match spec_normalize_order(
            always_on_of(defaults) + always_on_of(file) + always_on_of(env) + always_on_of(
                ConfigView::empty(),
            ),
        ) {
            Result::Err(m) => Result::Err(m),
            Result::Ok(base_order) => match spec_build_selection(registry, base_order) {
                Result::Err(m) => Result::Err(m),
                Result::Ok(_) => {
                    let collected = Seq::new(
                        registry.len(),
                        |i: int| (registry[i].0, flag_lookup(cli_flags, registry[i].0)),
                    );
                    let order = spec_resolve_group_order(base_order, collected);
                    match spec_resolve_settings(
                        defaults.settings,
                        file.settings,
                        env.settings,
                        cli_settings,
                        registry,
                        order,
                    ) {
                        Result::Err(m) => Result::Err(m),
                        Result::Ok(s) => match spec_named_for_mode(
                            persist_mode,
                            cwd,
                            paths,
                            entries,
                        ) {
                            Result::Err(m) => Result::Err(m),
                            Result::Ok(name) => Result::Ok(
                                (ResolvedConfigView {
                                    settings: s,
                                    paths: paths,
                                    persist_mode: persist_mode,
                                    container_name: name,
                                }),
                            ),
                        },
                    }
                },
            },
        },
    }
}

/// Resolves a parsed command line against the three configuration sources
/// and the host snapshot: merges and validates the group registry, computes
/// the group application order (always-on first, then command-line flags by
/// position), merges the settings by source precedence, and derives the
/// container name for the persistence mode. The live-engine existence check
/// happens separately, against the name returned here.
pub fn resolve(
    parsed: &ParsedCLI,
    defaults: Config,
    file_cfg: Config,
    env_cfg: Config,
    host: &HostContext,
) -> (r: Result<ResolvedConfig, AppError>)
    ensures
        match r {
            Result::Ok(rc) => spec_resolve(
                parsed.settings@,
                flags_view(parsed.group_flags@),
                parsed.persist_mode,
                parsed.paths.deep_view(),
                defaults@,
                file_cfg@,
                env_cfg@,
                host@.cwd,
                host@.entries,
            ) == Result::<ResolvedConfigView, Seq<char>>::Ok(rc@),
            Result::Err(e) => e matches AppError::Message(m) && spec_resolve(
                parsed.settings@,
                flags_view(parsed.group_flags@),
                parsed.persist_mode,
                parsed.paths.deep_view(),
                defaults@,
                file_cfg@,
                env_cfg@,
                host@.cwd,
                host@.entries,
            ) == Result::<ResolvedConfigView, Seq<char>>::Err(m@),
        },
{
    let group_defs = match crate::config::groups::merge_group_definitions(
        &defaults.groups,
        &file_cfg.groups,
    ) {
        Result::Ok(defs) => defs,
        Result::Err(e) => {
            return Result::Err(e);
        },
    };
    let no_cli = Config::default();
    let base_groups = crate::config::merge::resolve_always_on_groups(
        &defaults,
        &file_cfg,
        &env_cfg,
        &no_cli,
    );
    let base_order = match crate::config::groups::normalize_group_order(&base_groups) {
        Result::Ok(order) => order,
        Result::Err(e) => {
            return Result::Err(e);
        },
    };
    match crate::config::groups::build_group_selection(&group_defs, &base_order) {
        Result::Ok(_) => {},
        Result::Err(e) => {
            return Result::Err(e);
        },
    }
    let group_flags = crate::cli::collect_group_flags_from_names(parsed, &group_defs);
    let ghost registry = crate::config::types::groups_view(group_defs@);
    proof {
        assert(flags_view(group_flags@) =~= Seq::new(
            registry.len(),
            |i: int| (registry[i].0, flag_lookup(flags_view(parsed.group_flags@), registry[i].0)),
        ));
    }
    let group_order = crate::config::groups::resolve_group_order(&base_order, &group_flags);
    let final_settings = match crate::config::merge::resolve_settings(
        Sources {
            defaults: defaults.settings,
            file: file_cfg.settings,
            env: env_cfg.settings,
            cli: parsed.settings.duplicate(),
        },
        &group_defs,
        &group_order,
    ) {
        Result::Ok(s) => s,
        Result::Err(e) => {
            return Result::Err(e);
        },
    };
    let container_name: String = match parsed.persist_mode {
        PersistMode::Create => {
            let canon = match canonical_paths(&parsed.paths, &host.entries) {
                Result::Ok(c) => c,
                Result::Err(e) => {
                    return Result::Err(e);
                },
            };
            match crate::container::persist::persisted_container_name(&host.cwd, &canon) {
                Result::Ok(name) => name,
                Result::Err(e) => {
                    return Result::Err(e);
                },
            }
        },
        PersistMode::Reuse | PersistMode::Discard => {
            let none: Vec<String> = Vec::new();
            proof {
                assert(none.deep_view() =~= Seq::<Seq<char>>::empty());
            }
            match crate::container::persist::persisted_container_name(&host.cwd, &none) {
                Result::Ok(name) => name,
                Result::Err(e) => {
                    return Result::Err(e);
                },
            }
        },
        PersistMode::Ephemeral => String::new(),
    };
    let rc = ResolvedConfig {
        settings: final_settings,
        paths: crate::config::types::copy_string_vec(&parsed.paths),
        persist_mode: parsed.persist_mode,
        container_name,
    };
    Result::Ok(rc)
}

/// The configurations the user file's text and the environment snapshot
/// carry: the file first, then the environment; an error in either is the
/// result.
pub open spec fn spec_source_configs(
    file_text: Option<Seq<char>>,
    env: Seq<(Seq<char>, Seq<char>)>,
) -> Result<(ConfigView, ConfigView), Seq<char>> {
    match (match file_text {
        Option::Some(t) => spec_parse_config(toml_raw_of(t)),
        Option::None => Result::Ok(ConfigView::empty()),
    }) {
        Result::Err(m) => Result::Err(m),
        Result::Ok(f) => match spec_env_config(env) {
            Result::Err(m) => Result::Err(m),
            Result::Ok(e) => Result::Ok((f, e)),
        },
    }
}

/// Resolves a parsed command line after reading the configuration sources:
/// the compiled-in defaults (which specify nothing), the user file's text
/// (when there is one), and the environment snapshot.
pub fn resolve_with_defaults(
    parsed: &ParsedCLI,
    file_text: Option<&String>,
    env: &Vec<(String, String)>,
    host: &HostContext,
) -> (r: Result<ResolvedConfig, AppError>)
    ensures
        match spec_source_configs(file_text.deep_view(), pairs_view(env@)) {
            Result::Err(m) => r matches Result::Err(e) && (e matches AppError::Message(mm)
                && mm@ == m),
            Result::Ok(cfgs) => match r {
                Result::Ok(rc) => spec_resolve(
                    parsed.settings@,
                    flags_view(parsed.group_flags@),
                    parsed.persist_mode,
                    parsed.paths.deep_view(),
                    ConfigView::empty(),
                    cfgs.0,
                    cfgs.1,
                    host@.cwd,
                    host@.entries,
                ) == Result::<ResolvedConfigView, Seq<char>>::Ok(rc@),
                Result::Err(e) => e matches AppError::Message(m) && spec_resolve(
                    parsed.settings@,
                    flags_view(parsed.group_flags@),
                    parsed.persist_mode,
                    parsed.paths.deep_view(),
                    ConfigView::empty(),
                    cfgs.0,
                    cfgs.1,
                    host@.cwd,
                    host@.entries,
                ) == Result::<ResolvedConfigView, Seq<char>>::Err(m@),
            },
        },
{
    let defaults = match load_defaults() {
        Result::Ok(c) => c,
        Result::Err(e) => {
            return Result::Err(e);
        },
    };
    let file_cfg = match load_from_file(file_text) {
        Result::Ok(c) => c,
        Result::Err(e) => {
            return Result::Err(e);
        },
    };
    let env_cfg = match load_from_env(env) {
        Result::Ok(c) => c,
        Result::Err(e) => {
            return Result::Err(e);
        },
    };
    resolve(parsed, defaults, file_cfg, env_cfg, host)
}

} // verus!
