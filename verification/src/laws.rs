//! General properties of the resolution engine, stated and proved once so
//! that a reader sees them spelled out rather than deriving them from the
//! individual contracts.

use vstd::prelude::*;

use crate::config::SettingsView;
use crate::config::merge::spec_persist_mode;
use crate::container::engine::{pair_lookup, spec_env_flags};
use crate::container::persist::PersistMode;
use crate::strutil::{split_parts, split_rec};
use crate::config::groups::{
    contains_name, insert_by_order, names_not_in, selected_flags, sort_by_order,
    spec_resolve_group_order,
};
use crate::config::merge::{
    apply_groups, group_lookup, merge_views, spec_resolve_settings,
};
use crate::config::types::GroupConfigView;
use crate::cli::{
    GroupFlag, RunScan, any_set, collected_flags, scan_settings, settings_override,
    spec_finish_run, spec_parse_engine,
};
use crate::container::engine::{
    HostContextView, spec_build_container_command,
};
use crate::container::persist::{hex_digit, spec_persisted_name, spec_sanitized_base};
use crate::strutil::{is_space, trim_back, trim_front, trimmed};

verus! {

/// Merge precedence for scalar fields: whatever the lower sources and the
/// group overlays say, a scalar the command line specifies is the resolved
/// one, and one the environment specifies wins over everything below it.
pub proof fn lemma_scalar_precedence(
    defaults: SettingsView,
    file: SettingsView,
    env: SettingsView,
    cli: SettingsView,
    groups: Seq<(Seq<char>, GroupConfigView)>,
    order: Seq<Seq<char>>,
    resolved: SettingsView,
)
    requires
        spec_resolve_settings(defaults, file, env, cli, groups, order) == Result::<
            SettingsView,
            Seq<char>,
        >::Ok(resolved),
    ensures
        cli.image is Some ==> resolved.image == cli.image,
        cli.run_command is Some ==> resolved.run_command == cli.run_command,
        cli.engine is Some ==> resolved.engine == cli.engine,
        cli.image is None && env.image is Some ==> resolved.image == env.image,
{
}

/// Merge behavior for list fields: with no group overlays and no higher
/// sources, the items of the user file append to the items of the defaults
/// rather than replacing them.
pub proof fn lemma_list_fields_append(
    defaults: SettingsView,
    file: SettingsView,
    groups: Seq<(Seq<char>, GroupConfigView)>,
    p1: Seq<Seq<char>>,
    p2: Seq<Seq<char>>,
)
    requires
        defaults.ports == Option::Some(p1),
        file.ports == Option::Some(p2),
    ensures
        spec_resolve_settings(
            defaults,
            file,
            SettingsView::empty(),
            SettingsView::empty(),
            groups,
            Seq::empty(),
        ) matches Result::Ok(resolved) && resolved.ports == Option::Some(p1 + p2),
{
    let merged = merge_views(defaults, file);
    assert(apply_groups(merged, groups, Seq::empty()) == Result::<
        SettingsView,
        Seq<char>,
    >::Ok(merged));
}

/// Group override ordering: a group activated by a command-line flag is
/// applied after the always-on groups, so for a scalar field both define,
/// the flag-activated group's value is the resolved one. Here one always-on
/// group sets the image to `x` and one flagged group (not always-on) sets it
/// to `y`: the resolved image is `y`.
pub proof fn lemma_group_override_ordering(
    defaults: SettingsView,
    file: SettingsView,
    base: Seq<Seq<char>>,
    flags: Seq<(Seq<char>, GroupFlag)>,
    groups: Seq<(Seq<char>, GroupConfigView)>,
    a: Seq<char>,
    b: Seq<char>,
    ga: GroupConfigView,
    gb: GroupConfigView,
    x: Seq<char>,
    y: Seq<char>,
)
    requires
        base == seq![a],
        selected_flags(flags) == seq![(b, GroupFlag { set: true, order: 1 })],
        !contains_name(base, b),
        group_lookup(groups, a) == Option::Some(ga),
        group_lookup(groups, b) == Option::Some(gb),
        ga.settings.image == Option::Some(x),
        gb.settings.image == Option::Some(y),
    ensures
        spec_resolve_group_order(base, flags) == seq![a, b],
        spec_resolve_settings(
            defaults,
            file,
            SettingsView::empty(),
            SettingsView::empty(),
            groups,
            spec_resolve_group_order(base, flags),
        ) matches Result::Ok(resolved) && resolved.image == Option::Some(y),
{
    let sel = selected_flags(flags);
    assert(sort_by_order(sel) =~= sel) by {
        assert(sort_by_order(sel.drop_first()) =~= Seq::<(Seq<char>, GroupFlag)>::empty());
        assert(insert_by_order(sel[0], Seq::empty()) =~= seq![sel[0]]);
    }
    assert(names_not_in(sel, base) =~= seq![b]) by {
        assert(names_not_in(sel.drop_first(), base) =~= Seq::<Seq<char>>::empty());
    }
    assert(spec_resolve_group_order(base, flags) =~= seq![a, b]);
    let order = spec_resolve_group_order(base, flags);
    let merged = merge_views(defaults, file);
    let after_a = merge_views(merged, ga.settings);
    let after_b = merge_views(after_a, gb.settings);
    let o2 = order.drop_first();
    assert(o2 =~= seq![b]);
    assert(o2.drop_first() =~= Seq::<Seq<char>>::empty());
    assert(order[0] == a && o2[0] == b);
    assert(apply_groups(after_b, groups, o2.drop_first()) == Result::<
        SettingsView,
        Seq<char>,
    >::Ok(after_b));
    assert(apply_groups(after_a, groups, o2) == Result::<SettingsView, Seq<char>>::Ok(
        after_b,
    ));
    assert(apply_groups(merged, groups, order) == Result::<SettingsView, Seq<char>>::Ok(
        after_b,
    ));
    assert(after_b.image == Option::Some(y));
}

/// The home-directory guard: with no explicit paths, no skip-cwd, and a
/// working directory equal to the home directory, building the run command
/// always fails — before any engine call could be made from its output.
pub proof fn lemma_home_dir_guard(
    s: SettingsView,
    paths: Seq<Seq<char>>,
    keep_container: bool,
    name: Option<Seq<char>>,
    host: HostContextView,
)
    requires
        paths.len() == 0,
        host.cwd == host.home,
    ensures
        spec_build_container_command(s, paths, keep_container, name, false, host) is Err,
{
}

/// Mutual exclusion of the persistence flags: whenever two of `--persist`,
/// `--persisted` and `--discard` are given together, deriving the mode is an
/// error, and each flag alone selects its mode.
pub proof fn lemma_persist_flags_mutually_exclusive(persist: bool, persisted: bool, discard: bool)
    ensures
        (persist && persisted) || (persist && discard) || (persisted && discard)
            ==> spec_persist_mode(persist, persisted, discard) is Err,
        persist && !persisted && !discard ==> spec_persist_mode(persist, persisted, discard)
            == Result::<PersistMode, Seq<char>>::Ok(PersistMode::Create),
        !persist && persisted && !discard ==> spec_persist_mode(persist, persisted, discard)
            == Result::<PersistMode, Seq<char>>::Ok(PersistMode::Reuse),
        !persist && !persisted && discard ==> spec_persist_mode(persist, persisted, discard)
            == Result::<PersistMode, Seq<char>>::Ok(PersistMode::Discard),
{
}

/// Splitting a text that does not hold the separator leaves one piece: the
/// accumulated prefix followed by the whole text.
proof fn lemma_split_no_sep(s: Seq<char>, sep: char, cur: Seq<char>)
    requires
        forall|i: int| 0 <= i < s.len() ==> s[i] != sep,
    ensures
        split_rec(s, sep, cur) == seq![cur + s],
    decreases s.len(),
{
    if s.len() == 0 {
        assert(cur + s =~= cur);
    } else {
        lemma_split_no_sep(s.drop_first(), sep, cur.push(s[0]));
        assert(cur.push(s[0]) + s.drop_first() =~= cur + s);
    }
}

/// Environment forwarding: an `--env` spec that holds no `=` and no
/// surrounding whitespace names a variable to forward from the host
/// snapshot. When the snapshot holds it, the flags are exactly
/// `--env name=value`; when it does not, resolution fails.
pub proof fn lemma_env_forwarding(
    name: Seq<char>,
    env: Seq<(Seq<char>, Seq<char>)>,
)
    requires
        name.len() > 0,
        forall|i: int| 0 <= i < name.len() ==> name[i] != '=',
        forall|i: int| 0 <= i < name.len() ==> !is_space(#[trigger] name[i]),
    ensures
        pair_lookup(env, name) matches Option::Some(value) ==> spec_env_flags(seq![name], env)
            == Result::<Seq<Seq<char>>, Seq<char>>::Ok(seq!["--env"@, name + "="@ + value]),
        pair_lookup(env, name) is None ==> spec_env_flags(seq![name], env) == Result::<
            Seq<Seq<char>>,
            Seq<char>,
        >::Err("ERROR: env \""@ + name + "\" is not set on host"@),
{
    assert(trimmed(name) == name) by {
        assert(trim_front(name) == name);
        assert(trim_back(name) == name);
    }
    lemma_split_no_sep(name, '=', Seq::empty());
    let parts = split_parts(name, '=');
    assert(parts == seq![Seq::<char>::empty() + name]);
    assert(Seq::<char>::empty() + name =~= name);
    assert(parts.len() == 1);
    assert(parts[0] == Seq::<char>::empty() + name);
    let one = seq![name];
    assert(one.drop_first() =~= Seq::<Seq<char>>::empty());
    if pair_lookup(env, name) is Some {
        let value = pair_lookup(env, name)->Some_0;
        assert(spec_env_flags(one.drop_first(), env) == Result::<
            Seq<Seq<char>>,
            Seq<char>,
        >::Ok(Seq::empty()));
        assert(seq!["--env"@, name + "="@ + value] + Seq::<Seq<char>>::empty() =~= seq![
            "--env"@,
            name + "="@ + value,
        ]);
    }
}

/// Mutual exclusion at the parser: a run parse whose scan saw `--persisted`
/// or `--discard` together with any run-shaping input — a config flag, a set
/// group flag, a positional path, or `--skip-cwd` — never succeeds.
pub proof fn lemma_run_rejects_persisted_overrides(
    st: RunScan,
    registry: Seq<(Seq<char>, GroupConfigView)>,
)
    requires
        st.persisted || st.discard,
        st.run_value is Some || st.image_value is Some || st.saw_ports || st.saw_cache
            || st.saw_mounts || st.saw_env_vars || st.saw_env_files || st.saw_engine_args
            || st.skip_cwd || st.paths.len() > 0 || any_set(collected_flags(registry, st.seen)),
    ensures
        spec_finish_run(st, registry) is Err,
{
}

/// The engine flag alone shapes no run: a scan that saw only `--persisted`
/// and a valid `--engine` value succeeds, in the reuse mode, with that
/// engine selected.
pub proof fn lemma_persisted_engine_flag_accepted(
    st: RunScan,
    registry: Seq<(Seq<char>, GroupConfigView)>,
    v: Seq<char>,
    e: crate::Engine,
)
    requires
        st == (RunScan { persisted: true, engine_value: Option::Some(v), ..RunScan::init() }),
        spec_parse_engine(v) == Result::<crate::Engine, Seq<char>>::Ok(e),
    ensures
        spec_finish_run(st, registry) matches Result::Ok(p) && p.persist_mode
            == PersistMode::Reuse && p.settings.engine == Option::Some(e),
{
    let flags = collected_flags(registry, st.seen);
    assert(!any_set(flags)) by {
        assert forall|i: int| 0 <= i < flags.len() implies !(#[trigger] flags[i]).1.set by {
            assert(flags[i].1 == crate::cli::flag_lookup(st.seen, registry[i].0));
        }
    }
    assert(!settings_override(scan_settings(st, Option::Some(e)), st.skip_cwd));
}

/// Shape of every persisted container name: it starts with `dungeon-`, it is
/// never blank after trimming, and it stays within the engine's 63-character
/// limit, whatever the working directory and paths are.
pub proof fn lemma_persisted_name_wellformed(cwd: Seq<char>, paths: Seq<Seq<char>>)
    ensures
        spec_persisted_name(cwd, paths).len() <= 63,
        trimmed(spec_persisted_name(cwd, paths)).len() != 0,
        spec_persisted_name(cwd, paths).take(8) == "dungeon-"@,
{
    reveal_strlit("dungeon-");
    reveal_strlit("-");
    reveal_strlit("project");
    let name = spec_persisted_name(cwd, paths);
    let base = spec_sanitized_base(crate::container::persist::basename_of(cwd));
    let short = crate::container::persist::short_hash(cwd, paths);
    assert(base.len() >= 1 && base.len() <= 32);
    assert(short.len() <= 8);
    assert(name.len() == 8 + base.len() + 1 + short.len());
    assert(name.len() <= 63);
    assert(("dungeon-"@ + base)[0] == 'd');
    assert((("dungeon-"@ + base) + "-"@)[0] == 'd');
    assert(name[0] == 'd');
    assert(!is_space(name[0]));
    assert(trim_front(name) == name);
    assert(forall|x: int| !is_space(#[trigger] hex_digit(x)));
    if short.len() > 0 {
        assert(name.last() == short.last());
        assert(!is_space(name.last()));
    } else {
        assert(name.last() == "-"@[0]);
        assert(!is_space(name.last()));
    }
    assert(trim_back(name) == name);
    assert(name.take(8) =~= "dungeon-"@);
}

} // verus!
