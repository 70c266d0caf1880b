//! Merging of settings sources: scalar fields are replaced by the higher
//! source, list fields append in source order.

use vstd::prelude::*;

use crate::config::types::{
    Config, ConfigView, GroupConfig, GroupConfigView, Settings, SettingsView, Sources,
};
use crate::config::types::groups_view;
use crate::container::persist::PersistMode;
use crate::error::AppError;

verus! {

/// Merge of one scalar field: an override that specifies a value replaces
/// the base, otherwise the base is kept.
pub open spec fn merge_scalar<T>(base: Option<T>, over: Option<T>) -> Option<T> {
    match over {
        Option::Some(v) => Option::Some(v),
        Option::None => base,
    }
}

/// Merge of one list field: an override's items are appended to the base
/// list (which is created when the base specifies none), otherwise the base
/// is kept unchanged.
pub open spec fn merge_list(
    base: Option<Seq<Seq<char>>>,
    over: Option<Seq<Seq<char>>>,
) -> Option<Seq<Seq<char>>> {
    match over {
        Option::Some(items) => match base {
            Option::Some(b) => Option::Some(b + items),
            Option::None => Option::Some(items),
        },
        Option::None => base,
    }
}

/// Field-by-field merge of two settings models, base first.
pub open spec fn merge_views(base: SettingsView, over: SettingsView) -> SettingsView {
    SettingsView {
        run_command: merge_scalar(base.run_command, over.run_command),
        image: merge_scalar(base.image, over.image),
        ports: merge_list(base.ports, over.ports),
        cache: merge_list(base.cache, over.cache),
        mounts: merge_list(base.mounts, over.mounts),
        env_vars: merge_list(base.env_vars, over.env_vars),
        env_files: merge_list(base.env_files, over.env_files),
        engine_args: merge_list(base.engine_args, over.engine_args),
        engine: merge_scalar(base.engine, over.engine),
    }
}

/// The first group with the given name in the registry, if any.
pub open spec fn group_lookup(
    groups: Seq<(Seq<char>, GroupConfigView)>,
    name: Seq<char>,
) -> Option<GroupConfigView>
    decreases groups.len(),
{
    if groups.len() == 0 {
        Option::None
    } else if groups[0].0 == name {
        Option::Some(groups[0].1)
    } else {
        group_lookup(groups.drop_first(), name)
    }
}

/// The error text for a group name that the registry does not know.
pub open spec fn unknown_group_msg(name: Seq<char>) -> Seq<char> {
    "ERROR: unknown group \""@ + name + "\""@
}

/// The settings after overlaying, in order, every group named in `order`;
/// an unknown name is a resolution error.
pub open spec fn apply_groups(
    cur: SettingsView,
    groups: Seq<(Seq<char>, GroupConfigView)>,
    order: Seq<Seq<char>>,
) -> Result<SettingsView, Seq<char>>
    decreases order.len(),
{
    if order.len() == 0 {
        Result::Ok(cur)
    } else {
        match group_lookup(groups, order[0]) {
            Option::None => Result::Err(unknown_group_msg(order[0])),
            Option::Some(g) => apply_groups(
                merge_views(cur, g.settings),
                groups,
                order.drop_first(),
            ),
        }
    }
}

/// The fully merged settings: defaults, then the user file, then each group
/// overlay in activation order, then the environment, then the command line.
pub open spec fn spec_resolve_settings(
    sources_defaults: SettingsView,
    sources_file: SettingsView,
    sources_env: SettingsView,
    sources_cli: SettingsView,
    groups: Seq<(Seq<char>, GroupConfigView)>,
    order: Seq<Seq<char>>,
) -> Result<SettingsView, Seq<char>> {
    match apply_groups(merge_views(sources_defaults, sources_file), groups, order) {
        Result::Err(m) => Result::Err(m),
        Result::Ok(s) => Result::Ok(
            merge_views(merge_views(s, sources_env), sources_cli),
        ),
    }
}

/// Merge of one optional scalar string field.
fn merge_opt_string(base: Option<String>, over: Option<String>) -> (r: Option<String>)
    ensures
        r.deep_view() == merge_scalar(base.deep_view(), over.deep_view()),
{
    match over {
        Option::Some(v) => Option::Some(v),
        Option::None => base,
    }
}

/// Merge of one optional list field, appending the override's items.
fn merge_opt_list(base: Option<Vec<String>>, over: Option<Vec<String>>) -> (r: Option<
    Vec<String>,
>)
    ensures
        r.deep_view() == merge_list(base.deep_view(), over.deep_view()),
{
    let ghost base_items: Seq<Seq<char>> = match base.deep_view() {
        Option::Some(l) => l,
        Option::None => Seq::empty(),
    };
    match over {
        Option::None => base,
        Option::Some(items) => {
            let mut b: Vec<String> = match base {
                Option::Some(list) => list,
                Option::None => Vec::new(),
            };
            let ghost b0 = b@;
            let mut i: usize = 0;
            proof {
                assert(b@ =~= b0 + items@.take(0));
            }
            while i < items.len()
                invariant
                    i <= items.len(),
                    b@ == b0 + items@.take(i as int),
                decreases items.len() - i,
            {
                b.push(items[i].clone());
                i = i + 1;
                proof {
                    assert(b@ =~= b0 + items@.take(i as int));
                }
            }
            proof {
                assert(b@ =~= b0 + items@);
                assert(b.deep_view() =~= base_items + items.deep_view());
            }
            Option::Some(b)
        },
    }
}

/// Pairwise merge of two settings records, base first: scalars are replaced,
/// lists append.
pub fn merge_settings(base: Settings, over: Settings) -> (r: Settings)
    ensures
        r@ == merge_views(base@, over@),
{
    let r = Settings {
        run_command: merge_opt_string(base.run_command, over.run_command),
        image: merge_opt_string(base.image, over.image),
        ports: merge_opt_list(base.ports, over.ports),
        cache: merge_opt_list(base.cache, over.cache),
        mounts: merge_opt_list(base.mounts, over.mounts),
        env_vars: merge_opt_list(base.env_vars, over.env_vars),
        env_files: merge_opt_list(base.env_files, over.env_files),
        engine_args: merge_opt_list(base.engine_args, over.engine_args),
        engine: match over.engine {
            Option::Some(e) => Option::Some(e),
            Option::None => base.engine,
        },
    };
    r
}

/// The index of the first registry entry with the given name, if any.
fn find_group(groups: &Vec<(String, GroupConfig)>, name: &String) -> (r: Option<usize>)
    ensures
        match r {
            Option::Some(i) => i < groups.len() && groups[i as int].0@ == name@
                && group_lookup(groups_view(groups@), name@) == Option::Some(
                groups[i as int].1@,
            ),
            Option::None => group_lookup(groups_view(groups@), name@) == Option::<
                GroupConfigView,
            >::None,
        },
{
    let ghost gv = groups_view(groups@);
    let mut i: usize = 0;
    proof {
        assert(gv.skip(0) =~= gv);
    }
    while i < groups.len()
        invariant
            i <= groups.len(),
            gv == groups_view(groups@),
            gv.len() == groups.len(),
            group_lookup(gv, name@) == group_lookup(gv.skip(i as int), name@),
        decreases groups.len() - i,
    {
        proof {
            assert(gv.skip(i as int)[0] == gv[i as int]);
            assert(gv.skip(i as int).drop_first() =~= gv.skip(i + 1));
        }
        if groups[i].0.eq(name) {
            return Option::Some(i);
        }
        i = i + 1;
    }
    proof {
        assert(gv.skip(i as int) =~= Seq::<(Seq<char>, GroupConfigView)>::empty());
    }
    Option::None
}

/// Builds the text of the unknown-group error.
fn unknown_group_error(name: &String) -> (r: AppError)
    ensures
        r matches AppError::Message(m) && m@ == unknown_group_msg(name@),
{
    let mut msg = String::new();
    msg.append("ERROR: unknown group \"");
    msg.append(name.as_str());
    msg.append("\"");
    proof {
        assert(msg@ =~= unknown_group_msg(name@));
    }
    AppError::message(msg)
}

/// Merges the four ordered sources and the active group overlays into the
/// final settings record. Group overlays apply after the user file and
/// before the environment; an unknown group name in `group_order` is a
/// fatal resolution error.
#[verifier::loop_isolation(false)]
pub fn resolve_settings(
    sources: Sources,
    groups: &Vec<(String, GroupConfig)>,
    group_order: &Vec<String>,
) -> (r: Result<Settings, AppError>)
    ensures
        match r {
            Result::Ok(s) => spec_resolve_settings(
                sources.defaults@,
                sources.file@,
                sources.env@,
                sources.cli@,
                groups_view(groups@),
                group_order.deep_view(),
            ) == Result::<SettingsView, Seq<char>>::Ok(s@),
            Result::Err(e) => {
                &&& e matches AppError::Message(m) && spec_resolve_settings(
                    sources.defaults@,
                    sources.file@,
                    sources.env@,
                    sources.cli@,
                    groups_view(groups@),
                    group_order.deep_view(),
                ) == Result::<SettingsView, Seq<char>>::Err(m@)
            },
        },
{
    let ghost gv = groups_view(groups@);
    let ghost order = group_order.deep_view();
    let ghost start = merge_views(sources.defaults@, sources.file@);
    let mut cur = merge_settings(sources.defaults, sources.file);
    let mut i: usize = 0;
    proof {
        assert(order.skip(0) =~= order);
    }
    while i < group_order.len()
        invariant
            i <= group_order.len(),
            gv == groups_view(groups@),
            order == group_order.deep_view(),
            order.len() == group_order.len(),
            apply_groups(start, gv, order) == apply_groups(cur@, gv, order.skip(i as int)),
        decreases group_order.len() - i,
    {
        proof {
            assert(order.skip(i as int)[0] == order[i as int]);
            assert(order.skip(i as int).drop_first() =~= order.skip(i + 1));
        }
        match find_group(groups, &group_order[i]) {
            Option::None => {
                proof {
                    assert(apply_groups(cur@, gv, order.skip(i as int)) == Result::<
                        SettingsView,
                        Seq<char>,
                    >::Err(unknown_group_msg(order[i as int])));
                }
                return Result::Err(unknown_group_error(&group_order[i]));
            },
            Option::Some(idx) => {
                let overlay = groups[idx].1.settings.duplicate();
                cur = merge_settings(cur, overlay);
            },
        }
        i = i + 1;
    }
    proof {
        assert(order.skip(i as int) =~= Seq::<Seq<char>>::empty());
    }
    let with_env = merge_settings(cur, sources.env);
    let merged = merge_settings(with_env, sources.cli);
    Result::Ok(merged)
}

/// The always-on group names of one source, or the empty list.
pub open spec fn always_on_of(c: ConfigView) -> Seq<Seq<char>> {
    match c.always_on_groups {
        Option::Some(list) => list,
        Option::None => Seq::empty(),
    }
}

/// Concatenates the always-on group lists of the four sources in
/// source-precedence order: defaults, file, environment, command line.
/// Duplicates are kept; normalization happens later.
pub fn resolve_always_on_groups(
    defaults: &Config,
    file: &Config,
    env: &Config,
    cli: &Config,
) -> (r: Vec<String>)
    ensures
        r.deep_view() == always_on_of(defaults@) + always_on_of(file@) + always_on_of(env@)
            + always_on_of(cli@),
{
    let mut r: Vec<String> = Vec::new();
    append_opt_groups(&mut r, &defaults.always_on_groups);
    append_opt_groups(&mut r, &file.always_on_groups);
    append_opt_groups(&mut r, &env.always_on_groups);
    append_opt_groups(&mut r, &cli.always_on_groups);
    proof {
        assert(r.deep_view() =~= always_on_of(defaults@) + always_on_of(file@) + always_on_of(
            env@,
        ) + always_on_of(cli@));
    }
    r
}

/// Appends the items of an optional list to `dst`.
fn append_opt_groups(dst: &mut Vec<String>, src: &Option<Vec<String>>)
    ensures
        final(dst).deep_view() == old(dst).deep_view() + (match src.deep_view() {
            Option::Some(list) => list,
            Option::None => Seq::<Seq<char>>::empty(),
        }),
{
    match src {
        Option::None => {
            proof {
                assert(dst.deep_view() =~= old(dst).deep_view() + Seq::<Seq<char>>::empty());
            }
        },
        Option::Some(list) => {
            let ghost d0 = dst@;
            let mut i: usize = 0;
            proof {
                assert(dst@ =~= d0 + list@.take(0));
            }
            while i < list.len()
                invariant
                    i <= list.len(),
                    dst@ == d0 + list@.take(i as int),
                    d0 == old(dst)@,
                decreases list.len() - i,
            {
                dst.push(list[i].clone());
                i = i + 1;
                proof {
                    assert(dst@ =~= d0 + list@.take(i as int));
                }
            }
            proof {
                assert(dst@ =~= d0 + list@);
                assert(dst.deep_view() =~= old(dst).deep_view() + list.deep_view());
            }
        },
    }
}

/// The persistence mode the three exclusive flags select, or the error text
/// when more than one flag is set.
pub open spec fn spec_persist_mode(persist: bool, persisted: bool, discard: bool) -> Result<
    PersistMode,
    Seq<char>,
> {
    if (persist && persisted) || (persist && discard) || (persisted && discard) {
        Result::Err("ERROR: --persist, --persisted, and --discard are mutually exclusive"@)
    } else if discard {
        Result::Ok(PersistMode::Discard)
    } else if persisted {
        Result::Ok(PersistMode::Reuse)
    } else if persist {
        Result::Ok(PersistMode::Create)
    } else {
        Result::Ok(PersistMode::Ephemeral)
    }
}

/// Derives the persistence mode from the three exclusive flags; setting more
/// than one of them is a validation error.
pub fn resolve_persist_mode(persist: bool, persisted: bool, discard: bool) -> (r: Result<
    PersistMode,
    AppError,
>)
    ensures
        match r {
            Result::Ok(mode) => spec_persist_mode(persist, persisted, discard) == Result::<
                PersistMode,
                Seq<char>,
            >::Ok(mode),
            Result::Err(e) => e matches AppError::Message(m) && spec_persist_mode(
                persist,
                persisted,
                discard,
            ) == Result::<PersistMode, Seq<char>>::Err(m@),
        },
{
    if (persist && persisted) || (persist && discard) || (persisted && discard) {
        return Result::Err(AppError::message(String::from_str(
            "ERROR: --persist, --persisted, and --discard are mutually exclusive",
        )));
    }
    if discard {
        return Result::Ok(PersistMode::Discard);
    }
    if persisted {
        return Result::Ok(PersistMode::Reuse);
    }
    if persist {
        return Result::Ok(PersistMode::Create);
    }
    Result::Ok(PersistMode::Ephemeral)
}

} // verus!
