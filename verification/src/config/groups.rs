//! The group registry: merging compiled-in and user-file group definitions,
//! validating always-on group names, and computing the order in which group
//! overlays are applied.

use vstd::prelude::*;
use vstd::string::StringExecFns;

use crate::cli::GroupFlag;
use crate::config::types::{GroupConfig, GroupConfigView, groups_view};
use crate::error::AppError;
use crate::strutil;
use crate::strutil::trimmed;

verus! {

/// The error text for a group name that is empty after trimming.
pub open spec fn empty_group_name_msg() -> Seq<char> {
    "ERROR: group name cannot be empty"@
}

/// The trimmed form of a group name, or the error for an empty one.
pub open spec fn spec_normalize_name(name: Seq<char>) -> Result<Seq<char>, Seq<char>> {
    if trimmed(name).len() == 0 {
        Result::Err(empty_group_name_msg())
    } else {
        Result::Ok(trimmed(name))
    }
}

/// Trims a group name; a name that is empty after trimming is a
/// validation error.
pub fn normalize_group_name(name: &str) -> (r: Result<String, AppError>)
    ensures
        match r {
            Result::Ok(t) => spec_normalize_name(name@) == Result::<Seq<char>, Seq<char>>::Ok(
                t@,
            ),
            Result::Err(e) => e matches AppError::Message(m) && spec_normalize_name(name@)
                == Result::<Seq<char>, Seq<char>>::Err(m@),
        },
{
    let t = strutil::trim(name);
    if t.as_str().unicode_len() == 0 {
        return Result::Err(AppError::message(String::from_str(
            "ERROR: group name cannot be empty",
        )));
    }
    Result::Ok(t)
}

/// The registry without any entry of the given name.
pub open spec fn remove_group(
    m: Seq<(Seq<char>, GroupConfigView)>,
    name: Seq<char>,
) -> Seq<(Seq<char>, GroupConfigView)>
    decreases m.len(),
{
    if m.len() == 0 {
        Seq::empty()
    } else if m[0].0 == name {
        remove_group(m.drop_first(), name)
    } else {
        seq![m[0]] + remove_group(m.drop_first(), name)
    }
}

/// The registry with the entry of the given name replaced: any previous
/// entry of that name is dropped and the new one appended.
pub open spec fn upsert_group(
    m: Seq<(Seq<char>, GroupConfigView)>,
    name: Seq<char>,
    g: GroupConfigView,
) -> Seq<(Seq<char>, GroupConfigView)> {
    remove_group(m, name).push((name, g))
}

/// Folds a list of named group definitions into an accumulated registry.
/// Every name is trimmed (an empty one is an error). In the overrides pass a
/// disabled entry removes its name from the registry, and any other entry is
/// inserted with `disabled` forced off; in the base pass entries are
/// inserted as they are.
pub open spec fn add_groups(
    acc: Seq<(Seq<char>, GroupConfigView)>,
    items: Seq<(Seq<char>, GroupConfigView)>,
    from_overrides: bool,
) -> Result<Seq<(Seq<char>, GroupConfigView)>, Seq<char>>
    decreases items.len(),
{
    if items.len() == 0 {
        Result::Ok(acc)
    } else {
        let t = trimmed(items[0].0);
        if t.len() == 0 {
            Result::Err(empty_group_name_msg())
        } else {
            let acc2 = if from_overrides && items[0].1.disabled {
                remove_group(acc, t)
            } else if from_overrides {
                upsert_group(
                    acc,
                    t,
                    GroupConfigView { settings: items[0].1.settings, disabled: false },
                )
            } else {
                upsert_group(acc, t, items[0].1)
            };
            add_groups(acc2, items.drop_first(), from_overrides)
        }
    }
}

/// The merged group registry: the base definitions, overlaid by the
/// override definitions, where a disabled override removes its name.
pub open spec fn spec_merge_group_definitions(
    base: Seq<(Seq<char>, GroupConfigView)>,
    overrides: Seq<(Seq<char>, GroupConfigView)>,
) -> Result<Seq<(Seq<char>, GroupConfigView)>, Seq<char>> {
    match add_groups(Seq::empty(), base, false) {
        Result::Err(m) => Result::Err(m),
        Result::Ok(acc) => add_groups(acc, overrides, true),
    }
}

/// A copy of the registry without any entry of the given name.
#[verifier::loop_isolation(false)]
fn remove_group_entries(m: &Vec<(String, GroupConfig)>, name: &String) -> (r: Vec<
    (String, GroupConfig),
>)
    ensures
        groups_view(r@) == remove_group(groups_view(m@), name@),
{
    let ghost mv = groups_view(m@);
    let mut r: Vec<(String, GroupConfig)> = Vec::new();
    let mut i: usize = 0;
    proof {
        assert(mv.skip(0) =~= mv);
        assert(groups_view(r@) =~= Seq::<(Seq<char>, GroupConfigView)>::empty());
        assert(remove_group(mv, name@) =~= groups_view(r@) + remove_group(mv, name@));
    }
    while i < m.len()
        invariant
            i <= m.len(),
            remove_group(mv, name@) == groups_view(r@) + remove_group(
                mv.skip(i as int),
                name@,
            ),
        decreases m.len() - i,
    {
        proof {
            assert(mv.skip(i as int)[0] == mv[i as int]);
            assert(mv.skip(i as int).drop_first() =~= mv.skip(i + 1));
        }
        if !strutil::str_eq(m[i].0.as_str(), name.as_str()) {
            let ghost rv = groups_view(r@);
            r.push((m[i].0.clone(), m[i].1.duplicate()));
            proof {
                assert(groups_view(r@) =~= rv.push(mv[i as int]));
                assert(rv.push(mv[i as int]) =~= rv + seq![mv[i as int]]);
                assert(groups_view(r@) + remove_group(mv.skip(i + 1), name@) =~= rv + (seq![
                    mv[i as int],
                ] + remove_group(mv.skip(i + 1), name@)));
            }
        }
        i = i + 1;
    }
    proof {
        assert(mv.skip(i as int) =~= Seq::<(Seq<char>, GroupConfigView)>::empty());
        assert(groups_view(r@) + remove_group(mv.skip(i as int), name@) =~= groups_view(r@));
    }
    r
}

/// One pass of the registry fold, in executable form.
#[verifier::loop_isolation(false)]
fn add_groups_pass(
    acc: Vec<(String, GroupConfig)>,
    items: &Vec<(String, GroupConfig)>,
    from_overrides: bool,
) -> (r: Result<Vec<(String, GroupConfig)>, AppError>)
    ensures
        match r {
            Result::Ok(out) => add_groups(groups_view(acc@), groups_view(items@), from_overrides)
                == Result::<Seq<(Seq<char>, GroupConfigView)>, Seq<char>>::Ok(groups_view(out@)),
            Result::Err(e) => e matches AppError::Message(m) && add_groups(
                groups_view(acc@),
                groups_view(items@),
                from_overrides,
            ) == Result::<Seq<(Seq<char>, GroupConfigView)>, Seq<char>>::Err(m@),
        },
{
    let ghost acc0 = groups_view(acc@);
    let ghost iv = groups_view(items@);
    let mut cur = acc;
    let mut i: usize = 0;
    proof {
        assert(iv.skip(0) =~= iv);
    }
    while i < items.len()
        invariant
            i <= items.len(),
            add_groups(acc0, iv, from_overrides) == add_groups(
                groups_view(cur@),
                iv.skip(i as int),
                from_overrides,
            ),
        decreases items.len() - i,
    {
        proof {
            assert(iv.skip(i as int)[0] == iv[i as int]);
            assert(iv.skip(i as int).drop_first() =~= iv.skip(i + 1));
        }
        let ghost curv = groups_view(cur@);
        let name = match normalize_group_name(items[i].0.as_str()) {
            Result::Ok(t) => t,
            Result::Err(e) => {
                return Result::Err(e);
            },
        };
        let ghost nm = name@;
        if from_overrides && items[i].1.disabled {
            cur = remove_group_entries(&cur, &name);
            proof {
                assert(groups_view(cur@) == remove_group(curv, nm));
            }
        } else {
            let mut next = remove_group_entries(&cur, &name);
            let ghost nv = groups_view(next@);
            let entry = GroupConfig {
                settings: items[i].1.settings.duplicate(),
                disabled: if from_overrides {
                    false
                } else {
                    items[i].1.disabled
                },
            };
            let ghost ev = entry@;
            next.push((name, entry));
            proof {
                assert(groups_view(next@) =~= nv.push((nm, ev)));
                assert(groups_view(next@) == upsert_group(curv, nm, ev));
                if from_overrides {
                    assert(ev == GroupConfigView {
                        settings: iv[i as int].1.settings,
                        disabled: false,
                    });
                } else {
                    assert(ev == iv[i as int].1);
                }
            }
            cur = next;
        }
        i = i + 1;
    }
    proof {
        assert(iv.skip(i as int) =~= Seq::<(Seq<char>, GroupConfigView)>::empty());
    }
    Result::Ok(cur)
}

/// The trimmed always-on list, or the empty-name error: every name is
/// trimmed, and a name that is empty after trimming is an error.
pub open spec fn spec_normalize_order(names: Seq<Seq<char>>) -> Result<Seq<Seq<char>>, Seq<char>> {
    if forall|j: int| 0 <= j < names.len() ==> trimmed(#[trigger] names[j]).len() != 0 {
        Result::Ok(Seq::new(names.len(), |j: int| trimmed(names[j])))
    } else {
        Result::Err(empty_group_name_msg())
    }
}

/// Trims every group name in the list; a name that is empty after trimming
/// is a validation error. Duplicates are preserved.
pub fn normalize_group_order(groups: &Vec<String>) -> (r: Result<Vec<String>, AppError>)
    ensures
        match r {
            Result::Ok(out) => spec_normalize_order(groups.deep_view()) == Result::<
                Seq<Seq<char>>,
                Seq<char>,
            >::Ok(out.deep_view()),
            Result::Err(e) => e matches AppError::Message(m) && spec_normalize_order(
                groups.deep_view(),
            ) == Result::<Seq<Seq<char>>, Seq<char>>::Err(m@),
        },
{
    let ghost gv = groups.deep_view();
    let mut out: Vec<String> = Vec::new();
    let mut i: usize = 0;
    while i < groups.len()
        invariant
            i <= groups.len(),
            gv == groups.deep_view(),
            gv.len() == groups.len(),
            out.deep_view() == Seq::new(i as nat, |j: int| trimmed(gv[j])),
            forall|j: int| 0 <= j < i ==> trimmed(#[trigger] gv[j]).len() != 0,
        decreases groups.len() - i,
    {
        proof {
            assert(gv[i as int] == groups@[i as int]@);
        }
        match normalize_group_name(groups[i].as_str()) {
            Result::Ok(t) => {
                let ghost tv = t@;
                let ghost pre = out.deep_view();
                out.push(t);
                proof {
                    assert(out.deep_view() =~= pre.push(tv));
                    assert(pre.push(tv) =~= Seq::new((i + 1) as nat, |j: int| trimmed(gv[j])));
                }
            },
            Result::Err(e) => {
                proof {
                    assert(trimmed(gv[i as int]).len() == 0);
                    assert(spec_normalize_order(gv) == Result::<Seq<Seq<char>>, Seq<char>>::Err(
                        empty_group_name_msg(),
                    ));
                }
                return Result::Err(e);
            },
        }
        i = i + 1;
    }
    proof {
        assert(out.deep_view() =~= Seq::new(gv.len(), |j: int| trimmed(gv[j])));
    }
    Result::Ok(out)
}

/// The error text for an always-on group name missing from the registry.
pub open spec fn unknown_always_on_msg(name: Seq<char>) -> Seq<char> {
    "ERROR: always_on_groups includes unknown group \""@ + name + "\""@
}

/// The model of a selection list: name/enabled pairs in registry order.
pub open spec fn selection_view(sel: Seq<(String, bool)>) -> Seq<(Seq<char>, bool)> {
    Seq::new(sel.len(), |j: int| (sel[j].0@, sel[j].1))
}

/// The selection with every entry of the given name switched on.
pub open spec fn mark_enabled(
    sel: Seq<(Seq<char>, bool)>,
    name: Seq<char>,
) -> Seq<(Seq<char>, bool)> {
    Seq::new(sel.len(), |j: int| (sel[j].0, sel[j].1 || sel[j].0 == name))
}

/// Folds the always-on names into the selection: each name is trimmed (an
/// empty one is an error), must exist in the registry (else an error), and
/// switches its entries on.
pub open spec fn apply_always_on(
    sel: Seq<(Seq<char>, bool)>,
    names: Seq<Seq<char>>,
    groups: Seq<(Seq<char>, GroupConfigView)>,
) -> Result<Seq<(Seq<char>, bool)>, Seq<char>>
    decreases names.len(),
{
    if names.len() == 0 {
        Result::Ok(sel)
    } else {
        let t = trimmed(names[0]);
        if t.len() == 0 {
            Result::Err(empty_group_name_msg())
        } else if crate::config::merge::group_lookup(groups, t) is None {
            Result::Err(unknown_always_on_msg(t))
        } else {
            apply_always_on(mark_enabled(sel, t), names.drop_first(), groups)
        }
    }
}

/// The initial selection: every registry name, switched off.
pub open spec fn init_selection(
    groups: Seq<(Seq<char>, GroupConfigView)>,
) -> Seq<(Seq<char>, bool)> {
    Seq::new(groups.len(), |j: int| (groups[j].0, false))
}

/// The selection after validating and applying the always-on names.
pub open spec fn spec_build_selection(
    groups: Seq<(Seq<char>, GroupConfigView)>,
    defaults: Seq<Seq<char>>,
) -> Result<Seq<(Seq<char>, bool)>, Seq<char>> {
    apply_always_on(init_selection(groups), defaults, groups)
}

/// A copy of the selection with every entry of the given name switched on.
#[verifier::loop_isolation(false)]
fn mark_selection(sel: &Vec<(String, bool)>, name: &String) -> (r: Vec<(String, bool)>)
    ensures
        selection_view(r@) == mark_enabled(selection_view(sel@), name@),
{
    let mut r: Vec<(String, bool)> = Vec::new();
    let mut i: usize = 0;
    while i < sel.len()
        invariant
            i <= sel.len(),
            selection_view(r@) == mark_enabled(selection_view(sel@), name@).take(i as int),
        decreases sel.len() - i,
    {
        let hit = strutil::str_eq(sel[i].0.as_str(), name.as_str());
        r.push((sel[i].0.clone(), sel[i].1 || hit));
        i = i + 1;
        proof {
            assert(selection_view(r@) =~= mark_enabled(selection_view(sel@), name@).take(
                i as int,
            ));
        }
    }
    proof {
        assert(selection_view(r@) =~= mark_enabled(selection_view(sel@), name@));
    }
    r
}

/// Whether the registry holds a group with the given name.
#[verifier::loop_isolation(false)]
pub(crate) fn group_known(groups: &Vec<(String, GroupConfig)>, name: &String) -> (r: bool)
    ensures
        r == !(crate::config::merge::group_lookup(groups_view(groups@), name@) is None),
{
    let ghost gv = groups_view(groups@);
    let mut i: usize = 0;
    proof {
        assert(gv.skip(0) =~= gv);
    }
    while i < groups.len()
        invariant
            i <= groups.len(),
            crate::config::merge::group_lookup(gv, name@) == crate::config::merge::group_lookup(
                gv.skip(i as int),
                name@,
            ),
        decreases groups.len() - i,
    {
        proof {
            assert(gv.skip(i as int)[0] == gv[i as int]);
            assert(gv.skip(i as int).drop_first() =~= gv.skip(i + 1));
        }
        if strutil::str_eq(groups[i].0.as_str(), name.as_str()) {
            return true;
        }
        i = i + 1;
    }
    proof {
        assert(gv.skip(i as int) =~= Seq::<(Seq<char>, GroupConfigView)>::empty());
    }
    false
}

/// Validates the always-on group names against the merged registry and
/// returns, for every registry name, whether an always-on entry switches it
/// on. A trimmed-empty name or a name missing from the registry is an error.
#[verifier::loop_isolation(false)]
pub fn build_group_selection(groups: &Vec<(String, GroupConfig)>, defaults: &Vec<String>) -> (r:
    Result<Vec<(String, bool)>, AppError>)
    ensures
        match r {
            Result::Ok(out) => spec_build_selection(groups_view(groups@), defaults.deep_view())
                == Result::<Seq<(Seq<char>, bool)>, Seq<char>>::Ok(selection_view(out@)),
            Result::Err(e) => e matches AppError::Message(m) && spec_build_selection(
                groups_view(groups@),
                defaults.deep_view(),
            ) == Result::<Seq<(Seq<char>, bool)>, Seq<char>>::Err(m@),
        },
{
    let ghost gv = groups_view(groups@);
    let ghost dv = defaults.deep_view();
    let mut sel: Vec<(String, bool)> = Vec::new();
    let mut i: usize = 0;
    while i < groups.len()
        invariant
            i <= groups.len(),
            selection_view(sel@) == init_selection(gv).take(i as int),
        decreases groups.len() - i,
    {
        sel.push((groups[i].0.clone(), false));
        i = i + 1;
        proof {
            assert(selection_view(sel@) =~= init_selection(gv).take(i as int));
        }
    }
    proof {
        assert(selection_view(sel@) =~= init_selection(gv));
        assert(dv.skip(0) =~= dv);
    }
    let mut k: usize = 0;
    while k < defaults.len()
        invariant
            k <= defaults.len(),
            apply_always_on(init_selection(gv), dv, gv) == apply_always_on(
                selection_view(sel@),
                dv.skip(k as int),
                gv,
            ),
        decreases defaults.len() - k,
    {
        proof {
            assert(dv.skip(k as int)[0] == dv[k as int]);
            assert(dv.skip(k as int).drop_first() =~= dv.skip(k + 1));
        }
        let name = match normalize_group_name(defaults[k].as_str()) {
            Result::Ok(t) => t,
            Result::Err(e) => {
                return Result::Err(e);
            },
        };
        if !group_known(groups, &name) {
            let mut msg = String::new();
            msg.append("ERROR: always_on_groups includes unknown group \"");
            msg.append(name.as_str());
            msg.append("\"");
            proof {
                assert(msg@ =~= unknown_always_on_msg(name@));
            }
            return Result::Err(AppError::message(msg));
        }
        sel = mark_selection(&sel, &name);
        k = k + 1;
    }
    proof {
        assert(dv.skip(k as int) =~= Seq::<Seq<char>>::empty());
    }
    Result::Ok(sel)
}

/// Whether a list of names holds the given name.
pub open spec fn contains_name(s: Seq<Seq<char>>, name: Seq<char>) -> bool {
    exists|j: int| 0 <= j < s.len() && s[j] == name
}

/// The model of a group-flag list: name/flag pairs.
pub open spec fn flags_view(flags: Seq<(String, GroupFlag)>) -> Seq<(Seq<char>, GroupFlag)> {
    Seq::new(flags.len(), |j: int| (flags[j].0@, flags[j].1))
}

/// The flags that were passed, in list order.
pub open spec fn selected_flags(
    fv: Seq<(Seq<char>, GroupFlag)>,
) -> Seq<(Seq<char>, GroupFlag)>
    decreases fv.len(),
{
    if fv.len() == 0 {
        Seq::empty()
    } else if fv[0].1.set {
        seq![fv[0]] + selected_flags(fv.drop_first())
    } else {
        selected_flags(fv.drop_first())
    }
}

/// Stable insertion into a list sorted by ascending flag order: the new
/// entry stands before any entry whose order is not smaller.
pub open spec fn insert_by_order(
    x: (Seq<char>, GroupFlag),
    s: Seq<(Seq<char>, GroupFlag)>,
) -> Seq<(Seq<char>, GroupFlag)>
    decreases s.len(),
{
    if s.len() == 0 {
        seq![x]
    } else if x.1.order <= s[0].1.order {
        seq![x] + s
    } else {
        seq![s[0]] + insert_by_order(x, s.drop_first())
    }
}

/// The list sorted by ascending flag order, by stable insertion.
pub open spec fn sort_by_order(
    s: Seq<(Seq<char>, GroupFlag)>,
) -> Seq<(Seq<char>, GroupFlag)>
    decreases s.len(),
{
    if s.len() == 0 {
        Seq::empty()
    } else {
        insert_by_order(s[0], sort_by_order(s.drop_first()))
    }
}

/// The names of the entries whose name is not already in `base`, in order.
pub open spec fn names_not_in(
    s: Seq<(Seq<char>, GroupFlag)>,
    base: Seq<Seq<char>>,
) -> Seq<Seq<char>>
    decreases s.len(),
{
    if s.len() == 0 {
        Seq::empty()
    } else if contains_name(base, s[0].0) {
        names_not_in(s.drop_first(), base)
    } else {
        seq![s[0].0] + names_not_in(s.drop_first(), base)
    }
}

/// The group application order: the always-on names first, unchanged, then
/// every flag-activated group that is not already among them, ordered by
/// flag position on the command line.
pub open spec fn spec_resolve_group_order(
    base: Seq<Seq<char>>,
    fv: Seq<(Seq<char>, GroupFlag)>,
) -> Seq<Seq<char>> {
    base + names_not_in(sort_by_order(selected_flags(fv)), base)
}

/// Whether the list holds the given name.
#[verifier::loop_isolation(false)]
fn list_contains(s: &Vec<String>, name: &String) -> (r: bool)
    ensures
        r == contains_name(s.deep_view(), name@),
{
    let mut i: usize = 0;
    while i < s.len()
        invariant
            i <= s.len(),
            forall|j: int| 0 <= j < i ==> s.deep_view()[j] != name@,
        decreases s.len() - i,
    {
        if strutil::str_eq(s[i].as_str(), name.as_str()) {
            proof {
                assert(s.deep_view()[i as int] == name@);
                assert(contains_name(s.deep_view(), name@));
            }
            return true;
        }
        i = i + 1;
    }
    false
}

/// Inserts one selected flag into a list sorted by ascending order, keeping
/// it stable: the new entry stands before entries with the same order.
#[verifier::loop_isolation(false)]
fn insert_sorted(x: (String, GroupFlag), mut s: Vec<(String, GroupFlag)>) -> (r: Vec<
    (String, GroupFlag),
>)
    ensures
        flags_view(r@) == insert_by_order((x.0@, x.1), flags_view(s@)),
    decreases s.len(),
{
    let ghost xv = (x.0@, x.1);
    let ghost sv = flags_view(s@);
    if s.len() == 0 {
        s.push(x);
        proof {
            assert(flags_view(s@) =~= seq![xv]);
        }
        s
    } else if x.1.order <= s[0].1.order {
        s.insert(0, x);
        proof {
            assert(flags_view(s@) =~= seq![xv] + sv);
        }
        s
    } else {
        let first = s.remove(0);
        let ghost fv0 = (first.0@, first.1);
        proof {
            assert(flags_view(s@) =~= sv.drop_first());
        }
        let mut rest = insert_sorted(x, s);
        rest.insert(0, first);
        proof {
            assert(flags_view(rest@) =~= seq![fv0] + insert_by_order(xv, sv.drop_first()));
        }
        rest
    }
}

/// Computes the order in which group overlays are applied: the always-on
/// names first, in their given order, then the flag-activated groups that
/// are not already among them, by ascending flag position. An always-on
/// group that is also flagged is neither duplicated nor moved.
#[verifier::loop_isolation(false)]
pub fn resolve_group_order(default_groups: &Vec<String>, flags: &Vec<(String, GroupFlag)>) -> (r:
    Vec<String>)
    ensures
        r.deep_view() == spec_resolve_group_order(default_groups.deep_view(), flags_view(flags@)),
{
    let ghost fv = flags_view(flags@);
    let mut selected: Vec<(String, GroupFlag)> = Vec::new();
    let mut i: usize = 0;
    proof {
        assert(fv.skip(0) =~= fv);
        assert(flags_view(selected@) =~= Seq::<(Seq<char>, GroupFlag)>::empty());
        assert(flags_view(selected@) + selected_flags(fv) =~= selected_flags(fv));
    }
    while i < flags.len()
        invariant
            i <= flags.len(),
            selected_flags(fv) == flags_view(selected@) + selected_flags(fv.skip(i as int)),
        decreases flags.len() - i,
    {
        proof {
            assert(fv.skip(i as int)[0] == fv[i as int]);
            assert(fv.skip(i as int).drop_first() =~= fv.skip(i + 1));
        }
        if flags[i].1.set {
            let ghost pre = flags_view(selected@);
            selected.push((flags[i].0.clone(), flags[i].1));
            proof {
                assert(flags_view(selected@) =~= pre.push(fv[i as int]));
                assert(pre.push(fv[i as int]) + selected_flags(fv.skip(i + 1)) =~= pre + (seq![
                    fv[i as int],
                ] + selected_flags(fv.skip(i + 1))));
            }
        }
        i = i + 1;
    }
    proof {
        assert(fv.skip(i as int) =~= Seq::<(Seq<char>, GroupFlag)>::empty());
        assert(flags_view(selected@) + selected_flags(fv.skip(i as int)) =~= flags_view(
            selected@,
        ));
    }
    let ghost selv = flags_view(selected@);
    let mut sorted: Vec<(String, GroupFlag)> = Vec::new();
    let mut k: usize = selected.len();
    proof {
        assert(selv.skip(selected.len() as int) =~= Seq::<(Seq<char>, GroupFlag)>::empty());
        assert(flags_view(sorted@) =~= sort_by_order(selv.skip(selected.len() as int)));
    }
    while k > 0
        invariant
            k <= selected.len(),
            flags_view(sorted@) == sort_by_order(selv.skip(k as int)),
        decreases k,
    {
        k = k - 1;
        proof {
            assert(selv.skip(k as int)[0] == selv[k as int]);
            assert(selv.skip(k as int).drop_first() =~= selv.skip(k + 1));
        }
        sorted = insert_sorted((selected[k].0.clone(), selected[k].1), sorted);
    }
    proof {
        assert(selv.skip(0) =~= selv);
    }
    let ghost sortv = flags_view(sorted@);
    let mut out = crate::config::types::copy_string_vec(default_groups);
    let ghost base = default_groups.deep_view();
    let mut j: usize = 0;
    proof {
        assert(sortv.skip(0) =~= sortv);
        assert(out.deep_view() =~= base + names_not_in(sortv, base).take(0));
    }
    while j < sorted.len()
        invariant
            j <= sorted.len(),
            sortv.len() == sorted.len(),
            out.deep_view() + names_not_in(sortv.skip(j as int), base) == base + names_not_in(
                sortv,
                base,
            ),
        decreases sorted.len() - j,
    {
        proof {
            assert(sortv.skip(j as int)[0] == sortv[j as int]);
            assert(sortv.skip(j as int).drop_first() =~= sortv.skip(j + 1));
        }
        if !list_contains(default_groups, &sorted[j].0) {
            let ghost pre = out.deep_view();
            out.push(sorted[j].0.clone());
            proof {
                assert(out.deep_view() =~= pre.push(sortv[j as int].0));
                assert(pre.push(sortv[j as int].0) + names_not_in(sortv.skip(j + 1), base) =~= pre
                    + (seq![sortv[j as int].0] + names_not_in(sortv.skip(j + 1), base)));
            }
        }
        j = j + 1;
    }
    proof {
        assert(sortv.skip(j as int) =~= Seq::<(Seq<char>, GroupFlag)>::empty());
        assert(out.deep_view() + names_not_in(sortv.skip(j as int), base) =~= out.deep_view());
    }
    out
}

/// Merges the base group definitions with the override definitions: each
/// name is trimmed (an empty name is an error), an override marked disabled
/// removes that name from the registry entirely, and any other override
/// replaces the base entry with `disabled` forced off. A replaced or added
/// entry stands at the end of the registry; lookups are by name, so the
/// position carries no meaning.
pub fn merge_group_definitions(
    base: &Vec<(String, GroupConfig)>,
    overrides: &Vec<(String, GroupConfig)>,
) -> (r: Result<Vec<(String, GroupConfig)>, AppError>)
    ensures
        match r {
            Result::Ok(out) => spec_merge_group_definitions(
                groups_view(base@),
                groups_view(overrides@),
            ) == Result::<Seq<(Seq<char>, GroupConfigView)>, Seq<char>>::Ok(groups_view(out@)),
            Result::Err(e) => e matches AppError::Message(m) && spec_merge_group_definitions(
                groups_view(base@),
                groups_view(overrides@),
            ) == Result::<Seq<(Seq<char>, GroupConfigView)>, Seq<char>>::Err(m@),
        },
{
    let empty_acc: Vec<(String, GroupConfig)> = Vec::new();
    proof {
        assert(groups_view(empty_acc@) =~= Seq::<(Seq<char>, GroupConfigView)>::empty());
    }
    let first = match add_groups_pass(empty_acc, base, false) {
        Result::Ok(out) => out,
        Result::Err(e) => {
            return Result::Err(e);
        },
    };
    add_groups_pass(first, overrides, true)
}

} // verus!
