//! Reading configuration: the compiled-in defaults, the user TOML file, and
//! the environment variables. The TOML text is parsed by the `toml` crate
//! into a plain recursive mirror value; everything the schema means — which
//! keys are settings, which tables are groups, and what is rejected — is
//! decided by verified code over that mirror.

use vstd::prelude::*;
use vstd::string::StrSliceExecFns;
use vstd::string::StringExecFns;

use crate::Engine;
use crate::cli::{parse_engine, spec_parse_engine};
use crate::config::types::{Config, ConfigView, GroupConfig, GroupConfigView, Settings, SettingsView};
use crate::config::types::groups_view;
use crate::container::engine::pair_lookup;
use crate::error::AppError;
use crate::strutil;
use crate::strutil::{split_parts, trimmed};

verus! {

/// A plain mirror of a parsed TOML value: exactly what the configuration
/// schema reads. Numbers, booleans and datetimes fold into `Other`, which
/// the schema rejects wherever it looks inside a value.
pub enum RawValue {
    Str(String),
    List(Vec<RawValue>),
    Table(Vec<(String, RawValue)>),
    Other,
}

/// The mirror value that parsing the given TOML text yields, or the parse
/// error text; pinned down only by the external TOML parser.
pub uninterp spec fn toml_raw_of(s: Seq<char>) -> Result<RawValue, Seq<char>>;

#[verifier::external_type_specification]
#[verifier::external_body]
pub struct ExTomlValue(toml::Value);

/// Relies on `toml::Value`'s accessors: folds a parsed TOML value into the
/// plain mirror, arm by arm.
#[verifier::external_body]
fn raw_of(v: &toml::Value) -> RawValue {
    if let Some(s) = v.as_str() {
        RawValue::Str(s.to_string())
    } else if let Some(items) = v.as_array() {
        RawValue::List(items.iter().map(raw_of).collect())
    } else if let Some(table) = v.as_table() {
        RawValue::Table(table.iter().map(|(k, x)| (k.clone(), raw_of(x))).collect())
    } else {
        RawValue::Other
    }
}

/// Relies on `toml::from_str`: parsing is a function of the text alone; the
/// result is the mirror of the parsed document, or the parser's error text.
#[verifier::external_body]
fn parse_raw(s: &str) -> (r: Result<RawValue, String>)
    ensures
        match r {
            Result::Ok(v) => toml_raw_of(s@) == Result::<RawValue, Seq<char>>::Ok(v),
            Result::Err(m) => toml_raw_of(s@) == Result::<RawValue, Seq<char>>::Err(m@),
        },
{
    match toml::from_str::<toml::Value>(s) {
        Ok(v) => Ok(raw_of(&v)),
        Err(e) => Err(e.to_string()),
    }
}

/// The character lists of a mirror list, if every item is a string.
pub open spec fn strings_of(items: Seq<RawValue>) -> Option<Seq<Seq<char>>>
    decreases items.len(),
{
    if items.len() == 0 {
        Option::Some(Seq::empty())
    } else {
        match items[0] {
            RawValue::Str(s) => match strings_of(items.drop_first()) {
                Option::Some(rest) => Option::Some(seq![s@] + rest),
                Option::None => Option::None,
            },
            _ => Option::None,
        }
    }
}

/// The string values of a mirror list, if every item is a string.
#[verifier::loop_isolation(false)]
fn string_list(items: &Vec<RawValue>) -> (r: Option<Vec<String>>)
    ensures
        match r {
            Option::Some(out) => strings_of(items@) == Option::Some(out.deep_view()),
            Option::None => strings_of(items@) is None,
        },
{
    let ghost iv = items@;
    let mut out: Vec<String> = Vec::new();
    let mut i: usize = 0;
    proof {
        assert(iv.skip(0) =~= iv);
        assert(out.deep_view() =~= Seq::<Seq<char>>::empty());
    }
    while i < items.len()
        invariant
            i <= items.len(),
            strings_of(iv) == (match strings_of(iv.skip(i as int)) {
                Option::Some(rest) => Option::Some(out.deep_view() + rest),
                Option::None => Option::<Seq<Seq<char>>>::None,
            }),
        decreases items.len() - i,
    {
        proof {
            assert(iv.skip(i as int)[0] == iv[i as int]);
            assert(iv.skip(i as int).drop_first() =~= iv.skip(i + 1));
        }
        match &items[i] {
            RawValue::Str(s) => {
                let ghost pre = out.deep_view();
                let ghost sv = s@;
                out.push(s.clone());
                proof {
                    assert(out.deep_view() =~= pre.push(sv));
                    let rest = strings_of(iv.skip(i + 1));
                    if rest is Some {
                        assert(pre.push(sv) + rest->Some_0 =~= pre + (seq![sv] + rest->Some_0));
                    }
                }
            },
            _ => {
                return Option::None;
            },
        }
        i = i + 1;
    }
    proof {
        assert(iv.skip(i as int) =~= Seq::<RawValue>::empty());
        assert(out.deep_view() + Seq::<Seq<char>>::empty() =~= out.deep_view());
    }
    Option::Some(out)
}

/// The settings keys accepted at the top level of the file and inside a
/// group table.
pub open spec fn is_settings_key(key: Seq<char>) -> bool {
    key == "run"@ || key == "image"@ || key == "ports"@ || key == "caches"@ || key == "mounts"@
        || key == "envs"@ || key == "env_files"@ || key == "podman_args"@ || key
        == "engine_args"@ || key == "engine"@
}

/// The keys reserved at the top level of the file: the settings keys and the
/// always-on list. Any other top-level key names a group.
pub open spec fn spec_reserved_key(key: Seq<char>) -> bool {
    is_settings_key(key) || key == "always_on_groups"@
}

/// Whether a top-level key is reserved for settings rather than a group.
pub fn is_reserved_key(key: &str) -> (r: bool)
    ensures
        r == spec_reserved_key(key@),
{
    strutil::str_eq(key, "run") || strutil::str_eq(key, "image") || strutil::str_eq(key, "ports")
        || strutil::str_eq(key, "caches") || strutil::str_eq(key, "mounts") || strutil::str_eq(
        key,
        "envs",
    ) || strutil::str_eq(key, "env_files") || strutil::str_eq(key, "podman_args")
        || strutil::str_eq(key, "engine_args") || strutil::str_eq(key, "engine")
        || strutil::str_eq(key, "always_on_groups")
}

/// The error text for a settings key whose value is not a string.
pub open spec fn not_string_msg(ctx: Seq<char>, key: Seq<char>) -> Seq<char> {
    ctx + "."@ + key + " must be a string"@
}

/// The error text for a settings key whose value is not a list of strings.
pub open spec fn not_string_list_msg(ctx: Seq<char>, key: Seq<char>) -> Seq<char> {
    ctx + "."@ + key + " must be a list of strings"@
}

/// The always-on key is not one of the settings keys: the literals differ.
proof fn lemma_always_on_not_settings_key()
    ensures
        !is_settings_key("always_on_groups"@),
{
    reveal_strlit("always_on_groups");
    reveal_strlit("run");
    reveal_strlit("image");
    reveal_strlit("ports");
    reveal_strlit("caches");
    reveal_strlit("mounts");
    reveal_strlit("envs");
    reveal_strlit("env_files");
    reveal_strlit("podman_args");
    reveal_strlit("engine_args");
    reveal_strlit("engine");
    assert("always_on_groups"@.len() == 16);
}

/// One settings key applied to a settings model. The context name appears in
/// error messages.
pub open spec fn apply_settings_key(
    s: SettingsView,
    ctx: Seq<char>,
    key: Seq<char>,
    value: RawValue,
) -> Result<SettingsView, Seq<char>> {
    if key == "run"@ {
        match value {
            RawValue::Str(text) => Result::Ok(
                SettingsView { run_command: Option::Some(text@), ..s },
            ),
            _ => Result::Err(not_string_msg(ctx, key)),
        }
    } else if key == "image"@ {
        match value {
            RawValue::Str(text) => Result::Ok(SettingsView { image: Option::Some(text@), ..s }),
            _ => Result::Err(not_string_msg(ctx, key)),
        }
    } else if key == "engine"@ {
        match value {
            RawValue::Str(text) => match spec_parse_engine(text@) {
                Result::Ok(e) => Result::Ok(SettingsView { engine: Option::Some(e), ..s }),
                Result::Err(m) => Result::Err(m),
            },
            _ => Result::Err(not_string_msg(ctx, key)),
        }
    } else {
        match value {
            RawValue::List(items) => match strings_of(items@) {
                Option::None => Result::Err(not_string_list_msg(ctx, key)),
                Option::Some(list) => {
                    if key == "ports"@ {
                        Result::Ok(SettingsView { ports: Option::Some(list), ..s })
                    } else if key == "caches"@ {
                        Result::Ok(SettingsView { cache: Option::Some(list), ..s })
                    } else if key == "mounts"@ {
                        Result::Ok(SettingsView { mounts: Option::Some(list), ..s })
                    } else if key == "envs"@ {
                        Result::Ok(SettingsView { env_vars: Option::Some(list), ..s })
                    } else if key == "env_files"@ {
                        Result::Ok(SettingsView { env_files: Option::Some(list), ..s })
                    } else {
                        Result::Ok(SettingsView { engine_args: Option::Some(list), ..s })
                    }
                },
            },
            _ => Result::Err(not_string_list_msg(ctx, key)),
        }
    }
}

/// A group table folded into a settings overlay: the settings keys are
/// accepted, anything else is an unknown-key error.
pub open spec fn walk_group(
    s: SettingsView,
    gname: Seq<char>,
    entries: Seq<(String, RawValue)>,
) -> Result<SettingsView, Seq<char>>
    decreases entries.len(),
{
    if entries.len() == 0 {
        Result::Ok(s)
    } else {
        let key = entries[0].0@;
        if is_settings_key(key) {
            match apply_settings_key(s, "group \""@ + gname + "\""@, key, entries[0].1) {
                Result::Err(m) => Result::Err(m),
                Result::Ok(s2) => walk_group(s2, gname, entries.drop_first()),
            }
        } else {
            Result::Err(
                "group \""@ + gname + "\" has unknown key \""@ + key + "\""@,
            )
        }
    }
}

/// The group a table defines: an empty table marks the group disabled, any
/// other table is a settings overlay.
pub open spec fn spec_parse_group(gname: Seq<char>, value: RawValue) -> Result<
    GroupConfigView,
    Seq<char>,
> {
    match value {
        RawValue::Table(entries) => if entries@.len() == 0 {
            Result::Ok(GroupConfigView { settings: SettingsView::empty(), disabled: true })
        } else {
            match walk_group(SettingsView::empty(), gname, entries@) {
                Result::Err(m) => Result::Err(m),
                Result::Ok(s) => Result::Ok(GroupConfigView { settings: s, disabled: false }),
            }
        },
        _ => Result::Err("group \""@ + gname + "\" must be a table"@),
    }
}

/// The top-level document folded into a configuration: reserved keys fill
/// the settings and the always-on list, and every other key defines a group.
pub open spec fn walk_top(cfg: ConfigView, entries: Seq<(String, RawValue)>) -> Result<
    ConfigView,
    Seq<char>,
>
    decreases entries.len(),
{
    if entries.len() == 0 {
        Result::Ok(cfg)
    } else {
        let key = entries[0].0@;
        if is_settings_key(key) {
            match apply_settings_key(cfg.settings, "config"@, key, entries[0].1) {
                Result::Err(m) => Result::Err(m),
                Result::Ok(s2) => walk_top(
                    ConfigView { settings: s2, ..cfg },
                    entries.drop_first(),
                ),
            }
        } else if key == "always_on_groups"@ {
            match entries[0].1 {
                RawValue::List(items) => match strings_of(items@) {
                    Option::None => Result::Err(not_string_list_msg("config"@, key)),
                    Option::Some(list) => walk_top(
                        ConfigView { always_on_groups: Option::Some(list), ..cfg },
                        entries.drop_first(),
                    ),
                },
                _ => Result::Err(not_string_list_msg("config"@, key)),
            }
        } else {
            match spec_parse_group(key, entries[0].1) {
                Result::Err(m) => Result::Err(m),
                Result::Ok(g) => walk_top(
                    ConfigView { groups: cfg.groups.push((key, g)), ..cfg },
                    entries.drop_first(),
                ),
            }
        }
    }
}

/// The configuration a TOML text parses to: the document must be a table,
/// and is folded by `walk_top`.
pub open spec fn spec_parse_config(parsed: Result<RawValue, Seq<char>>) -> Result<
    ConfigView,
    Seq<char>,
> {
    match parsed {
        Result::Err(m) => Result::Err(m),
        Result::Ok(v) => match v {
            RawValue::Table(entries) => walk_top(ConfigView::empty(), entries@),
            _ => Result::Err("config must be a table"@),
        },
    }
}

/// Applies one settings key to a settings record; executable form.
fn apply_settings_key_exec(s: Settings, ctx: &str, key: &String, value: &RawValue) -> (r: Result<
    Settings,
    AppError,
>)
    ensures
        match r {
            Result::Ok(s2) => apply_settings_key(s@, ctx@, key@, *value) == Result::<
                SettingsView,
                Seq<char>,
            >::Ok(s2@),
            Result::Err(e) => e matches AppError::Message(m) && apply_settings_key(
                s@,
                ctx@,
                key@,
                *value,
            ) == Result::<SettingsView, Seq<char>>::Err(m@),
        },
{
    if strutil::str_eq(key.as_str(), "run") || strutil::str_eq(key.as_str(), "image")
        || strutil::str_eq(key.as_str(), "engine") {
        match value {
            RawValue::Str(text) => {
                let mut s2 = s;
                if strutil::str_eq(key.as_str(), "run") {
                    s2.run_command = Option::Some(text.clone());
                } else if strutil::str_eq(key.as_str(), "image") {
                    s2.image = Option::Some(text.clone());
                } else {
                    match parse_engine(text.as_str()) {
                        Result::Ok(e) => {
                            s2.engine = Option::Some(e);
                        },
                        Result::Err(e) => {
                            return Result::Err(e);
                        },
                    }
                }
                Result::Ok(s2)
            },
            _ => {
                let mut msg = String::from_str(ctx);
                msg.append(".");
                msg.append(key.as_str());
                msg.append(" must be a string");
                proof {
                    assert(msg@ =~= not_string_msg(ctx@, key@));
                }
                Result::Err(AppError::message(msg))
            },
        }
    } else {
        match value {
            RawValue::List(items) => match string_list(items) {
                Option::Some(list) => {
                    let mut s2 = s;
                    if strutil::str_eq(key.as_str(), "ports") {
                        s2.ports = Option::Some(list);
                    } else if strutil::str_eq(key.as_str(), "caches") {
                        s2.cache = Option::Some(list);
                    } else if strutil::str_eq(key.as_str(), "mounts") {
                        s2.mounts = Option::Some(list);
                    } else if strutil::str_eq(key.as_str(), "envs") {
                        s2.env_vars = Option::Some(list);
                    } else if strutil::str_eq(key.as_str(), "env_files") {
                        s2.env_files = Option::Some(list);
                    } else {
                        s2.engine_args = Option::Some(list);
                    }
                    Result::Ok(s2)
                },
                Option::None => {
                    let mut msg = String::from_str(ctx);
                    msg.append(".");
                    msg.append(key.as_str());
                    msg.append(" must be a list of strings");
                    proof {
                        assert(msg@ =~= not_string_list_msg(ctx@, key@));
                    }
                    Result::Err(AppError::message(msg))
                },
            },
            _ => {
                let mut msg = String::from_str(ctx);
                msg.append(".");
                msg.append(key.as_str());
                msg.append(" must be a list of strings");
                proof {
                    assert(msg@ =~= not_string_list_msg(ctx@, key@));
                }
                Result::Err(AppError::message(msg))
            },
        }
    }
}

/// Parses one group table; executable form.
#[verifier::loop_isolation(false)]
fn parse_group_config(gname: &String, value: &RawValue) -> (r: Result<GroupConfig, AppError>)
    ensures
        match r {
            Result::Ok(g) => spec_parse_group(gname@, *value) == Result::<
                GroupConfigView,
                Seq<char>,
            >::Ok(g@),
            Result::Err(e) => e matches AppError::Message(m) && spec_parse_group(gname@, *value)
                == Result::<GroupConfigView, Seq<char>>::Err(m@),
        },
{
    match value {
        RawValue::Table(entries) => {
            if entries.len() == 0 {
                return Result::Ok(GroupConfig { settings: Settings::empty(), disabled: true });
            }
            let ghost ev = entries@;
            let mut ctx = String::from_str("group \"");
            ctx.append(gname.as_str());
            ctx.append("\"");
            proof {
                assert(ctx@ =~= "group \""@ + gname@ + "\""@);
            }
            let mut s = Settings::empty();
            let mut i: usize = 0;
            proof {
                assert(ev.skip(0) =~= ev);
            }
            while i < entries.len()
                invariant
                    i <= entries.len(),
                    ev.len() == entries.len(),
                    ctx@ == "group \""@ + gname@ + "\""@,
                    walk_group(SettingsView::empty(), gname@, ev) == walk_group(
                        s@,
                        gname@,
                        ev.skip(i as int),
                    ),
                decreases entries.len() - i,
            {
                proof {
                    assert(ev.skip(i as int)[0] == ev[i as int]);
                    assert(ev.skip(i as int).drop_first() =~= ev.skip(i + 1));
                }
                let key = &entries[i].0;
                if is_reserved_key(key.as_str()) && !strutil::str_eq(
                    key.as_str(),
                    "always_on_groups",
                ) {
                    s = match apply_settings_key_exec(s, ctx.as_str(), key, &entries[i].1) {
                        Result::Ok(s2) => s2,
                        Result::Err(e) => {
                            return Result::Err(e);
                        },
                    };
                } else {
                    proof {
                        lemma_always_on_not_settings_key();
                    }
                    let mut msg = String::from_str("group \"");
                    msg.append(gname.as_str());
                    msg.append("\" has unknown key \"");
                    msg.append(key.as_str());
                    msg.append("\"");
                    proof {
                        assert(msg@ =~= "group \""@ + gname@ + "\" has unknown key \""@ + key@
                            + "\""@);
                    }
                    return Result::Err(AppError::message(msg));
                }
                i = i + 1;
            }
            proof {
                assert(ev.skip(i as int) =~= Seq::<(String, RawValue)>::empty());
            }
            Result::Ok(GroupConfig { settings: s, disabled: false })
        },
        _ => {
            let mut msg = String::from_str("group \"");
            msg.append(gname.as_str());
            msg.append("\" must be a table");
            proof {
                assert(msg@ =~= "group \""@ + gname@ + "\" must be a table"@);
            }
            Result::Err(AppError::message(msg))
        },
    }
}

/// Parses a TOML configuration text: reserved top-level keys fill the
/// settings and the always-on list, every other top-level key defines a
/// group, and unknown keys inside a group are rejected.
#[verifier::loop_isolation(false)]
pub fn parse_config(data: &str) -> (r: Result<Config, AppError>)
    ensures
        match r {
            Result::Ok(c) => spec_parse_config(toml_raw_of(data@)) == Result::<
                ConfigView,
                Seq<char>,
            >::Ok(c@),
            Result::Err(e) => e matches AppError::Message(m) && spec_parse_config(
                toml_raw_of(data@),
            ) == Result::<ConfigView, Seq<char>>::Err(m@),
        },
{
    let raw = match parse_raw(data) {
        Result::Ok(v) => v,
        Result::Err(m) => {
            return Result::Err(AppError::message(m));
        },
    };
    match raw {
        RawValue::Table(entries) => {
            let ghost ev = entries@;
            let mut settings = Settings::empty();
            let mut always_on: Option<Vec<String>> = Option::None;
            let mut groups: Vec<(String, GroupConfig)> = Vec::new();
            let mut i: usize = 0;
            proof {
                assert(ev.skip(0) =~= ev);
                assert(groups_view(groups@) =~= Seq::<(Seq<char>, GroupConfigView)>::empty());
            }
            while i < entries.len()
                invariant
                    i <= entries.len(),
                    ev.len() == entries.len(),
                    walk_top(ConfigView::empty(), ev) == walk_top(
                        ConfigView {
                            settings: settings@,
                            always_on_groups: always_on.deep_view(),
                            groups: groups_view(groups@),
                        },
                        ev.skip(i as int),
                    ),
                decreases entries.len() - i,
            {
                proof {
                    assert(ev.skip(i as int)[0] == ev[i as int]);
                    assert(ev.skip(i as int).drop_first() =~= ev.skip(i + 1));
                }
                let key = &entries[i].0;
                if is_reserved_key(key.as_str()) && !strutil::str_eq(
                    key.as_str(),
                    "always_on_groups",
                ) {
                    settings = match apply_settings_key_exec(
                        settings,
                        "config",
                        key,
                        &entries[i].1,
                    ) {
                        Result::Ok(s2) => s2,
                        Result::Err(e) => {
                            return Result::Err(e);
                        },
                    };
                } else if strutil::str_eq(key.as_str(), "always_on_groups") {
                    proof {
                        lemma_always_on_not_settings_key();
                    }
                    match &entries[i].1 {
                        RawValue::List(items) => match string_list(items) {
                            Option::Some(list) => {
                                always_on = Option::Some(list);
                            },
                            Option::None => {
                                return Result::Err(not_string_list_error(key));
                            },
                        },
                        _ => {
                            return Result::Err(not_string_list_error(key));
                        },
                    }
                } else {
                    let group = match parse_group_config(key, &entries[i].1) {
                        Result::Ok(g) => g,
                        Result::Err(e) => {
                            return Result::Err(e);
                        },
                    };
                    let ghost gv = groups_view(groups@);
                    let ghost kv = key@;
                    let ghost ggv = group@;
                    groups.push((key.clone(), group));
                    proof {
                        assert(groups_view(groups@) =~= gv.push((kv, ggv)));
                    }
                }
                i = i + 1;
            }
            proof {
                assert(ev.skip(i as int) =~= Seq::<(String, RawValue)>::empty());
            }
            Result::Ok(Config { settings, always_on_groups: always_on, groups })
        },
        _ => {
            Result::Err(AppError::message(String::from_str("config must be a table")))
        },
    }
}

/// The error for a key whose value must be a list of strings, at the top
/// level of the file.
fn not_string_list_error(key: &String) -> (r: AppError)
    ensures
        r matches AppError::Message(m) && m@ == not_string_list_msg("config"@, key@),
{
    let mut msg = String::from_str("config");
    msg.append(".");
    msg.append(key.as_str());
    msg.append(" must be a list of strings");
    proof {
        assert(msg@ =~= not_string_list_msg("config"@, key@));
    }
    AppError::message(msg)
}

/// The non-blank parts of a comma-separated list, each trimmed, in order.
pub open spec fn nonblank_trimmed(parts: Seq<Seq<char>>) -> Seq<Seq<char>>
    decreases parts.len(),
{
    if parts.len() == 0 {
        Seq::empty()
    } else if trimmed(parts[0]).len() > 0 {
        seq![trimmed(parts[0])] + nonblank_trimmed(parts.drop_first())
    } else {
        nonblank_trimmed(parts.drop_first())
    }
}

/// The items of a comma-separated environment value: split on commas,
/// trimmed, blanks dropped.
pub open spec fn spec_env_list(s: Seq<char>) -> Seq<Seq<char>> {
    nonblank_trimmed(split_parts(s, ','))
}

/// Splits a comma-separated environment value into trimmed, non-blank items.
#[verifier::loop_isolation(false)]
pub fn split_env_list(value: &str) -> (r: Vec<String>)
    ensures
        r.deep_view() == spec_env_list(value@),
{
    let parts = strutil::split(value, ',');
    let ghost pv = parts.deep_view();
    let mut out: Vec<String> = Vec::new();
    let mut i: usize = 0;
    proof {
        assert(pv.skip(0) =~= pv);
        assert(out.deep_view() =~= Seq::<Seq<char>>::empty());
        assert(out.deep_view() + nonblank_trimmed(pv) =~= nonblank_trimmed(pv));
    }
    while i < parts.len()
        invariant
            i <= parts.len(),
            pv.len() == parts.len(),
            nonblank_trimmed(pv) == out.deep_view() + nonblank_trimmed(pv.skip(i as int)),
        decreases parts.len() - i,
    {
        proof {
            assert(pv.skip(i as int)[0] == pv[i as int]);
            assert(pv.skip(i as int).drop_first() =~= pv.skip(i + 1));
        }
        let t = strutil::trim(parts[i].as_str());
        if t.as_str().unicode_len() > 0 {
            let ghost pre = out.deep_view();
            let ghost tv = t@;
            out.push(t);
            proof {
                assert(out.deep_view() =~= pre.push(tv));
                assert(pre.push(tv) + nonblank_trimmed(pv.skip(i + 1)) =~= pre + (seq![tv]
                    + nonblank_trimmed(pv.skip(i + 1))));
            }
        }
        i = i + 1;
    }
    proof {
        assert(pv.skip(i as int) =~= Seq::<Seq<char>>::empty());
        assert(out.deep_view() + Seq::<Seq<char>>::empty() =~= out.deep_view());
    }
    out
}

/// An optional environment value, trimmed.
pub open spec fn env_scalar(
    env: Seq<(Seq<char>, Seq<char>)>,
    key: Seq<char>,
) -> Option<Seq<char>> {
    match pair_lookup(env, key) {
        Option::Some(v) => Option::Some(trimmed(v)),
        Option::None => Option::None,
    }
}

/// An optional comma-separated environment list.
pub open spec fn env_list(
    env: Seq<(Seq<char>, Seq<char>)>,
    key: Seq<char>,
) -> Option<Seq<Seq<char>>> {
    match pair_lookup(env, key) {
        Option::Some(v) => Option::Some(spec_env_list(v)),
        Option::None => Option::None,
    }
}

/// The configuration the environment snapshot carries: one `DUNGEON_*`
/// variable per settings field, list values comma-separated. The extra
/// engine arguments come from `DUNGEON_ENGINE_ARGS`, or, when that is not
/// set, from its older name `DUNGEON_PODMAN_ARGS`. An unparsable
/// `DUNGEON_ENGINE` is an error.
pub open spec fn spec_env_config(env: Seq<(Seq<char>, Seq<char>)>) -> Result<
    ConfigView,
    Seq<char>,
> {
    match (match env_scalar(env, "DUNGEON_ENGINE"@) {
        Option::Some(v) => (match spec_parse_engine(v) {
            Result::Ok(e) => Result::Ok(Option::Some(e)),
            Result::Err(m) => Result::Err(m),
        }),
        Option::None => Result::Ok(Option::<Engine>::None),
    }) {
        Result::Err(m) => Result::Err(m),
        Result::Ok(engine) => Result::Ok(
            (ConfigView {
                settings: SettingsView {
                    run_command: env_scalar(env, "DUNGEON_RUN"@),
                    image: env_scalar(env, "DUNGEON_IMAGE"@),
                    ports: env_list(env, "DUNGEON_PORTS"@),
                    cache: env_list(env, "DUNGEON_CACHES"@),
                    mounts: env_list(env, "DUNGEON_MOUNTS"@),
                    env_vars: env_list(env, "DUNGEON_ENVS"@),
                    env_files: env_list(env, "DUNGEON_ENV_FILES"@),
                    engine_args: (match env_list(env, "DUNGEON_ENGINE_ARGS"@) {
                        Option::Some(l) => Option::Some(l),
                        Option::None => env_list(env, "DUNGEON_PODMAN_ARGS"@),
                    }),
                    engine: engine,
                },
                always_on_groups: env_list(env, "DUNGEON_ALWAYS_ON_GROUPS"@),
                groups: Seq::empty(),
            }),
        ),
    }
}

/// An environment scalar, trimmed; executable form.
fn env_scalar_exec(env: &Vec<(String, String)>, key: &str) -> (r: Option<String>)
    ensures
        match r {
            Option::Some(v) => env_scalar(crate::container::engine::pairs_view(env@), key@)
                == Option::Some(v@),
            Option::None => env_scalar(crate::container::engine::pairs_view(env@), key@)
                is None,
        },
{
    match crate::container::engine::lookup_pair(env, &String::from_str(key)) {
        Option::Some(v) => Option::Some(strutil::trim(v.as_str())),
        Option::None => Option::None,
    }
}

/// An environment list, split on commas; executable form.
fn env_list_exec(env: &Vec<(String, String)>, key: &str) -> (r: Option<Vec<String>>)
    ensures
        match r {
            Option::Some(v) => env_list(crate::container::engine::pairs_view(env@), key@)
                == Option::Some(v.deep_view()),
            Option::None => env_list(crate::container::engine::pairs_view(env@), key@) is None,
        },
{
    match crate::container::engine::lookup_pair(env, &String::from_str(key)) {
        Option::Some(v) => Option::Some(split_env_list(v.as_str())),
        Option::None => Option::None,
    }
}

/// Reads the configuration from an environment snapshot: one `DUNGEON_*`
/// variable per settings field, list values comma-separated.
pub fn load_from_env(env: &Vec<(String, String)>) -> (r: Result<Config, AppError>)
    ensures
        match r {
            Result::Ok(c) => spec_env_config(crate::container::engine::pairs_view(env@))
                == Result::<ConfigView, Seq<char>>::Ok(c@),
            Result::Err(e) => e matches AppError::Message(m) && spec_env_config(
                crate::container::engine::pairs_view(env@),
            ) == Result::<ConfigView, Seq<char>>::Err(m@),
        },
{
    let engine: Option<Engine> = match env_scalar_exec(env, "DUNGEON_ENGINE") {
        Option::Some(v) => match parse_engine(v.as_str()) {
            Result::Ok(e) => Option::Some(e),
            Result::Err(e) => {
                return Result::Err(e);
            },
        },
        Option::None => Option::None,
    };
    let engine_args: Option<Vec<String>> = match env_list_exec(env, "DUNGEON_ENGINE_ARGS") {
        Option::Some(l) => Option::Some(l),
        Option::None => env_list_exec(env, "DUNGEON_PODMAN_ARGS"),
    };
    let settings = Settings {
        run_command: env_scalar_exec(env, "DUNGEON_RUN"),
        image: env_scalar_exec(env, "DUNGEON_IMAGE"),
        ports: env_list_exec(env, "DUNGEON_PORTS"),
        cache: env_list_exec(env, "DUNGEON_CACHES"),
        mounts: env_list_exec(env, "DUNGEON_MOUNTS"),
        env_vars: env_list_exec(env, "DUNGEON_ENVS"),
        env_files: env_list_exec(env, "DUNGEON_ENV_FILES"),
        engine_args,
        engine,
    };
    let cfg = Config {
        settings,
        always_on_groups: env_list_exec(env, "DUNGEON_ALWAYS_ON_GROUPS"),
        groups: Vec::new(),
    };
    proof {
        assert(cfg@.groups =~= Seq::<(Seq<char>, GroupConfigView)>::empty());
    }
    Result::Ok(cfg)
}

/// The compiled-in defaults: this build ships none, so the default
/// configuration specifies nothing.
pub fn load_defaults() -> (r: Result<Config, AppError>)
    ensures
        r matches Result::Ok(c) && c@ == ConfigView::empty(),
{
    Result::Ok(Config::default())
}

/// The configuration read from the user file's text; a missing file means an
/// empty configuration.
pub fn load_from_file(contents: Option<&String>) -> (r: Result<Config, AppError>)
    ensures
        match r {
            Result::Ok(c) => (match contents {
                Option::Some(text) => spec_parse_config(toml_raw_of(text@)) == Result::<
                    ConfigView,
                    Seq<char>,
                >::Ok(c@),
                Option::None => c@ == ConfigView::empty(),
            }),
            Result::Err(e) => e matches AppError::Message(m) && contents matches Option::Some(
                text,
            ) && spec_parse_config(toml_raw_of(text@)) == Result::<ConfigView, Seq<char>>::Err(
                m@,
            ),
        },
{
    match contents {
        Option::Some(text) => parse_config(text.as_str()),
        Option::None => Result::Ok(Config::default()),
    }
}

} // verus!
