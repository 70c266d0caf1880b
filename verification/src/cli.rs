//! The command-line front end: the argument grammar of the tool, parsed
//! into a structured record that the resolver consumes.

use vstd::prelude::*;
use vstd::string::StringExecFns;

use crate::Engine;
use crate::config::types::{Config, GroupConfig, Settings};
use crate::container::persist::PersistMode;
use crate::error::AppError;
use crate::strutil;

verus! {

/// The engine an `--engine` value (or an `engine` key) selects.
pub open spec fn spec_parse_engine(value: Seq<char>) -> Result<Engine, Seq<char>> {
    if value == "podman"@ {
        Result::Ok(Engine::Podman)
    } else if value == "docker"@ {
        Result::Ok(Engine::Docker)
    } else {
        Result::Err("ERROR: --engine must be podman or docker"@)
    }
}

/// Parses an engine name: `podman` or `docker`.
pub fn parse_engine(value: &str) -> (r: Result<Engine, AppError>)
    ensures
        match r {
            Result::Ok(e) => spec_parse_engine(value@) == Result::<Engine, Seq<char>>::Ok(e),
            Result::Err(e) => e matches AppError::Message(m) && spec_parse_engine(value@)
                == Result::<Engine, Seq<char>>::Err(m@),
        },
{
    if strutil::str_eq(value, "podman") {
        return Result::Ok(Engine::Podman);
    }
    if strutil::str_eq(value, "docker") {
        return Result::Ok(Engine::Docker);
    }
    Result::Err(AppError::message(String::from_str(
        "ERROR: --engine must be podman or docker",
    )))
}

/// Parses an optional engine name; nothing selects the default engine.
pub fn parse_optional_engine(value: Option<&String>) -> (r: Result<Engine, AppError>)
    ensures
        match r {
            Result::Ok(e) => (match value {
                Option::Some(v) => spec_parse_engine(v@) == Result::<Engine, Seq<char>>::Ok(e),
                Option::None => e == Engine::Podman,
            }),
            Result::Err(e) => e matches AppError::Message(m) && value matches Option::Some(v)
                && spec_parse_engine(v@) == Result::<Engine, Seq<char>>::Err(m@),
        },
{
    match value {
        Option::Some(v) => parse_engine(v.as_str()),
        Option::None => Result::Ok(Engine::Podman),
    }
}

/// The image flavors that can be built.
#[derive(Debug, Clone, Copy, PartialEq, Eq, Structural)]
pub enum ImageFlavor {
    Archlinux,
    Ubuntu,
}

impl ImageFlavor {
    /// The containerfile that builds this flavor.
    pub fn containerfile_path(self) -> (r: &'static str)
        ensures
            self == ImageFlavor::Archlinux ==> r@ == "images/Containerfile.archlinux"@,
            self == ImageFlavor::Ubuntu ==> r@ == "images/Containerfile.ubuntu"@,
    {
        match self {
            ImageFlavor::Archlinux => "images/Containerfile.archlinux",
            ImageFlavor::Ubuntu => "images/Containerfile.ubuntu",
        }
    }
}

/// The flavor an image-build argument selects.
pub open spec fn spec_parse_image_flavor(value: Seq<char>) -> Result<ImageFlavor, Seq<char>> {
    if value == "archlinux"@ {
        Result::Ok(ImageFlavor::Archlinux)
    } else if value == "ubuntu"@ {
        Result::Ok(ImageFlavor::Ubuntu)
    } else {
        Result::Err("ERROR: flavor must be one of: archlinux, ubuntu"@)
    }
}

/// Parses an image flavor name: `archlinux` or `ubuntu`.
pub fn parse_image_flavor(value: &str) -> (r: Result<ImageFlavor, AppError>)
    ensures
        match r {
            Result::Ok(f) => spec_parse_image_flavor(value@) == Result::<
                ImageFlavor,
                Seq<char>,
            >::Ok(f),
            Result::Err(e) => e matches AppError::Message(m) && spec_parse_image_flavor(value@)
                == Result::<ImageFlavor, Seq<char>>::Err(m@),
        },
{
    if strutil::str_eq(value, "archlinux") {
        return Result::Ok(ImageFlavor::Archlinux);
    }
    if strutil::str_eq(value, "ubuntu") {
        return Result::Ok(ImageFlavor::Ubuntu);
    }
    Result::Err(AppError::message(String::from_str(
        "ERROR: flavor must be one of: archlinux, ubuntu",
    )))
}

/// Whether a group's dedicated flag was passed on the command line, and at
/// which position among the group flags that were passed. `order` is
/// meaningful only when `set` is true; it increases with each group flag
/// seen, left to right.
#[derive(Debug, Clone, Copy, PartialEq, Eq, Structural)]
pub struct GroupFlag {
    pub set: bool,
    pub order: usize,
}

impl Default for GroupFlag {
    /// The default flag record: not set.
    fn default() -> (r: GroupFlag)
        ensures
            r == (GroupFlag { set: false, order: 0 }),
    {
        GroupFlag { set: false, order: 0 }
    }
}

/// What an invocation asks for: nothing (help or version output), a
/// container run, an image build, or a cache reset.
pub enum Action {
    Nothing,
    Run,
    ImageBuild(ImageBuildAction),
    CacheReset(CacheResetAction),
}

/// The inputs of an `image build` invocation.
pub struct ImageBuildAction {
    pub engine: Engine,
    pub flavor: ImageFlavor,
    pub tag: String,
    pub no_cache: bool,
    pub context: String,
}

/// The inputs of a `cache reset` invocation.
pub struct CacheResetAction {
    pub engine: Engine,
}

/// The structured result of parsing the command line.
pub struct ParsedCLI {
    pub action: Action,
    pub settings: Settings,
    pub paths: Vec<String>,
    pub show_help: bool,
    pub show_version: bool,
    pub debug: bool,
    pub persist_mode: PersistMode,
    pub group_flags: Vec<(String, GroupFlag)>,
    pub skip_cwd: bool,
}

/// Mathematical model of an `ImageBuildAction`.
pub ghost struct ImageBuildView {
    pub engine: Engine,
    pub flavor: ImageFlavor,
    pub tag: Seq<char>,
    pub no_cache: bool,
    pub context: Seq<char>,
}

impl View for ImageBuildAction {
    type V = ImageBuildView;

    open spec fn view(&self) -> ImageBuildView {
        ImageBuildView {
            engine: self.engine,
            flavor: self.flavor,
            tag: self.tag@,
            no_cache: self.no_cache,
            context: self.context@,
        }
    }
}

/// Mathematical model of a `CacheResetAction`.
pub ghost struct CacheResetView {
    pub engine: Engine,
}

impl View for CacheResetAction {
    type V = CacheResetView;

    open spec fn view(&self) -> CacheResetView {
        CacheResetView { engine: self.engine }
    }
}

/// Mathematical model of an `Action`.
pub ghost enum ActionView {
    Nothing,
    Run,
    ImageBuild(ImageBuildView),
    CacheReset(CacheResetView),
}

impl View for Action {
    type V = ActionView;

    open spec fn view(&self) -> ActionView {
        match self {
            Action::Nothing => ActionView::Nothing,
            Action::Run => ActionView::Run,
            Action::ImageBuild(b) => ActionView::ImageBuild(b@),
            Action::CacheReset(c) => ActionView::CacheReset(c@),
        }
    }
}

/// Mathematical model of a `ParsedCLI`.
pub ghost struct ParsedCLIView {
    pub action: ActionView,
    pub settings: crate::config::SettingsView,
    pub paths: Seq<Seq<char>>,
    pub show_help: bool,
    pub show_version: bool,
    pub debug: bool,
    pub persist_mode: PersistMode,
    pub group_flags: Seq<(Seq<char>, GroupFlag)>,
    pub skip_cwd: bool,
}

impl View for ParsedCLI {
    type V = ParsedCLIView;

    open spec fn view(&self) -> ParsedCLIView {
        ParsedCLIView {
            action: self.action@,
            settings: self.settings@,
            paths: self.paths.deep_view(),
            show_help: self.show_help,
            show_version: self.show_version,
            debug: self.debug,
            persist_mode: self.persist_mode,
            group_flags: crate::config::groups::flags_view(self.group_flags@),
            skip_cwd: self.skip_cwd,
        }
    }
}

/// Whether a parsed command line carries no config, group or path input that
/// would shape a run: the reuse and discard modes accept none (the engine
/// choice alone is allowed).
pub open spec fn no_run_shaping_input(p: ParsedCLI) -> bool {
    &&& p.settings@.run_command is None
    &&& p.settings@.image is None
    &&& p.settings@.ports is None
    &&& p.settings@.cache is None
    &&& p.settings@.mounts is None
    &&& p.settings@.env_vars is None
    &&& p.settings@.env_files is None
    &&& p.settings@.engine_args is None
    &&& !p.skip_cwd
    &&& p.paths@.len() == 0
    &&& forall|i: int| 0 <= i < p.group_flags@.len() ==> !(#[trigger] p.group_flags@[i]).1.set
}

/// The reserved tokens of the command line: no group may take one of these
/// as its name.
pub open spec fn spec_reserved_cli_token(name: Seq<char>) -> bool {
    ||| name == "help"@
    ||| name == "version"@
    ||| name == "debug"@
    ||| name == "persist"@
    ||| name == "persisted"@
    ||| name == "discard"@
    ||| name == "engine"@
    ||| name == "run"@
    ||| name == "image"@
    ||| name == "port"@
    ||| name == "cache"@
    ||| name == "mount"@
    ||| name == "env"@
    ||| name == "env-file"@
    ||| name == "engine-arg"@
    ||| name == "skip-cwd"@
    ||| name == "tag"@
    ||| name == "no-cache"@
    ||| name == "context"@
    ||| name == "paths"@
    ||| name == "flavor"@
    ||| name == "build"@
    ||| name == "reset"@
}

/// Whether a name collides with a reserved command-line token.
pub fn is_reserved_cli_token(name: &str) -> (r: bool)
    ensures
        r == spec_reserved_cli_token(name@),
{
    strutil::str_eq(name, "help") || strutil::str_eq(name, "version") || strutil::str_eq(
        name,
        "debug",
    ) || strutil::str_eq(name, "persist") || strutil::str_eq(name, "persisted")
        || strutil::str_eq(name, "discard") || strutil::str_eq(name, "engine") || strutil::str_eq(
        name,
        "run",
    ) || strutil::str_eq(name, "image") || strutil::str_eq(name, "port") || strutil::str_eq(
        name,
        "cache",
    ) || strutil::str_eq(name, "mount") || strutil::str_eq(name, "env") || strutil::str_eq(
        name,
        "env-file",
    ) || strutil::str_eq(name, "engine-arg") || strutil::str_eq(name, "skip-cwd")
        || strutil::str_eq(name, "tag") || strutil::str_eq(name, "no-cache") || strutil::str_eq(
        name,
        "context",
    ) || strutil::str_eq(name, "paths") || strutil::str_eq(name, "flavor") || strutil::str_eq(
        name,
        "build",
    ) || strutil::str_eq(name, "reset")
}

/// The error text for a group whose name collides with a reserved token.
pub open spec fn reserved_group_msg(name: Seq<char>) -> Seq<char> {
    "ERROR: group name '"@ + name + "' conflicts with a reserved CLI flag"@
}

/// The first group name that collides with a reserved token, as an error.
pub open spec fn spec_validate_group_names(
    groups: Seq<(Seq<char>, crate::config::GroupConfigView)>,
) -> Result<(), Seq<char>>
    decreases groups.len(),
{
    if groups.len() == 0 {
        Result::Ok(())
    } else if spec_reserved_cli_token(groups[0].0) {
        Result::Err(reserved_group_msg(groups[0].0))
    } else {
        spec_validate_group_names(groups.drop_first())
    }
}

/// Checks every group name in the registry against the reserved
/// command-line tokens.
#[verifier::loop_isolation(false)]
pub fn validate_group_names(group_defs: &Vec<(String, GroupConfig)>) -> (r: Result<(), AppError>)
    ensures
        match r {
            Result::Ok(()) => spec_validate_group_names(
                crate::config::types::groups_view(group_defs@),
            ) == Result::<(), Seq<char>>::Ok(()),
            Result::Err(e) => e matches AppError::Message(m) && spec_validate_group_names(
                crate::config::types::groups_view(group_defs@),
            ) == Result::<(), Seq<char>>::Err(m@),
        },
{
    let ghost gv = crate::config::types::groups_view(group_defs@);
    let mut i: usize = 0;
    proof {
        assert(gv.skip(0) =~= gv);
    }
    while i < group_defs.len()
        invariant
            i <= group_defs.len(),
            gv.len() == group_defs.len(),
            spec_validate_group_names(gv) == spec_validate_group_names(gv.skip(i as int)),
        decreases group_defs.len() - i,
    {
        proof {
            assert(gv.skip(i as int)[0] == gv[i as int]);
            assert(gv.skip(i as int).drop_first() =~= gv.skip(i + 1));
        }
        if is_reserved_cli_token(group_defs[i].0.as_str()) {
            let mut msg = String::from_str("ERROR: group name '");
            msg.append(group_defs[i].0.as_str());
            msg.append("' conflicts with a reserved CLI flag");
            proof {
                assert(msg@ =~= reserved_group_msg(gv[i as int].0));
            }
            return Result::Err(AppError::message(msg));
        }
        i = i + 1;
    }
    proof {
        assert(gv.skip(i as int) =~= Seq::<(Seq<char>, crate::config::GroupConfigView)>::empty());
    }
    Result::Ok(())
}

/// Derives the persistence mode from the three exclusive command-line
/// flags; more than one is a validation error.
pub fn resolve_persist_mode_from_flags(persist: bool, persisted: bool, discard: bool) -> (r:
    Result<PersistMode, AppError>)
    ensures
        match r {
            Result::Ok(mode) => crate::config::merge::spec_persist_mode(persist, persisted, discard)
                == Result::<PersistMode, Seq<char>>::Ok(mode),
            Result::Err(e) => e matches AppError::Message(m)
                && crate::config::merge::spec_persist_mode(persist, persisted, discard)
                == Result::<PersistMode, Seq<char>>::Err(m@),
        },
{
    crate::config::merge::resolve_persist_mode(persist, persisted, discard)
}

/// Debug output and persistence cannot be combined: the debug mode prints
/// the command instead of running it, so no persistent state may change.
pub fn validate_debug_flags(debug: bool, persist_mode: PersistMode) -> (r: Result<(), AppError>)
    ensures
        match r {
            Result::Ok(()) => !(debug && persist_mode != PersistMode::Ephemeral),
            Result::Err(e) => debug && persist_mode != PersistMode::Ephemeral && (e
                matches AppError::Message(m) && m@
                == "ERROR: --debug cannot be combined with persistence flags"@),
        },
{
    if debug && !matches!(persist_mode, PersistMode::Ephemeral) {
        return Result::Err(AppError::message(String::from_str(
            "ERROR: --debug cannot be combined with persistence flags",
        )));
    }
    Result::Ok(())
}

/// The reuse and discard modes accept no config, group or path input, and
/// `--skip-cwd` cannot be combined with explicit paths.
pub fn validate_persist_flags(
    persisted: bool,
    discard: bool,
    skip_cwd: bool,
    has_config_overrides: bool,
    has_group_overrides: bool,
    paths_len: usize,
) -> (r: Result<(), AppError>)
    ensures
        match r {
            Result::Ok(()) => !((persisted || discard) && (has_config_overrides
                || has_group_overrides || paths_len > 0)) && !(skip_cwd && paths_len > 0),
            Result::Err(e) => e matches AppError::Message(m) && (if (persisted || discard) && (
            has_config_overrides || has_group_overrides || paths_len > 0) {
                m@
                    == "ERROR: --persisted and --discard do not accept config, group, or path arguments"@
            } else {
                skip_cwd && paths_len > 0 && m@
                    == "ERROR: --skip-cwd cannot be used with explicit paths"@
            }),
        },
{
    if (persisted || discard) && (has_config_overrides || has_group_overrides || paths_len > 0) {
        return Result::Err(AppError::message(String::from_str(
            "ERROR: --persisted and --discard do not accept config, group, or path arguments",
        )));
    }
    if skip_cwd && paths_len > 0 {
        return Result::Err(AppError::message(String::from_str(
            "ERROR: --skip-cwd cannot be used with explicit paths",
        )));
    }
    Result::Ok(())
}

/// Every settings record the command line can express is accepted; the
/// field values are validated where they are used.
pub fn validate_cli_settings(settings: &Settings) -> (r: Result<(), AppError>)
    ensures
        r is Ok,
{
    let _ = settings;
    Result::Ok(())
}

/// The model of a parse result that asks for nothing but help or version
/// output, or carries a subcommand action with no run-shaping input.
pub open spec fn spec_parsed_with_action(
    action: ActionView,
    show_help: bool,
    show_version: bool,
) -> ParsedCLIView {
    ParsedCLIView {
        action,
        settings: crate::config::SettingsView::empty(),
        paths: Seq::empty(),
        show_help,
        show_version,
        debug: false,
        persist_mode: PersistMode::Ephemeral,
        group_flags: Seq::empty(),
        skip_cwd: false,
    }
}

/// A parse result that asks for nothing but help or version output, or
/// carries a subcommand action with no run-shaping input.
fn parsed_with_action(action: Action, show_help: bool, show_version: bool) -> (r: ParsedCLI)
    ensures
        r@ == spec_parsed_with_action(action@, show_help, show_version),
        no_run_shaping_input(r),
{
    let ghost av = action@;
    let r = ParsedCLI {
        action,
        settings: Settings::empty(),
        paths: Vec::new(),
        show_help,
        show_version,
        debug: false,
        persist_mode: PersistMode::Ephemeral,
        group_flags: Vec::new(),
        skip_cwd: false,
    };
    proof {
        assert(r.paths.deep_view() =~= Seq::<Seq<char>>::empty());
        assert(crate::config::groups::flags_view(r.group_flags@) =~= Seq::<
            (Seq<char>, GroupFlag),
        >::empty());
        assert(r@ == spec_parsed_with_action(av, show_help, show_version));
    }
    r
}

/// Whether a token has the `--` flag shape.
pub open spec fn is_flag_token(t: Seq<char>) -> bool {
    t.len() >= 2 && t[0] == '-' && t[1] == '-'
}

/// The flag name of a `--name[=value]` token: the characters after `--` up
/// to the first `=`.
pub open spec fn flag_name_of(t: Seq<char>) -> Seq<char> {
    crate::strutil::split_parts(t.skip(2), '=')[0]
}

/// The attached value of a `--name=value` token: everything after the first
/// `=`, verbatim; a token without `=` carries none.
pub open spec fn flag_value_of(t: Seq<char>) -> Option<Seq<char>> {
    let parts = crate::strutil::split_parts(t.skip(2), '=');
    if parts.len() == 1 {
        Option::None
    } else {
        Option::Some(crate::container::mounts::join_with(parts.drop_first(), "="@))
    }
}

/// Splits a `--name` or `--name=value` token into the flag name and the
/// attached value; anything else is not a flag token.
#[verifier::loop_isolation(false)]
fn split_flag_token(token: &str) -> (r: Option<(String, Option<String>)>)
    ensures
        r is Some <==> is_flag_token(token@),
        r matches Option::Some(f) ==> f.0@ == flag_name_of(token@) && f.1.deep_view()
            == flag_value_of(token@),
{
    let cs = strutil::chars_of(token);
    if cs.len() < 2 || cs[0] != '-' || cs[1] != '-' {
        return Option::None;
    }
    let rest = crate::container::mounts::chars_suffix(&cs, 2);
    let parts = strutil::split(rest.as_str(), '=');
    let ghost partsv = crate::strutil::split_parts(token@.skip(2), '=');
    let name = parts[0].clone();
    if parts.len() == 1 {
        return Option::Some((name, Option::None));
    }
    let mut tail: Vec<String> = Vec::new();
    let mut k: usize = 1;
    proof {
        assert(tail.deep_view() =~= partsv.subrange(1, 1));
    }
    while k < parts.len()
        invariant
            1 <= k <= parts.len(),
            tail.deep_view() == partsv.subrange(1, k as int),
        decreases parts.len() - k,
    {
        tail.push(parts[k].clone());
        k = k + 1;
        proof {
            assert(tail.deep_view() =~= partsv.subrange(1, k as int));
        }
    }
    proof {
        assert(tail.deep_view() =~= partsv.drop_first());
    }
    let value = crate::container::mounts::join_segments(&tail, "=");
    Option::Some((name, Option::Some(value)))
}

/// Whether the registry defines a group with this name.
fn is_group_name(group_defs: &Vec<(String, GroupConfig)>, name: &String) -> (r: bool)
    ensures
        r == !(crate::config::merge::group_lookup(
            crate::config::types::groups_view(group_defs@),
            name@,
        ) is None),
{
    crate::config::groups::group_known(group_defs, name)
}

/// Whether any flag in the list is set.
pub open spec fn any_set(flags: Seq<(Seq<char>, GroupFlag)>) -> bool {
    exists|i: int| 0 <= i < flags.len() && (#[trigger] flags[i]).1.set
}

/// Whether any group flag in the list is set.
fn any_flag_set(flags: &Vec<(String, GroupFlag)>) -> (r: bool)
    ensures
        r == any_set(crate::config::groups::flags_view(flags@)),
{
    let ghost fv = crate::config::groups::flags_view(flags@);
    let mut i: usize = 0;
    while i < flags.len()
        invariant
            i <= flags.len(),
            fv == crate::config::groups::flags_view(flags@),
            fv.len() == flags.len(),
            forall|j: int| 0 <= j < i ==> !(#[trigger] fv[j]).1.set,
        decreases flags.len() - i,
    {
        if flags[i].1.set {
            proof {
                assert(fv[i as int].1.set);
            }
            return true;
        }
        i = i + 1;
    }
    false
}

/// Whether a settings record or the skip-cwd flag carries a run-shaping
/// override: everything but the engine choice counts.
pub open spec fn settings_override(s: crate::config::SettingsView, skip_cwd: bool) -> bool {
    s.run_command is Some || s.image is Some || s.ports is Some || s.cache is Some
        || s.mounts is Some || s.env_vars is Some || s.env_files is Some || s.engine_args is Some
        || skip_cwd
}

/// Whether the parsed settings or the skip-cwd flag override the
/// configuration a persisted session was created with.
fn has_config_override(settings: &Settings, skip_cwd: bool) -> (r: bool)
    ensures
        r == settings_override(settings@, skip_cwd),
{
    settings.run_command.is_some() || settings.image.is_some() || settings.ports.is_some()
        || settings.cache.is_some() || settings.mounts.is_some() || settings.env_vars.is_some()
        || settings.env_files.is_some() || settings.engine_args.is_some() || skip_cwd
}

/// The error text for a flag the grammar does not know.
pub open spec fn unknown_flag_msg(name: Seq<char>) -> Seq<char> {
    "ERROR: unknown flag '--"@ + name + "'"@
}

/// The error text for a value flag at the end of the command line.
pub open spec fn missing_value_msg(name: Seq<char>) -> Seq<char> {
    "ERROR: missing value for '--"@ + name + "'"@
}

/// The error text for a boolean flag given a value.
pub open spec fn unexpected_value_msg(name: Seq<char>) -> Seq<char> {
    "ERROR: flag '--"@ + name + "' does not take a value"@
}

/// The error text for a positional token where none is accepted.
pub open spec fn unexpected_arg_msg(token: Seq<char>) -> Seq<char> {
    "ERROR: unexpected argument '"@ + token + "'"@
}

/// The error for a flag the grammar does not know.
fn unknown_flag_error(name: &String) -> (r: AppError)
    ensures
        r matches AppError::Message(m) && m@ == unknown_flag_msg(name@),
{
    let mut msg = String::from_str("ERROR: unknown flag '--");
    msg.append(name.as_str());
    msg.append("'");
    proof {
        assert(msg@ =~= unknown_flag_msg(name@));
    }
    AppError::message(msg)
}

/// The error for a value flag at the end of the command line.
fn missing_value_error(name: &String) -> (r: AppError)
    ensures
        r matches AppError::Message(m) && m@ == missing_value_msg(name@),
{
    let mut msg = String::from_str("ERROR: missing value for '--");
    msg.append(name.as_str());
    msg.append("'");
    proof {
        assert(msg@ =~= missing_value_msg(name@));
    }
    AppError::message(msg)
}

/// The error for a boolean flag given a value.
fn unexpected_value_error(name: &String) -> (r: AppError)
    ensures
        r matches AppError::Message(m) && m@ == unexpected_value_msg(name@),
{
    let mut msg = String::from_str("ERROR: flag '--");
    msg.append(name.as_str());
    msg.append("' does not take a value");
    proof {
        assert(msg@ =~= unexpected_value_msg(name@));
    }
    AppError::message(msg)
}

/// The error for a positional token where none is accepted.
fn unexpected_arg_error(token: &String) -> (r: AppError)
    ensures
        r matches AppError::Message(m) && m@ == unexpected_arg_msg(token@),
{
    let mut msg = String::from_str("ERROR: unexpected argument '");
    msg.append(token.as_str());
    msg.append("'");
    proof {
        assert(msg@ =~= unexpected_arg_msg(token@));
    }
    AppError::message(msg)
}

/// Copies the tokens from `start` on.
fn copy_from(args: &Vec<String>, start: usize) -> (r: Vec<String>)
    requires
        start <= args@.len(),
    ensures
        r.deep_view() == args.deep_view().skip(start as int),
{
    let mut r: Vec<String> = Vec::new();
    let mut i: usize = start;
    proof {
        assert(r@ =~= args@.subrange(start as int, start as int));
    }
    while i < args.len()
        invariant
            start <= i <= args@.len(),
            r@ == args@.subrange(start as int, i as int),
        decreases args.len() - i,
    {
        r.push(args[i].clone());
        i = i + 1;
        proof {
            assert(r@ =~= args@.subrange(start as int, i as int));
        }
    }
    proof {
        assert(r@ =~= args@.skip(start as int));
        assert(r.deep_view() =~= args.deep_view().skip(start as int));
    }
    r
}

/// The state of the run-argument scan: every flag, option, list, path and
/// group flag the grammar has collected so far.
pub ghost struct RunScan {
    pub debug: bool,
    pub persist: bool,
    pub persisted: bool,
    pub discard: bool,
    pub skip_cwd: bool,
    pub engine_value: Option<Seq<char>>,
    pub run_value: Option<Seq<char>>,
    pub image_value: Option<Seq<char>>,
    pub ports: Seq<Seq<char>>,
    pub saw_ports: bool,
    pub cache: Seq<Seq<char>>,
    pub saw_cache: bool,
    pub mounts: Seq<Seq<char>>,
    pub saw_mounts: bool,
    pub env_vars: Seq<Seq<char>>,
    pub saw_env_vars: bool,
    pub env_files: Seq<Seq<char>>,
    pub saw_env_files: bool,
    pub engine_args: Seq<Seq<char>>,
    pub saw_engine_args: bool,
    pub paths: Seq<Seq<char>>,
    pub seen: Seq<(Seq<char>, GroupFlag)>,
    pub next_order: usize,
}

impl RunScan {
    /// The scan state before any token is read.
    pub open spec fn init() -> RunScan {
        RunScan {
            debug: false,
            persist: false,
            persisted: false,
            discard: false,
            skip_cwd: false,
            engine_value: Option::None,
            run_value: Option::None,
            image_value: Option::None,
            ports: Seq::empty(),
            saw_ports: false,
            cache: Seq::empty(),
            saw_cache: false,
            mounts: Seq::empty(),
            saw_mounts: false,
            env_vars: Seq::empty(),
            saw_env_vars: false,
            env_files: Seq::empty(),
            saw_env_files: false,
            engine_args: Seq::empty(),
            saw_engine_args: false,
            paths: Seq::empty(),
            seen: Seq::empty(),
            next_order: 0,
        }
    }
}

/// The boolean flags of a run invocation.
pub open spec fn is_bool_run_flag(name: Seq<char>) -> bool {
    name == "debug"@ || name == "persist"@ || name == "persisted"@ || name == "discard"@
        || name == "skip-cwd"@
}

/// The value-taking flags of a run invocation.
pub open spec fn is_value_run_flag(name: Seq<char>) -> bool {
    name == "engine"@ || name == "run"@ || name == "image"@ || name == "port"@ || name
        == "cache"@ || name == "mount"@ || name == "env"@ || name == "env-file"@ || name
        == "engine-arg"@
}

/// The scan state after one boolean flag.
pub open spec fn set_bool_flag(st: RunScan, name: Seq<char>) -> RunScan {
    if name == "debug"@ {
        RunScan { debug: true, ..st }
    } else if name == "persist"@ {
        RunScan { persist: true, ..st }
    } else if name == "persisted"@ {
        RunScan { persisted: true, ..st }
    } else if name == "discard"@ {
        RunScan { discard: true, ..st }
    } else {
        RunScan { skip_cwd: true, ..st }
    }
}

/// The scan state after one value flag: scalars keep the last value given,
/// lists accumulate in order.
pub open spec fn set_value_flag(st: RunScan, name: Seq<char>, value: Seq<char>) -> RunScan {
    if name == "engine"@ {
        RunScan { engine_value: Option::Some(value), ..st }
    } else if name == "run"@ {
        RunScan { run_value: Option::Some(value), ..st }
    } else if name == "image"@ {
        RunScan { image_value: Option::Some(value), ..st }
    } else if name == "port"@ {
        RunScan { ports: st.ports.push(value), saw_ports: true, ..st }
    } else if name == "cache"@ {
        RunScan { cache: st.cache.push(value), saw_cache: true, ..st }
    } else if name == "mount"@ {
        RunScan { mounts: st.mounts.push(value), saw_mounts: true, ..st }
    } else if name == "env"@ {
        RunScan { env_vars: st.env_vars.push(value), saw_env_vars: true, ..st }
    } else if name == "env-file"@ {
        RunScan { env_files: st.env_files.push(value), saw_env_files: true, ..st }
    } else {
        RunScan { engine_args: st.engine_args.push(value), saw_engine_args: true, ..st }
    }
}

/// The scan state after a group flag: the first occurrence records the next
/// left-to-right position, a repeat changes nothing.
pub open spec fn set_group_flag(st: RunScan, name: Seq<char>) -> RunScan {
    if flag_lookup(st.seen, name).set {
        st
    } else {
        let order = (st.next_order + 1) as usize;
        RunScan {
            seen: st.seen.push((name, GroupFlag { set: true, order: order })),
            next_order: order,
            ..st
        }
    }
}

/// The run-argument grammar, one token (or a flag and its value) at a time:
/// a non-flag token is a path; a boolean flag may not carry a value; a value
/// flag takes its attached `=` value or the next token (missing at the end
/// of the line is an error); a flag naming a registry group is recorded with
/// its position; anything else is an unknown flag.
pub open spec fn spec_run_scan(
    st: RunScan,
    tokens: Seq<Seq<char>>,
    registry: Seq<(Seq<char>, crate::config::GroupConfigView)>,
) -> Result<RunScan, Seq<char>>
    decreases tokens.len(),
{
    if tokens.len() == 0 {
        Result::Ok(st)
    } else {
        let t = tokens[0];
        if !is_flag_token(t) {
            spec_run_scan(RunScan { paths: st.paths.push(t), ..st }, tokens.drop_first(), registry)
        } else {
            let name = flag_name_of(t);
            if is_bool_run_flag(name) {
                if flag_value_of(t) is Some {
                    Result::Err(unexpected_value_msg(name))
                } else {
                    spec_run_scan(set_bool_flag(st, name), tokens.drop_first(), registry)
                }
            } else if is_value_run_flag(name) {
                match flag_value_of(t) {
                    Option::Some(v) => spec_run_scan(
                        set_value_flag(st, name, v),
                        tokens.drop_first(),
                        registry,
                    ),
                    Option::None => if tokens.len() >= 2 {
                        spec_run_scan(
                            set_value_flag(st, name, tokens[1]),
                            tokens.skip(2),
                            registry,
                        )
                    } else {
                        Result::Err(missing_value_msg(name))
                    },
                }
            } else if !(crate::config::merge::group_lookup(registry, name) is None) {
                if flag_value_of(t) is Some {
                    Result::Err(unexpected_value_msg(name))
                } else {
                    spec_run_scan(set_group_flag(st, name), tokens.drop_first(), registry)
                }
            } else {
                Result::Err(unknown_flag_msg(name))
            }
        }
    }
}

/// The settings record a finished scan carries.
pub open spec fn scan_settings(st: RunScan, engine: Option<Engine>) -> crate::config::SettingsView {
    crate::config::SettingsView {
        run_command: st.run_value,
        image: st.image_value,
        ports: if st.saw_ports {
            Option::Some(st.ports)
        } else {
            Option::None
        },
        cache: if st.saw_cache {
            Option::Some(st.cache)
        } else {
            Option::None
        },
        mounts: if st.saw_mounts {
            Option::Some(st.mounts)
        } else {
            Option::None
        },
        env_vars: if st.saw_env_vars {
            Option::Some(st.env_vars)
        } else {
            Option::None
        },
        env_files: if st.saw_env_files {
            Option::Some(st.env_files)
        } else {
            Option::None
        },
        engine_args: if st.saw_engine_args {
            Option::Some(st.engine_args)
        } else {
            Option::None
        },
        engine: engine,
    }
}

/// One flag record per registry name, in registry order: the flag the scan
/// recorded, or the unset default.
pub open spec fn collected_flags(
    registry: Seq<(Seq<char>, crate::config::GroupConfigView)>,
    seen: Seq<(Seq<char>, GroupFlag)>,
) -> Seq<(Seq<char>, GroupFlag)> {
    Seq::new(registry.len(), |i: int| (registry[i].0, flag_lookup(seen, registry[i].0)))
}

/// The validations and assembly after the scan: the three persistence flags
/// must not clash, debug excludes persistence, the engine value must parse,
/// reuse and discard accept no run-shaping input, and skip-cwd excludes
/// explicit paths; what remains is the parsed run.
pub open spec fn spec_finish_run(
    st: RunScan,
    registry: Seq<(Seq<char>, crate::config::GroupConfigView)>,
) -> Result<ParsedCLIView, Seq<char>> {
    match crate::config::merge::spec_persist_mode(st.persist, st.persisted, st.discard) {
        Result::Err(m) => Result::Err(m),
        Result::Ok(mode) => if st.debug && mode != PersistMode::Ephemeral {
            Result::Err("ERROR: --debug cannot be combined with persistence flags"@)
        } else {
            match (match st.engine_value {
                Option::Some(v) => (match spec_parse_engine(v) {
                    Result::Ok(e) => Result::Ok(Option::Some(e)),
                    Result::Err(m) => Result::Err(m),
                }),
                Option::None => Result::Ok(Option::<Engine>::None),
            }) {
                Result::Err(m) => Result::Err(m),
                Result::Ok(engine) => {
                    let settings = scan_settings(st, engine);
                    let flags = collected_flags(registry, st.seen);
                    if (st.persisted || st.discard) && (settings_override(settings, st.skip_cwd)
                        || any_set(flags) || st.paths.len() > 0) {
                        Result::Err(
                            "ERROR: --persisted and --discard do not accept config, group, or path arguments"@,
                        )
                    } else if st.skip_cwd && st.paths.len() > 0 {
                        Result::Err("ERROR: --skip-cwd cannot be used with explicit paths"@)
                    } else {
                        Result::Ok(
                            (ParsedCLIView {
                                action: ActionView::Run,
                                settings: settings,
                                paths: st.paths,
                                show_help: false,
                                show_version: false,
                                debug: st.debug,
                                persist_mode: mode,
                                group_flags: flags,
                                skip_cwd: st.skip_cwd,
                            }),
                        )
                    }
                },
            }
        },
    }
}

/// The parse of a run invocation's arguments against the group registry.
pub open spec fn spec_parse_run(
    tokens: Seq<Seq<char>>,
    registry: Seq<(Seq<char>, crate::config::GroupConfigView)>,
) -> Result<ParsedCLIView, Seq<char>> {
    match spec_run_scan(RunScan::init(), tokens, registry) {
        Result::Err(m) => Result::Err(m),
        Result::Ok(st) => spec_finish_run(st, registry),
    }
}

/// The collected run arguments, in executable form; its model is the scan
/// state `RunScan`.
struct RunOpts {
    debug: bool,
    persist: bool,
    persisted: bool,
    discard: bool,
    skip_cwd: bool,
    engine_value: Option<String>,
    run_value: Option<String>,
    image_value: Option<String>,
    ports: Vec<String>,
    saw_ports: bool,
    cache: Vec<String>,
    saw_cache: bool,
    mounts: Vec<String>,
    saw_mounts: bool,
    env_vars: Vec<String>,
    saw_env_vars: bool,
    env_files: Vec<String>,
    saw_env_files: bool,
    engine_args: Vec<String>,
    saw_engine_args: bool,
    paths: Vec<String>,
    seen: Vec<(String, GroupFlag)>,
    next_order: usize,
}

impl View for RunOpts {
    type V = RunScan;

    closed spec fn view(&self) -> RunScan {
        RunScan {
            debug: self.debug,
            persist: self.persist,
            persisted: self.persisted,
            discard: self.discard,
            skip_cwd: self.skip_cwd,
            engine_value: self.engine_value.deep_view(),
            run_value: self.run_value.deep_view(),
            image_value: self.image_value.deep_view(),
            ports: self.ports.deep_view(),
            saw_ports: self.saw_ports,
            cache: self.cache.deep_view(),
            saw_cache: self.saw_cache,
            mounts: self.mounts.deep_view(),
            saw_mounts: self.saw_mounts,
            env_vars: self.env_vars.deep_view(),
            saw_env_vars: self.saw_env_vars,
            env_files: self.env_files.deep_view(),
            saw_env_files: self.saw_env_files,
            engine_args: self.engine_args.deep_view(),
            saw_engine_args: self.saw_engine_args,
            paths: self.paths.deep_view(),
            seen: crate::config::groups::flags_view(self.seen@),
            next_order: self.next_order,
        }
    }
}

/// Records one boolean run flag in the scan state.
#[verifier::rlimit(100)]
#[verifier::spinoff_prover]
fn apply_bool_flag(o: &mut RunOpts, name: &String)
    requires
        is_bool_run_flag(name@),
    ensures
        final(o)@ == set_bool_flag(old(o)@, name@),
        final(o).next_order == old(o).next_order,
{
    if strutil::str_eq(name.as_str(), "debug") {
        o.debug = true;
    } else if strutil::str_eq(name.as_str(), "persist") {
        o.persist = true;
    } else if strutil::str_eq(name.as_str(), "persisted") {
        o.persisted = true;
    } else if strutil::str_eq(name.as_str(), "discard") {
        o.discard = true;
    } else {
        o.skip_cwd = true;
    }
}

/// Records one value-taking run flag in the scan state.
#[verifier::rlimit(100)]
#[verifier::spinoff_prover]
fn apply_value_flag(o: &mut RunOpts, name: &String, value: String)
    requires
        is_value_run_flag(name@),
    ensures
        final(o)@ == set_value_flag(old(o)@, name@, value@),
        final(o).next_order == old(o).next_order,
{
    let ghost pre = o@;
    let ghost vv = value@;
    if strutil::str_eq(name.as_str(), "engine") {
        o.engine_value = Option::Some(value);
    } else if strutil::str_eq(name.as_str(), "run") {
        o.run_value = Option::Some(value);
    } else if strutil::str_eq(name.as_str(), "image") {
        o.image_value = Option::Some(value);
    } else if strutil::str_eq(name.as_str(), "port") {
        o.ports.push(value);
        o.saw_ports = true;
        proof {
            assert(o.ports.deep_view() =~= pre.ports.push(vv));
        }
    } else if strutil::str_eq(name.as_str(), "cache") {
        o.cache.push(value);
        o.saw_cache = true;
        proof {
            assert(o.cache.deep_view() =~= pre.cache.push(vv));
        }
    } else if strutil::str_eq(name.as_str(), "mount") {
        o.mounts.push(value);
        o.saw_mounts = true;
        proof {
            assert(o.mounts.deep_view() =~= pre.mounts.push(vv));
        }
    } else if strutil::str_eq(name.as_str(), "env") {
        o.env_vars.push(value);
        o.saw_env_vars = true;
        proof {
            assert(o.env_vars.deep_view() =~= pre.env_vars.push(vv));
        }
    } else if strutil::str_eq(name.as_str(), "env-file") {
        o.env_files.push(value);
        o.saw_env_files = true;
        proof {
            assert(o.env_files.deep_view() =~= pre.env_files.push(vv));
        }
    } else {
        o.engine_args.push(value);
        o.saw_engine_args = true;
        proof {
            assert(o.engine_args.deep_view() =~= pre.engine_args.push(vv));
        }
    }
}

/// Records one group flag in the scan state: the first occurrence takes the
/// next left-to-right position.
#[verifier::rlimit(100)]
#[verifier::spinoff_prover]
fn apply_group_flag(o: &mut RunOpts, name: String)
    requires
        old(o).next_order < usize::MAX,
    ensures
        final(o)@ == set_group_flag(old(o)@, name@),
        final(o).next_order <= old(o).next_order + 1,
{
    let ghost pre = o@;
    let ghost nm = name@;
    if !lookup_flag(&o.seen, &name).set {
        o.next_order = o.next_order + 1;
        let ghost sv = crate::config::groups::flags_view(o.seen@);
        let order = o.next_order;
        o.seen.push((name, GroupFlag { set: true, order }));
        proof {
            assert(crate::config::groups::flags_view(o.seen@) =~= sv.push(
                (nm, GroupFlag { set: true, order: order }),
            ));
        }
    }
}

/// Scans the run arguments, token by token, against the grammar
/// `spec_run_scan`.
#[verifier::loop_isolation(false)]
#[verifier::rlimit(100)]
fn scan_run_tokens(tokens: &Vec<String>, group_defs: &Vec<(String, GroupConfig)>) -> (r: Result<
    RunOpts,
    AppError,
>)
    ensures
        match r {
            Result::Ok(o) => spec_run_scan(
                RunScan::init(),
                tokens.deep_view(),
                crate::config::types::groups_view(group_defs@),
            ) == Result::<RunScan, Seq<char>>::Ok(o@),
            Result::Err(e) => e matches AppError::Message(m) && spec_run_scan(
                RunScan::init(),
                tokens.deep_view(),
                crate::config::types::groups_view(group_defs@),
            ) == Result::<RunScan, Seq<char>>::Err(m@),
        },
{
    let ghost tv = tokens.deep_view();
    let ghost reg = crate::config::types::groups_view(group_defs@);
    let mut o = RunOpts {
        debug: false,
        persist: false,
        persisted: false,
        discard: false,
        skip_cwd: false,
        engine_value: Option::None,
        run_value: Option::None,
        image_value: Option::None,
        ports: Vec::new(),
        saw_ports: false,
        cache: Vec::new(),
        saw_cache: false,
        mounts: Vec::new(),
        saw_mounts: false,
        env_vars: Vec::new(),
        saw_env_vars: false,
        env_files: Vec::new(),
        saw_env_files: false,
        engine_args: Vec::new(),
        saw_engine_args: false,
        paths: Vec::new(),
        seen: Vec::new(),
        next_order: 0,
    };
    let mut i: usize = 0;
    proof {
        assert(tv.skip(0) =~= tv);
        assert(o@ == RunScan::init()) by {
            assert(o.ports.deep_view() =~= Seq::<Seq<char>>::empty());
            assert(o.cache.deep_view() =~= Seq::<Seq<char>>::empty());
            assert(o.mounts.deep_view() =~= Seq::<Seq<char>>::empty());
            assert(o.env_vars.deep_view() =~= Seq::<Seq<char>>::empty());
            assert(o.env_files.deep_view() =~= Seq::<Seq<char>>::empty());
            assert(o.engine_args.deep_view() =~= Seq::<Seq<char>>::empty());
            assert(o.paths.deep_view() =~= Seq::<Seq<char>>::empty());
            assert(crate::config::groups::flags_view(o.seen@) =~= Seq::<
                (Seq<char>, GroupFlag),
            >::empty());
        }
    }
    while i < tokens.len()
        invariant
            i <= tokens.len(),
            o.next_order <= i,
            spec_run_scan(RunScan::init(), tv, reg) == spec_run_scan(o@, tv.skip(i as int), reg),
        decreases tokens.len() - i,
    {
        let ghost pre = o@;
        let ghost i0 = i as int;
        proof {
            assert(tv.skip(i0)[0] == tv[i0]);
            assert(tv.skip(i0).drop_first() =~= tv.skip(i0 + 1));
        }
        match split_flag_token(tokens[i].as_str()) {
            Option::None => {
                o.paths.push(tokens[i].clone());
                proof {
                    assert(o.paths.deep_view() =~= pre.paths.push(tv[i0]));
                    assert(o@ == (RunScan { paths: pre.paths.push(tv[i0]), ..pre }));
                }
            },
            Option::Some(flag) => {
                let (name, attached) = flag;
                let ghost nm = name@;
                let ghost att = attached.deep_view();
                let is_bool = strutil::str_eq(name.as_str(), "debug") || strutil::str_eq(
                    name.as_str(),
                    "persist",
                ) || strutil::str_eq(name.as_str(), "persisted") || strutil::str_eq(
                    name.as_str(),
                    "discard",
                ) || strutil::str_eq(name.as_str(), "skip-cwd");
                let is_value = strutil::str_eq(name.as_str(), "engine") || strutil::str_eq(
                    name.as_str(),
                    "run",
                ) || strutil::str_eq(name.as_str(), "image") || strutil::str_eq(
                    name.as_str(),
                    "port",
                ) || strutil::str_eq(name.as_str(), "cache") || strutil::str_eq(
                    name.as_str(),
                    "mount",
                ) || strutil::str_eq(name.as_str(), "env") || strutil::str_eq(
                    name.as_str(),
                    "env-file",
                ) || strutil::str_eq(name.as_str(), "engine-arg");
                if is_bool {
                    if attached.is_some() {
                        return Result::Err(unexpected_value_error(&name));
                    }
                    apply_bool_flag(&mut o, &name);
                } else if is_value {
                    let value = match attached {
                        Option::Some(v) => v,
                        Option::None => {
                            if i + 1 < tokens.len() {
                                i = i + 1;
                                tokens[i].clone()
                            } else {
                                return Result::Err(missing_value_error(&name));
                            }
                        },
                    };
                    let ghost vv = value@;
                    proof {
                        if att is None {
                            assert(tv.skip(i0)[1] == tv[i0 + 1]);
                            assert(vv == tv[i0 + 1]);
                            assert(tv.skip(i0).skip(2) =~= tv.skip(i0 + 2));
                        }
                    }
                    apply_value_flag(&mut o, &name, value);
                } else if is_group_name(group_defs, &name) {
                    if attached.is_some() {
                        return Result::Err(unexpected_value_error(&name));
                    }
                    apply_group_flag(&mut o, name);
                } else {
                    return Result::Err(unknown_flag_error(&name));
                }
            },
        }
        i = i + 1;
    }
    proof {
        assert(tv.skip(i as int) =~= Seq::<Seq<char>>::empty());
    }
    Result::Ok(o)
}

/// Parses the arguments of a container run against the grammar
/// `spec_run_scan`/`spec_finish_run`: the persistence and debug flags, the
/// settings flags, the dynamic group flags of the merged registry, and the
/// positional paths; then validates the combination. On success, a reuse or
/// discard mode carries no run-shaping input, debug excludes persistence,
/// and skip-cwd excludes explicit paths.
#[verifier::loop_isolation(false)]
#[verifier::rlimit(100)]
fn parse_run_action(tokens: &Vec<String>, group_defs: &Vec<(String, GroupConfig)>) -> (r: Result<
    ParsedCLI,
    AppError,
>)
    ensures
        match r {
            Result::Ok(p) => {
                &&& spec_parse_run(
                    tokens.deep_view(),
                    crate::config::types::groups_view(group_defs@),
                ) == Result::<ParsedCLIView, Seq<char>>::Ok(p@)
                &&& (p.debug ==> p.persist_mode == PersistMode::Ephemeral)
                &&& ((p.persist_mode == PersistMode::Reuse || p.persist_mode
                    == PersistMode::Discard) ==> no_run_shaping_input(p))
                &&& (p.skip_cwd ==> p.paths@.len() == 0)
                &&& !p.show_help
                &&& !p.show_version
            },
            Result::Err(e) => e matches AppError::Message(m) && spec_parse_run(
                tokens.deep_view(),
                crate::config::types::groups_view(group_defs@),
            ) == Result::<ParsedCLIView, Seq<char>>::Err(m@),
        },
{
    let ghost reg = crate::config::types::groups_view(group_defs@);
    let o = match scan_run_tokens(tokens, group_defs) {
        Result::Ok(o) => o,
        Result::Err(e) => {
            return Result::Err(e);
        },
    };
    let ghost stf = o@;
    let persist_mode = match resolve_persist_mode_from_flags(o.persist, o.persisted, o.discard) {
        Result::Ok(mode) => mode,
        Result::Err(e) => {
            return Result::Err(e);
        },
    };
    match validate_debug_flags(o.debug, persist_mode) {
        Result::Ok(()) => {},
        Result::Err(e) => {
            return Result::Err(e);
        },
    }
    let engine = match o.engine_value {
        Option::Some(v) => match parse_engine(v.as_str()) {
            Result::Ok(e) => Option::Some(e),
            Result::Err(e) => {
                return Result::Err(e);
            },
        },
        Option::None => Option::None,
    };
    let settings = Settings {
        run_command: o.run_value,
        image: o.image_value,
        ports: if o.saw_ports {
            Option::Some(o.ports)
        } else {
            Option::None
        },
        cache: if o.saw_cache {
            Option::Some(o.cache)
        } else {
            Option::None
        },
        mounts: if o.saw_mounts {
            Option::Some(o.mounts)
        } else {
            Option::None
        },
        env_vars: if o.saw_env_vars {
            Option::Some(o.env_vars)
        } else {
            Option::None
        },
        env_files: if o.saw_env_files {
            Option::Some(o.env_files)
        } else {
            Option::None
        },
        engine_args: if o.saw_engine_args {
            Option::Some(o.engine_args)
        } else {
            Option::None
        },
        engine,
    };
    proof {
        assert(settings@ == scan_settings(stf, engine));
    }
    match validate_cli_settings(&settings) {
        Result::Ok(()) => {},
        Result::Err(e) => {
            return Result::Err(e);
        },
    }
    let mut group_flags: Vec<(String, GroupFlag)> = Vec::new();
    let mut g: usize = 0;
    while g < group_defs.len()
        invariant
            g <= group_defs.len(),
            crate::config::groups::flags_view(group_flags@) == collected_flags(reg, stf.seen).take(
                g as int,
            ),
        decreases group_defs.len() - g,
    {
        group_flags.push((group_defs[g].0.clone(), lookup_flag(&o.seen, &group_defs[g].0)));
        g = g + 1;
        proof {
            assert(crate::config::groups::flags_view(group_flags@) =~= collected_flags(
                reg,
                stf.seen,
            ).take(g as int));
        }
    }
    proof {
        assert(crate::config::groups::flags_view(group_flags@) =~= collected_flags(reg, stf.seen));
    }
    let has_group_overrides = any_flag_set(&group_flags);
    let has_config_overrides = has_config_override(&settings, o.skip_cwd);
    match validate_persist_flags(
        o.persisted,
        o.discard,
        o.skip_cwd,
        has_config_overrides,
        has_group_overrides,
        o.paths.len(),
    ) {
        Result::Ok(()) => {},
        Result::Err(e) => {
            return Result::Err(e);
        },
    }
    proof {
        if !has_group_overrides {
            assert forall|k: int|
                0 <= k < group_flags@.len() implies !(#[trigger] group_flags@[k]).1.set by {
                assert(crate::config::groups::flags_view(group_flags@)[k].1
                    == group_flags@[k].1);
            }
        }
    }
    let p = ParsedCLI {
        action: Action::Run,
        settings,
        paths: o.paths,
        show_help: false,
        show_version: false,
        debug: o.debug,
        persist_mode,
        group_flags,
        skip_cwd: o.skip_cwd,
    };
    proof {
        assert(spec_finish_run(stf, reg) == Result::<ParsedCLIView, Seq<char>>::Ok(p@));
    }
    Result::Ok(p)
}

/// The state of the image-build argument scan.
pub ghost struct ImageScan {
    pub flavor: Option<Seq<char>>,
    pub engine_value: Option<Seq<char>>,
    pub tag_value: Option<Seq<char>>,
    pub no_cache: bool,
    pub context_value: Option<Seq<char>>,
}

impl ImageScan {
    /// The scan state before any token is read.
    pub open spec fn init() -> ImageScan {
        ImageScan {
            flavor: Option::None,
            engine_value: Option::None,
            tag_value: Option::None,
            no_cache: false,
            context_value: Option::None,
        }
    }
}

/// The scan state after one value flag of `image build`.
pub open spec fn set_image_value(st: ImageScan, name: Seq<char>, value: Seq<char>) -> ImageScan {
    if name == "engine"@ {
        ImageScan { engine_value: Option::Some(value), ..st }
    } else if name == "tag"@ {
        ImageScan { tag_value: Option::Some(value), ..st }
    } else {
        ImageScan { context_value: Option::Some(value), ..st }
    }
}

/// The `image build` argument grammar: one positional flavor, the
/// `--no-cache` switch, and the `--engine`, `--tag` and `--context` value
/// flags; anything else is rejected.
pub open spec fn spec_image_scan(st: ImageScan, tokens: Seq<Seq<char>>) -> Result<
    ImageScan,
    Seq<char>,
>
    decreases tokens.len(),
{
    if tokens.len() == 0 {
        Result::Ok(st)
    } else {
        let t = tokens[0];
        if !is_flag_token(t) {
            if st.flavor is Some {
                Result::Err(unexpected_arg_msg(t))
            } else {
                spec_image_scan(
                    ImageScan { flavor: Option::Some(t), ..st },
                    tokens.drop_first(),
                )
            }
        } else {
            let name = flag_name_of(t);
            if name == "no-cache"@ {
                if flag_value_of(t) is Some {
                    Result::Err(unexpected_value_msg(name))
                } else {
                    spec_image_scan(ImageScan { no_cache: true, ..st }, tokens.drop_first())
                }
            } else if name == "engine"@ || name == "tag"@ || name == "context"@ {
                match flag_value_of(t) {
                    Option::Some(v) => spec_image_scan(
                        set_image_value(st, name, v),
                        tokens.drop_first(),
                    ),
                    Option::None => if tokens.len() >= 2 {
                        spec_image_scan(set_image_value(st, name, tokens[1]), tokens.skip(2))
                    } else {
                        Result::Err(missing_value_msg(name))
                    },
                }
            } else {
                Result::Err(unknown_flag_msg(name))
            }
        }
    }
}

/// The engine an optional value selects; nothing selects the default.
pub open spec fn spec_engine_opt(v: Option<Seq<char>>) -> Result<Engine, Seq<char>> {
    match v {
        Option::Some(s) => spec_parse_engine(s),
        Option::None => Result::Ok(Engine::Podman),
    }
}

/// The finished image-build action: the engine value must parse, the flavor
/// is required and must parse, and the tag and context take their defaults.
pub open spec fn spec_finish_image(st: ImageScan) -> Result<ParsedCLIView, Seq<char>> {
    match spec_engine_opt(st.engine_value) {
        Result::Err(m) => Result::Err(m),
        Result::Ok(engine) => match st.flavor {
            Option::None => Result::Err("ERROR: missing image flavor"@),
            Option::Some(fv) => match spec_parse_image_flavor(fv) {
                Result::Err(m) => Result::Err(m),
                Result::Ok(flavor) => Result::Ok(
                    spec_parsed_with_action(
                        ActionView::ImageBuild(
                            ImageBuildView {
                                engine: engine,
                                flavor: flavor,
                                tag: (match st.tag_value {
                                    Option::Some(t) => t,
                                    Option::None => "localhost/dungeon"@,
                                }),
                                no_cache: st.no_cache,
                                context: (match st.context_value {
                                    Option::Some(c) => c,
                                    Option::None => "."@,
                                }),
                            },
                        ),
                        false,
                        false,
                    ),
                ),
            },
        },
    }
}

/// The parse of an `image` invocation: the `build` subcommand is required,
/// then the image-build grammar applies.
pub open spec fn spec_parse_image(tokens: Seq<Seq<char>>) -> Result<ParsedCLIView, Seq<char>> {
    if tokens.len() == 0 {
        Result::Err("ERROR: image requires a subcommand (use: image build)"@)
    } else if tokens[0] != "build"@ {
        Result::Err("ERROR: unknown image subcommand '"@ + tokens[0] + "'"@)
    } else {
        match spec_image_scan(ImageScan::init(), tokens.drop_first()) {
            Result::Err(m) => Result::Err(m),
            Result::Ok(st) => spec_finish_image(st),
        }
    }
}

/// Parses the arguments of `image build` against `spec_parse_image`: the
/// image flavor, the engine, the tag, the cache switch, and the build
/// context.
#[verifier::loop_isolation(false)]
#[verifier::rlimit(100)]
fn parse_image_action(tokens: &Vec<String>) -> (r: Result<ParsedCLI, AppError>)
    ensures
        match r {
            Result::Ok(p) => {
                &&& spec_parse_image(tokens.deep_view()) == Result::<
                    ParsedCLIView,
                    Seq<char>,
                >::Ok(p@)
                &&& p.action is ImageBuild
                &&& !p.debug && p.persist_mode == PersistMode::Ephemeral
                &&& no_run_shaping_input(p)
                &&& !p.show_help && !p.show_version
            },
            Result::Err(e) => e matches AppError::Message(m) && spec_parse_image(
                tokens.deep_view(),
            ) == Result::<ParsedCLIView, Seq<char>>::Err(m@),
        },
{
    let ghost tv = tokens.deep_view();
    if tokens.len() == 0 {
        return Result::Err(AppError::message(String::from_str(
            "ERROR: image requires a subcommand (use: image build)",
        )));
    }
    if !strutil::str_eq(tokens[0].as_str(), "build") {
        let mut msg = String::from_str("ERROR: unknown image subcommand '");
        msg.append(tokens[0].as_str());
        msg.append("'");
        proof {
            assert(msg@ =~= "ERROR: unknown image subcommand '"@ + tv[0] + "'"@);
        }
        return Result::Err(AppError::message(msg));
    }
    let mut flavor_value: Option<String> = Option::None;
    let mut engine_value: Option<String> = Option::None;
    let mut tag_value: Option<String> = Option::None;
    let mut no_cache = false;
    let mut context_value: Option<String> = Option::None;
    let mut i: usize = 1;
    proof {
        assert(tv.drop_first() =~= tv.skip(1));
    }
    while i < tokens.len()
        invariant
            1 <= i <= tokens.len(),
            spec_image_scan(ImageScan::init(), tv.drop_first()) == spec_image_scan(
                ImageScan {
                flavor: flavor_value.deep_view(),
                engine_value: engine_value.deep_view(),
                tag_value: tag_value.deep_view(),
                no_cache: no_cache,
                context_value: context_value.deep_view(),
            },
                tv.skip(i as int),
            ),
        decreases tokens.len() - i,
    {
        let ghost pre = ImageScan {
                flavor: flavor_value.deep_view(),
                engine_value: engine_value.deep_view(),
                tag_value: tag_value.deep_view(),
                no_cache: no_cache,
                context_value: context_value.deep_view(),
            };
        let ghost i0 = i as int;
        proof {
            assert(tv.skip(i0)[0] == tv[i0]);
            assert(tv.skip(i0).drop_first() =~= tv.skip(i0 + 1));
        }
        match split_flag_token(tokens[i].as_str()) {
            Option::None => {
                if flavor_value.is_some() {
                    return Result::Err(unexpected_arg_error(&tokens[i]));
                }
                flavor_value = Option::Some(tokens[i].clone());
            },
            Option::Some(flag) => {
                let (name, attached) = flag;
                let ghost nm = name@;
                let ghost att = attached.deep_view();
                if strutil::str_eq(name.as_str(), "no-cache") {
                    if attached.is_some() {
                        return Result::Err(unexpected_value_error(&name));
                    }
                    no_cache = true;
                } else if strutil::str_eq(name.as_str(), "engine") || strutil::str_eq(
                    name.as_str(),
                    "tag",
                ) || strutil::str_eq(name.as_str(), "context") {
                    let value = match attached {
                        Option::Some(v) => v,
                        Option::None => {
                            if i + 1 < tokens.len() {
                                i = i + 1;
                                tokens[i].clone()
                            } else {
                                return Result::Err(missing_value_error(&name));
                            }
                        },
                    };
                    let ghost vv = value@;
                    proof {
                        if att is None {
                            assert(tv.skip(i0)[1] == tv[i0 + 1]);
                            assert(tv.skip(i0).skip(2) =~= tv.skip(i0 + 2));
                        }
                    }
                    if strutil::str_eq(name.as_str(), "engine") {
                        engine_value = Option::Some(value);
                    } else if strutil::str_eq(name.as_str(), "tag") {
                        tag_value = Option::Some(value);
                    } else {
                        context_value = Option::Some(value);
                    }
                    proof {
                        assert((ImageScan {
                flavor: flavor_value.deep_view(),
                engine_value: engine_value.deep_view(),
                tag_value: tag_value.deep_view(),
                no_cache: no_cache,
                context_value: context_value.deep_view(),
            }) == set_image_value(pre, nm, vv));
                    }
                } else {
                    return Result::Err(unknown_flag_error(&name));
                }
            },
        }
        i = i + 1;
    }
    proof {
        assert(tv.skip(i as int) =~= Seq::<Seq<char>>::empty());
    }
    let ghost stf = ImageScan {
                flavor: flavor_value.deep_view(),
                engine_value: engine_value.deep_view(),
                tag_value: tag_value.deep_view(),
                no_cache: no_cache,
                context_value: context_value.deep_view(),
            };
    let engine = match parse_optional_engine(engine_value.as_ref()) {
        Result::Ok(e) => e,
        Result::Err(e) => {
            return Result::Err(e);
        },
    };
    let flavor = match flavor_value {
        Option::Some(v) => match parse_image_flavor(v.as_str()) {
            Result::Ok(f) => f,
            Result::Err(e) => {
                return Result::Err(e);
            },
        },
        Option::None => {
            return Result::Err(AppError::message(String::from_str(
                "ERROR: missing image flavor",
            )));
        },
    };
    let tag = match tag_value {
        Option::Some(v) => v,
        Option::None => String::from_str("localhost/dungeon"),
    };
    let context = match context_value {
        Option::Some(v) => v,
        Option::None => String::from_str("."),
    };
    let p = parsed_with_action(
        Action::ImageBuild(ImageBuildAction { engine, flavor, tag, no_cache, context }),
        false,
        false,
    );
    proof {
        assert(spec_finish_image(stf) == Result::<ParsedCLIView, Seq<char>>::Ok(p@));
    }
    Result::Ok(p)
}

/// The `cache reset` argument grammar: the `--engine` value flag alone;
/// anything else is rejected.
pub open spec fn spec_cache_scan(
    engine_value: Option<Seq<char>>,
    tokens: Seq<Seq<char>>,
) -> Result<Option<Seq<char>>, Seq<char>>
    decreases tokens.len(),
{
    if tokens.len() == 0 {
        Result::Ok(engine_value)
    } else {
        let t = tokens[0];
        if !is_flag_token(t) {
            Result::Err(unexpected_arg_msg(t))
        } else {
            let name = flag_name_of(t);
            if name == "engine"@ {
                match flag_value_of(t) {
                    Option::Some(v) => spec_cache_scan(Option::Some(v), tokens.drop_first()),
                    Option::None => if tokens.len() >= 2 {
                        spec_cache_scan(Option::Some(tokens[1]), tokens.skip(2))
                    } else {
                        Result::Err(missing_value_msg(name))
                    },
                }
            } else {
                Result::Err(unknown_flag_msg(name))
            }
        }
    }
}

/// The parse of a `cache` invocation: the `reset` subcommand is required,
/// then the engine choice alone.
pub open spec fn spec_parse_cache(tokens: Seq<Seq<char>>) -> Result<ParsedCLIView, Seq<char>> {
    if tokens.len() == 0 {
        Result::Err("ERROR: cache requires a subcommand (use: cache reset)"@)
    } else if tokens[0] != "reset"@ {
        Result::Err("ERROR: unknown cache subcommand '"@ + tokens[0] + "'"@)
    } else {
        match spec_cache_scan(Option::None, tokens.drop_first()) {
            Result::Err(m) => Result::Err(m),
            Result::Ok(ev) => match spec_engine_opt(ev) {
                Result::Err(m) => Result::Err(m),
                Result::Ok(engine) => Result::Ok(
                    spec_parsed_with_action(
                        ActionView::CacheReset(CacheResetView { engine: engine }),
                        false,
                        false,
                    ),
                ),
            },
        }
    }
}

/// Parses the arguments of `cache reset` against `spec_parse_cache`: the
/// engine choice alone.
#[verifier::loop_isolation(false)]
fn parse_cache_action(tokens: &Vec<String>) -> (r: Result<ParsedCLI, AppError>)
    ensures
        match r {
            Result::Ok(p) => {
                &&& spec_parse_cache(tokens.deep_view()) == Result::<
                    ParsedCLIView,
                    Seq<char>,
                >::Ok(p@)
                &&& p.action is CacheReset
                &&& !p.debug && p.persist_mode == PersistMode::Ephemeral
                &&& no_run_shaping_input(p)
                &&& !p.show_help && !p.show_version
            },
            Result::Err(e) => e matches AppError::Message(m) && spec_parse_cache(
                tokens.deep_view(),
            ) == Result::<ParsedCLIView, Seq<char>>::Err(m@),
        },
{
    let ghost tv = tokens.deep_view();
    if tokens.len() == 0 {
        return Result::Err(AppError::message(String::from_str(
            "ERROR: cache requires a subcommand (use: cache reset)",
        )));
    }
    if !strutil::str_eq(tokens[0].as_str(), "reset") {
        let mut msg = String::from_str("ERROR: unknown cache subcommand '");
        msg.append(tokens[0].as_str());
        msg.append("'");
        proof {
            assert(msg@ =~= "ERROR: unknown cache subcommand '"@ + tv[0] + "'"@);
        }
        return Result::Err(AppError::message(msg));
    }
    let mut engine_value: Option<String> = Option::None;
    let mut i: usize = 1;
    proof {
        assert(tv.drop_first() =~= tv.skip(1));
    }
    while i < tokens.len()
        invariant
            1 <= i <= tokens.len(),
            spec_cache_scan(Option::None, tv.drop_first()) == spec_cache_scan(
                engine_value.deep_view(),
                tv.skip(i as int),
            ),
        decreases tokens.len() - i,
    {
        let ghost i0 = i as int;
        proof {
            assert(tv.skip(i0)[0] == tv[i0]);
            assert(tv.skip(i0).drop_first() =~= tv.skip(i0 + 1));
        }
        match split_flag_token(tokens[i].as_str()) {
            Option::None => {
                return Result::Err(unexpected_arg_error(&tokens[i]));
            },
            Option::Some(flag) => {
                let (name, attached) = flag;
                let ghost att = attached.deep_view();
                if strutil::str_eq(name.as_str(), "engine") {
                    let value = match attached {
                        Option::Some(v) => v,
                        Option::None => {
                            if i + 1 < tokens.len() {
                                i = i + 1;
                                tokens[i].clone()
                            } else {
                                return Result::Err(missing_value_error(&name));
                            }
                        },
                    };
                    proof {
                        if att is None {
                            assert(tv.skip(i0)[1] == tv[i0 + 1]);
                            assert(tv.skip(i0).skip(2) =~= tv.skip(i0 + 2));
                        }
                    }
                    engine_value = Option::Some(value);
                } else {
                    return Result::Err(unknown_flag_error(&name));
                }
            },
        }
        i = i + 1;
    }
    proof {
        assert(tv.skip(i as int) =~= Seq::<Seq<char>>::empty());
    }
    let engine = match parse_optional_engine(engine_value.as_ref()) {
        Result::Ok(e) => e,
        Result::Err(e) => {
            return Result::Err(e);
        },
    };
    let p = parsed_with_action(
        Action::CacheReset(CacheResetAction { engine }),
        false,
        false,
    );
    Result::Ok(p)
}

/// The full command-line grammar over the models of the three configuration
/// sources: the group registry is merged and its names validated, the
/// always-on list is normalized and checked against the registry, a literal
/// `--help` or `--version` anywhere short-circuits everything else, a
/// leading `run`, `image` or `cache` token selects the subcommand, and
/// anything else is a container run.
pub open spec fn spec_parse_args(
    args: Seq<Seq<char>>,
    defaults: crate::config::ConfigView,
    file: crate::config::ConfigView,
    env: crate::config::ConfigView,
) -> Result<ParsedCLIView, Seq<char>> {
    match crate::config::groups::spec_merge_group_definitions(defaults.groups, file.groups) {
        Result::Err(m) => Result::Err(m),
        Result::Ok(registry) => match spec_validate_group_names(registry) {
            Result::Err(m) => Result::Err(m),
            Result::Ok(_) => match crate::config::groups::spec_normalize_order(
                crate::config::merge::always_on_of(defaults) + crate::config::merge::always_on_of(
                    file,
                ) + crate::config::merge::always_on_of(env) + crate::config::merge::always_on_of(
                    crate::config::ConfigView::empty(),
                ),
            ) {
                Result::Err(m) => Result::Err(m),
                Result::Ok(base_order) => match crate::config::groups::spec_build_selection(
                    registry,
                    base_order,
                ) {
                    Result::Err(m) => Result::Err(m),
                    Result::Ok(_) => if crate::config::groups::contains_name(args, "--help"@) {
                        Result::Ok(spec_parsed_with_action(ActionView::Nothing, true, false))
                    } else if crate::config::groups::contains_name(args, "--version"@) {
                        Result::Ok(spec_parsed_with_action(ActionView::Nothing, false, true))
                    } else if args.len() > 0 && args[0] == "run"@ {
                        spec_parse_run(args.drop_first(), registry)
                    } else if args.len() > 0 && args[0] == "image"@ {
                        spec_parse_image(args.drop_first())
                    } else if args.len() > 0 && args[0] == "cache"@ {
                        spec_parse_cache(args.drop_first())
                    } else {
                        spec_parse_run(args, registry)
                    },
                },
            },
        },
    }
}

/// Parses the command line against the group registry that the given
/// configuration sources define. The registry is merged and validated
/// first; a literal `--help` or `--version` anywhere short-circuits
/// everything else; a leading `run`, `image` or `cache` token selects the
/// subcommand, and anything else is a container run. On success, a reuse or
/// discard mode carries no run-shaping input, debug excludes persistence,
/// and skip-cwd excludes explicit paths.
#[verifier::loop_isolation(false)]
pub fn parse_args_with_sources(
    args: Vec<String>,
    defaults: Config,
    file_cfg: Config,
    env_cfg: Config,
) -> (r: Result<ParsedCLI, AppError>)
    ensures
        match r {
            Result::Ok(p) => {
                &&& spec_parse_args(args.deep_view(), defaults@, file_cfg@, env_cfg@) == Result::<
                    ParsedCLIView,
                    Seq<char>,
                >::Ok(p@)
                &&& (p.debug ==> p.persist_mode == PersistMode::Ephemeral)
                &&& ((p.persist_mode == PersistMode::Reuse || p.persist_mode
                    == PersistMode::Discard) ==> no_run_shaping_input(p))
                &&& (p.skip_cwd ==> p.paths@.len() == 0)
                &&& ((p.show_help || p.show_version) ==> p.action is Nothing)
                &&& p.show_help == crate::config::groups::contains_name(
                    args.deep_view(),
                    "--help"@,
                )
                &&& p.show_version == (!crate::config::groups::contains_name(
                    args.deep_view(),
                    "--help"@,
                ) && crate::config::groups::contains_name(args.deep_view(), "--version"@))
            },
            Result::Err(e) => e matches AppError::Message(m) && spec_parse_args(
                args.deep_view(),
                defaults@,
                file_cfg@,
                env_cfg@,
            ) == Result::<ParsedCLIView, Seq<char>>::Err(m@),
        },
{
    let ghost av = args.deep_view();
    let group_defs = match crate::config::groups::merge_group_definitions(
        &defaults.groups,
        &file_cfg.groups,
    ) {
        Result::Ok(defs) => defs,
        Result::Err(e) => {
            return Result::Err(e);
        },
    };
    match validate_group_names(&group_defs) {
        Result::Ok(()) => {},
        Result::Err(e) => {
            return Result::Err(e);
        },
    }
    let no_cli = Config::default();
    let base_groups = crate::config::merge::resolve_always_on_groups(
        &defaults,
        &file_cfg,
        &env_cfg,
        &no_cli,
    );
    let base_order = match crate::config::groups::normalize_group_order(&base_groups) {
        Result::Ok(order) => order,
        Result::Err(e) => {
            return Result::Err(e);
        },
    };
    match crate::config::groups::build_group_selection(&group_defs, &base_order) {
        Result::Ok(_) => {},
        Result::Err(e) => {
            return Result::Err(e);
        },
    }
    let mut i: usize = 0;
    while i < args.len()
        invariant
            i <= args.len(),
            forall|j: int| 0 <= j < i ==> args.deep_view()[j] != "--help"@,
        decreases args.len() - i,
    {
        if strutil::str_eq(args[i].as_str(), "--help") {
            proof {
                assert(args.deep_view()[i as int] == "--help"@);
                assert(crate::config::groups::contains_name(args.deep_view(), "--help"@));
            }
            return Result::Ok(parsed_with_action(Action::Nothing, true, false));
        }
        i = i + 1;
    }
    let mut k: usize = 0;
    while k < args.len()
        invariant
            k <= args.len(),
            forall|j: int| 0 <= j < k ==> args.deep_view()[j] != "--version"@,
            forall|j: int| 0 <= j < args.deep_view().len() ==> args.deep_view()[j] != "--help"@,
        decreases args.len() - k,
    {
        if strutil::str_eq(args[k].as_str(), "--version") {
            proof {
                assert(args.deep_view()[k as int] == "--version"@);
                assert(crate::config::groups::contains_name(args.deep_view(), "--version"@));
            }
            return Result::Ok(parsed_with_action(Action::Nothing, false, true));
        }
        k = k + 1;
    }
    if args.len() == 0 {
        let empty: Vec<String> = Vec::new();
        proof {
            assert(empty.deep_view() =~= av);
        }
        return parse_run_action(&empty, &group_defs);
    }
    proof {
        assert(av.drop_first() =~= av.skip(1));
    }
    if strutil::str_eq(args[0].as_str(), "run") {
        let rest = copy_from(&args, 1);
        return parse_run_action(&rest, &group_defs);
    }
    if strutil::str_eq(args[0].as_str(), "image") {
        let rest = copy_from(&args, 1);
        return parse_image_action(&rest);
    }
    if strutil::str_eq(args[0].as_str(), "cache") {
        let rest = copy_from(&args, 1);
        return parse_cache_action(&rest);
    }
    parse_run_action(&args, &group_defs)
}

/// Parses the command line after reading the configuration sources: the
/// compiled-in defaults (which specify nothing), the user file's text (when
/// there is one), and the environment snapshot. A failure to read either
/// source is returned unchanged; otherwise the result is exactly that of
/// `parse_args_with_sources` over the loaded sources.
pub fn parse_args(
    args: Vec<String>,
    file_text: Option<&String>,
    env: &Vec<(String, String)>,
) -> (r: Result<ParsedCLI, AppError>)
    ensures
        match crate::config::spec_source_configs(
            file_text.deep_view(),
            crate::container::engine::pairs_view(env@),
        ) {
            Result::Err(m) => r matches Result::Err(e) && (e matches AppError::Message(mm)
                && mm@ == m),
            Result::Ok(cfgs) => match r {
                Result::Ok(p) => {
                    &&& spec_parse_args(
                        args.deep_view(),
                        crate::config::ConfigView::empty(),
                        cfgs.0,
                        cfgs.1,
                    ) == Result::<ParsedCLIView, Seq<char>>::Ok(p@)
                    &&& (p.debug ==> p.persist_mode == PersistMode::Ephemeral)
                    &&& ((p.persist_mode == PersistMode::Reuse || p.persist_mode
                        == PersistMode::Discard) ==> no_run_shaping_input(p))
                    &&& (p.skip_cwd ==> p.paths@.len() == 0)
                    &&& ((p.show_help || p.show_version) ==> p.action is Nothing)
                },
                Result::Err(e) => e matches AppError::Message(m) && spec_parse_args(
                    args.deep_view(),
                    crate::config::ConfigView::empty(),
                    cfgs.0,
                    cfgs.1,
                ) == Result::<ParsedCLIView, Seq<char>>::Err(m@),
            },
        },
{
    let defaults = match crate::config::load_defaults() {
        Result::Ok(c) => c,
        Result::Err(e) => {
            return Result::Err(e);
        },
    };
    let file_cfg = match crate::config::load_from_file(file_text) {
        Result::Ok(c) => c,
        Result::Err(e) => {
            return Result::Err(e);
        },
    };
    let env_cfg = match crate::config::load_from_env(env) {
        Result::Ok(c) => c,
        Result::Err(e) => {
            return Result::Err(e);
        },
    };
    parse_args_with_sources(args, defaults, file_cfg, env_cfg)
}

/// The flag recorded for a name, or the unset default.
pub open spec fn flag_lookup(
    flags: Seq<(Seq<char>, GroupFlag)>,
    name: Seq<char>,
) -> GroupFlag
    decreases flags.len(),
{
    if flags.len() == 0 {
        GroupFlag { set: false, order: 0 }
    } else if flags[0].0 == name {
        flags[0].1
    } else {
        flag_lookup(flags.drop_first(), name)
    }
}

/// One flag record per registry name, in registry order: the flag the
/// parsed command line recorded for that name, or the unset default.
#[verifier::loop_isolation(false)]
pub fn collect_group_flags_from_names(
    parsed: &ParsedCLI,
    groups: &Vec<(String, GroupConfig)>,
) -> (r: Vec<(String, GroupFlag)>)
    ensures
        crate::config::groups::flags_view(r@) == Seq::new(
            groups@.len(),
            |i: int|
                (groups@[i].0@, flag_lookup(
                    crate::config::groups::flags_view(parsed.group_flags@),
                    groups@[i].0@,
                )),
        ),
{
    let ghost target = Seq::new(
        groups@.len(),
        |i: int|
            (groups@[i].0@, flag_lookup(
                crate::config::groups::flags_view(parsed.group_flags@),
                groups@[i].0@,
            )),
    );
    let mut r: Vec<(String, GroupFlag)> = Vec::new();
    let mut i: usize = 0;
    while i < groups.len()
        invariant
            i <= groups.len(),
            crate::config::groups::flags_view(r@) == target.take(i as int),
        decreases groups.len() - i,
    {
        let flag = lookup_flag(&parsed.group_flags, &groups[i].0);
        r.push((groups[i].0.clone(), flag));
        i = i + 1;
        proof {
            assert(crate::config::groups::flags_view(r@) =~= target.take(i as int));
        }
    }
    proof {
        assert(crate::config::groups::flags_view(r@) =~= target);
    }
    r
}

/// The flag recorded for a name, or the unset default; executable form.
#[verifier::loop_isolation(false)]
fn lookup_flag(flags: &Vec<(String, GroupFlag)>, name: &String) -> (r: GroupFlag)
    ensures
        r == flag_lookup(crate::config::groups::flags_view(flags@), name@),
{
    let ghost fv = crate::config::groups::flags_view(flags@);
    let mut i: usize = 0;
    proof {
        assert(fv.skip(0) =~= fv);
    }
    while i < flags.len()
        invariant
            i <= flags.len(),
            flag_lookup(fv, name@) == flag_lookup(fv.skip(i as int), name@),
        decreases flags.len() - i,
    {
        proof {
            assert(fv.skip(i as int)[0] == fv[i as int]);
            assert(fv.skip(i as int).drop_first() =~= fv.skip(i + 1));
        }
        if strutil::str_eq(flags[i].0.as_str(), name.as_str()) {
            return flags[i].1;
        }
        i = i + 1;
    }
    proof {
        assert(fv.skip(i as int) =~= Seq::<(Seq<char>, GroupFlag)>::empty());
    }
    GroupFlag { set: false, order: 0 }
}

} // verus!
