//! The settings model: sparse, partially-specified run configuration merged
//! from several sources, plus the group and top-level configuration records.

use vstd::prelude::*;

use crate::Engine;

verus! {

/// A sparse record of run configuration. `None` in a field always means
/// "not specified by this source", never "explicitly cleared".
pub struct Settings {
    pub run_command: Option<String>,
    pub image: Option<String>,
    pub ports: Option<Vec<String>>,
    pub cache: Option<Vec<String>>,
    pub mounts: Option<Vec<String>>,
    pub env_vars: Option<Vec<String>>,
    pub env_files: Option<Vec<String>>,
    pub engine_args: Option<Vec<String>>,
    pub engine: Option<Engine>,
}

/// Mathematical model of a `Settings` value.
pub ghost struct SettingsView {
    pub run_command: Option<Seq<char>>,
    pub image: Option<Seq<char>>,
    pub ports: Option<Seq<Seq<char>>>,
    pub cache: Option<Seq<Seq<char>>>,
    pub mounts: Option<Seq<Seq<char>>>,
    pub env_vars: Option<Seq<Seq<char>>>,
    pub env_files: Option<Seq<Seq<char>>>,
    pub engine_args: Option<Seq<Seq<char>>>,
    pub engine: Option<Engine>,
}

impl SettingsView {
    /// The model of a settings record that specifies nothing.
    pub open spec fn empty() -> SettingsView {
        SettingsView {
            run_command: None,
            image: None,
            ports: None,
            cache: None,
            mounts: None,
            env_vars: None,
            env_files: None,
            engine_args: None,
            engine: None,
        }
    }
}

impl View for Settings {
    type V = SettingsView;

    open spec fn view(&self) -> SettingsView {
        SettingsView {
            run_command: self.run_command.deep_view(),
            image: self.image.deep_view(),
            ports: self.ports.deep_view(),
            cache: self.cache.deep_view(),
            mounts: self.mounts.deep_view(),
            env_vars: self.env_vars.deep_view(),
            env_files: self.env_files.deep_view(),
            engine_args: self.engine_args.deep_view(),
            engine: self.engine,
        }
    }
}

impl Settings {
    /// A settings record that specifies nothing.
    pub fn empty() -> (r: Settings)
        ensures
            r@ == SettingsView::empty(),
    {
        Settings {
            run_command: None,
            image: None,
            ports: None,
            cache: None,
            mounts: None,
            env_vars: None,
            env_files: None,
            engine_args: None,
            engine: None,
        }
    }

    /// A copy of this settings record.
    pub fn duplicate(&self) -> (r: Settings)
        ensures
            r@ == self@,
    {
        Settings {
            run_command: copy_opt_string(&self.run_command),
            image: copy_opt_string(&self.image),
            ports: copy_opt_string_vec(&self.ports),
            cache: copy_opt_string_vec(&self.cache),
            mounts: copy_opt_string_vec(&self.mounts),
            env_vars: copy_opt_string_vec(&self.env_vars),
            env_files: copy_opt_string_vec(&self.env_files),
            engine_args: copy_opt_string_vec(&self.engine_args),
            engine: self.engine,
        }
    }
}

impl Default for Settings {
    /// The default settings record specifies nothing.
    fn default() -> (r: Settings)
        ensures
            r@ == SettingsView::empty(),
    {
        Settings::empty()
    }
}

/// A named bundle of settings overrides. A group read from the user file
/// with an empty table carries `disabled == true`, which removes the same
/// name from the merged registry.
pub struct GroupConfig {
    pub settings: Settings,
    pub disabled: bool,
}

/// Mathematical model of a `GroupConfig`.
pub ghost struct GroupConfigView {
    pub settings: SettingsView,
    pub disabled: bool,
}

impl View for GroupConfig {
    type V = GroupConfigView;

    open spec fn view(&self) -> GroupConfigView {
        GroupConfigView { settings: self.settings@, disabled: self.disabled }
    }
}

impl GroupConfig {
    /// A copy of this group record.
    pub fn duplicate(&self) -> (r: GroupConfig)
        ensures
            r@ == self@,
    {
        GroupConfig { settings: self.settings.duplicate(), disabled: self.disabled }
    }
}

impl Default for GroupConfig {
    /// The default group record specifies nothing and is enabled.
    fn default() -> (r: GroupConfig)
        ensures
            r@ == (GroupConfigView { settings: SettingsView::empty(), disabled: false }),
    {
        GroupConfig { settings: Settings::empty(), disabled: false }
    }
}

/// One configuration source: its settings, its list of always-on group
/// names, and the group definitions it contributes. The group registry is a
/// name-keyed association list; lookups take the first entry with the name.
pub struct Config {
    pub settings: Settings,
    pub always_on_groups: Option<Vec<String>>,
    pub groups: Vec<(String, GroupConfig)>,
}

/// Mathematical model of a `Config`.
pub ghost struct ConfigView {
    pub settings: SettingsView,
    pub always_on_groups: Option<Seq<Seq<char>>>,
    pub groups: Seq<(Seq<char>, GroupConfigView)>,
}

/// The model of a group registry: name/group pairs in registry order.
pub open spec fn groups_view(groups: Seq<(String, GroupConfig)>) -> Seq<
    (Seq<char>, GroupConfigView),
> {
    Seq::new(groups.len(), |i: int| (groups[i].0@, groups[i].1@))
}

impl View for Config {
    type V = ConfigView;

    open spec fn view(&self) -> ConfigView {
        ConfigView {
            settings: self.settings@,
            always_on_groups: self.always_on_groups.deep_view(),
            groups: groups_view(self.groups@),
        }
    }
}

impl ConfigView {
    /// The model of a configuration that specifies nothing.
    pub open spec fn empty() -> ConfigView {
        ConfigView {
            settings: SettingsView::empty(),
            always_on_groups: None,
            groups: Seq::empty(),
        }
    }
}

impl Default for Config {
    /// The default configuration specifies nothing.
    fn default() -> (r: Config)
        ensures
            r@ == ConfigView::empty(),
    {
        let r = Config { settings: Settings::empty(), always_on_groups: None, groups: Vec::new() };
        proof {
            assert(r@.groups =~= ConfigView::empty().groups);
        }
        r
    }
}

/// The output of resolution: the fully merged settings, the explicit paths
/// as given, the persistence mode, and the container name the invocation
/// addresses (empty for an ephemeral run).
pub struct ResolvedConfig {
    pub settings: Settings,
    pub paths: Vec<String>,
    pub persist_mode: crate::container::persist::PersistMode,
    pub container_name: String,
}

/// Mathematical model of a `ResolvedConfig`.
pub ghost struct ResolvedConfigView {
    pub settings: SettingsView,
    pub paths: Seq<Seq<char>>,
    pub persist_mode: crate::container::persist::PersistMode,
    pub container_name: Seq<char>,
}

impl View for ResolvedConfig {
    type V = ResolvedConfigView;

    open spec fn view(&self) -> ResolvedConfigView {
        ResolvedConfigView {
            settings: self.settings@,
            paths: self.paths.deep_view(),
            persist_mode: self.persist_mode,
            container_name: self.container_name@,
        }
    }
}

/// The four ordered settings sources fed to the resolver.
pub struct Sources {
    pub defaults: Settings,
    pub file: Settings,
    pub env: Settings,
    pub cli: Settings,
}

/// A copy of an optional string, with the same characters.
pub fn copy_opt_string(v: &Option<String>) -> (r: Option<String>)
    ensures
        r.deep_view() == v.deep_view(),
{
    match v {
        Option::None => Option::None,
        Option::Some(s) => Option::Some(s.clone()),
    }
}

/// A copy of a string vector, with the same characters in each slot.
pub fn copy_string_vec(v: &Vec<String>) -> (r: Vec<String>)
    ensures
        r.deep_view() == v.deep_view(),
        r@ == v@,
{
    let mut r: Vec<String> = Vec::new();
    let mut i: usize = 0;
    while i < v.len()
        invariant
            i <= v.len(),
            r@ == v@.take(i as int),
        decreases v.len() - i,
    {
        r.push(v[i].clone());
        i = i + 1;
        assert(r@ =~= v@.take(i as int));
    }
    proof {
        assert(r@ =~= v@);
        assert(r.deep_view() =~= v.deep_view());
    }
    r
}

/// A copy of an optional string vector, with the same characters.
pub fn copy_opt_string_vec(v: &Option<Vec<String>>) -> (r: Option<Vec<String>>)
    ensures
        r.deep_view() == v.deep_view(),
{
    match v {
        Option::None => Option::None,
        Option::Some(list) => Option::Some(copy_string_vec(list)),
    }
}

} // verus!
