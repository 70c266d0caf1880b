//! The engine command model, and the simple pass-through command builders
//! for image building and cache reset.

use vstd::prelude::*;
use vstd::string::StringExecFns;

use crate::Engine;
use crate::error::AppError;

verus! {

/// A concrete command line for the container engine: the program to invoke
/// and its arguments, in order.
pub struct CommandSpec {
    pub program: String,
    pub args: Vec<String>,
}

/// Mathematical model of a `CommandSpec`.
pub ghost struct CommandSpecView {
    pub program: Seq<char>,
    pub args: Seq<Seq<char>>,
}

impl View for CommandSpec {
    type V = CommandSpecView;

    open spec fn view(&self) -> CommandSpecView {
        CommandSpecView { program: self.program@, args: self.args.deep_view() }
    }
}

/// The program name of an engine.
pub open spec fn engine_program(e: Engine) -> Seq<char> {
    match e {
        Engine::Podman => "podman"@,
        Engine::Docker => "docker"@,
    }
}

/// Appends one argument, given as a slice, to an argument vector.
pub fn push_arg(args: &mut Vec<String>, s: &str)
    ensures
        final(args).deep_view() == old(args).deep_view().push(s@),
{
    args.push(String::from_str(s));
    proof {
        assert(args.deep_view() =~= old(args).deep_view().push(s@));
    }
}

/// Appends one argument, given as an owned string, to an argument vector.
pub fn push_arg_string(args: &mut Vec<String>, s: String)
    ensures
        final(args).deep_view() == old(args).deep_view().push(s@),
{
    let ghost sv = s@;
    args.push(s);
    proof {
        assert(args.deep_view() =~= old(args).deep_view().push(sv));
    }
}

/// The engine invocation that builds an image: the containerfile, the tag,
/// optionally `--no-cache`, and the build context, in that order.
pub open spec fn image_command_args(
    containerfile: Seq<char>,
    tag: Seq<char>,
    no_cache: bool,
    context: Seq<char>,
) -> Seq<Seq<char>> {
    seq!["build"@, "-f"@, containerfile, "-t"@, tag] + (if no_cache {
        seq!["--no-cache"@]
    } else {
        Seq::empty()
    }) + seq![context]
}

/// Builds the engine command that builds an image.
pub fn build_image_command(
    engine: Engine,
    containerfile: &str,
    tag: &String,
    no_cache: bool,
    context: &String,
) -> (r: CommandSpec)
    ensures
        r@.program == engine_program(engine),
        r@.args == image_command_args(containerfile@, tag@, no_cache, context@),
{
    let mut args: Vec<String> = Vec::new();
    push_arg(&mut args, "build");
    push_arg(&mut args, "-f");
    push_arg(&mut args, containerfile);
    push_arg(&mut args, "-t");
    push_arg_string(&mut args, tag.clone());
    if no_cache {
        push_arg(&mut args, "--no-cache");
    }
    push_arg_string(&mut args, context.clone());
    proof {
        assert(args.deep_view() =~= image_command_args(
            containerfile@,
            tag@,
            no_cache,
            context@,
        ));
    }
    CommandSpec { program: String::from_str(engine.program()), args }
}

/// A snapshot of the host facts the command builder reads: the canonical
/// working directory, the canonical home directory, the process environment,
/// the user and group ids (as strings), and the canonical form of each
/// explicit path argument that exists on disk. Handing these in as data
/// keeps the builder a pure function of its arguments.
pub struct HostContext {
    pub cwd: String,
    pub home: String,
    pub env: Vec<(String, String)>,
    pub uid: String,
    pub gid: String,
    pub entries: Vec<(String, String)>,
}

/// Mathematical model of a `HostContext`.
pub ghost struct HostContextView {
    pub cwd: Seq<char>,
    pub home: Seq<char>,
    pub env: Seq<(Seq<char>, Seq<char>)>,
    pub uid: Seq<char>,
    pub gid: Seq<char>,
    pub entries: Seq<(Seq<char>, Seq<char>)>,
}

/// The model of a list of string pairs.
pub open spec fn pairs_view(s: Seq<(String, String)>) -> Seq<(Seq<char>, Seq<char>)> {
    Seq::new(s.len(), |i: int| (s[i].0@, s[i].1@))
}

impl View for HostContext {
    type V = HostContextView;

    open spec fn view(&self) -> HostContextView {
        HostContextView {
            cwd: self.cwd@,
            home: self.home@,
            env: pairs_view(self.env@),
            uid: self.uid@,
            gid: self.gid@,
            entries: pairs_view(self.entries@),
        }
    }
}

/// The value of the first pair with the given key, if any.
pub open spec fn pair_lookup(
    pairs: Seq<(Seq<char>, Seq<char>)>,
    key: Seq<char>,
) -> Option<Seq<char>>
    decreases pairs.len(),
{
    if pairs.len() == 0 {
        Option::None
    } else if pairs[0].0 == key {
        Option::Some(pairs[0].1)
    } else {
        pair_lookup(pairs.drop_first(), key)
    }
}

/// Prefixes the flags built so far to a fallible remainder.
pub open spec fn prepend_flags(
    acc: Seq<Seq<char>>,
    rest: Result<Seq<Seq<char>>, Seq<char>>,
) -> Result<Seq<Seq<char>>, Seq<char>> {
    match rest {
        Result::Err(m) => Result::Err(m),
        Result::Ok(flags) => Result::Ok(acc + flags),
    }
}

/// The `-v` flags for the host mount specs, in order: each spec is parsed,
/// its source resolved lexically against home and working directory, and its
/// target mapped into the container.
pub open spec fn spec_host_mount_flags(
    mounts: Seq<Seq<char>>,
    home: Seq<char>,
    cwd: Seq<char>,
) -> Result<Seq<Seq<char>>, Seq<char>>
    decreases mounts.len(),
{
    if mounts.len() == 0 {
        Result::Ok(Seq::empty())
    } else {
        match crate::container::mounts::spec_parse_host_mount(mounts[0]) {
            Result::Err(m) => Result::Err(m),
            Result::Ok(parsed) => match crate::container::mounts::spec_resolve_host_path(
                home,
                cwd,
                parsed.0,
            ) {
                Result::Err(m) => Result::Err(m),
                Result::Ok(src) => prepend_flags(
                    seq![
                        "-v"@,
                        src + ":"@ + crate::container::mounts::spec_container_path(parsed.1)
                            + parsed.2,
                    ],
                    spec_host_mount_flags(mounts.drop_first(), home, cwd),
                ),
            },
        }
    }
}

/// The `-v` flags for the cache mount specs, in order: each target is bound
/// to the shared cache volume, verbatim.
pub open spec fn spec_cache_flags(cache: Seq<Seq<char>>) -> Result<Seq<Seq<char>>, Seq<char>>
    decreases cache.len(),
{
    if cache.len() == 0 {
        Result::Ok(Seq::empty())
    } else {
        match crate::container::mounts::spec_parse_cache_mount(cache[0]) {
            Result::Err(m) => Result::Err(m),
            Result::Ok(parsed) => prepend_flags(
                seq!["-v"@, "dungeon-cache:"@ + parsed.0 + parsed.1],
                spec_cache_flags(cache.drop_first()),
            ),
        }
    }
}

/// The `--env` flags for the environment specs, in order: a blank spec is
/// skipped; a spec without `=` forwards the named variable from the host
/// snapshot (its absence is an error); a spec with `=` is used as given,
/// except that its name is trimmed and must be non-empty.
pub open spec fn spec_env_flags(
    specs: Seq<Seq<char>>,
    env: Seq<(Seq<char>, Seq<char>)>,
) -> Result<Seq<Seq<char>>, Seq<char>>
    decreases specs.len(),
{
    if specs.len() == 0 {
        Result::Ok(Seq::empty())
    } else {
        let t = crate::strutil::trimmed(specs[0]);
        if t.len() == 0 {
            spec_env_flags(specs.drop_first(), env)
        } else {
            let parts = crate::strutil::split_parts(t, '=');
            if parts.len() == 1 {
                match pair_lookup(env, t) {
                    Option::None => Result::Err(
                        "ERROR: env \""@ + t + "\" is not set on host"@,
                    ),
                    Option::Some(v) => prepend_flags(
                        seq!["--env"@, t + "="@ + v],
                        spec_env_flags(specs.drop_first(), env),
                    ),
                }
            } else {
                let name = crate::strutil::trimmed(parts[0]);
                if name.len() == 0 {
                    Result::Err("ERROR: invalid env spec \""@ + t + "\""@)
                } else {
                    prepend_flags(
                        seq![
                            "--env"@,
                            name + "="@ + crate::container::mounts::join_with(
                                parts.drop_first(),
                                "="@,
                            ),
                        ],
                        spec_env_flags(specs.drop_first(), env),
                    )
                }
            }
        }
    }
}

/// One flag pair per non-blank entry: the tag, then the trimmed entry.
pub open spec fn spec_tagged_flags(items: Seq<Seq<char>>, tag: Seq<char>) -> Seq<Seq<char>>
    decreases items.len(),
{
    if items.len() == 0 {
        Seq::empty()
    } else {
        let t = crate::strutil::trimmed(items[0]);
        if t.len() == 0 {
            spec_tagged_flags(items.drop_first(), tag)
        } else {
            seq![tag, t] + spec_tagged_flags(items.drop_first(), tag)
        }
    }
}

/// The final path component, or `project` when there is none.
pub open spec fn base_or_project(p: Seq<char>) -> Seq<char> {
    if crate::container::persist::basename_of(p).len() == 0 {
        "project"@
    } else {
        crate::container::persist::basename_of(p)
    }
}

/// The `-v` flags for the explicit path arguments: each path must have a
/// canonical form in the host snapshot (else it does not exist and is an
/// error) and is mounted under the fixed project workdir by its basename.
pub open spec fn spec_path_mount_flags(
    paths: Seq<Seq<char>>,
    entries: Seq<(Seq<char>, Seq<char>)>,
) -> Result<Seq<Seq<char>>, Seq<char>>
    decreases paths.len(),
{
    if paths.len() == 0 {
        Result::Ok(Seq::empty())
    } else {
        match pair_lookup(entries, paths[0]) {
            Option::None => Result::Err("ERROR: '"@ + paths[0] + "' does not exist"@),
            Option::Some(canon) => prepend_flags(
                seq![
                    "-v"@,
                    canon + ":"@ + crate::container::mounts::container_home() + "/project/"@
                        + base_or_project(canon),
                ],
                spec_path_mount_flags(paths.drop_first(), entries),
            ),
        }
    }
}

/// The working directory and the final positional mounts: with no explicit
/// paths, the working directory is mounted under the container home by its
/// basename (skipped entirely under `skip_cwd`; running from the home
/// directory itself is refused); with explicit paths, the workdir is the
/// fixed project directory and each path is mounted by its basename.
pub open spec fn spec_workdir_mounts(
    paths: Seq<Seq<char>>,
    skip_cwd: bool,
    cwd: Seq<char>,
    home: Seq<char>,
    entries: Seq<(Seq<char>, Seq<char>)>,
) -> Result<(Seq<char>, Seq<Seq<char>>), Seq<char>> {
    if paths.len() == 0 {
        if skip_cwd {
            Result::Ok((crate::container::mounts::container_home(), Seq::empty()))
        } else if cwd == home {
            Result::Err("ERROR: refusing to run from home directory"@)
        } else {
            let wd = crate::container::mounts::container_home() + "/"@ + base_or_project(cwd);
            Result::Ok((wd, seq!["-v"@, cwd + ":"@ + wd]))
        }
    } else {
        match spec_path_mount_flags(paths, entries) {
            Result::Err(m) => Result::Err(m),
            Result::Ok(flags) => Result::Ok(
                (crate::container::mounts::container_home() + "/project"@, flags),
            ),
        }
    }
}

/// The engine a settings record selects; the default engine is Podman.
pub open spec fn spec_engine_of(s: crate::config::SettingsView) -> Engine {
    match s.engine {
        Option::Some(e) => e,
        Option::None => Engine::Podman,
    }
}

/// An optional string, or the empty string.
pub open spec fn opt_str(o: Option<Seq<char>>) -> Seq<char> {
    match o {
        Option::Some(s) => s,
        Option::None => Seq::empty(),
    }
}

/// An optional list, or the empty list.
pub open spec fn opt_list(o: Option<Seq<Seq<char>>>) -> Seq<Seq<char>> {
    match o {
        Option::Some(s) => s,
        Option::None => Seq::empty(),
    }
}

/// The image to run: the configured one, or the fixed fallback when none is
/// configured (or it is blank).
pub open spec fn image_value(image: Option<Seq<char>>) -> Seq<char> {
    if crate::strutil::trimmed(opt_str(image)).len() == 0 {
        "localhost/dungeon"@
    } else {
        opt_str(image)
    }
}

/// The image the settings select.
pub open spec fn spec_image_of(s: crate::config::SettingsView) -> Seq<char> {
    image_value(s.image)
}

/// The entry command: a bare shell, or the configured run command handed to
/// an interactive shell.
pub open spec fn entry_args(run_command: Option<Seq<char>>) -> Seq<Seq<char>> {
    if crate::strutil::trimmed(opt_str(run_command)).len() == 0 {
        seq!["bash"@]
    } else {
        seq!["bash"@, "-ic"@, opt_str(run_command)]
    }
}

/// The entry command the settings select.
pub open spec fn spec_entry_of(s: crate::config::SettingsView) -> Seq<Seq<char>> {
    entry_args(s.run_command)
}

/// The user-mapping arguments: Podman keeps the caller's id inside the user
/// namespace; Docker is handed the host uid and gid explicitly.
pub open spec fn spec_user_args(e: Engine, uid: Seq<char>, gid: Seq<char>) -> Seq<Seq<char>> {
    match e {
        Engine::Podman => seq!["--userns=keep-id"@],
        Engine::Docker => seq!["--user"@, uid + ":"@ + gid],
    }
}

/// The `--name` arguments: present only for a non-blank container name.
pub open spec fn spec_name_args(name: Option<Seq<char>>) -> Seq<Seq<char>> {
    match name {
        Option::Some(n) => if crate::strutil::trimmed(n).len() == 0 {
            Seq::empty()
        } else {
            seq!["--name"@, n]
        },
        Option::None => Seq::empty(),
    }
}

/// The full engine run invocation a resolved configuration stands for. The
/// construction order is fixed, so equal inputs give byte-identical output:
/// `run -it`, user mapping, workdir, `--rm` unless the container is kept,
/// the container name when persisting, `--env` flags, `--env-file` flags,
/// `-p` flags, extra engine arguments verbatim, host mounts, cache mounts,
/// the working-directory or path mounts, the image, and the entry command.
pub open spec fn spec_build_container_command(
    s: crate::config::SettingsView,
    paths: Seq<Seq<char>>,
    keep_container: bool,
    name: Option<Seq<char>>,
    skip_cwd: bool,
    host: HostContextView,
) -> Result<CommandSpecView, Seq<char>> {
    match spec_host_mount_flags(opt_list(s.mounts), host.home, host.cwd) {
        Result::Err(m) => Result::Err(m),
        Result::Ok(host_mounts) => match spec_cache_flags(opt_list(s.cache)) {
            Result::Err(m) => Result::Err(m),
            Result::Ok(cache_mounts) => match spec_env_flags(opt_list(s.env_vars), host.env) {
                Result::Err(m) => Result::Err(m),
                Result::Ok(env_flags) => match spec_workdir_mounts(
                    paths,
                    skip_cwd,
                    host.cwd,
                    host.home,
                    host.entries,
                ) {
                    Result::Err(m) => Result::Err(m),
                    Result::Ok(wd) => Result::Ok(
                        (CommandSpecView {
                            program: engine_program(spec_engine_of(s)),
                            args: seq!["run"@, "-it"@] + spec_user_args(
                                spec_engine_of(s),
                                host.uid,
                                host.gid,
                            ) + seq!["-w"@, wd.0] + (if keep_container {
                                Seq::empty()
                            } else {
                                seq!["--rm"@]
                            }) + spec_name_args(name) + env_flags + spec_tagged_flags(
                                opt_list(s.env_files),
                                "--env-file"@,
                            ) + spec_tagged_flags(opt_list(s.ports), "-p"@) + opt_list(
                                s.engine_args,
                            ) + host_mounts + cache_mounts + wd.1 + seq![spec_image_of(s)]
                                + spec_entry_of(s),
                        }),
                    ),
                },
            },
        },
    }
}

/// The value of the first pair with the given key, if any; executable form.
#[verifier::loop_isolation(false)]
pub(crate) fn lookup_pair(pairs: &Vec<(String, String)>, key: &String) -> (r: Option<String>)
    ensures
        match r {
            Option::Some(v) => pair_lookup(pairs_view(pairs@), key@) == Option::Some(v@),
            Option::None => pair_lookup(pairs_view(pairs@), key@) is None,
        },
{
    let ghost pv = pairs_view(pairs@);
    let mut i: usize = 0;
    proof {
        assert(pv.skip(0) =~= pv);
    }
    while i < pairs.len()
        invariant
            i <= pairs.len(),
            pair_lookup(pv, key@) == pair_lookup(pv.skip(i as int), key@),
        decreases pairs.len() - i,
    {
        proof {
            assert(pv.skip(i as int)[0] == pv[i as int]);
            assert(pv.skip(i as int).drop_first() =~= pv.skip(i + 1));
        }
        if crate::strutil::str_eq(pairs[i].0.as_str(), key.as_str()) {
            return Option::Some(pairs[i].1.clone());
        }
        i = i + 1;
    }
    proof {
        assert(pv.skip(i as int) =~= Seq::<(Seq<char>, Seq<char>)>::empty());
    }
    Option::None
}

/// Appends copies of all the given arguments.
#[verifier::loop_isolation(false)]
fn append_all(args: &mut Vec<String>, items: &Vec<String>)
    ensures
        final(args).deep_view() == old(args).deep_view() + items.deep_view(),
{
    let ghost a0 = args@;
    let mut i: usize = 0;
    proof {
        assert(args@ =~= a0 + items@.take(0));
    }
    while i < items.len()
        invariant
            i <= items.len(),
            args@ == a0 + items@.take(i as int),
        decreases items.len() - i,
    {
        args.push(items[i].clone());
        i = i + 1;
        proof {
            assert(args@ =~= a0 + items@.take(i as int));
        }
    }
    proof {
        assert(args@ =~= a0 + items@);
        assert(args.deep_view() =~= old(args).deep_view() + items.deep_view());
    }
}

/// The `-v` flags for the host mount specs; executable form.
#[verifier::loop_isolation(false)]
fn host_mount_flags(mounts: &Vec<String>, home: &String, cwd: &String) -> (r: Result<
    Vec<String>,
    AppError,
>)
    ensures
        match r {
            Result::Ok(flags) => spec_host_mount_flags(mounts.deep_view(), home@, cwd@)
                == Result::<Seq<Seq<char>>, Seq<char>>::Ok(flags.deep_view()),
            Result::Err(e) => e matches AppError::Message(m) && spec_host_mount_flags(
                mounts.deep_view(),
                home@,
                cwd@,
            ) == Result::<Seq<Seq<char>>, Seq<char>>::Err(m@),
        },
{
    let ghost mv = mounts.deep_view();
    let mut flags: Vec<String> = Vec::new();
    let mut i: usize = 0;
    proof {
        assert(mv.skip(0) =~= mv);
        assert(flags.deep_view() =~= Seq::<Seq<char>>::empty());
        assert(flags.deep_view() + opt_list(Option::Some(Seq::<Seq<char>>::empty())) =~= flags.deep_view());
    }
    while i < mounts.len()
        invariant
            i <= mounts.len(),
            mv.len() == mounts.len(),
            spec_host_mount_flags(mv, home@, cwd@) == prepend_flags(
                flags.deep_view(),
                spec_host_mount_flags(mv.skip(i as int), home@, cwd@),
            ),
        decreases mounts.len() - i,
    {
        proof {
            assert(mv.skip(i as int)[0] == mv[i as int]);
            assert(mv.skip(i as int).drop_first() =~= mv.skip(i + 1));
        }
        let parsed = match crate::container::mounts::parse_host_mount_spec(mounts[i].as_str()) {
            Result::Ok(p) => p,
            Result::Err(e) => {
                return Result::Err(e);
            },
        };
        let src = match crate::container::mounts::resolve_host_path(
            home,
            cwd,
            parsed.0.as_str(),
        ) {
            Result::Ok(p) => p,
            Result::Err(e) => {
                return Result::Err(e);
            },
        };
        let target = crate::container::mounts::container_path(parsed.1.as_str());
        let mut flag = src;
        flag.append(":");
        flag.append(target.as_str());
        flag.append(parsed.2.as_str());
        let ghost fv = flag@;
        let ghost pre = flags.deep_view();
        push_arg(&mut flags, "-v");
        push_arg_string(&mut flags, flag);
        proof {
            assert(flags.deep_view() =~= pre + seq!["-v"@, fv]);
            let rest = spec_host_mount_flags(mv.skip(i + 1), home@, cwd@);
            if rest is Ok {
                assert((pre + seq!["-v"@, fv]) + rest->Ok_0 =~= pre + (seq!["-v"@, fv]
                    + rest->Ok_0));
            }
        }
        i = i + 1;
    }
    proof {
        assert(mv.skip(i as int) =~= Seq::<Seq<char>>::empty());
        assert(flags.deep_view() + Seq::<Seq<char>>::empty() =~= flags.deep_view());
    }
    Result::Ok(flags)
}

/// The `-v` flags for the cache mount specs; executable form.
#[verifier::loop_isolation(false)]
fn cache_mount_flags(cache: &Vec<String>) -> (r: Result<Vec<String>, AppError>)
    ensures
        match r {
            Result::Ok(flags) => spec_cache_flags(cache.deep_view()) == Result::<
                Seq<Seq<char>>,
                Seq<char>,
            >::Ok(flags.deep_view()),
            Result::Err(e) => e matches AppError::Message(m) && spec_cache_flags(
                cache.deep_view(),
            ) == Result::<Seq<Seq<char>>, Seq<char>>::Err(m@),
        },
{
    let ghost cv = cache.deep_view();
    let mut flags: Vec<String> = Vec::new();
    let mut i: usize = 0;
    proof {
        assert(cv.skip(0) =~= cv);
        assert(flags.deep_view() =~= Seq::<Seq<char>>::empty());
    }
    while i < cache.len()
        invariant
            i <= cache.len(),
            cv.len() == cache.len(),
            spec_cache_flags(cv) == prepend_flags(
                flags.deep_view(),
                spec_cache_flags(cv.skip(i as int)),
            ),
        decreases cache.len() - i,
    {
        proof {
            assert(cv.skip(i as int)[0] == cv[i as int]);
            assert(cv.skip(i as int).drop_first() =~= cv.skip(i + 1));
        }
        let parsed = match crate::container::mounts::parse_cache_mount_spec(cache[i].as_str()) {
            Result::Ok(p) => p,
            Result::Err(e) => {
                return Result::Err(e);
            },
        };
        let mut flag = String::from_str("dungeon-cache:");
        flag.append(parsed.0.as_str());
        flag.append(parsed.1.as_str());
        let ghost fv = flag@;
        let ghost pre = flags.deep_view();
        push_arg(&mut flags, "-v");
        push_arg_string(&mut flags, flag);
        proof {
            assert(flags.deep_view() =~= pre + seq!["-v"@, fv]);
            let rest = spec_cache_flags(cv.skip(i + 1));
            if rest is Ok {
                assert((pre + seq!["-v"@, fv]) + rest->Ok_0 =~= pre + (seq!["-v"@, fv]
                    + rest->Ok_0));
            }
        }
        i = i + 1;
    }
    proof {
        assert(cv.skip(i as int) =~= Seq::<Seq<char>>::empty());
        assert(flags.deep_view() + Seq::<Seq<char>>::empty() =~= flags.deep_view());
    }
    Result::Ok(flags)
}

/// The `--env` flags for the environment specs; executable form.
#[verifier::loop_isolation(false)]
fn env_flags(specs: &Vec<String>, env: &Vec<(String, String)>) -> (r: Result<
    Vec<String>,
    AppError,
>)
    ensures
        match r {
            Result::Ok(flags) => spec_env_flags(specs.deep_view(), pairs_view(env@)) == Result::<
                Seq<Seq<char>>,
                Seq<char>,
            >::Ok(flags.deep_view()),
            Result::Err(e) => e matches AppError::Message(m) && spec_env_flags(
                specs.deep_view(),
                pairs_view(env@),
            ) == Result::<Seq<Seq<char>>, Seq<char>>::Err(m@),
        },
{
    let ghost sv = specs.deep_view();
    let ghost ev = pairs_view(env@);
    let mut flags: Vec<String> = Vec::new();
    let mut i: usize = 0;
    proof {
        assert(sv.skip(0) =~= sv);
        assert(flags.deep_view() =~= Seq::<Seq<char>>::empty());
    }
    while i < specs.len()
        invariant
            i <= specs.len(),
            sv.len() == specs.len(),
            spec_env_flags(sv, ev) == prepend_flags(
                flags.deep_view(),
                spec_env_flags(sv.skip(i as int), ev),
            ),
        decreases specs.len() - i,
    {
        proof {
            assert(sv.skip(i as int)[0] == sv[i as int]);
            assert(sv.skip(i as int).drop_first() =~= sv.skip(i + 1));
        }
        let t = crate::strutil::trim(specs[i].as_str());
        if t.as_str().unicode_len() > 0 {
            let parts = crate::strutil::split(t.as_str(), '=');
            let ghost partsv = crate::strutil::split_parts(t@, '=');
            if parts.len() == 1 {
                match lookup_pair(env, &t) {
                    Option::None => {
                        let mut msg = String::from_str("ERROR: env \"");
                        msg.append(t.as_str());
                        msg.append("\" is not set on host");
                        proof {
                            assert(msg@ =~= "ERROR: env \""@ + t@ + "\" is not set on host"@);
                        }
                        return Result::Err(AppError::message(msg));
                    },
                    Option::Some(v) => {
                        let mut flag = t;
                        flag.append("=");
                        flag.append(v.as_str());
                        let ghost fv = flag@;
                        let ghost pre = flags.deep_view();
                        push_arg(&mut flags, "--env");
                        push_arg_string(&mut flags, flag);
                        proof {
                            assert(flags.deep_view() =~= pre + seq!["--env"@, fv]);
                            let rest = spec_env_flags(sv.skip(i + 1), ev);
                            if rest is Ok {
                                assert((pre + seq!["--env"@, fv]) + rest->Ok_0 =~= pre + (seq![
                                    "--env"@,
                                    fv,
                                ] + rest->Ok_0));
                            }
                        }
                    },
                }
            } else {
                let name = crate::strutil::trim(parts[0].as_str());
                if name.as_str().unicode_len() == 0 {
                    let mut msg = String::from_str("ERROR: invalid env spec \"");
                    msg.append(t.as_str());
                    msg.append("\"");
                    proof {
                        assert(msg@ =~= "ERROR: invalid env spec \""@ + t@ + "\""@);
                    }
                    return Result::Err(AppError::message(msg));
                }
                let mut rest: Vec<String> = Vec::new();
                let mut k: usize = 1;
                proof {
                    assert(rest.deep_view() =~= partsv.subrange(1, 1));
                }
                while k < parts.len()
                    invariant
                        1 <= k <= parts.len(),
                        parts.deep_view() == partsv,
                        rest.deep_view() == partsv.subrange(1, k as int),
                    decreases parts.len() - k,
                {
                    rest.push(parts[k].clone());
                    k = k + 1;
                    proof {
                        assert(rest.deep_view() =~= partsv.subrange(1, k as int));
                    }
                }
                proof {
                    assert(rest.deep_view() =~= partsv.drop_first());
                }
                let value = crate::container::mounts::join_segments(&rest, "=");
                let mut flag = name;
                flag.append("=");
                flag.append(value.as_str());
                let ghost fv = flag@;
                let ghost pre = flags.deep_view();
                push_arg(&mut flags, "--env");
                push_arg_string(&mut flags, flag);
                proof {
                    assert(flags.deep_view() =~= pre + seq!["--env"@, fv]);
                    let rest = spec_env_flags(sv.skip(i + 1), ev);
                    if rest is Ok {
                        assert((pre + seq!["--env"@, fv]) + rest->Ok_0 =~= pre + (seq![
                            "--env"@,
                            fv,
                        ] + rest->Ok_0));
                    }
                }
            }
        }
        i = i + 1;
    }
    proof {
        assert(sv.skip(i as int) =~= Seq::<Seq<char>>::empty());
        assert(flags.deep_view() + Seq::<Seq<char>>::empty() =~= flags.deep_view());
    }
    Result::Ok(flags)
}

/// One flag pair per non-blank entry; executable form.
#[verifier::loop_isolation(false)]
fn tagged_flags(items: &Vec<String>, tag: &str) -> (r: Vec<String>)
    ensures
        r.deep_view() == spec_tagged_flags(items.deep_view(), tag@),
{
    let ghost iv = items.deep_view();
    let mut flags: Vec<String> = Vec::new();
    let mut i: usize = 0;
    proof {
        assert(iv.skip(0) =~= iv);
        assert(flags.deep_view() =~= Seq::<Seq<char>>::empty());
        assert(flags.deep_view() + spec_tagged_flags(iv, tag@) =~= spec_tagged_flags(iv, tag@));
    }
    while i < items.len()
        invariant
            i <= items.len(),
            iv.len() == items.len(),
            spec_tagged_flags(iv, tag@) == flags.deep_view() + spec_tagged_flags(
                iv.skip(i as int),
                tag@,
            ),
        decreases items.len() - i,
    {
        proof {
            assert(iv.skip(i as int)[0] == iv[i as int]);
            assert(iv.skip(i as int).drop_first() =~= iv.skip(i + 1));
        }
        let t = crate::strutil::trim(items[i].as_str());
        if t.as_str().unicode_len() > 0 {
            let ghost tv = t@;
            let ghost pre = flags.deep_view();
            push_arg(&mut flags, tag);
            push_arg_string(&mut flags, t);
            proof {
                assert(flags.deep_view() =~= pre + seq![tag@, tv]);
                assert(pre + seq![tag@, tv] + spec_tagged_flags(iv.skip(i + 1), tag@) =~= pre
                    + (seq![tag@, tv] + spec_tagged_flags(iv.skip(i + 1), tag@)));
            }
        }
        i = i + 1;
    }
    proof {
        assert(iv.skip(i as int) =~= Seq::<Seq<char>>::empty());
        assert(flags.deep_view() + Seq::<Seq<char>>::empty() =~= flags.deep_view());
    }
    flags
}

/// The final path component of a canonical path, or `project`.
fn base_name_or_project(p: &String) -> (r: String)
    ensures
        r@ == base_or_project(p@),
{
    let b = crate::container::persist::basename(p.as_str());
    if b.as_str().unicode_len() == 0 {
        String::from_str("project")
    } else {
        b
    }
}

/// The `-v` flags for the explicit path arguments; executable form.
#[verifier::loop_isolation(false)]
fn path_mount_flags(paths: &Vec<String>, entries: &Vec<(String, String)>) -> (r: Result<
    Vec<String>,
    AppError,
>)
    ensures
        match r {
            Result::Ok(flags) => spec_path_mount_flags(paths.deep_view(), pairs_view(entries@))
                == Result::<Seq<Seq<char>>, Seq<char>>::Ok(flags.deep_view()),
            Result::Err(e) => e matches AppError::Message(m) && spec_path_mount_flags(
                paths.deep_view(),
                pairs_view(entries@),
            ) == Result::<Seq<Seq<char>>, Seq<char>>::Err(m@),
        },
{
    let ghost pv = paths.deep_view();
    let ghost ev = pairs_view(entries@);
    let mut flags: Vec<String> = Vec::new();
    let mut i: usize = 0;
    proof {
        assert(pv.skip(0) =~= pv);
        assert(flags.deep_view() =~= Seq::<Seq<char>>::empty());
    }
    while i < paths.len()
        invariant
            i <= paths.len(),
            pv.len() == paths.len(),
            spec_path_mount_flags(pv, ev) == prepend_flags(
                flags.deep_view(),
                spec_path_mount_flags(pv.skip(i as int), ev),
            ),
        decreases paths.len() - i,
    {
        proof {
            assert(pv.skip(i as int)[0] == pv[i as int]);
            assert(pv.skip(i as int).drop_first() =~= pv.skip(i + 1));
        }
        match lookup_pair(entries, &paths[i]) {
            Option::None => {
                let mut msg = String::from_str("ERROR: '");
                msg.append(paths[i].as_str());
                msg.append("' does not exist");
                proof {
                    assert(msg@ =~= "ERROR: '"@ + pv[i as int] + "' does not exist"@);
                }
                return Result::Err(AppError::message(msg));
            },
            Option::Some(canon) => {
                let base = base_name_or_project(&canon);
                let mut flag = canon;
                flag.append(":");
                flag.append("/home/dungeon");
                flag.append("/project/");
                flag.append(base.as_str());
                let ghost fv = flag@;
                let ghost pre = flags.deep_view();
                push_arg(&mut flags, "-v");
                push_arg_string(&mut flags, flag);
                proof {
                    assert(flags.deep_view() =~= pre + seq!["-v"@, fv]);
                    let rest = spec_path_mount_flags(pv.skip(i + 1), ev);
                    if rest is Ok {
                        assert((pre + seq!["-v"@, fv]) + rest->Ok_0 =~= pre + (seq!["-v"@, fv]
                            + rest->Ok_0));
                    }
                }
            },
        }
        i = i + 1;
    }
    proof {
        assert(pv.skip(i as int) =~= Seq::<Seq<char>>::empty());
        assert(flags.deep_view() + Seq::<Seq<char>>::empty() =~= flags.deep_view());
    }
    Result::Ok(flags)
}

/// Builds the engine `run` invocation for a resolved configuration against a
/// host snapshot. Equal inputs give byte-identical output: the argument
/// vector is a fixed function of the settings, the paths, the persistence
/// flags and the snapshot.
#[verifier::loop_isolation(false)]
#[verifier::rlimit(100)]
#[verifier::spinoff_prover]
pub fn build_container_command(
    settings: &crate::config::Settings,
    paths: &Vec<String>,
    keep_container: bool,
    container_name: Option<&String>,
    skip_cwd: bool,
    host: &HostContext,
) -> (r: Result<CommandSpec, AppError>)
    ensures
        match r {
            Result::Ok(c) => spec_build_container_command(
                settings@,
                paths.deep_view(),
                keep_container,
                container_name.deep_view(),
                skip_cwd,
                host@,
            ) == Result::<CommandSpecView, Seq<char>>::Ok(c@),
            Result::Err(e) => e matches AppError::Message(m) && spec_build_container_command(
                settings@,
                paths.deep_view(),
                keep_container,
                container_name.deep_view(),
                skip_cwd,
                host@,
            ) == Result::<CommandSpecView, Seq<char>>::Err(m@),
        },
{
    let empty_list: Vec<String> = Vec::new();
    proof {
        assert(empty_list.deep_view() =~= Seq::<Seq<char>>::empty());
    }
    let mounts_in = match &settings.mounts {
        Option::Some(v) => v,
        Option::None => &empty_list,
    };
    let cache_in = match &settings.cache {
        Option::Some(v) => v,
        Option::None => &empty_list,
    };
    let envs_in = match &settings.env_vars {
        Option::Some(v) => v,
        Option::None => &empty_list,
    };
    let env_files_in = match &settings.env_files {
        Option::Some(v) => v,
        Option::None => &empty_list,
    };
    let ports_in = match &settings.ports {
        Option::Some(v) => v,
        Option::None => &empty_list,
    };
    let engine_args_in = match &settings.engine_args {
        Option::Some(v) => v,
        Option::None => &empty_list,
    };
    proof {
        assert(mounts_in.deep_view() == opt_list(settings@.mounts));
        assert(cache_in.deep_view() == opt_list(settings@.cache));
        assert(envs_in.deep_view() == opt_list(settings@.env_vars));
        assert(env_files_in.deep_view() == opt_list(settings@.env_files));
        assert(ports_in.deep_view() == opt_list(settings@.ports));
        assert(engine_args_in.deep_view() == opt_list(settings@.engine_args));
    }
    let host_mounts = match host_mount_flags(mounts_in, &host.home, &host.cwd) {
        Result::Ok(f) => f,
        Result::Err(e) => {
            return Result::Err(e);
        },
    };
    let cache_mounts = match cache_mount_flags(cache_in) {
        Result::Ok(f) => f,
        Result::Err(e) => {
            return Result::Err(e);
        },
    };
    let envs = match env_flags(envs_in, &host.env) {
        Result::Ok(f) => f,
        Result::Err(e) => {
            return Result::Err(e);
        },
    };
    let workdir: String;
    let mut tail_mounts: Vec<String> = Vec::new();
    if paths.len() == 0 {
        if skip_cwd {
            workdir = String::from_str("/home/dungeon");
        } else if host.cwd.eq(&host.home) {
            return Result::Err(AppError::message(String::from_str(
                "ERROR: refusing to run from home directory",
            )));
        } else {
            let base = base_name_or_project(&host.cwd);
            let mut wd = String::from_str("/home/dungeon");
            wd.append("/");
            wd.append(base.as_str());
            let mut flag = host.cwd.clone();
            flag.append(":");
            flag.append(wd.as_str());
            let ghost fv = flag@;
            push_arg(&mut tail_mounts, "-v");
            push_arg_string(&mut tail_mounts, flag);
            proof {
                assert(wd@ =~= crate::container::mounts::container_home() + "/"@
                    + base_or_project(host@.cwd));
                assert(tail_mounts.deep_view() =~= seq!["-v"@, fv]);
            }
            workdir = wd;
        }
    } else {
        tail_mounts = match path_mount_flags(paths, &host.entries) {
            Result::Ok(f) => f,
            Result::Err(e) => {
                return Result::Err(e);
            },
        };
        let mut wd = String::from_str("/home/dungeon");
        wd.append("/project");
        proof {
            assert(wd@ =~= crate::container::mounts::container_home() + "/project"@);
        }
        workdir = wd;
    }
    proof {
        assert(paths.deep_view().len() == paths.len());
        assert(spec_workdir_mounts(
            paths.deep_view(),
            skip_cwd,
            host@.cwd,
            host@.home,
            host@.entries,
        ) == Result::<(Seq<char>, Seq<Seq<char>>), Seq<char>>::Ok(
            (workdir@, tail_mounts.deep_view()),
        ));
    }
    let engine = match settings.engine {
        Option::Some(e) => e,
        Option::None => Engine::Podman,
    };
    proof {
        assert(engine == spec_engine_of(settings@));
    }
    let args = assemble_run_args(
        engine,
        &host.uid,
        &host.gid,
        &workdir,
        keep_container,
        container_name,
        &envs,
        env_files_in,
        ports_in,
        engine_args_in,
        &host_mounts,
        &cache_mounts,
        &tail_mounts,
        &settings.image,
        &settings.run_command,
    );
    let program = String::from_str(engine.program());
    proof {
        assert(program@ == engine_program(spec_engine_of(settings@)));
    }
    Result::Ok(CommandSpec { program, args })
}

/// Assembles the full argument vector of the engine `run` invocation from
/// the prepared flag groups, in the fixed construction order.
#[verifier::loop_isolation(false)]
#[verifier::rlimit(100)]
#[verifier::spinoff_prover]
fn assemble_run_args(
    engine: Engine,
    uid: &String,
    gid: &String,
    workdir: &String,
    keep_container: bool,
    container_name: Option<&String>,
    envs: &Vec<String>,
    env_files: &Vec<String>,
    ports: &Vec<String>,
    engine_args: &Vec<String>,
    host_mounts: &Vec<String>,
    cache_mounts: &Vec<String>,
    tail_mounts: &Vec<String>,
    image: &Option<String>,
    run_command: &Option<String>,
) -> (r: Vec<String>)
    ensures
        r.deep_view() == seq!["run"@, "-it"@] + spec_user_args(engine, uid@, gid@) + seq![
            "-w"@,
            workdir@,
        ] + (if keep_container {
            Seq::<Seq<char>>::empty()
        } else {
            seq!["--rm"@]
        }) + spec_name_args(container_name.deep_view()) + envs.deep_view() + spec_tagged_flags(
            env_files.deep_view(),
            "--env-file"@,
        ) + spec_tagged_flags(ports.deep_view(), "-p"@) + engine_args.deep_view()
            + host_mounts.deep_view() + cache_mounts.deep_view() + tail_mounts.deep_view() + seq![
            image_value(image.deep_view()),
        ] + entry_args(run_command.deep_view()),
{
    let mut args: Vec<String> = Vec::new();
    push_arg(&mut args, "run");
    push_arg(&mut args, "-it");
    match engine {
        Engine::Podman => {
            push_arg(&mut args, "--userns=keep-id");
        },
        Engine::Docker => {
            push_arg(&mut args, "--user");
            let mut user = uid.clone();
            user.append(":");
            user.append(gid.as_str());
            proof {
                assert(user@ =~= uid@ + ":"@ + gid@);
            }
            push_arg_string(&mut args, user);
        },
    }
    push_arg(&mut args, "-w");
    push_arg_string(&mut args, workdir.clone());
    if !keep_container {
        push_arg(&mut args, "--rm");
    }
    match container_name {
        Option::Some(name) => {
            let t = crate::strutil::trim(name.as_str());
            if t.as_str().unicode_len() > 0 {
                push_arg(&mut args, "--name");
                push_arg_string(&mut args, name.clone());
            }
        },
        Option::None => {},
    }
    let ghost head = seq!["run"@, "-it"@] + spec_user_args(engine, uid@, gid@) + seq![
        "-w"@,
        workdir@,
    ] + (if keep_container {
        Seq::<Seq<char>>::empty()
    } else {
        seq!["--rm"@]
    }) + spec_name_args(container_name.deep_view());
    proof {
        assert(args.deep_view() =~= head);
    }
    append_all(&mut args, envs);
    let env_file_args = tagged_flags(env_files, "--env-file");
    append_all(&mut args, &env_file_args);
    let port_args = tagged_flags(ports, "-p");
    append_all(&mut args, &port_args);
    append_all(&mut args, engine_args);
    append_all(&mut args, host_mounts);
    append_all(&mut args, cache_mounts);
    append_all(&mut args, tail_mounts);
    let image_in = match image {
        Option::Some(s) => s.clone(),
        Option::None => String::new(),
    };
    let image_trimmed = crate::strutil::trim(image_in.as_str());
    if image_trimmed.as_str().unicode_len() == 0 {
        push_arg(&mut args, "localhost/dungeon");
    } else {
        push_arg_string(&mut args, image_in);
    }
    let run_in = match run_command {
        Option::Some(s) => s.clone(),
        Option::None => String::new(),
    };
    let run_trimmed = crate::strutil::trim(run_in.as_str());
    if run_trimmed.as_str().unicode_len() == 0 {
        push_arg(&mut args, "bash");
    } else {
        push_arg(&mut args, "bash");
        push_arg(&mut args, "-ic");
        push_arg_string(&mut args, run_in);
    }
    proof {
        assert(args.deep_view() =~= head + envs.deep_view() + env_file_args.deep_view()
            + port_args.deep_view() + engine_args.deep_view() + host_mounts.deep_view()
            + cache_mounts.deep_view() + tail_mounts.deep_view() + seq![
            image_value(image.deep_view()),
        ] + entry_args(run_command.deep_view()));
    }
    args
}

/// Builds the engine command that removes the shared cache volume.
pub fn build_cache_reset_command(engine: Engine) -> (r: CommandSpec)
    ensures
        r@.program == engine_program(engine),
        r@.args == seq!["volume"@, "rm"@, "-f"@, "dungeon-cache"@],
{
    let mut args: Vec<String> = Vec::new();
    push_arg(&mut args, "volume");
    push_arg(&mut args, "rm");
    push_arg(&mut args, "-f");
    push_arg(&mut args, "dungeon-cache");
    proof {
        assert(args.deep_view() =~= seq!["volume"@, "rm"@, "-f"@, "dungeon-cache"@]);
    }
    CommandSpec { program: String::from_str(engine.program()), args }
}

} // verus!
