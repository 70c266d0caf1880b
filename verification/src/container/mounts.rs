//! Mount-spec parsing and lexical path resolution. Everything here is pure
//! text manipulation: `~`, `$HOME` and relative sources are resolved against
//! strings handed in by the caller, and `.`/`..` segments are normalized
//! lexically, without touching the filesystem.

use vstd::prelude::*;
use vstd::string::StrSliceExecFns;
use vstd::string::StringExecFns;

use crate::error::AppError;
use crate::strutil;
use crate::strutil::{split_parts, trimmed};

verus! {

/// The home directory inside the container.
pub open spec fn container_home() -> Seq<char> {
    "/home/dungeon"@
}

/// One step of lexical path cleaning: an empty or `.` segment is dropped, a
/// `..` segment removes the last kept segment (or is dropped at the top),
/// and any other segment is kept.
pub open spec fn clean_rec(acc: Seq<Seq<char>>, parts: Seq<Seq<char>>) -> Seq<Seq<char>>
    decreases parts.len(),
{
    if parts.len() == 0 {
        acc
    } else {
        let p = parts[0];
        let acc2 = if p.len() == 0 || p == "."@ {
            acc
        } else if p == ".."@ {
            if acc.len() > 0 {
                acc.drop_last()
            } else {
                acc
            }
        } else {
            acc.push(p)
        };
        clean_rec(acc2, parts.drop_first())
    }
}

/// Joining of segments with a separator, accumulator form.
pub open spec fn join_rec(acc: Seq<char>, parts: Seq<Seq<char>>, sep: Seq<char>) -> Seq<char>
    decreases parts.len(),
{
    if parts.len() == 0 {
        acc
    } else {
        join_rec(acc + sep + parts[0], parts.drop_first(), sep)
    }
}

/// The segments joined with the separator.
pub open spec fn join_with(parts: Seq<Seq<char>>, sep: Seq<char>) -> Seq<char> {
    if parts.len() == 0 {
        Seq::empty()
    } else {
        join_rec(parts[0], parts.drop_first(), sep)
    }
}

/// The path with `.` and `..` segments resolved lexically: no symlink is
/// followed and the filesystem is never consulted.
pub open spec fn spec_clean(s: Seq<char>) -> Seq<char> {
    let kept = clean_rec(Seq::empty(), split_parts(s, '/'));
    if s.len() > 0 && s[0] == '/' {
        "/"@ + join_with(kept, "/"@)
    } else {
        join_with(kept, "/"@)
    }
}

/// Joins the given segments with `/`.
#[verifier::loop_isolation(false)]
pub(crate) fn join_segments(parts: &Vec<String>, sep: &str) -> (r: String)
    ensures
        r@ == join_with(parts.deep_view(), sep@),
{
    let ghost pv = parts.deep_view();
    if parts.len() == 0 {
        let r = String::new();
        proof {
            assert(r@ =~= join_with(pv, sep@));
        }
        return r;
    }
    let mut out = parts[0].clone();
    let mut i: usize = 1;
    proof {
        assert(pv.drop_first() =~= pv.skip(1));
    }
    while i < parts.len()
        invariant
            1 <= i <= parts.len(),
            join_with(pv, sep@) == join_rec(out@, pv.skip(i as int), sep@),
        decreases parts.len() - i,
    {
        proof {
            assert(pv.skip(i as int)[0] == pv[i as int]);
            assert(pv.skip(i as int).drop_first() =~= pv.skip(i + 1));
        }
        out.append(sep);
        out.append(parts[i].as_str());
        i = i + 1;
    }
    proof {
        assert(pv.skip(i as int) =~= Seq::<Seq<char>>::empty());
    }
    out
}

/// Resolves `.` and `..` segments of a path lexically.
#[verifier::loop_isolation(false)]
pub fn clean_path(s: &str) -> (r: String)
    ensures
        r@ == spec_clean(s@),
{
    let parts = strutil::split(s, '/');
    let ghost pv = parts.deep_view();
    let mut kept: Vec<String> = Vec::new();
    let mut i: usize = 0;
    proof {
        assert(pv.skip(0) =~= pv);
        assert(kept.deep_view() =~= Seq::<Seq<char>>::empty());
    }
    while i < parts.len()
        invariant
            i <= parts.len(),
            clean_rec(Seq::empty(), pv) == clean_rec(kept.deep_view(), pv.skip(i as int)),
        decreases parts.len() - i,
    {
        proof {
            assert(pv.skip(i as int)[0] == pv[i as int]);
            assert(pv.skip(i as int).drop_first() =~= pv.skip(i + 1));
        }
        let part = &parts[i];
        if part.as_str().unicode_len() == 0 || strutil::str_eq(part.as_str(), ".") {
            // dropped
        } else if strutil::str_eq(part.as_str(), "..") {
            if kept.len() > 0 {
                let ghost kv = kept.deep_view();
                let _ = kept.pop();
                proof {
                    assert(kept.deep_view() =~= kv.drop_last());
                }
            }
        } else {
            let ghost kv = kept.deep_view();
            kept.push(part.clone());
            proof {
                assert(kept.deep_view() =~= kv.push(pv[i as int]));
            }
        }
        i = i + 1;
    }
    proof {
        assert(pv.skip(i as int) =~= Seq::<Seq<char>>::empty());
    }
    let joined = join_segments(&kept, "/");
    let n = s.unicode_len();
    if n > 0 && s.get_char(0) == '/' {
        let mut out = String::from_str("/");
        out.append(joined.as_str());
        proof {
            assert(out@ =~= "/"@ + joined@);
        }
        out
    } else {
        joined
    }
}

/// The mode suffix of a mount spec: an empty mode keeps the engine default,
/// `ro` and `rw` (in either case) become an explicit `:ro`/`:rw` suffix, and
/// anything else is an error.
pub open spec fn mode_suffix(mode: Seq<char>) -> Result<Seq<char>, Seq<char>> {
    let t = trimmed(mode);
    if t.len() == 0 {
        Result::Ok(Seq::empty())
    } else if t.len() == 2 && (t[0] == 'r' || t[0] == 'R') && (t[1] == 'o' || t[1] == 'O') {
        Result::Ok(":ro"@)
    } else if t.len() == 2 && (t[0] == 'r' || t[0] == 'R') && (t[1] == 'w' || t[1] == 'W') {
        Result::Ok(":rw"@)
    } else {
        Result::Err("ERROR: invalid mount mode '"@ + mode + "' (use 'ro' or 'rw')"@)
    }
}

/// Parses the optional mode part of a mount spec into the `-v` flag suffix.
pub fn mount_mode(mode: &str) -> (r: Result<String, AppError>)
    ensures
        match r {
            Result::Ok(s) => mode_suffix(mode@) == Result::<Seq<char>, Seq<char>>::Ok(s@),
            Result::Err(e) => e matches AppError::Message(m) && mode_suffix(mode@) == Result::<
                Seq<char>,
                Seq<char>,
            >::Err(m@),
        },
{
    let t = strutil::trim(mode);
    let cs = strutil::chars_of(t.as_str());
    if cs.len() == 0 {
        return Result::Ok(String::new());
    }
    if cs.len() == 2 && (cs[0] == 'r' || cs[0] == 'R') && (cs[1] == 'o' || cs[1] == 'O') {
        return Result::Ok(String::from_str(":ro"));
    }
    if cs.len() == 2 && (cs[0] == 'r' || cs[0] == 'R') && (cs[1] == 'w' || cs[1] == 'W') {
        return Result::Ok(String::from_str(":rw"));
    }
    let mut msg = String::from_str("ERROR: invalid mount mode '");
    msg.append(mode);
    msg.append("' (use 'ro' or 'rw')");
    proof {
        assert(msg@ =~= "ERROR: invalid mount mode '"@ + mode@ + "' (use 'ro' or 'rw')"@);
    }
    Result::Err(AppError::message(msg))
}

/// The parse of a host mount spec `source:target[:mode]`: both source and
/// target must be present and non-empty after trimming, and the mode must be
/// empty, `ro` or `rw`.
pub open spec fn spec_parse_host_mount(s: Seq<char>) -> Result<
    (Seq<char>, Seq<char>, Seq<char>),
    Seq<char>,
> {
    let parts = split_parts(s, ':');
    if parts.len() < 2 || parts.len() > 3 {
        Result::Err(
            "ERROR: invalid mount spec \""@ + s + "\" (expected source:target[:ro|rw])"@,
        )
    } else {
        let source = trimmed(parts[0]);
        let target = trimmed(parts[1]);
        if source.len() == 0 || target.len() == 0 {
            Result::Err(
                "ERROR: invalid mount spec \""@ + s + "\" (source and target required)"@,
            )
        } else {
            match (if parts.len() == 3 {
                mode_suffix(parts[2])
            } else {
                Result::Ok(Seq::empty())
            }) {
                Result::Err(m) => Result::Err(m),
                Result::Ok(mode) => Result::Ok((source, target, mode)),
            }
        }
    }
}

/// Splits a host mount spec `source:target[:mode]` into its trimmed source,
/// trimmed target, and `-v` mode suffix.
pub fn parse_host_mount_spec(spec: &str) -> (r: Result<(String, String, String), AppError>)
    ensures
        match r {
            Result::Ok(parsed) => spec_parse_host_mount(spec@) == Result::<
                (Seq<char>, Seq<char>, Seq<char>),
                Seq<char>,
            >::Ok((parsed.0@, parsed.1@, parsed.2@)),
            Result::Err(e) => e matches AppError::Message(m) && spec_parse_host_mount(spec@)
                == Result::<(Seq<char>, Seq<char>, Seq<char>), Seq<char>>::Err(m@),
        },
{
    let parts = strutil::split(spec, ':');
    if parts.len() < 2 || parts.len() > 3 {
        let mut msg = String::from_str("ERROR: invalid mount spec \"");
        msg.append(spec);
        msg.append("\" (expected source:target[:ro|rw])");
        proof {
            assert(msg@ =~= "ERROR: invalid mount spec \""@ + spec@
                + "\" (expected source:target[:ro|rw])"@);
        }
        return Result::Err(AppError::message(msg));
    }
    let source = strutil::trim(parts[0].as_str());
    let target = strutil::trim(parts[1].as_str());
    if source.as_str().unicode_len() == 0 || target.as_str().unicode_len() == 0 {
        let mut msg = String::from_str("ERROR: invalid mount spec \"");
        msg.append(spec);
        msg.append("\" (source and target required)");
        proof {
            assert(msg@ =~= "ERROR: invalid mount spec \""@ + spec@
                + "\" (source and target required)"@);
        }
        return Result::Err(AppError::message(msg));
    }
    let mode = if parts.len() == 3 {
        match mount_mode(parts[2].as_str()) {
            Result::Ok(m) => m,
            Result::Err(e) => {
                return Result::Err(e);
            },
        }
    } else {
        String::new()
    };
    Result::Ok((source, target, mode))
}

/// The parse of a cache mount spec `target[:mode]`: the target must be
/// non-empty after trimming and is kept verbatim; the mode must be empty,
/// `ro` or `rw`.
pub open spec fn spec_parse_cache_mount(s: Seq<char>) -> Result<(Seq<char>, Seq<char>), Seq<char>> {
    let parts = split_parts(s, ':');
    if parts.len() > 2 {
        Result::Err(
            "ERROR: invalid cache mount spec \""@ + s + "\" (expected target[:ro|rw])"@,
        )
    } else {
        let target = trimmed(parts[0]);
        if target.len() == 0 {
            Result::Err("ERROR: invalid cache mount spec \""@ + s + "\" (target required)"@)
        } else {
            match (if parts.len() == 2 {
                mode_suffix(parts[1])
            } else {
                Result::Ok(Seq::empty())
            }) {
                Result::Err(m) => Result::Err(m),
                Result::Ok(mode) => Result::Ok((target, mode)),
            }
        }
    }
}

/// Splits a cache mount spec `target[:mode]` into its trimmed target and
/// `-v` mode suffix.
pub fn parse_cache_mount_spec(spec: &str) -> (r: Result<(String, String), AppError>)
    ensures
        match r {
            Result::Ok(parsed) => spec_parse_cache_mount(spec@) == Result::<
                (Seq<char>, Seq<char>),
                Seq<char>,
            >::Ok((parsed.0@, parsed.1@)),
            Result::Err(e) => e matches AppError::Message(m) && spec_parse_cache_mount(spec@)
                == Result::<(Seq<char>, Seq<char>), Seq<char>>::Err(m@),
        },
{
    let parts = strutil::split(spec, ':');
    if parts.len() > 2 {
        let mut msg = String::from_str("ERROR: invalid cache mount spec \"");
        msg.append(spec);
        msg.append("\" (expected target[:ro|rw])");
        proof {
            assert(msg@ =~= "ERROR: invalid cache mount spec \""@ + spec@
                + "\" (expected target[:ro|rw])"@);
        }
        return Result::Err(AppError::message(msg));
    }
    let target = strutil::trim(parts[0].as_str());
    if target.as_str().unicode_len() == 0 {
        let mut msg = String::from_str("ERROR: invalid cache mount spec \"");
        msg.append(spec);
        msg.append("\" (target required)");
        proof {
            assert(msg@ =~= "ERROR: invalid cache mount spec \""@ + spec@
                + "\" (target required)"@);
        }
        return Result::Err(AppError::message(msg));
    }
    let mode = if parts.len() == 2 {
        match mount_mode(parts[1].as_str()) {
            Result::Ok(m) => m,
            Result::Err(e) => {
                return Result::Err(e);
            },
        }
    } else {
        String::new()
    };
    Result::Ok((target, mode))
}

/// Whether `s` starts with the given prefix.
pub open spec fn has_prefix(s: Seq<char>, prefix: Seq<char>) -> bool {
    s.len() >= prefix.len() && s.take(prefix.len() as int) == prefix
}

/// The resolution of a host mount source against the host home and working
/// directories: `~` and `$HOME` expand to the home directory, a relative
/// path is taken from the working directory, and the result is cleaned
/// lexically. An empty source is an error.
pub open spec fn spec_resolve_host_path(
    home: Seq<char>,
    cwd: Seq<char>,
    path: Seq<char>,
) -> Result<Seq<char>, Seq<char>> {
    let t = trimmed(path);
    if t.len() == 0 {
        Result::Err("ERROR: mount source cannot be empty"@)
    } else if t == "~"@ || t == "$HOME"@ {
        Result::Ok(home)
    } else if has_prefix(t, "~/"@) {
        Result::Ok(spec_clean(home + t.skip(1)))
    } else if has_prefix(t, "$HOME/"@) {
        Result::Ok(spec_clean(home + t.skip(5)))
    } else if t.len() > 0 && t[0] == '/' {
        Result::Ok(spec_clean(t))
    } else {
        Result::Ok(spec_clean(cwd + "/"@ + t))
    }
}

/// Whether the trimmed string starts with the given prefix; executable form.
fn chars_have_prefix(cs: &Vec<char>, prefix: &str) -> (r: bool)
    ensures
        r == has_prefix(cs@, prefix@),
{
    let p = strutil::chars_of(prefix);
    if cs.len() < p.len() {
        return false;
    }
    let mut i: usize = 0;
    while i < p.len()
        invariant
            i <= p.len(),
            p@ == prefix@,
            cs@.len() >= p@.len(),
            forall|j: int| 0 <= j < i ==> cs@[j] == p@[j],
        decreases p.len() - i,
    {
        if cs[i] != p[i] {
            proof {
                assert(cs@.take(p@.len() as int)[i as int] != p@[i as int]);
            }
            return false;
        }
        i = i + 1;
    }
    proof {
        assert(cs@.take(p@.len() as int) =~= p@);
    }
    true
}

/// The characters of `cs` from position `from` on, as a string.
pub(crate) fn chars_suffix(cs: &Vec<char>, from: usize) -> (r: String)
    requires
        from <= cs@.len(),
    ensures
        r@ == cs@.skip(from as int),
{
    let mut out = String::new();
    let mut i: usize = from;
    while i < cs.len()
        invariant
            from <= i <= cs@.len(),
            out@ == cs@.subrange(from as int, i as int),
        decreases cs.len() - i,
    {
        let mut piece: Vec<char> = Vec::new();
        piece.push(cs[i]);
        let ps = strutil::string_of(&piece);
        out.append(ps.as_str());
        i = i + 1;
        proof {
            assert(out@ =~= cs@.subrange(from as int, i as int));
        }
    }
    proof {
        assert(out@ =~= cs@.skip(from as int));
    }
    out
}

/// Resolves a host mount source against the host home and working
/// directories: `~`/`$HOME` expansion, relative paths taken from the working
/// directory, and lexical cleaning. The filesystem is not consulted.
pub fn resolve_host_path(home: &String, cwd: &String, path: &str) -> (r: Result<String, AppError>)
    ensures
        match r {
            Result::Ok(p) => spec_resolve_host_path(home@, cwd@, path@) == Result::<
                Seq<char>,
                Seq<char>,
            >::Ok(p@),
            Result::Err(e) => e matches AppError::Message(m) && spec_resolve_host_path(
                home@,
                cwd@,
                path@,
            ) == Result::<Seq<char>, Seq<char>>::Err(m@),
        },
{
    let t = strutil::trim(path);
    let cs = strutil::chars_of(t.as_str());
    if cs.len() == 0 {
        return Result::Err(AppError::message(String::from_str(
            "ERROR: mount source cannot be empty",
        )));
    }
    if strutil::str_eq(t.as_str(), "~") || strutil::str_eq(t.as_str(), "$HOME") {
        return Result::Ok(home.clone());
    }
    if chars_have_prefix(&cs, "~/") {
        let rest = chars_suffix(&cs, 1);
        let mut joined = home.clone();
        joined.append(rest.as_str());
        proof {
            assert(joined@ =~= home@ + t@.skip(1));
        }
        return Result::Ok(clean_path(joined.as_str()));
    }
    if chars_have_prefix(&cs, "$HOME/") {
        proof {
            reveal_strlit("$HOME/");
        }
        let rest = chars_suffix(&cs, 5);
        let mut joined = home.clone();
        joined.append(rest.as_str());
        proof {
            assert(joined@ =~= home@ + t@.skip(5));
        }
        return Result::Ok(clean_path(joined.as_str()));
    }
    if cs[0] == '/' {
        return Result::Ok(clean_path(t.as_str()));
    }
    let mut joined = cwd.clone();
    joined.append("/");
    joined.append(t.as_str());
    proof {
        assert(joined@ =~= cwd@ + "/"@ + t@);
    }
    Result::Ok(clean_path(joined.as_str()))
}

/// The mapping of a mount target into the container: an absolute target is
/// cleaned and kept, a relative one is placed under the container home.
pub open spec fn spec_container_path(path: Seq<char>) -> Seq<char> {
    let t = trimmed(path);
    if t.len() > 0 && t[0] == '/' {
        spec_clean(t)
    } else {
        spec_clean(container_home() + "/"@ + t)
    }
}

/// Maps a mount target into the container: an absolute target is kept (and
/// cleaned), a relative one is placed under the container home.
pub fn container_path(path: &str) -> (r: String)
    ensures
        r@ == spec_container_path(path@),
{
    let t = strutil::trim(path);
    let cs = strutil::chars_of(t.as_str());
    if cs.len() > 0 && cs[0] == '/' {
        return clean_path(t.as_str());
    }
    let mut joined = String::from_str("/home/dungeon");
    joined.append("/");
    joined.append(t.as_str());
    proof {
        assert(joined@ =~= container_home() + "/"@ + t@);
    }
    clean_path(joined.as_str())
}

} // verus!
