//! Persistence modes and the engine commands that manage a persisted
//! container session.

use vstd::prelude::*;
use sha2::Digest;
use vstd::string::StrSliceExecFns;
use vstd::string::StringExecFns;

use crate::Engine;
use crate::container::engine::{CommandSpec, engine_program, push_arg, push_arg_string};
use crate::container::mounts::{join_rec, join_with};
use crate::error::AppError;
use crate::strutil;
use crate::strutil::{is_space, split_parts, trim_back, trim_front, trimmed};

verus! {

/// The digest that the SHA-256 function assigns to a byte sequence; its
/// value is pinned down only by the external implementation.
pub uninterp spec fn sha256_of(data: Seq<u8>) -> Seq<u8>;

/// Relies on `sha2::Sha256`: the digest is a function of the input bytes
/// alone and is 32 bytes long.
#[verifier::external_body]
fn sha256(data: &Vec<u8>) -> (r: Vec<u8>)
    ensures
        r@ == sha256_of(data@),
        r@.len() == 32,
{
    sha2::Sha256::digest(data.as_slice()).to_vec()
}

/// The lowercase hexadecimal digit for a value below sixteen.
pub open spec fn hex_digit(n: int) -> char {
    if n == 0 {
        '0'
    } else if n == 1 {
        '1'
    } else if n == 2 {
        '2'
    } else if n == 3 {
        '3'
    } else if n == 4 {
        '4'
    } else if n == 5 {
        '5'
    } else if n == 6 {
        '6'
    } else if n == 7 {
        '7'
    } else if n == 8 {
        '8'
    } else if n == 9 {
        '9'
    } else if n == 10 {
        'a'
    } else if n == 11 {
        'b'
    } else if n == 12 {
        'c'
    } else if n == 13 {
        'd'
    } else if n == 14 {
        'e'
    } else {
        'f'
    }
}

/// The lowercase hexadecimal rendering of a byte sequence: two digits per
/// byte, high digit first.
pub open spec fn hex_of(bytes: Seq<u8>) -> Seq<char> {
    Seq::new(
        bytes.len() * 2,
        |i: int|
            if i % 2 == 0 {
                hex_digit(bytes[i / 2] as int / 16)
            } else {
                hex_digit(bytes[i / 2] as int % 16)
            },
    )
}

/// Relies on `hex::encode`: two lowercase hexadecimal digits per input byte,
/// high digit first.
#[verifier::external_body]
fn hex_encode(bytes: &Vec<u8>) -> (r: String)
    ensures
        r@ == hex_of(bytes@),
{
    hex::encode(bytes.as_slice())
}

/// The text whose digest names a persisted container: the canonical working
/// directory and the canonical explicit paths, joined by newlines, in order.
pub open spec fn name_hash_input(cwd: Seq<char>, paths: Seq<Seq<char>>) -> Seq<char> {
    join_with(seq![cwd] + paths, "\n"@)
}

/// The eight-character short hash in a persisted container name: the first
/// eight digits of the hex rendering of the digest (all of it, were the
/// digest ever shorter than four bytes).
pub open spec fn short_hash(cwd: Seq<char>, paths: Seq<Seq<char>>) -> Seq<char> {
    let h = hex_of(sha256_of(vstd::utf8::encode_utf8(name_hash_input(cwd, paths))));
    if h.len() >= 8 {
        h.take(8)
    } else {
        h
    }
}

/// The characters a container base name may keep; anything else becomes `-`.
pub open spec fn keep_char(c: char) -> bool {
    ('a' <= c && c <= 'z') || ('A' <= c && c <= 'Z') || ('0' <= c && c <= '9') || c == '-'
        || c == '_' || c == '.'
}

/// The name with every disallowed character replaced by `-`.
pub open spec fn replaced(s: Seq<char>) -> Seq<char> {
    Seq::new(
        s.len(),
        |i: int|
            if keep_char(s[i]) {
                s[i]
            } else {
                '-'
            },
    )
}

/// `s` without leading `-` characters.
pub open spec fn trim_front_dash(s: Seq<char>) -> Seq<char>
    decreases s.len(),
{
    if s.len() > 0 && s[0] == '-' {
        trim_front_dash(s.drop_first())
    } else {
        s
    }
}

/// `s` without trailing `-` characters.
pub open spec fn trim_back_dash(s: Seq<char>) -> Seq<char>
    decreases s.len(),
{
    if s.len() > 0 && s.last() == '-' {
        trim_back_dash(s.drop_last())
    } else {
        s
    }
}

/// The sanitized base name: disallowed characters replaced by `-`, leading
/// and trailing `-` trimmed, `project` when nothing is left, and at most 32
/// characters.
pub open spec fn spec_sanitized_base(name: Seq<char>) -> Seq<char> {
    let t = trim_back_dash(trim_front_dash(replaced(name)));
    let b = if t.len() == 0 {
        "project"@
    } else {
        t
    };
    if b.len() <= 32 {
        b
    } else {
        b.take(32)
    }
}

/// The last non-empty `/`-separated part of a path, or the empty string.
pub open spec fn last_nonempty(parts: Seq<Seq<char>>) -> Seq<char>
    decreases parts.len(),
{
    if parts.len() == 0 {
        Seq::empty()
    } else if parts.last().len() > 0 {
        parts.last()
    } else {
        last_nonempty(parts.drop_last())
    }
}

/// The final path component of a path, or the empty string for a root.
pub open spec fn basename_of(path: Seq<char>) -> Seq<char> {
    last_nonempty(split_parts(path, '/'))
}

/// The deterministic, content-addressed name of a persisted container:
/// `dungeon-`, the sanitized final component of the working directory, `-`,
/// and the first eight hex digits of the SHA-256 digest of the newline-joined
/// canonical paths (working directory first).
pub open spec fn spec_persisted_name(cwd: Seq<char>, paths: Seq<Seq<char>>) -> Seq<char> {
    "dungeon-"@ + spec_sanitized_base(basename_of(cwd)) + "-"@ + short_hash(cwd, paths)
}

/// How a container session relates to a persisted container: `Ephemeral` is an
/// ephemeral run, `Create` makes a new persisted container, `Reuse` connects
/// to an existing one, and `Discard` removes one.
#[derive(Debug, Clone, Copy, PartialEq, Eq, Structural)]
pub enum PersistMode {
    Ephemeral,
    Create,
    Reuse,
    Discard,
}

/// Whether a character may stay in a container base name.
fn keep_char_exec(c: char) -> (r: bool)
    ensures
        r == keep_char(c),
{
    ('a' <= c && c <= 'z') || ('A' <= c && c <= 'Z') || ('0' <= c && c <= '9') || c == '-'
        || c == '_' || c == '.'
}

/// Builds a human-readable container base name: disallowed characters are
/// replaced by `-`, leading and trailing `-` are trimmed, an empty result
/// falls back to `project`, and the result is cut to 32 characters.
#[verifier::loop_isolation(false)]
pub fn sanitize_container_base(name: &str) -> (r: String)
    ensures
        r@ == spec_sanitized_base(name@),
{
    let cs = strutil::chars_of(name);
    let mut cleaned: Vec<char> = Vec::new();
    let mut i: usize = 0;
    while i < cs.len()
        invariant
            i <= cs.len(),
            cleaned@ == replaced(cs@).take(i as int),
        decreases cs.len() - i,
    {
        if keep_char_exec(cs[i]) {
            cleaned.push(cs[i]);
        } else {
            cleaned.push('-');
        }
        i = i + 1;
        proof {
            assert(cleaned@ =~= replaced(cs@).take(i as int));
        }
    }
    proof {
        assert(cleaned@ =~= replaced(cs@));
    }
    let n = cleaned.len();
    let mut a: usize = 0;
    proof {
        assert(cleaned@.skip(0) =~= cleaned@);
    }
    while a < n && cleaned[a] == '-'
        invariant
            a <= n,
            n == cleaned@.len(),
            trim_front_dash(cleaned@) == trim_front_dash(cleaned@.skip(a as int)),
        decreases n - a,
    {
        proof {
            assert(cleaned@.skip(a as int).drop_first() =~= cleaned@.skip(a + 1));
        }
        a = a + 1;
    }
    proof {
        assert(trim_front_dash(cleaned@.skip(a as int)) == cleaned@.skip(a as int));
    }
    let mut b: usize = n;
    while b > a && cleaned[b - 1] == '-'
        invariant
            a <= b <= n,
            trim_front_dash(cleaned@) == cleaned@.skip(a as int),
            trim_back_dash(cleaned@.skip(a as int)) == trim_back_dash(
                cleaned@.subrange(a as int, b as int),
            ),
        decreases b,
    {
        proof {
            assert(cleaned@.subrange(a as int, b as int).drop_last() =~= cleaned@.subrange(
                a as int,
                b - 1,
            ));
        }
        b = b - 1;
    }
    proof {
        assert(cleaned@.subrange(a as int, n as int) =~= cleaned@.skip(a as int));
        assert(trim_back_dash(cleaned@.subrange(a as int, b as int)) == cleaned@.subrange(
            a as int,
            b as int,
        ));
    }
    if a == b {
        let r = String::from_str("project");
        proof {
            reveal_strlit("project");
            assert(r@ == spec_sanitized_base(name@));
        }
        return r;
    }
    let take_to: usize = if b - a <= 32 {
        b
    } else {
        a + 32
    };
    let mut out: Vec<char> = Vec::new();
    let mut k: usize = a;
    while k < take_to
        invariant
            a <= k <= take_to <= cleaned@.len(),
            out@ == cleaned@.subrange(a as int, k as int),
        decreases take_to - k,
    {
        out.push(cleaned[k]);
        k = k + 1;
        proof {
            assert(out@ =~= cleaned@.subrange(a as int, k as int));
        }
    }
    proof {
        if b - a <= 32 {
            assert(out@ =~= cleaned@.subrange(a as int, b as int));
        } else {
            assert(out@ =~= cleaned@.subrange(a as int, b as int).take(32));
        }
    }
    strutil::string_of(&out)
}

/// Checks that a container name is non-empty after trimming and does not
/// exceed the 63-character engine limit.
pub fn validate_container_name(name: &str) -> (r: Result<(), AppError>)
    ensures
        match r {
            Result::Ok(()) => trimmed(name@).len() != 0 && name@.len() <= 63,
            Result::Err(e) => e matches AppError::Message(m) && (if trimmed(name@).len() == 0 {
                m@ == "ERROR: container name cannot be empty"@
            } else {
                name@.len() > 63 && m@ == "ERROR: container name exceeds 63 characters"@
            }),
        },
{
    let t = strutil::trim(name);
    if t.as_str().unicode_len() == 0 {
        return Result::Err(AppError::message(String::from_str(
            "ERROR: container name cannot be empty",
        )));
    }
    if name.unicode_len() > 63 {
        return Result::Err(AppError::message(String::from_str(
            "ERROR: container name exceeds 63 characters",
        )));
    }
    Result::Ok(())
}

/// The final path component of a path, or the empty string for a root.
#[verifier::loop_isolation(false)]
pub(crate) fn basename(path: &str) -> (r: String)
    ensures
        r@ == basename_of(path@),
{
    let parts = strutil::split(path, '/');
    let ghost pv = parts.deep_view();
    let mut k: usize = parts.len();
    proof {
        assert(pv.take(parts.len() as int) =~= pv);
    }
    while k > 0
        invariant
            k <= parts.len(),
            pv.len() == parts.len(),
            last_nonempty(pv) == last_nonempty(pv.take(k as int)),
        decreases k,
    {
        proof {
            assert(pv.take(k as int).last() == pv[k - 1]);
            assert(pv.take(k as int).drop_last() =~= pv.take(k - 1));
        }
        if parts[k - 1].as_str().unicode_len() > 0 {
            return parts[k - 1].clone();
        }
        k = k - 1;
    }
    proof {
        assert(pv.take(0) =~= Seq::<Seq<char>>::empty());
    }
    String::new()
}

/// There is no whitespace among the hexadecimal digits.
proof fn lemma_hex_digit_not_space()
    ensures
        forall|x: int| !is_space(#[trigger] hex_digit(x)),
{
}

/// Derives the deterministic, content-addressed persisted container name
/// from the canonical working directory and the canonical explicit paths:
/// `dungeon-{sanitized cwd basename}-{8 hex digits of SHA-256}`. The name
/// depends on nothing but these arguments, and always passes the container
/// name validation.
#[verifier::loop_isolation(false)]
pub fn persisted_container_name(cwd: &String, paths: &Vec<String>) -> (r: Result<String, AppError>)
    ensures
        r matches Result::Ok(name) && name@ == spec_persisted_name(cwd@, paths.deep_view()),
{
    let ghost pv = paths.deep_view();
    let mut joined = cwd.clone();
    let mut i: usize = 0;
    proof {
        assert((seq![cwd@] + pv)[0] == cwd@);
        assert((seq![cwd@] + pv).drop_first() =~= pv);
        assert(pv.skip(0) =~= pv);
    }
    while i < paths.len()
        invariant
            i <= paths.len(),
            pv.len() == paths.len(),
            name_hash_input(cwd@, pv) == join_rec(joined@, pv.skip(i as int), "\n"@),
        decreases paths.len() - i,
    {
        proof {
            assert(pv.skip(i as int)[0] == pv[i as int]);
            assert(pv.skip(i as int).drop_first() =~= pv.skip(i + 1));
        }
        joined.append("\n");
        joined.append(paths[i].as_str());
        i = i + 1;
    }
    proof {
        assert(pv.skip(i as int) =~= Seq::<Seq<char>>::empty());
    }
    let bytes = joined.as_str().as_bytes_vec();
    let digest = sha256(&bytes);
    let hexs = hex_encode(&digest);
    proof {
        assert(hexs@.len() == 64);
    }
    let short = hexs.as_str().substring_char(0, 8);
    proof {
        assert(short@ =~= short_hash(cwd@, pv));
    }
    let cwd_base = basename(cwd.as_str());
    let base = sanitize_container_base(cwd_base.as_str());
    let mut name = String::from_str("dungeon-");
    name.append(base.as_str());
    name.append("-");
    name.append(short);
    proof {
        assert(name@ =~= spec_persisted_name(cwd@, pv));
    }
    match validate_container_name(name.as_str()) {
        Result::Ok(()) => Result::Ok(name),
        Result::Err(e) => {
            proof {
                reveal_strlit("dungeon-");
                reveal_strlit("-");
                reveal_strlit("project");
                lemma_hex_digit_not_space();
                assert(base@.len() >= 1 && base@.len() <= 32);
                assert(name@.len() <= 63);
                assert(name@[0] == 'd');
                assert(!is_space(name@[0]));
                assert(trim_front(name@) == name@);
                assert(name@.last() == short_hash(cwd@, pv)[7]);
                assert(!is_space(name@.last()));
                assert(trim_back(name@) == name@);
                assert(trimmed(name@).len() != 0);
                assert(false);
            }
            Result::Err(e)
        },
    }
}

/// Derives the container name an invocation addresses: the content-addressed
/// name of the working directory and explicit paths when creating, the name
/// of the working directory alone when reusing or discarding, and the empty
/// string for an ephemeral run.
pub fn resolve_container_name(persist_mode: PersistMode, cwd: &String, paths: &Vec<String>) -> (r:
    Result<String, AppError>)
    ensures
        r matches Result::Ok(name) && name@ == (match persist_mode {
            PersistMode::Create => spec_persisted_name(cwd@, paths.deep_view()),
            PersistMode::Reuse => spec_persisted_name(cwd@, Seq::empty()),
            PersistMode::Discard => spec_persisted_name(cwd@, Seq::empty()),
            PersistMode::Ephemeral => Seq::<char>::empty(),
        }),
{
    match persist_mode {
        PersistMode::Create => persisted_container_name(cwd, paths),
        PersistMode::Reuse | PersistMode::Discard => {
            let none: Vec<String> = Vec::new();
            proof {
                assert(none.deep_view() =~= Seq::<Seq<char>>::empty());
            }
            persisted_container_name(cwd, &none)
        },
        PersistMode::Ephemeral => Result::Ok(String::new()),
    }
}

/// Checks the live-engine existence answer against the mode: reusing a
/// container that does not exist is a fatal error, and so is creating one
/// under a name that already exists; the ephemeral and discard modes accept
/// either answer (in particular, discarding an absent name is not an error).
pub fn ensure_container_exists(persist_mode: PersistMode, container_name: &String, exists: bool)
    -> (r: Result<(), AppError>)
    ensures
        match r {
            Result::Ok(()) => (persist_mode != PersistMode::Reuse || exists) && (persist_mode
                != PersistMode::Create || !exists),
            Result::Err(e) => e matches AppError::Message(m) && (if persist_mode
                == PersistMode::Reuse {
                !exists && m@ == "ERROR: container \""@ + container_name@
                    + "\" does not exist"@
            } else {
                persist_mode == PersistMode::Create && exists && m@ == "ERROR: container \""@
                    + container_name@ + "\" already exists, use --persisted to connect"@
            }),
        },
{
    if matches!(persist_mode, PersistMode::Reuse) && !exists {
        let mut msg = String::new();
        msg.append("ERROR: container \"");
        msg.append(container_name.as_str());
        msg.append("\" does not exist");
        proof {
            assert(msg@ =~= "ERROR: container \""@ + container_name@
                + "\" does not exist"@);
        }
        return Result::Err(AppError::message(msg));
    }
    if matches!(persist_mode, PersistMode::Create) && exists {
        let mut msg = String::new();
        msg.append("ERROR: container \"");
        msg.append(container_name.as_str());
        msg.append("\" already exists, use --persisted to connect");
        proof {
            assert(msg@ =~= "ERROR: container \""@ + container_name@
                + "\" already exists, use --persisted to connect"@);
        }
        return Result::Err(AppError::message(msg));
    }
    Result::Ok(())
}

/// The engine command that starts a stopped persisted container.
pub fn start_container(name: &String, engine: Engine) -> (r: CommandSpec)
    ensures
        r@.program == engine_program(engine),
        r@.args == seq!["start"@, name@],
{
    let mut args: Vec<String> = Vec::new();
    push_arg(&mut args, "start");
    push_arg_string(&mut args, name.clone());
    proof {
        assert(args.deep_view() =~= seq!["start"@, name@]);
    }
    CommandSpec { program: String::from_str(engine.program()), args }
}

/// The engine command that opens an interactive shell in a running
/// persisted container.
pub fn exec_into_container(name: &String, engine: Engine) -> (r: CommandSpec)
    ensures
        r@.program == engine_program(engine),
        r@.args == seq!["exec"@, "-it"@, name@, "bash"@],
{
    let mut args: Vec<String> = Vec::new();
    push_arg(&mut args, "exec");
    push_arg(&mut args, "-it");
    push_arg_string(&mut args, name.clone());
    push_arg(&mut args, "bash");
    proof {
        assert(args.deep_view() =~= seq!["exec"@, "-it"@, name@, "bash"@]);
    }
    CommandSpec { program: String::from_str(engine.program()), args }
}

/// The engine command that removes a persisted container. The engine's
/// `rm -f` is idempotent, so no existence check is made first.
pub fn discard_container(name: &String, engine: Engine) -> (r: CommandSpec)
    ensures
        r@.program == engine_program(engine),
        r@.args == seq!["rm"@, "-f"@, name@],
{
    let mut args: Vec<String> = Vec::new();
    push_arg(&mut args, "rm");
    push_arg(&mut args, "-f");
    push_arg_string(&mut args, name.clone());
    proof {
        assert(args.deep_view() =~= seq!["rm"@, "-f"@, name@]);
    }
    CommandSpec { program: String::from_str(engine.program()), args }
}

/// The engine commands that connect to a persisted container, given whether
/// it is currently running: a stopped container is started first, then a
/// shell is opened in it.
pub fn ensure_container_session(name: &String, engine: Engine, running: bool) -> (r: Vec<
    CommandSpec,
>)
    ensures
        r.len() == (if running { 1int } else { 2int }),
        !running ==> r[0]@.program == engine_program(engine) && r[0]@.args == seq![
            "start"@,
            name@,
        ],
        r[r.len() - 1]@.program == engine_program(engine),
        r[r.len() - 1]@.args == seq!["exec"@, "-it"@, name@, "bash"@],
{
    let mut r: Vec<CommandSpec> = Vec::new();
    if !running {
        r.push(start_container(name, engine));
    }
    r.push(exec_into_container(name, engine));
    r
}

} // verus!
