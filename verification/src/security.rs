//! Security primitives: filename sanitization, path confinement, protocol denylisting,
//! raw-argument allowlisting, and bearer-token comparison.
//!
//! The engine never invokes a shell — arguments are always passed as a vector — so the
//! attack surface is (a) user-controlled paths escaping the managed work dirs, (b)
//! user-controlled inputs naming an ffmpeg protocol (`http:`, `concat:`, `pipe:`…), and
//! (c) the gated raw passthrough.

use vstd::prelude::*;
use crate::error::MediaError;
use crate::path::{
    append_comps, comps_start_with, comps_view, components, is_absolute, lexical_normalize,
    normalize, path_components, render, render_comps, starts_with_comps, Comp,
};
use crate::text::{
    ascii_lower, chars_of, contains_char, eq_chars, eq_str, push_all, push_str,
    starts_with, starts_with_str, string_of, strings_view, to_ascii_lowercase, trim, trim_char,
    trim_end_by, trim_start_by, is_char,
    trim_matches, trim_start_char, trim_start_matches, trim_ws,
};

verus! {

broadcast use vstd::utf8::encode_utf8_decode_utf8;

use vstd::utf8::{decode_utf8, encode_utf8};

// ───────────────────────── filename sanitization ─────────────────────────

/// Whether `c` separates path pieces in an uploaded name (`/` or `\`).
pub open spec fn is_name_sep(c: char) -> bool {
    c == '/' || c == '\\'
}

/// What follows the last `/` or `\` of `s` (all of `s` when there is none).
pub open spec fn after_last_sep(s: Seq<char>) -> Seq<char>
    decreases s.len(),
{
    if s.len() == 0 {
        s
    } else if is_name_sep(s.last()) {
        Seq::empty()
    } else {
        after_last_sep(s.drop_last()).push(s.last())
    }
}

/// Whether `c` is kept in a sanitized filename.
pub open spec fn is_safe_name_char(c: char) -> bool {
    ('a' <= c && c <= 'z') || ('A' <= c && c <= 'Z') || ('0' <= c && c <= '9') || c == '.'
        || c == '-' || c == '_'
}

/// `s` with every character outside `[A-Za-z0-9._-]` replaced by `_`.
pub open spec fn replace_unsafe(s: Seq<char>) -> Seq<char> {
    s.map_values(|c: char| if is_safe_name_char(c) { c } else { '_' })
}

/// The sanitized form of an uploaded filename: the last `/`- or `\`-separated piece,
/// trimmed of whitespace and then of leading dots, unsafe characters replaced by `_`,
/// then trimmed of `_` on both sides; `"upload"` if the result is empty, `.` or `..`.
pub open spec fn sanitized(name: Seq<char>) -> Seq<char> {
    let base = trim_start_char(trim(after_last_sep(name)), '.');
    let cleaned = trim_char(replace_unsafe(base), '_');
    if cleaned.len() == 0 || cleaned == seq!['.'] || cleaned == seq!['.', '.'] {
        "upload"@
    } else {
        cleaned
    }
}

proof fn lemma_trim_start_keeps(s: Seq<char>, p: spec_fn(char) -> bool, q: spec_fn(char) -> bool)
    requires
        forall|i: int| 0 <= i < s.len() ==> q(#[trigger] s[i]),
    ensures
        forall|i: int| 0 <= i < trim_start_by(s, p).len() ==> q(#[trigger] trim_start_by(s, p)[i]),
    decreases s.len(),
{
    if s.len() > 0 && p(s[0]) {
        assert forall|i: int| 0 <= i < s.drop_first().len() implies q(#[trigger] s.drop_first()[i]) by {
            assert(s.drop_first()[i] == s[i + 1]);
        }
        lemma_trim_start_keeps(s.drop_first(), p, q);
        assert(trim_start_by(s, p) == trim_start_by(s.drop_first(), p));
    } else {
        assert(trim_start_by(s, p) == s);
    }
}

proof fn lemma_trim_end_keeps(s: Seq<char>, p: spec_fn(char) -> bool, q: spec_fn(char) -> bool)
    requires
        forall|i: int| 0 <= i < s.len() ==> q(#[trigger] s[i]),
    ensures
        forall|i: int| 0 <= i < trim_end_by(s, p).len() ==> q(#[trigger] trim_end_by(s, p)[i]),
    decreases s.len(),
{
    if s.len() > 0 && p(s.last()) {
        assert forall|i: int| 0 <= i < s.drop_last().len() implies q(#[trigger] s.drop_last()[i]) by {
            assert(s.drop_last()[i] == s[i]);
        }
        lemma_trim_end_keeps(s.drop_last(), p, q);
        assert(trim_end_by(s, p) == trim_end_by(s.drop_last(), p));
    } else {
        assert(trim_end_by(s, p) == s);
    }
}

/// A sanitized filename is a plain, non-empty name: only characters of
/// `[A-Za-z0-9._-]` (so no path separator), and neither `.` nor `..`.
pub proof fn lemma_sanitized_plain(name: Seq<char>)
    ensures
        sanitized(name).len() > 0,
        forall|i: int| 0 <= i < sanitized(name).len() ==> is_safe_name_char(#[trigger] sanitized(name)[i]),
        sanitized(name) != seq!['.'],
        sanitized(name) != seq!['.', '.'],
{
    let base = trim_start_char(trim(after_last_sep(name)), '.');
    let r = replace_unsafe(base);
    let safe = |c: char| is_safe_name_char(c);
    assert forall|i: int| 0 <= i < r.len() implies safe(#[trigger] r[i]) by {
        assert(r[i] == (if is_safe_name_char(base[i]) { base[i] } else { '_' }));
    }
    lemma_trim_start_keeps(r, is_char('_'), safe);
    lemma_trim_end_keeps(trim_start_char(r, '_'), is_char('_'), safe);
    let cleaned = trim_char(r, '_');
    if cleaned.len() == 0 || cleaned == seq!['.'] || cleaned == seq!['.', '.'] {
        reveal_strlit("upload");
        assert("upload"@.len() == 6);
        assert forall|i: int| 0 <= i < 6 implies is_safe_name_char(#[trigger] "upload"@[i]) by {
            assert("upload"@ =~= seq!['u', 'p', 'l', 'o', 'a', 'd']);
        }
        assert("upload"@ != seq!['.']);
        assert("upload"@ != seq!['.', '.']);
    } else {
        assert(forall|i: int| 0 <= i < cleaned.len() ==> safe(#[trigger] cleaned[i]));
    }
}

/// Sanitize an uploaded filename: strip any directory components and unsafe
/// characters, returning a safe basename. Empty/odd names fall back to `"upload"`.
pub fn sanitize_filename(name: &str) -> (r: String)
    ensures
        r@ == sanitized(name@),
{
    let v = chars_of(name);
    // The piece after the last separator.
    let mut k: usize = v.len();
    assert(v@.take(k as int) == v@);
    while k > 0 && !(v[k - 1] == '/' || v[k - 1] == '\\')
        invariant
            k <= v.len(),
            after_last_sep(v@) == after_last_sep(v@.take(k as int)) + v@.skip(k as int),
        decreases k,
    {
        proof {
            let t = v@.take(k as int);
            assert(t.drop_last() == v@.take(k - 1));
            assert(after_last_sep(t) == after_last_sep(t.drop_last()).push(t.last()));
            assert(v@.skip(k - 1) == seq![v@[k - 1]] + v@.skip(k as int));
        }
        k = k - 1;
    }
    proof {
        if k > 0 {
            assert(v@.take(k as int).last() == v@[k - 1]);
        } else {
            assert(v@.take(0) =~= Seq::<char>::empty());
        }
        assert(after_last_sep(v@.take(k as int)) =~= Seq::<char>::empty());
    }
    let last = crate::text::slice_chars(&v, k, v.len());
    assert(last@ =~= after_last_sep(v@));
    let t = trim_ws(&last);
    let base = trim_start_matches(&t, '.');
    let mut cleaned: Vec<char> = Vec::new();
    let mut i: usize = 0;
    while i < base.len()
        invariant
            i <= base.len(),
            cleaned@ == replace_unsafe(base@.take(i as int)),
        decreases base.len() - i,
    {
        let c = base[i];
        let d = if ('a' <= c && c <= 'z') || ('A' <= c && c <= 'Z') || ('0' <= c && c <= '9')
            || c == '.' || c == '-' || c == '_' {
            c
        } else {
            '_'
        };
        cleaned.push(d);
        assert(replace_unsafe(base@.take(i + 1)) =~= replace_unsafe(base@.take(i as int)).push(d));
        i = i + 1;
    }
    assert(base@.take(base@.len() as int) == base@);
    let cleaned = trim_matches(&cleaned, '_');
    proof {
        reveal_strlit(".");
        reveal_strlit("..");
        assert("."@ =~= seq!['.']);
        assert(".."@ =~= seq!['.', '.']);
        assert(cleaned@ == trim_char(replace_unsafe(trim_start_char(trim(after_last_sep(name@)), '.')), '_'));
    }
    if cleaned.len() == 0 || eq_str(&cleaned, ".") || eq_str(&cleaned, "..") {
        proof {
            reveal_strlit(".");
            reveal_strlit("..");
        }
        string_of(&chars_of("upload"))
    } else {
        proof {
            reveal_strlit(".");
            reveal_strlit("..");
        }
        string_of(&cleaned)
    }
}

// ───────────────────────── path confinement ─────────────────────────

/// The components of `candidate` resolved against `base`: an absolute candidate stands
/// alone, a relative one follows `base`'s components (as `base.join(candidate)` gives).
pub open spec fn joined_components(base: Seq<char>, candidate: Seq<char>) -> Seq<Comp> {
    if is_absolute(candidate) {
        components(candidate)
    } else {
        components(base) + components(candidate)
    }
}

/// The confined path for `candidate` under `base`: the lexically normalized joined path,
/// when its components begin with those of the normalized `base`.
pub open spec fn confined(base: Seq<char>, candidate: Seq<char>) -> Option<Seq<char>> {
    let n = normalize(joined_components(base, candidate));
    if comps_start_with(n, normalize(components(base))) {
        Some(render(n))
    } else {
        None
    }
}

/// The message of a path escaping its managed directory.
pub open spec fn escape_message(base: Seq<char>, candidate: Seq<char>) -> Seq<char> {
    "path '"@ + candidate + "' escapes the managed directory '"@ + base + "'"@
}

/// The message of a path whose resolved form leaves its managed directory.
pub open spec fn symlink_message(base: Seq<char>, candidate: Seq<char>) -> Seq<char> {
    "path '"@ + candidate + "' resolves (via symlink) outside '"@ + base + "'"@
}

/// Resolve `candidate` lexically and require that it stays within `base` (no `..`
/// traversal out of it, no absolute escape). `candidate` may be relative (resolved
/// against `base`) or absolute (must already be under `base`). Returns the confined,
/// lexically-normalized path. Symlinks are checked separately, against resolved paths,
/// by [`check_resolved_containment`].
pub fn confine_path(base: &str, candidate: &str) -> (r: Result<String, MediaError>)
    ensures
        match r {
            Ok(p) => confined(base@, candidate@) == Some(p@),
            Err(e) => confined(base@, candidate@) is None && (e matches MediaError::Security(m)
                && m@ == escape_message(base@, candidate@)),
        },
{
    let bv = chars_of(base);
    let cv = chars_of(candidate);
    let base_comps = path_components(&bv);
    let cand_comps = path_components(&cv);
    let joined = if cv.len() > 0 && cv[0] == '/' {
        cand_comps
    } else {
        let mut j: Vec<PathComp> = Vec::new();
        append_comps(&mut j, &base_comps);
        append_comps(&mut j, &cand_comps);
        assert(comps_view(j@) =~= comps_view(base_comps@) + comps_view(cand_comps@));
        j
    };
    let normalized = lexical_normalize(&joined);
    let base_norm = lexical_normalize(&base_comps);
    if !starts_with_comps(&normalized, &base_norm) {
        let mut m = chars_of("path '");
        push_all(&mut m, &cv);
        push_str(&mut m, "' escapes the managed directory '");
        push_all(&mut m, &bv);
        push_str(&mut m, "'");
        return Err(MediaError::Security(string_of(&m)));
    }
    let out = render_comps(&normalized);
    Ok(string_of(&out))
}

/// The symlink half of confinement: given the resolved (canonical) form of the deepest
/// existing ancestor of a confined path and of its base, require that the first lies
/// under the second, component-wise.
pub fn check_resolved_containment(
    base: &str,
    candidate: &str,
    resolved: &str,
    resolved_base: &str,
) -> (r: Result<(), MediaError>)
    ensures
        match r {
            Ok(_) => comps_start_with(components(resolved@), components(resolved_base@)),
            Err(e) => !comps_start_with(components(resolved@), components(resolved_base@))
                && (e matches MediaError::Security(m) && m@ == symlink_message(base@, candidate@)),
        },
{
    let rv = chars_of(resolved);
    let bv = chars_of(resolved_base);
    let rc = path_components(&rv);
    let bc = path_components(&bv);
    if starts_with_comps(&rc, &bc) {
        Ok(())
    } else {
        let mut m = chars_of("path '");
        push_str(&mut m, candidate);
        push_str(&mut m, "' resolves (via symlink) outside '");
        push_str(&mut m, base);
        push_str(&mut m, "'");
        Err(MediaError::Security(string_of(&m)))
    }
}

use crate::path::PathComp;

// ───────────────────────── protocol denylist ─────────────────────────

/// FFmpeg protocol prefixes that must never appear in a user-supplied input string.
/// Local file paths have no scheme, so any `scheme:` token here is rejected.
pub open spec fn denied_protocols() -> Seq<Seq<char>> {
    seq![
        "http:"@, "https:"@, "tcp:"@, "udp:"@, "rtp:"@, "rtmp:"@, "rtmps:"@, "rtsp:"@, "srt:"@,
        "ftp:"@, "ftps:"@, "sftp:"@, "gopher:"@, "tls:"@, "unix:"@, "pipe:"@, "fd:"@,
        "concat:"@, "subfile:"@, "data:"@, "crypto:"@, "hls:"@, "async:"@, "cache:"@,
        "file:"@, "ffrtmphttp:"@, "icecast:"@,
    ]
}

/// The denied protocol prefixes, in executable form.
fn denied_protocol_list() -> (v: Vec<&'static str>)
    ensures
        v@.len() == denied_protocols().len(),
        forall|i: int| 0 <= i < v@.len() ==> #[trigger] v@[i]@ == denied_protocols()[i],
{
    let v = vec![
        "http:", "https:", "tcp:", "udp:", "rtp:", "rtmp:", "rtmps:", "rtsp:", "srt:", "ftp:",
        "ftps:", "sftp:", "gopher:", "tls:", "unix:", "pipe:", "fd:", "concat:", "subfile:",
        "data:", "crypto:", "hls:", "async:", "cache:", "file:", "ffrtmphttp:", "icecast:",
    ];
    v
}

/// Whether a token, trimmed and ASCII-lowercased, begins with a denied protocol prefix.
pub open spec fn names_denied_protocol(token: Seq<char>) -> bool {
    let lower = ascii_lower(trim(token));
    exists|i: int| 0 <= i < denied_protocols().len() && starts_with(lower, #[trigger] denied_protocols()[i])
}

/// The message of a rejected input token.
pub open spec fn protocol_message(token: Seq<char>) -> Seq<char> {
    "input uses a disallowed protocol: '"@ + token + "'"@
}

/// Whether `v`, trimmed and lowercased, begins with a denied protocol prefix.
fn has_denied_protocol(v: &[char]) -> (r: bool)
    ensures
        r == names_denied_protocol(v@),
{
    let t = trim_ws(v);
    let lower = to_ascii_lowercase(&t);
    let list = denied_protocol_list();
    let mut i: usize = 0;
    while i < list.len()
        invariant
            i <= list.len(),
            list@.len() == denied_protocols().len(),
            forall|j: int| 0 <= j < list@.len() ==> #[trigger] list@[j]@ == denied_protocols()[j],
            lower@ == ascii_lower(trim(v@)),
            forall|j: int| 0 <= j < i ==> !starts_with(lower@, #[trigger] denied_protocols()[j]),
        decreases list.len() - i,
    {
        if starts_with_str(&lower, list[i]) {
            assert(starts_with(lower@, denied_protocols()[i as int]));
            return true;
        }
        i = i + 1;
    }
    false
}

/// Reject any user-supplied input/URL that names a non-local ffmpeg protocol.
pub fn ensure_safe_input_token(token: &str) -> (r: Result<(), MediaError>)
    ensures
        match r {
            Ok(_) => !names_denied_protocol(token@),
            Err(e) => names_denied_protocol(token@) && (e matches MediaError::Security(m) && m@
                == protocol_message(token@)),
        },
{
    let v = chars_of(token);
    if has_denied_protocol(&v) {
        let mut m = chars_of("input uses a disallowed protocol: '");
        push_all(&mut m, &v);
        push_str(&mut m, "'");
        return Err(MediaError::Security(string_of(&m)));
    }
    Ok(())
}

/// The protocol whitelist passed to ffmpeg so it refuses anything but local files.
pub const PROTOCOL_WHITELIST: &'static str = "file,crypto";

/// Whether a token names a denied protocol (see [`ensure_safe_input_token`]).
pub fn token_has_denied_protocol(token: &str) -> (r: bool)
    ensures
        r == names_denied_protocol(token@),
{
    ensure_safe_input_token(token).is_err()
}

// ───────────────────────── raw passthrough ─────────────────────────

/// ffmpeg flags never allowed in raw passthrough: they enable arbitrary demuxers,
/// protocol changes, or loading external configs/scripts.
pub open spec fn raw_denied_flags() -> Seq<Seq<char>> {
    seq![
        "-f"@, "-fflags"@, "-protocol_whitelist"@, "-protocol_blacklist"@, "-i_qfactor"@,
        "-init_hw_device"@, "-filter_script"@, "-filter_complex_script"@, "-/filter_complex"@,
        "-vf_script"@, "-af_script"@,
    ]
}

/// The denied raw flags, in executable form.
fn raw_denied_flag_list() -> (v: Vec<&'static str>)
    ensures
        v@.len() == raw_denied_flags().len(),
        forall|i: int| 0 <= i < v@.len() ==> #[trigger] v@[i]@ == raw_denied_flags()[i],
{
    vec![
        "-f", "-fflags", "-protocol_whitelist", "-protocol_blacklist", "-i_qfactor",
        "-init_hw_device", "-filter_script", "-filter_complex_script", "-/filter_complex",
        "-vf_script", "-af_script",
    ]
}

/// Why a single raw argument is refused, if it is.
pub open spec fn raw_arg_problem(a: Seq<char>) -> Option<Seq<char>> {
    if raw_denied_flags().contains(ascii_lower(a)) {
        Some("raw argument '"@ + a + "' is not permitted"@)
    } else if names_denied_protocol(a) {
        Some("raw argument '"@ + a + "' references a disallowed protocol"@)
    } else if a.contains('\0') {
        Some("raw argument contains a NUL byte"@)
    } else {
        None
    }
}

/// The problem with the first refused argument of a raw argument list, if any.
pub open spec fn first_raw_problem(args: Seq<Seq<char>>) -> Option<Seq<char>>
    decreases args.len(),
{
    if args.len() == 0 {
        None
    } else {
        match raw_arg_problem(args[0]) {
            Some(m) => Some(m),
            None => first_raw_problem(args.drop_first()),
        }
    }
}

/// A raw argument list passes the policy exactly when each of its arguments does: none
/// is a denied flag (in any ASCII case), names a denied protocol, or holds a NUL.
pub proof fn lemma_raw_args_each(args: Seq<Seq<char>>)
    ensures
        first_raw_problem(args) is None <==> forall|i: int|
            0 <= i < args.len() ==> raw_arg_problem(#[trigger] args[i]) is None,
        forall|a: Seq<char>|
            #[trigger] raw_arg_problem(a) is None <==> (!raw_denied_flags().contains(ascii_lower(a))
                && !names_denied_protocol(a) && !a.contains('\0')),
    decreases args.len(),
{
    if args.len() > 0 {
        lemma_raw_args_each(args.drop_first());
        if first_raw_problem(args) is None {
            assert forall|i: int| 0 <= i < args.len() implies raw_arg_problem(
                #[trigger] args[i],
            ) is None by {
                if i > 0 {
                    assert(args[i] == args.drop_first()[i - 1]);
                }
            }
        }
        if forall|i: int| 0 <= i < args.len() ==> raw_arg_problem(#[trigger] args[i]) is None {
            assert(raw_arg_problem(args[0]) is None);
            assert forall|i: int| 0 <= i < args.drop_first().len() implies raw_arg_problem(
                #[trigger] args.drop_first()[i],
            ) is None by {
                assert(args.drop_first()[i] == args[i + 1]);
            }
        }
    }
}

/// The policy's verdict on two argument lists joined: the first list's problem when it
/// has one, else the second's. So the joined list passes exactly when both do.
pub proof fn lemma_raw_args_concat(x: Seq<Seq<char>>, y: Seq<Seq<char>>)
    ensures
        first_raw_problem(x + y) == (match first_raw_problem(x) {
            Some(m) => Some(m),
            None => first_raw_problem(y),
        }),
        first_raw_problem(x + y) is None <==> (first_raw_problem(x) is None && first_raw_problem(
            y,
        ) is None),
    decreases x.len(),
{
    if x.len() == 0 {
        assert(x + y =~= y);
    } else {
        lemma_raw_args_concat(x.drop_first(), y);
        assert((x + y)[0] == x[0]);
        assert((x + y).drop_first() =~= x.drop_first() + y);
    }
}

/// Why one raw argument is refused, in executable form.
fn check_raw_arg(arg: &String) -> (r: Option<String>)
    ensures
        match r {
            Some(m) => raw_arg_problem(arg@) == Some(m@),
            None => raw_arg_problem(arg@) is None,
        },
{
    let v = chars_of(arg.as_str());
    let lower = to_ascii_lowercase(&v);
    let flags = raw_denied_flag_list();
    let mut i: usize = 0;
    while i < flags.len()
        invariant
            i <= flags.len(),
            flags@.len() == raw_denied_flags().len(),
            forall|j: int| 0 <= j < flags@.len() ==> #[trigger] flags@[j]@ == raw_denied_flags()[j],
            lower@ == ascii_lower(arg@),
            v@ == arg@,
            forall|j: int| 0 <= j < i ==> raw_denied_flags()[j] != lower@,
        decreases flags.len() - i,
    {
        if eq_str(&lower, flags[i]) {
            assert(raw_denied_flags()[i as int] == lower@);
            assert(raw_denied_flags().contains(ascii_lower(arg@)));
            let mut m = chars_of("raw argument '");
            push_all(&mut m, &v);
            push_str(&mut m, "' is not permitted");
            return Some(string_of(&m));
        }
        i = i + 1;
    }
    assert(!raw_denied_flags().contains(ascii_lower(arg@)));
    if has_denied_protocol(&v) {
        let mut m = chars_of("raw argument '");
        push_all(&mut m, &v);
        push_str(&mut m, "' references a disallowed protocol");
        return Some(string_of(&m));
    }
    if contains_char(&v, '\0') {
        return Some(string_of(&chars_of("raw argument contains a NUL byte")));
    }
    None
}

/// Validate a raw ffmpeg argument vector against the sandbox policy: no denied flag
/// (compared ASCII-case-insensitively), no denied protocol, no NUL byte. I/O paths are
/// confined separately by the caller.
pub fn validate_raw_args(args: &[String]) -> (r: Result<(), MediaError>)
    ensures
        match r {
            Ok(_) => first_raw_problem(strings_view(args@)) is None,
            Err(e) => first_raw_problem(strings_view(args@)) matches Some(p) && (
            e matches MediaError::Security(m) && m@ == p),
        },
{
    let ghost all = strings_view(args@);
    let mut i: usize = 0;
    assert(all.skip(0) == all);
    while i < args.len()
        invariant
            i <= args.len(),
            all == strings_view(args@),
            first_raw_problem(all) == first_raw_problem(all.skip(i as int)),
        decreases args.len() - i,
    {
        proof {
            assert(all.skip(i as int)[0] == args@[i as int]@);
            assert(all.skip(i as int).drop_first() == all.skip(i + 1));
        }
        match check_raw_arg(&args[i]) {
            Some(m) => {
                return Err(MediaError::Security(m));
            },
            None => {},
        }
        i = i + 1;
    }
    assert(all.skip(i as int).len() == 0);
    Ok(())
}

// ───────────────────────── bearer tokens ─────────────────────────

proof fn lemma_or_xor_zero(d: u8, a: u8, b: u8)
    ensures
        (d | (a ^ b)) == 0 <==> (d == 0 && a == b),
{
    assert((d | (a ^ b)) == 0 <==> (d == 0 && a == b)) by (bit_vector);
}

/// Bearer-token comparison that looks at every byte (no early exit on a mismatch):
/// whether the two tokens are equal.
pub fn token_matches(expected: &str, provided: &str) -> (r: bool)
    ensures
        r == (expected@ == provided@),
{
    let eb = expected.as_bytes();
    let pb = provided.as_bytes();
    if eb.len() != pb.len() {
        proof {
            if expected@ == provided@ {
                assert(eb@ == pb@);
            }
        }
        return false;
    }
    let mut diff: u8 = 0;
    let mut i: usize = 0;
    while i < eb.len()
        invariant
            i <= eb.len(),
            eb.len() == pb.len(),
            (diff == 0) == (forall|j: int| 0 <= j < i ==> eb@[j] == pb@[j]),
        decreases eb.len() - i,
    {
        let a = eb[i];
        let b = pb[i];
        proof {
            lemma_or_xor_zero(diff, a, b);
        }
        diff = diff | (a ^ b);
        i = i + 1;
    }
    proof {
        if diff == 0 {
            assert(eb@ =~= pb@);
            assert(decode_utf8(encode_utf8(expected@)) == expected@);
            assert(decode_utf8(encode_utf8(provided@)) == provided@);
        } else {
            if expected@ == provided@ {
                assert(eb@ == pb@);
            }
        }
    }
    diff == 0
}

} // verus!
