//! The base path of the external disk: its normalization into the neutral
//! cross-platform form of the `crossplatform_path` crate, the form in which
//! it is stored (with one trailing slash), and the checks made when it is
//! read back.

use vstd::prelude::*;
use crate::error::CliError;
use crate::text::{is_prefix_of, is_suffix_of, starts_with};

verus! {

/// The error type of the `crossplatform_path` crate, carried through as is.
#[verifier::external_type_specification]
#[verifier::external_body]
pub struct ExCrossPathError(crossplatform_path::Error);

/// What `crossplatform_path::CrossPathBuf::new` makes of a path string: the
/// neutral cross-platform form of the path, or `None` where it refuses it.
pub uninterp spec fn cross_path_normalized(path: Seq<char>) -> Option<Seq<char>>;

/// Calls `crossplatform_path::CrossPathBuf::new` and hands back the neutral
/// form of the path (`CrossPathBuf::as_str`) as a `String`.
/// Trusted: the call succeeds exactly where `cross_path_normalized` is
/// `Some`, and then gives back that neutral form. Which refusal the error
/// names, and the rules by which the crate normalizes, are left unsaid here.
#[verifier::external_body]
pub(crate) fn cross_path_new(path: &str) -> (r: Result<String, crossplatform_path::Error>)
    ensures
        r is Ok <==> cross_path_normalized(path@) is Some,
        r matches Ok(p) ==> cross_path_normalized(path@) == Some(p@),
{
    match crossplatform_path::CrossPathBuf::new(path) {
        Ok(p) => Ok(p.as_str().to_string()),
        Err(e) => Err(e),
    }
}

/// `s` without its leading characters `c`, as `trim_start_matches(c)`.
pub open spec fn strip_leading(s: Seq<char>, c: char) -> Seq<char>
    decreases s.len(),
{
    if s.len() > 0 && s[0] == c {
        strip_leading(s.drop_first(), c)
    } else {
        s
    }
}

/// `s` without its leading copies of `prefix` (not empty), as
/// `trim_start_matches(prefix)`.
pub open spec fn strip_prefix_repeated(s: Seq<char>, prefix: Seq<char>) -> Seq<char>
    decreases s.len(),
{
    if prefix.len() > 0 && is_prefix_of(prefix, s) {
        strip_prefix_repeated(s.subrange(prefix.len() as int, s.len() as int), prefix)
    } else {
        s
    }
}

/// What holds of the Linux form `p` of the neutral path `n`
/// (`CrossPathBuf::to_path_buf_nix`, as a string), whatever the home
/// directory is: a path not starting with `~` is unchanged; one starting
/// with `~` is unchanged (no home directory) or ends with the rest of the
/// path after the `~`.
pub open spec fn nix_form(n: Seq<char>, p: Seq<char>) -> bool {
    if n.len() > 0 && n[0] == '~' {
        p == n || is_suffix_of(strip_leading(n, '~'), p)
    } else {
        p == n
    }
}

/// The paths on which `CrossPathBuf::to_path_buf_win` panics once any `~`
/// is replaced: those starting with `/` (but not `/tmp`) that are too short
/// for the drive letter it looks for, or whose drive letter is not a single
/// byte (or is a further `/`).
pub open spec fn win_form_panics(w: Seq<char>) -> bool {
    if w.len() > 0 && w[0] == '/' && !is_prefix_of("/tmp"@, w) {
        if is_prefix_of("/mnt/"@, w) {
            w.len() < 7 || (w[6] == '/' && ((w[5] as u32) >= 0x80 || w[5] == '/'))
        } else {
            w.len() < 3 || (w[2] == '/' && ((w[1] as u32) >= 0x80 || w[1] == '/'))
        }
    } else {
        false
    }
}

/// The neutral paths for which `CrossPathBuf::to_path_buf_win` may panic:
/// a path starting with `~` is put behind the home directory first, and
/// every such path panics for some home directory
/// (`lemma_home_paths_may_fail_on_windows`); any other path panics exactly
/// when `win_form_panics` says so.
pub open spec fn win_may_panic(n: Seq<char>) -> bool {
    if n.len() > 0 && n[0] == '~' {
        true
    } else {
        win_form_panics(n)
    }
}

/// For every path starting with `~` there is a home directory (a text that
/// `std::env::home_dir` can give, through the `USERPROFILE` variable) that
/// makes `CrossPathBuf::to_path_buf_win` panic: the Windows form of such a
/// path can only be had for some environments, never promised for all.
pub proof fn lemma_home_paths_may_fail_on_windows(n: Seq<char>)
    requires
        n.len() > 0,
        n[0] == '~',
    ensures
        exists|home: Seq<char>| #[trigger] win_form_panics(home + strip_leading(n, '~')),
{
    reveal_strlit("/tmp");
    reveal_strlit("/mnt/");
    let rest = strip_leading(n, '~');
    let home = if rest.len() == 0 || rest[0] == '/' {
        seq!['/', 'm', 'n', 't', '/', '\u{e9}']
    } else {
        seq!['/', 'm', 'n', 't', '/', '\u{e9}', '/']
    };
    let w = home + rest;
    assert(w[0] == '/' && w[1] == 'm' && w[2] == 'n' && w[3] == 't' && w[4] == '/' && w[5] == '\u{e9}');
    assert(w.subrange(0, 5) =~= "/mnt/"@);
    assert(!is_prefix_of("/tmp"@, w)) by {
        if is_prefix_of("/tmp"@, w) {
            assert(w.subrange(0, 4)[1] == "/tmp"@[1]);
        }
    }
    assert(win_form_panics(w));
}

/// When the Windows form of a neutral path can be had, stated by the
/// characters of the path: paths that do not start with `/` or `~`, paths
/// under `/tmp`, `/mnt/X/..` and `/X/..` with a one-byte drive letter `X`,
/// and other paths starting with `/` (not `/m`) of at least three
/// characters whose third is not `/`, never fail; `~` paths, `/` and `/x`, and `/mnt/` and
/// `/mnt/x` (too short for a drive) may fail.
pub proof fn lemma_windows_form_failures(n: Seq<char>)
    ensures
        (n.len() == 0 || (n[0] != '/' && n[0] != '~')) ==> !win_may_panic(n),
        (n.len() >= 4 && n[0] == '/' && n[1] == 't' && n[2] == 'm' && n[3] == 'p') ==> !win_may_panic(n),
        (n.len() >= 7 && n[0] == '/' && n[1] == 'm' && n[2] == 'n' && n[3] == 't' && n[4] == '/'
            && n[6] == '/' && (n[5] as u32) < 0x80 && n[5] != '/') ==> !win_may_panic(n),
        (n.len() >= 7 && n[0] == '/' && n[1] == 'm' && n[2] == 'n' && n[3] == 't' && n[4] == '/'
            && n[6] != '/') ==> !win_may_panic(n),
        (n.len() >= 3 && n[0] == '/' && n[1] != 'm' && n[1] != 't' && n[2] == '/' && (n[1] as u32)
            < 0x80 && n[1] != '/') ==> !win_may_panic(n),
        (n.len() >= 3 && n[0] == '/' && n[1] != 'm' && n[2] != '/') ==> !win_may_panic(n),
        (n.len() > 0 && n[0] == '~') ==> win_may_panic(n),
        (1 <= n.len() <= 2 && n[0] == '/') ==> win_may_panic(n),
        (5 <= n.len() <= 6 && n[0] == '/' && n[1] == 'm' && n[2] == 'n' && n[3] == 't' && n[4]
            == '/') ==> win_may_panic(n),
{
    reveal_strlit("/tmp");
    reveal_strlit("/mnt/");
    assert("/tmp"@.len() == 4 && "/tmp"@[1] == 't' && "/tmp"@[2] == 'm' && "/tmp"@[3] == 'p');
    assert("/mnt/"@.len() == 5 && "/mnt/"@[1] == 'm' && "/mnt/"@[2] == 'n' && "/mnt/"@[3] == 't'
        && "/mnt/"@[4] == '/');
    if n.len() >= 4 && n[0] == '/' && n[1] == 't' && n[2] == 'm' && n[3] == 'p' {
        assert(n.subrange(0, 4) =~= "/tmp"@);
    }
    if n.len() >= 5 && n[0] == '/' && n[1] == 'm' && n[2] == 'n' && n[3] == 't' && n[4] == '/' {
        assert(n.subrange(0, 5) =~= "/mnt/"@);
    }
    if is_prefix_of("/mnt/"@, n) {
        assert(n.subrange(0, 5)[1] == n[1] && n.subrange(0, 5)[2] == n[2]);
    }
    if is_prefix_of("/tmp"@, n) {
        assert(n.subrange(0, 4)[1] == n[1] && n.subrange(0, 4)[2] == n[2]);
    }
}

/// What holds of the Windows form `p` of a neutral path `n` for which it
/// does not fail (`CrossPathBuf::to_path_buf_win`, as a string), whatever
/// the temporary directory is: `/tmp` is replaced by the temporary
/// directory, `/mnt/c/..` becomes `c:/..`, `/c/..` becomes `c:/..`, and
/// any other path is unchanged.
pub open spec fn win_form(n: Seq<char>, p: Seq<char>) -> bool {
    if n.len() > 0 && n[0] == '/' {
        if is_prefix_of("/tmp"@, n) {
            is_suffix_of(strip_prefix_repeated(n, "/tmp"@), p)
        } else if is_prefix_of("/mnt/"@, n) {
            if n[6] == '/' {
                p == seq![n[5], ':'] + n.skip(6)
            } else {
                p == n
            }
        } else if n[2] == '/' {
            p == seq![n[1], ':'] + n.skip(2)
        } else {
            p == n
        }
    } else {
        p == n
    }
}

/// What holds of the form of a neutral path on the operating system the
/// tool runs on (`CrossPathBuf::to_path_buf_current_os`, as a string):
/// the Linux form or the Windows form.
pub open spec fn current_os_form(n: Seq<char>, p: Seq<char>) -> bool {
    nix_form(n, p) || win_form(n, p)
}

/// `std::path::MAIN_SEPARATOR`, the separator of path components on the
/// platform the tool was built for: `\\` on Windows, `/` elsewhere. It tells
/// whether `CrossPathBuf::to_path_buf_current_os` gives the Windows or the
/// Linux form. Nothing is promised of the result: it depends on the target.
#[verifier::external_body]
fn main_path_separator() -> char {
    std::path::MAIN_SEPARATOR
}

/// Calls `crossplatform_path::CrossPathBuf::new` and then
/// `CrossPathBuf::to_path_buf_nix`, and hands back the Linux form as a
/// `String` (`to_string_lossy`).
/// Trusted: the call succeeds exactly where `cross_path_normalized` is
/// `Some`, and the Linux form is then as `nix_form` says of that neutral
/// form; which home directory is put for `~` is left unsaid, as it depends
/// on the environment.
#[verifier::external_body]
fn cross_path_nix_form(path: &str) -> (r: Result<String, crossplatform_path::Error>)
    ensures
        r is Ok <==> cross_path_normalized(path@) is Some,
        r matches Ok(p) ==> nix_form(cross_path_normalized(path@).unwrap(), p@),
{
    match crossplatform_path::CrossPathBuf::new(path) {
        Ok(p) => Ok(p.to_path_buf_nix().to_string_lossy().to_string()),
        Err(e) => Err(e),
    }
}

/// Calls `crossplatform_path::CrossPathBuf::new` and then
/// `CrossPathBuf::to_path_buf_win`, and hands back the Windows form as a
/// `String` (`to_string_lossy`).
/// Trusted: the call succeeds exactly where `cross_path_normalized` is
/// `Some`, and the Windows form is then as `win_form` says of that neutral
/// form. It is only made where `to_path_buf_win` cannot panic. Which
/// temporary directory is put for `/tmp` is left unsaid, as it depends on
/// the environment.
#[verifier::external_body]
fn cross_path_win_form(path: &str) -> (r: Result<String, crossplatform_path::Error>)
    requires
        cross_path_normalized(path@) matches Some(n) ==> !win_may_panic(n),
    ensures
        r is Ok <==> cross_path_normalized(path@) is Some,
        r matches Ok(p) ==> win_form(cross_path_normalized(path@).unwrap(), p@),
{
    match crossplatform_path::CrossPathBuf::new(path) {
        Ok(p) => Ok(p.to_path_buf_win().to_string_lossy().to_string()),
        Err(e) => Err(e),
    }
}

/// Unicode `White_Space`, the characters that `str::trim` removes.
pub open spec fn is_white_space(c: char) -> bool {
    let u = c as u32;
    ||| 0x9 <= u <= 0xD
    ||| u == 0x20
    ||| u == 0x85
    ||| u == 0xA0
    ||| u == 0x1680
    ||| 0x2000 <= u <= 0x200A
    ||| u == 0x2028
    ||| u == 0x2029
    ||| u == 0x202F
    ||| u == 0x205F
    ||| u == 0x3000
}

/// `s` without its trailing slashes.
pub open spec fn trim_end_slashes(s: Seq<char>) -> Seq<char>
    decreases s.len(),
{
    if s.len() > 0 && s.last() == '/' {
        trim_end_slashes(s.drop_last())
    } else {
        s
    }
}

/// `s` without its leading white space.
pub open spec fn trim_start_white_space(s: Seq<char>) -> Seq<char>
    decreases s.len(),
{
    if s.len() > 0 && is_white_space(s.first()) {
        trim_start_white_space(s.drop_first())
    } else {
        s
    }
}

/// `s` without its trailing white space.
pub open spec fn trim_end_white_space(s: Seq<char>) -> Seq<char>
    decreases s.len(),
{
    if s.len() > 0 && is_white_space(s.last()) {
        trim_end_white_space(s.drop_last())
    } else {
        s
    }
}

/// `s` without leading and trailing white space, as `str::trim` gives it.
pub open spec fn trim_white_space(s: Seq<char>) -> Seq<char> {
    trim_end_white_space(trim_start_white_space(s))
}

/// A path with exactly the trailing slash that `CrossPathBuf::add_end_slash`
/// gives it: trailing slashes removed, then surrounding white space, then
/// one slash appended.
pub open spec fn spec_with_end_slash(path: Seq<char>) -> Seq<char> {
    trim_white_space(trim_end_slashes(path)).push('/')
}

fn is_white_space_char(c: char) -> (r: bool)
    ensures
        r == is_white_space(c),
{
    let u = c as u32;
    (0x9 <= u && u <= 0xD) || u == 0x20 || u == 0x85 || u == 0xA0 || u == 0x1680 || (0x2000
        <= u && u <= 0x200A) || u == 0x2028 || u == 0x2029 || u == 0x202F || u == 0x205F || u
        == 0x3000
}

/// The path with one trailing slash, as `CrossPathBuf::add_end_slash` makes
/// it: the form in which the base path of the external disk is stored.
pub fn add_end_slash(path: &str) -> (r: String)
    ensures
        r@ == spec_with_end_slash(path@),
{
    let len = path.unicode_len();
    let ghost s = path@;
    // trailing slashes
    let mut e: usize = len;
    assert(s.subrange(0, len as int) =~= s);
    while e > 0 && path.get_char(e - 1) == '/'
        invariant
            len == s.len(),
            s == path@,
            e <= len,
            trim_end_slashes(s) == trim_end_slashes(s.subrange(0, e as int)),
        decreases e,
    {
        assert(s.subrange(0, e as int).drop_last() =~= s.subrange(0, e - 1));
        e = e - 1;
    }
    assert(trim_end_slashes(s.subrange(0, e as int)) == s.subrange(0, e as int));
    let ghost t = s.subrange(0, e as int);
    // leading white space
    let mut a: usize = 0;
    while a < e && is_white_space_char(path.get_char(a))
        invariant
            len == s.len(),
            s == path@,
            e <= len,
            a <= e,
            t == s.subrange(0, e as int),
            trim_start_white_space(t) == trim_start_white_space(s.subrange(a as int, e as int)),
        decreases e - a,
    {
        assert(s.subrange(a as int, e as int).drop_first() =~= s.subrange(a + 1, e as int));
        a = a + 1;
    }
    assert(trim_start_white_space(s.subrange(a as int, e as int)) == s.subrange(
        a as int,
        e as int,
    ));
    let ghost u = s.subrange(a as int, e as int);
    // trailing white space
    let mut b: usize = e;
    while b > a && is_white_space_char(path.get_char(b - 1))
        invariant
            len == s.len(),
            s == path@,
            a <= b <= e,
            e <= len,
            u == s.subrange(a as int, e as int),
            trim_end_white_space(u) == trim_end_white_space(s.subrange(a as int, b as int)),
        decreases b,
    {
        assert(s.subrange(a as int, b as int).drop_last() =~= s.subrange(a as int, b - 1));
        b = b - 1;
    }
    assert(trim_end_white_space(s.subrange(a as int, b as int)) == s.subrange(
        a as int,
        b as int,
    ));
    let core = path.substring_char(a, b);
    let mut r = String::from_str(core);
    r.append("/");
    proof {
        reveal_strlit("/");
    }
    assert(r@ =~= s.subrange(a as int, b as int).push('/'));
    r
}

proof fn lemma_trim_start_result(s: Seq<char>)
    ensures
        trim_start_white_space(s).len() == 0 || !is_white_space(trim_start_white_space(s).first()),
    decreases s.len(),
{
    if s.len() > 0 && is_white_space(s.first()) {
        lemma_trim_start_result(s.drop_first());
    }
}

proof fn lemma_trim_end_result(s: Seq<char>)
    ensures
        trim_end_white_space(s).len() <= s.len(),
        trim_end_white_space(s) == s.subrange(0, trim_end_white_space(s).len() as int),
        trim_end_white_space(s).len() == 0 || !is_white_space(trim_end_white_space(s).last()),
    decreases s.len(),
{
    if s.len() > 0 && is_white_space(s.last()) {
        lemma_trim_end_result(s.drop_last());
        let t = trim_end_white_space(s.drop_last());
        assert(s.drop_last().subrange(0, t.len() as int) =~= s.subrange(0, t.len() as int));
    } else {
        assert(s.subrange(0, s.len() as int) =~= s);
    }
}

/// White space trimmed once is trimmed for good.
proof fn lemma_trim_idempotent(s: Seq<char>)
    ensures
        trim_white_space(trim_white_space(s)) == trim_white_space(s),
{
    let a = trim_start_white_space(s);
    let t = trim_end_white_space(a);
    lemma_trim_start_result(s);
    lemma_trim_end_result(a);
    if t.len() > 0 {
        assert(t.first() == a.first());
        assert(trim_start_white_space(t) == t);
        assert(trim_end_white_space(t) == t);
    } else {
        assert(trim_start_white_space(t) == t);
        assert(trim_end_white_space(t) == t);
    }
}

/// The stored form of a path always ends with one slash, and bringing it
/// into the stored form again leaves it as it is, unless it ends with two
/// slashes (which happens only where white space stood between trailing
/// slashes of the original path).
pub proof fn lemma_end_slash(path: Seq<char>)
    ensures
        spec_with_end_slash(path).len() > 0,
        spec_with_end_slash(path).last() == '/',
        spec_with_end_slash(path).len() < 2 || spec_with_end_slash(path)[spec_with_end_slash(
            path,
        ).len() - 2] != '/' ==> spec_with_end_slash(spec_with_end_slash(path)) == spec_with_end_slash(
            path,
        ),
{
    let t = trim_white_space(trim_end_slashes(path));
    let r = t.push('/');
    assert(r.drop_last() =~= t);
    if r.len() < 2 || r[r.len() - 2] != '/' {
        assert(trim_end_slashes(r) == trim_end_slashes(t));
        if t.len() > 0 {
            assert(t.last() == r[r.len() - 2]);
        }
        assert(trim_end_slashes(t) == t);
        lemma_trim_idempotent(trim_end_slashes(path));
    }
}

/// The base path read back from where it was stored, once brought into the
/// neutral form: it must not be empty.
pub fn require_non_empty_base_path(normalized: String) -> (r: Result<String, CliError>)
    ensures
        normalized@.len() == 0 ==> r matches Err(CliError::EmptyBasePath),
        normalized@.len() != 0 ==> (r matches Ok(p) && p@ == normalized@),
{
    if normalized.as_str().unicode_len() == 0 {
        Err(CliError::EmptyBasePath)
    } else {
        Ok(normalized)
    }
}

/// The base path of the external disk from the text it was stored as:
/// brought into the neutral cross-platform form by `crossplatform_path`,
/// and refused where that form is empty.
pub fn get_ext_disk_base_path(stored: &str) -> (r: Result<String, CliError>)
    ensures
        match cross_path_normalized(stored@) {
            None => r matches Err(CliError::InvalidPath(_)),
            Some(n) => if n.len() == 0 {
                r matches Err(CliError::EmptyBasePath)
            } else {
                r matches Ok(p) && p@ == n
            },
        },
{
    match cross_path_new(stored) {
        Ok(n) => require_non_empty_base_path(n),
        Err(e) => Err(CliError::InvalidPath(e)),
    }
}

/// Whether `to_path_buf_win` may fail on the neutral path `n`.
pub fn windows_form_may_fail(n: &str) -> (r: bool)
    ensures
        r == win_may_panic(n@),
{
    proof {
        reveal_strlit("/tmp");
        reveal_strlit("/mnt/");
        reveal_strlit("~");
        reveal_strlit("/");
    }
    let len = n.unicode_len();
    if len > 0 && n.get_char(0) == '~' {
        true
    } else if len > 0 && n.get_char(0) == '/' && !starts_with(n, "/tmp") {
        if starts_with(n, "/mnt/") {
            if len < 7 {
                true
            } else {
                let c5 = n.get_char(5);
                n.get_char(6) == '/' && ((c5 as u32) >= 0x80 || c5 == '/')
            }
        } else {
            if len < 3 {
                true
            } else {
                let c1 = n.get_char(1);
                n.get_char(2) == '/' && ((c1 as u32) >= 0x80 || c1 == '/')
            }
        }
    } else {
        false
    }
}

/// The base path of the external disk, read back from where it was
/// stored, in the form of the given platform (`CrossPathBuf::new` then
/// `to_path_buf_win` on Windows, `to_path_buf_nix` elsewhere): the form in
/// which the local files are listed and in which the user is asked to list
/// them again. On Windows a path for which that form may panic is refused.
pub fn base_path_for_platform(stored: &str, windows: bool) -> (r: Result<String, CliError>)
    ensures
        match cross_path_normalized(stored@) {
            None => r matches Err(CliError::InvalidPath(_)),
            Some(n) => if windows {
                ||| (r matches Ok(p) && win_form(n, p@))
                ||| (r matches Err(CliError::NoWindowsForm) && win_may_panic(n))
            } else {
                r matches Ok(p) && nix_form(n, p@)
            },
        },
        (cross_path_normalized(stored@) matches Some(n) && !win_may_panic(n)) ==> r is Ok,
{
    if windows {
        match cross_path_new(stored) {
            Err(e) => Err(CliError::InvalidPath(e)),
            Ok(n) => {
                if windows_form_may_fail(n.as_str()) {
                    Err(CliError::NoWindowsForm)
                } else {
                    match cross_path_win_form(stored) {
                        Ok(p) => Ok(p),
                        Err(e) => Err(CliError::InvalidPath(e)),
                    }
                }
            },
        }
    } else {
        match cross_path_nix_form(stored) {
            Ok(p) => Ok(p),
            Err(e) => Err(CliError::InvalidPath(e)),
        }
    }
}

/// The base path of the external disk, read back from where it was
/// stored, in the form of the platform the tool was built for: Windows
/// where the platform's path separator is `\\`. Which platform that is
/// rests on the build, so only what holds on either is stated here;
/// `base_path_for_platform` states each.
pub fn base_path_for_listing(stored: &str) -> (r: Result<String, CliError>)
    ensures
        match cross_path_normalized(stored@) {
            None => r matches Err(CliError::InvalidPath(_)),
            Some(n) => {
                ||| (r matches Ok(p) && current_os_form(n, p@))
                ||| (r matches Err(CliError::NoWindowsForm) && win_may_panic(n))
            },
        },
        (cross_path_normalized(stored@) matches Some(n) && !win_may_panic(n)) ==> r is Ok,
{
    base_path_for_platform(stored, main_path_separator() == '\\')
}

/// The two paths of a single file download: the base path of the external
/// disk read back from where it was stored (checked first), then the path
/// of the file, both in the neutral cross-platform form.
pub fn paths_for_one_file_download(stored: &str, path: &str) -> (r: Result<
    (String, String),
    CliError,
>)
    ensures
        match cross_path_normalized(stored@) {
            None => r matches Err(CliError::InvalidPath(_)),
            Some(b) => if b.len() == 0 {
                r matches Err(CliError::EmptyBasePath)
            } else {
                match cross_path_normalized(path@) {
                    None => r matches Err(CliError::InvalidPath(_)),
                    Some(f) => r matches Ok((rb, rf)) && rb@ == b && rf@ == f,
                }
            },
        },
{
    match get_ext_disk_base_path(stored) {
        Err(e) => Err(e),
        Ok(base) => match cross_path_new(path) {
            Ok(file) => Ok((base, file)),
            Err(e) => Err(CliError::InvalidPath(e)),
        },
    }
}

} // verus!
