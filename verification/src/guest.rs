//! The reference guest validators, as pure functions on byte slices.
//!
//! In a deployed guest these run inside the Wasm sandbox over raw
//! linear-memory input; here the same decisions are written over `&[u8]`
//! and proved against exact byte-level specifications. Where the original
//! guests decode UTF-8 and then test an ASCII-only character set, the two
//! tests together are equivalent to a single byte-set test, and the
//! specification says so directly.

use vstd::prelude::*;
use crate::text::{
    is_prefix_of, contains_seq, contains_byte, starts_with, contains, last_index_of, suffix_eq,
};
use crate::utf8::is_utf8;
use vstd::string::StringSliceAdditionalSpecFns;

verus! {

/// The URL begins with `http://` or `https://`.
pub open spec fn http_url_ok(s: Seq<u8>) -> bool {
    is_prefix_of("http://".spec_bytes(), s) || is_prefix_of("https://".spec_bytes(), s)
}

fn has_http_prefix(s: &[u8]) -> (r: bool)
    ensures
        r == http_url_ok(s@),
{
    starts_with(s, "http://".as_bytes()) || starts_with(s, "https://".as_bytes())
}

/// `validate_url` accepts: non-empty well-formed UTF-8 with an HTTP scheme.
pub open spec fn spec_validate_url(s: Seq<u8>) -> bool {
    s.len() > 0 && is_utf8(s) && http_url_ok(s)
}

/// Returns 1 for a well-formed `http://` or `https://` URL, else 0.
pub fn validate_url(url: &[u8]) -> (r: i32)
    ensures
        r == 1 <==> spec_validate_url(url@),
        r == 1 || r == 0,
{
    if url.len() > 0 && crate::utf8::is_utf8_bytes(url) && has_http_prefix(url) {
        1
    } else {
        0
    }
}

/// `process_response` reports 0 for an empty body, 200 for well-formed
/// UTF-8 text, and 500 otherwise.
pub open spec fn spec_process_response(s: Seq<u8>) -> i32 {
    if s.len() == 0 {
        0
    } else if is_utf8(s) {
        200
    } else {
        500
    }
}

pub fn process_response(response: &[u8]) -> (r: i32)
    ensures
        r == spec_process_response(response@),
{
    if response.len() == 0 {
        0
    } else if crate::utf8::is_utf8_bytes(response) {
        200
    } else {
        500
    }
}

/// `prepare_http_get` accepts: a well-formed HTTP(S) URL of at most 2048
/// bytes.
pub open spec fn spec_prepare_http_get(s: Seq<u8>) -> bool {
    s.len() > 0 && s.len() <= 2048 && is_utf8(s) && http_url_ok(s)
}

pub fn prepare_http_get(url: &[u8]) -> (r: i32)
    ensures
        r == 1 <==> spec_prepare_http_get(url@),
        r == 1 || r == 0,
{
    if url.len() > 0 && url.len() <= 2048 && crate::utf8::is_utf8_bytes(url) && has_http_prefix(
        url,
    ) {
        1
    } else {
        0
    }
}

/// Index `i` holds the last `.` of `s`.
pub open spec fn is_last_dot(s: Seq<u8>, i: int) -> bool {
    0 <= i < s.len() && s[i] == 0x2e && forall|j: int| i < j < s.len() ==> s[j] != 0x2e
}

/// There is at most one last dot.
proof fn lemma_last_dot_unique(s: Seq<u8>, i: int, j: int)
    requires
        is_last_dot(s, i),
        is_last_dot(s, j),
    ensures
        i == j,
{
    if i < j {
        assert(s[j] != 0x2e);
    }
    if j < i {
        assert(s[i] != 0x2e);
    }
}

/// Extensions a guest admits for reading.
pub open spec fn read_ext_allowed(e: Seq<u8>) -> bool {
    ||| e == "txt".spec_bytes()
    ||| e == "md".spec_bytes()
    ||| e == "json".spec_bytes()
    ||| e == "yaml".spec_bytes()
    ||| e == "yml".spec_bytes()
    ||| e == "toml".spec_bytes()
    ||| e == "cfg".spec_bytes()
    ||| e == "log".spec_bytes()
}

/// Extensions a guest admits for writing: the read set plus `tmp`.
pub open spec fn write_ext_allowed(e: Seq<u8>) -> bool {
    read_ext_allowed(e) || e == "tmp".spec_bytes()
}

/// The extension after the last dot passes `allowed`; a path without a dot
/// always passes.
pub open spec fn ext_ok(s: Seq<u8>, for_write: bool) -> bool {
    if contains_byte(s, 0x2e) {
        exists|i: int| is_last_dot(s, i) && (if for_write {
            write_ext_allowed(s.subrange(i + 1, s.len() as int))
        } else {
            read_ext_allowed(s.subrange(i + 1, s.len() as int))
        })
    } else {
        true
    }
}

/// Decides `ext_ok` for a path.
fn check_ext(s: &[u8], for_write: bool) -> (r: bool)
    ensures
        r == ext_ok(s@, for_write),
{
    match last_index_of(s, 0x2e) {
        None => {
            true
        },
        Some(i) => {
            let n: usize = s.len();
            proof {
                assert(is_last_dot(s@, i as int));
                assert(i < n);
            }
            let allowed = check_read_ext_range(s, i + 1);
            let tmp_ok = for_write && suffix_eq(s, i + 1, "tmp".as_bytes());
            let r = allowed || tmp_ok;
            proof {
                if r {
                    assert(ext_ok(s@, for_write));
                } else {
                    assert forall|k: int| is_last_dot(s@, k) implies !(if for_write {
                        write_ext_allowed(s@.subrange(k + 1, s@.len() as int))
                    } else {
                        read_ext_allowed(s@.subrange(k + 1, s@.len() as int))
                    }) by {
                        lemma_last_dot_unique(s@, k, i as int);
                    }
                }
            }
            r
        },
    }
}

/// Compares the suffix at `start` against each readable extension.
fn check_read_ext_range(s: &[u8], start: usize) -> (r: bool)
    requires
        start <= s@.len(),
    ensures
        r == read_ext_allowed(s@.subrange(start as int, s@.len() as int)),
{
    suffix_eq(s, start, "txt".as_bytes()) || suffix_eq(s, start, "md".as_bytes()) || suffix_eq(
        s,
        start,
        "json".as_bytes(),
    ) || suffix_eq(s, start, "yaml".as_bytes()) || suffix_eq(s, start, "yml".as_bytes())
        || suffix_eq(s, start, "toml".as_bytes()) || suffix_eq(s, start, "cfg".as_bytes())
        || suffix_eq(s, start, "log".as_bytes())
}

/// Paths no guest will admit for reading: traversal or system prefixes.
pub open spec fn read_path_denied(s: Seq<u8>) -> bool {
    ||| contains_seq(s, "..".spec_bytes())
    ||| is_prefix_of("/etc/".spec_bytes(), s)
    ||| is_prefix_of("/sys/".spec_bytes(), s)
    ||| is_prefix_of("/proc/".spec_bytes(), s)
}

/// `prepare_file_read` accepts: non-empty UTF-8 of at most 1024 bytes, no
/// denied pattern, and a readable extension (or none).
pub open spec fn spec_prepare_file_read(s: Seq<u8>) -> bool {
    &&& s.len() > 0
    &&& s.len() <= 1024
    &&& is_utf8(s)
    &&& !read_path_denied(s)
    &&& ext_ok(s, false)
}

pub fn prepare_file_read(path: &[u8]) -> (r: i32)
    ensures
        r == 1 <==> spec_prepare_file_read(path@),
        r == 1 || r == 0,
{
    if path.len() == 0 || path.len() > 1024 {
        return 0;
    }
    if !crate::utf8::is_utf8_bytes(path) {
        return 0;
    }
    if contains(path, "..".as_bytes()) || starts_with(path, "/etc/".as_bytes()) || starts_with(
        path,
        "/sys/".as_bytes(),
    ) || starts_with(path, "/proc/".as_bytes()) {
        return 0;
    }
    if check_ext(path, false) {
        1
    } else {
        0
    }
}

/// The additional prefixes denied for writing.
pub open spec fn write_path_denied(s: Seq<u8>) -> bool {
    ||| read_path_denied(s)
    ||| is_prefix_of("/usr/".spec_bytes(), s)
    ||| is_prefix_of("/bin/".spec_bytes(), s)
    ||| is_prefix_of("/sbin/".spec_bytes(), s)
    ||| is_prefix_of("/boot/".spec_bytes(), s)
    ||| is_prefix_of("/root/".spec_bytes(), s)
}

/// Writing is confined to explicitly safe locations: `/tmp/`, `/var/tmp/`,
/// `./`, or a relative path (one not starting with `/` or `../`).
pub open spec fn write_location_ok(s: Seq<u8>) -> bool {
    ||| is_prefix_of("/tmp/".spec_bytes(), s)
    ||| is_prefix_of("/var/tmp/".spec_bytes(), s)
    ||| is_prefix_of("./".spec_bytes(), s)
    ||| (!is_prefix_of("../".spec_bytes(), s) && !is_prefix_of("/".spec_bytes(), s))
}

/// `prepare_file_write` accepts: non-empty UTF-8 of at most 1024 bytes, no
/// denied pattern, a safe location, and a writable extension (or none).
pub open spec fn spec_prepare_file_write(s: Seq<u8>) -> bool {
    &&& s.len() > 0
    &&& s.len() <= 1024
    &&& is_utf8(s)
    &&& !write_path_denied(s)
    &&& write_location_ok(s)
    &&& ext_ok(s, true)
}

pub fn prepare_file_write(path: &[u8]) -> (r: i32)
    ensures
        r == 1 <==> spec_prepare_file_write(path@),
        r == 1 || r == 0,
{
    if path.len() == 0 || path.len() > 1024 {
        return 0;
    }
    if !crate::utf8::is_utf8_bytes(path) {
        return 0;
    }
    if contains(path, "..".as_bytes()) || starts_with(path, "/etc/".as_bytes()) || starts_with(
        path,
        "/sys/".as_bytes(),
    ) || starts_with(path, "/proc/".as_bytes()) || starts_with(path, "/usr/".as_bytes())
        || starts_with(path, "/bin/".as_bytes()) || starts_with(path, "/sbin/".as_bytes())
        || starts_with(path, "/boot/".as_bytes()) || starts_with(path, "/root/".as_bytes()) {
        return 0;
    }
    let loc_ok = starts_with(path, "/tmp/".as_bytes()) || starts_with(path, "/var/tmp/".as_bytes())
        || starts_with(path, "./".as_bytes()) || (!starts_with(path, "../".as_bytes())
        && !starts_with(path, "/".as_bytes()));
    if !loc_ok {
        return 0;
    }
    if check_ext(path, true) {
        1
    } else {
        0
    }
}

/// The bytes a shell command may contain: ASCII letters and digits, space,
/// dot, slash, dash, underscore. This single set test subsumes the guest's
/// UTF-8 check and its deny-list of shell metacharacters, since every
/// metacharacter and every non-ASCII byte falls outside the set.
pub open spec fn shell_byte_ok(b: u8) -> bool {
    ||| 0x30 <= b <= 0x39
    ||| 0x41 <= b <= 0x5a
    ||| 0x61 <= b <= 0x7a
    ||| b == 0x20
    ||| b == 0x2e
    ||| b == 0x2f
    ||| b == 0x2d
    ||| b == 0x5f
}

/// `prepare_shell_exec` accepts: 1 to 200 bytes, all from the safe set.
pub open spec fn spec_prepare_shell_exec(s: Seq<u8>) -> bool {
    0 < s.len() <= 200 && forall|i: int| 0 <= i < s.len() ==> shell_byte_ok(s[i])
}

pub fn prepare_shell_exec(cmd: &[u8]) -> (r: i32)
    ensures
        r == 1 <==> spec_prepare_shell_exec(cmd@),
        r == 1 || r == 0,
{
    if cmd.len() == 0 || cmd.len() > 200 {
        return 0;
    }
    let mut i: usize = 0;
    while i < cmd.len()
        invariant
            0 <= i <= cmd@.len(),
            forall|j: int| 0 <= j < i ==> shell_byte_ok(cmd@[j]),
        decreases cmd@.len() - i,
    {
        let b = cmd[i];
        let ok = (0x30 <= b && b <= 0x39) || (0x41 <= b && b <= 0x5a) || (0x61 <= b && b <= 0x7a)
            || b == 0x20 || b == 0x2e || b == 0x2f || b == 0x2d || b == 0x5f;
        if !ok {
            return 0;
        }
        i = i + 1;
    }
    1
}

/// The bytes a task description may contain: ASCII letters and digits,
/// ASCII whitespace, and common punctuation. As with commands, this byte
/// set test subsumes the guest's UTF-8 and character set tests.
pub open spec fn task_byte_ok(b: u8) -> bool {
    ||| 0x30 <= b <= 0x39
    ||| 0x41 <= b <= 0x5a
    ||| 0x61 <= b <= 0x7a
    ||| b == 0x20 || b == 0x09 || b == 0x0a || b == 0x0c || b == 0x0d
    ||| b == 0x2e || b == 0x2c || b == 0x3a || b == 0x3b || b == 0x21 || b == 0x3f
    ||| b == 0x2d || b == 0x5f || b == 0x2f || b == 0x28 || b == 0x29 || b == 0x22 || b == 0x27
}

/// `prepare_recommend_mcps` accepts: 1 to 500 bytes, all from the safe set.
pub open spec fn spec_prepare_recommend_mcps(s: Seq<u8>) -> bool {
    0 < s.len() <= 500 && forall|i: int| 0 <= i < s.len() ==> task_byte_ok(s[i])
}

pub fn prepare_recommend_mcps(task: &[u8]) -> (r: i32)
    ensures
        r == 1 <==> spec_prepare_recommend_mcps(task@),
        r == 1 || r == 0,
{
    if task.len() == 0 || task.len() > 500 {
        return 0;
    }
    let mut i: usize = 0;
    while i < task.len()
        invariant
            0 <= i <= task@.len(),
            forall|j: int| 0 <= j < i ==> task_byte_ok(task@[j]),
        decreases task@.len() - i,
    {
        let b = task[i];
        let ok = (0x30 <= b && b <= 0x39) || (0x41 <= b && b <= 0x5a) || (0x61 <= b && b <= 0x7a)
            || b == 0x20 || b == 0x09 || b == 0x0a || b == 0x0c || b == 0x0d || b == 0x2e || b
            == 0x2c || b == 0x3a || b == 0x3b || b == 0x21 || b == 0x3f || b == 0x2d || b == 0x5f
            || b == 0x2f || b == 0x28 || b == 0x29 || b == 0x22 || b == 0x27;
        if !ok {
            return 0;
        }
        i = i + 1;
    }
    1
}

/// Adds two 32-bit integers with wrap-around, as guest arithmetic does.
pub fn add(a: i32, b: i32) -> (r: i32)
    ensures
        r == a.wrapping_add(b),
{
    a.wrapping_add(b)
}

} // verus!
