//! Reading a version request from the `#!` line of a script.

use vstd::prelude::*;
use vstd::utf8::{decode_utf8, valid_utf8};
use crate::version::{version_request, parse_version, RequestedVersion};

verus! {

/// The text of a line with the surrounding whitespace removed, as `str::trim`
/// gives it.
pub uninterp spec fn trimmed(s: Seq<char>) -> Seq<char>;

/// Relies on `String::from_utf8`: it accepts exactly the valid UTF-8 byte
/// sequences and decodes them.
#[verifier::external_body]
fn utf8_text(bytes: Vec<u8>) -> (r: Option<String>)
    ensures
        r is Some <==> valid_utf8(bytes@),
        r matches Some(s) ==> s@ == decode_utf8(bytes@),
{
    String::from_utf8(bytes).ok()
}

/// Relies on `str::trim`: strips leading and trailing whitespace; the result
/// depends on the characters alone.
#[verifier::external_body]
fn trim_text(s: &str) -> (r: String)
    ensures
        r@ == trimmed(s@),
{
    s.trim().to_string()
}

pub open spec fn has_prefix(s: Seq<char>, p: Seq<char>) -> bool {
    p.len() <= s.len() && s.take(p.len() as int) == p
}

/// The version written after an interpreter path: nothing means any version.
pub open spec fn suffix_request(rest: Seq<char>) -> Option<RequestedVersion> {
    if rest.len() == 0 {
        Some(RequestedVersion::Any)
    } else {
        version_request(rest)
    }
}

/// The request of a trimmed `#!` line: the first accepted interpreter path
/// that starts the line decides, and what follows it must be a version.
pub open spec fn shebang_line_request(line: Seq<char>) -> Option<RequestedVersion> {
    if has_prefix(line, "python"@) {
        suffix_request(line.skip(6))
    } else if has_prefix(line, "/usr/bin/python"@) {
        suffix_request(line.skip(15))
    } else if has_prefix(line, "/usr/local/bin/python"@) {
        suffix_request(line.skip(21))
    } else if has_prefix(line, "/usr/bin/env python"@) {
        suffix_request(line.skip(19))
    } else {
        None
    }
}

/// `k` is the first newline after the two-byte marker.
pub open spec fn is_line_end(b: Seq<u8>, k: int) -> bool {
    2 <= k < b.len() && b[k] == 10u8 && forall|j: int| 2 <= j < k ==> b[j] != 10u8
}

/// The bytes of the first line after the marker, its newline included.
pub open spec fn first_line_bytes(b: Seq<u8>) -> Seq<u8> {
    if exists|k: int| is_line_end(b, k) {
        let k = choose|k: int| is_line_end(b, k);
        b.subrange(2, k + 1)
    } else {
        b.skip(2)
    }
}

/// The request that a file starting with `b` makes through its `#!` line.
pub open spec fn shebang_request(b: Seq<u8>) -> Option<RequestedVersion> {
    if b.len() >= 2 && b[0] == 0x23u8 && b[1] == 0x21u8 && valid_utf8(first_line_bytes(b)) {
        shebang_line_request(trimmed(decode_utf8(first_line_bytes(b))))
    } else {
        None
    }
}

fn starts_with(s: &str, p: &str) -> (r: bool)
    ensures
        r == has_prefix(s@, p@),
{
    let n = s.unicode_len();
    let m = p.unicode_len();
    if m > n {
        return false;
    }
    let mut i: usize = 0;
    while i < m
        invariant
            m <= n == s@.len(),
            m == p@.len(),
            i <= m,
            forall|j: int| 0 <= j < i ==> s@[j] == p@[j],
        decreases m - i,
    {
        if s.get_char(i) != p.get_char(i) {
            assert(s@.take(m as int)[i as int] != p@[i as int]);
            return false;
        }
        i = i + 1;
    }
    assert(s@.take(m as int) =~= p@);
    true
}

/// Where `line` starts with `path`, the request written after it.
fn after_path(line: &str, path: &str) -> (r: Option<Option<RequestedVersion>>)
    ensures
        r is Some <==> has_prefix(line@, path@),
        r matches Some(v) ==> v == suffix_request(line@.skip(path@.len() as int)),
{
    if !starts_with(line, path) {
        return None;
    }
    let n = line.unicode_len();
    let m = path.unicode_len();
    let rest = line.substring_char(m, n);
    assert(rest@ =~= line@.skip(m as int));
    if n == m {
        Some(Some(RequestedVersion::Any))
    } else {
        Some(parse_version(rest))
    }
}

/// The version request of a `#!` line whose surrounding whitespace is gone.
pub fn version_from_shebang_line(line: &str) -> (r: Option<RequestedVersion>)
    ensures
        r == shebang_line_request(line@),
{
    proof {
        reveal_strlit("python");
        reveal_strlit("/usr/bin/python");
        reveal_strlit("/usr/local/bin/python");
        reveal_strlit("/usr/bin/env python");
    }
    if let Some(v) = after_path(line, "python") {
        v
    } else if let Some(v) = after_path(line, "/usr/bin/python") {
        v
    } else if let Some(v) = after_path(line, "/usr/local/bin/python") {
        v
    } else if let Some(v) = after_path(line, "/usr/bin/env python") {
        v
    } else {
        None
    }
}

/// The version request that a file starting with `contents` makes through a
/// Python `#!` line; `None` where there is none or it cannot be read as text.
pub fn parse_python_shebang(contents: &[u8]) -> (r: Option<RequestedVersion>)
    ensures
        r == shebang_request(contents@),
{
    let n = contents.len();
    if n < 2 || contents[0] != 0x23u8 || contents[1] != 0x21u8 {
        return None;
    }
    let mut line: Vec<u8> = Vec::new();
    let mut k: usize = 2;
    let mut done = false;
    while k < n && !done
        invariant
            2 <= k <= n == contents@.len(),
            line@ == contents@.subrange(2, k as int),
            forall|j: int| 2 <= j < k ==> (contents@[j] != 10u8 || (done && j == k - 1)),
            done ==> k >= 3 && contents@[k - 1] == 10u8,
        decreases n - k,
    {
        line.push(contents[k]);
        if contents[k] == 10u8 {
            done = true;
        }
        k = k + 1;
        assert(line@ =~= contents@.subrange(2, k as int));
    }
    proof {
        if done {
            assert(is_line_end(contents@, k - 1));
            assert forall|j: int| is_line_end(contents@, j) implies j == k - 1 by {
                if j < k - 1 {
                    assert(contents@[j] != 10u8);
                } else if j > k - 1 {
                    assert(contents@[k - 1] != 10u8);
                }
            }
        } else {
            assert forall|j: int| !is_line_end(contents@, j) by {
                if 2 <= j < contents@.len() {
                    assert(contents@[j] != 10u8);
                }
            }
            assert(line@ =~= contents@.skip(2));
        }
    }
    match utf8_text(line) {
        Some(text) => {
            let t = trim_text(text.as_str());
            version_from_shebang_line(t.as_str())
        },
        None => None,
    }
}

} // verus!
