//! Version requests and the `MAJOR[.MINOR]` grammar that produces them.

use vstd::prelude::*;

verus! {

/// The interpreter version a caller asks for.
#[derive(Clone, Copy, Debug, PartialEq, Eq, Hash, Structural)]
pub enum RequestedVersion {
    /// No constraint at all.
    Any,
    /// Any interpreter with this major version.
    MajorOnly(u16),
    /// Exactly this major and minor version.
    Exact(u16, u16),
}

/// The version of one interpreter that was found on the machine.
#[derive(Clone, Copy, Debug, PartialEq, Eq, Hash, PartialOrd, Ord, Structural)]
pub struct ExactVersion {
    pub major: u16,
    pub minor: u16,
}

pub open spec fn is_digit(c: char) -> bool {
    '0' <= c && c <= '9'
}

pub open spec fn all_digits(s: Seq<char>) -> bool {
    forall|i: int| 0 <= i < s.len() ==> is_digit(#[trigger] s[i])
}

/// The number written by a sequence of decimal digits.
pub open spec fn digits_value(s: Seq<char>) -> nat
    decreases s.len(),
{
    if s.len() == 0 {
        0
    } else {
        digits_value(s.drop_last()) * 10 + (s.last() as u32 - '0' as u32) as nat
    }
}

/// One version component: a non-empty run of decimal digits whose value fits
/// in a `u16`.
pub open spec fn component(s: Seq<char>) -> Option<u16> {
    if s.len() > 0 && all_digits(s) && digits_value(s) <= u16::MAX {
        Some(digits_value(s) as u16)
    } else {
        None
    }
}

/// `s` splits at the dot at `k` into two valid components.
pub open spec fn is_exact_split(s: Seq<char>, k: int) -> bool {
    0 <= k < s.len() && s[k] == '.' && component(s.take(k)) is Some && component(
        s.skip(k + 1),
    ) is Some
}

/// The grammar `MAJOR` or `MAJOR.MINOR`; anything else, the empty text and a
/// third component included, is no version.
pub open spec fn version_request(s: Seq<char>) -> Option<RequestedVersion> {
    if component(s) is Some {
        Some(RequestedVersion::MajorOnly(component(s)->0))
    } else if exists|k: int| is_exact_split(s, k) {
        let k = choose|k: int| is_exact_split(s, k);
        Some(RequestedVersion::Exact(component(s.take(k))->0, component(s.skip(k + 1))->0))
    } else {
        None
    }
}

pub open spec fn digit_char(d: nat) -> char {
    "0123456789"@[d as int]
}

/// The decimal text of a number, without leading zeros.
pub open spec fn decimal(n: nat) -> Seq<char>
    decreases n,
{
    if n < 10 {
        seq![digit_char(n)]
    } else {
        decimal(n / 10).push(digit_char(n % 10))
    }
}

/// The text `MAJOR.MINOR` of an exact version.
pub open spec fn version_text(v: ExactVersion) -> Seq<char> {
    decimal(v.major as nat) + seq!['.'] + decimal(v.minor as nat)
}

/// The environment variable that may override a request of this shape.
pub open spec fn override_var(v: RequestedVersion) -> Option<Seq<char>> {
    match v {
        RequestedVersion::Any => Some("PY_PYTHON"@),
        RequestedVersion::MajorOnly(m) => Some("PY_PYTHON"@ + decimal(m as nat)),
        RequestedVersion::Exact(_, _) => None,
    }
}

/// Parses the component written by the characters `lo..hi` of `s`.
fn parse_component(s: &str, lo: usize, hi: usize) -> (r: Option<u16>)
    requires
        lo <= hi <= s@.len(),
    ensures
        r == component(s@.subrange(lo as int, hi as int)),
{
    let mut value: u16 = 0;
    let mut big = false;
    let mut i = lo;
    while i < hi
        invariant
            lo <= i <= hi <= s@.len(),
            all_digits(s@.subrange(lo as int, i as int)),
            big ==> digits_value(s@.subrange(lo as int, i as int)) > u16::MAX,
            !big ==> value as nat == digits_value(s@.subrange(lo as int, i as int)),
        decreases hi - i,
    {
        let c = s.get_char(i);
        if !('0' <= c && c <= '9') {
            assert(s@.subrange(lo as int, hi as int)[i - lo] == c);
            return None;
        }
        let ghost prev = s@.subrange(lo as int, i as int);
        let ghost next = s@.subrange(lo as int, i + 1);
        assert(next.drop_last() =~= prev);
        assert(next.last() == c);
        let d = (c as u32 - '0' as u32) as u16;
        if !big {
            if value > 6553 || (value == 6553 && d > 5) {
                big = true;
            } else {
                value = value * 10 + d;
            }
        }
        assert(all_digits(next)) by {
            assert forall|j: int| 0 <= j < next.len() implies is_digit(#[trigger] next[j]) by {
                if j < prev.len() {
                    assert(next[j] == prev[j]);
                }
            }
        }
        i = i + 1;
    }
    if big || i == lo {
        None
    } else {
        Some(value)
    }
}

/// Parses `MAJOR` or `MAJOR.MINOR`.
pub fn parse_version(s: &str) -> (r: Option<RequestedVersion>)
    ensures
        r == version_request(s@),
{
    let n = s.unicode_len();
    assert(s@.subrange(0, n as int) =~= s@);
    let mut k: usize = 0;
    while k < n && s.get_char(k) != '.'
        invariant
            k <= n == s@.len(),
            forall|j: int| 0 <= j < k ==> s@[j] != '.',
        decreases n - k,
    {
        k = k + 1;
    }
    let whole = parse_component(s, 0, n);
    if let Some(m) = whole {
        return Some(RequestedVersion::MajorOnly(m));
    }
    if k == n {
        assert forall|j: int| !is_exact_split(s@, j) by {
            if 0 <= j < s@.len() {
                assert(s@[j] != '.');
            }
        }
        return None;
    }
    let major = parse_component(s, 0, k);
    let minor = parse_component(s, k + 1, n);
    assert(s@.take(k as int) =~= s@.subrange(0, k as int));
    assert(s@.skip(k + 1) =~= s@.subrange(k + 1, n as int));
    assert forall|j: int| is_exact_split(s@, j) implies j == k by {
        if j > k {
            assert(s@.take(j)[k as int] == '.');
            assert(!is_digit(s@.take(j)[k as int]));
        }
    }
    match (major, minor) {
        (Some(a), Some(b)) => {
            assert(is_exact_split(s@, k as int));
            Some(RequestedVersion::Exact(a, b))
        },
        _ => {
            assert(!is_exact_split(s@, k as int));
            None
        },
    }
}

/// Appends the decimal text of `n` to `out`.
fn push_decimal(out: &mut String, n: u16)
    ensures
        final(out)@ == old(out)@ + decimal(n as nat),
    decreases n,
{
    if n >= 10 {
        push_decimal(out, n / 10);
    }
    let d = (n % 10) as usize;
    let digits = "0123456789";
    proof {
        reveal_strlit("0123456789");
    }
    let piece = digits.substring_char(d, d + 1);
    assert(piece@ =~= seq![digit_char(d as nat)]);
    out.append(piece);
    assert(final(out)@ =~= old(out)@ + decimal(n as nat));
}

impl ExactVersion {
    /// The text `MAJOR.MINOR` of this version.
    pub fn to_text(&self) -> (r: String)
        ensures
            r@ == version_text(*self),
    {
        let mut out = String::new();
        push_decimal(&mut out, self.major);
        out.append(".");
        push_decimal(&mut out, self.minor);
        proof {
            reveal_strlit(".");
        }
        assert(out@ =~= version_text(*self));
        out
    }
}

impl RequestedVersion {
    /// The name of the environment variable that may override this request,
    /// if a request of this shape has one.
    pub fn env_var(&self) -> (r: Option<String>)
        ensures
            r matches Some(name) ==> override_var(*self) == Some(name@),
            r is None ==> override_var(*self) is None,
    {
        match self {
            RequestedVersion::Any => Some(String::from_str("PY_PYTHON")),
            RequestedVersion::MajorOnly(m) => {
                let mut name = String::from_str("PY_PYTHON");
                push_decimal(&mut name, *m);
                Some(name)
            },
            RequestedVersion::Exact(_, _) => None,
        }
    }
}

} // verus!
