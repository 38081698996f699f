//! Choosing an installed interpreter for a request.

use vstd::prelude::*;
use crate::listing::{entries_model, version_le, Entry};
use crate::version::{ExactVersion, RequestedVersion};

verus! {

/// The version `v` meets the request `req`.
pub open spec fn satisfies(req: RequestedVersion, v: ExactVersion) -> bool {
    match req {
        RequestedVersion::Any => true,
        RequestedVersion::MajorOnly(m) => v.major == m,
        RequestedVersion::Exact(m, n) => v.major == m && v.minor == n,
    }
}

/// Entry `i` meets the request and no entry that meets it has a higher
/// version.
pub open spec fn is_best(req: RequestedVersion, s: Seq<Entry>, i: int) -> bool {
    0 <= i < s.len() && satisfies(req, s[i].0) && forall|j: int|
        0 <= j < s.len() && satisfies(req, #[trigger] s[j].0) ==> version_le(s[j].0, s[i].0)
}

/// The path of the highest installed version that meets `req`; `None` where
/// none does.
pub fn best_executable(req: RequestedVersion, executables: &Vec<(ExactVersion, String)>) -> (r:
    Option<String>)
    ensures
        r is None <==> forall|j: int|
            0 <= j < executables@.len() ==> !satisfies(req, #[trigger] executables@[j].0),
        r matches Some(p) ==> exists|i: int|
            is_best(req, entries_model(executables@), i) && #[trigger] executables@[i].1@ == p@,
{
    let ghost s = entries_model(executables@);
    let mut best: Option<usize> = None;
    let mut i: usize = 0;
    while i < executables.len()
        invariant
            i <= executables@.len(),
            s == entries_model(executables@),
            best is None ==> forall|j: int| 0 <= j < i ==> !satisfies(req, #[trigger] s[j].0),
            best matches Some(b) ==> b < i && satisfies(req, s[b as int].0) && forall|j: int|
                0 <= j < i && satisfies(req, #[trigger] s[j].0) ==> version_le(s[j].0, s[b as int].0),
        decreases executables@.len() - i,
    {
        let v = executables[i].0;
        assert(s[i as int].0 == v);
        let meets = match req {
            RequestedVersion::Any => true,
            RequestedVersion::MajorOnly(m) => v.major == m,
            RequestedVersion::Exact(m, n) => v.major == m && v.minor == n,
        };
        if meets {
            match best {
                None => {
                    best = Some(i);
                },
                Some(b) => {
                    let c = executables[b].0;
                    assert(s[b as int].0 == c);
                    if c.major < v.major || (c.major == v.major && c.minor < v.minor) {
                        best = Some(i);
                    }
                },
            }
        }
        i = i + 1;
    }
    match best {
        None => {
            assert forall|j: int| 0 <= j < executables@.len() implies !satisfies(
                req,
                #[trigger] executables@[j].0,
            ) by {
                assert(s[j].0 == executables@[j].0);
            }
            None
        },
        Some(b) => {
            assert(satisfies(req, executables@[b as int].0));
            assert(is_best(req, s, b as int));
            Some(executables[b].1.clone())
        },
    }
}

} // verus!
