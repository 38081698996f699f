//! Paths of interpreters inside virtual environments.

use vstd::prelude::*;

verus! {

/// `rel`, a relative path, appended to `base` with one separator between them.
pub open spec fn join_path(base: Seq<char>, rel: Seq<char>) -> Seq<char> {
    if base.len() == 0 || base.last() == '/' {
        base + rel
    } else {
        base + seq!['/'] + rel
    }
}

/// The interpreter's path inside an environment, relative to the
/// environment's root or, with the default directory `.venv` in front, to
/// the directory that holds it.
pub open spec fn relative_venv(add_default: bool) -> Seq<char> {
    if add_default {
        ".venv/bin/python"@
    } else {
        "bin/python"@
    }
}

/// The interpreter of the environment rooted at `root`.
pub open spec fn venv_executable_of(root: Seq<char>) -> Seq<char> {
    join_path(root, relative_venv(false))
}

/// Where the default environment under `dir` keeps its interpreter.
pub open spec fn venv_candidate(dir: Seq<char>) -> Seq<char> {
    join_path(dir, relative_venv(true))
}

/// The directory that holds `p`, as `Path::parent` gives it.
pub uninterp spec fn parent_of(p: Seq<char>) -> Option<Seq<char>>;

/// Relies on `Path::parent`: the path without its final component, `None`
/// at a root or for the empty path; what is left is a strict prefix.
#[verifier::external_body]
pub(crate) fn parent_dir(p: &str) -> (r: Option<String>)
    ensures
        r matches Some(q) ==> Some(q@) == parent_of(p@) && q@.len() < p@.len(),
        r is None ==> parent_of(p@) is None,
{
    std::path::Path::new(p).parent().map(|q| q.to_string_lossy().into_owned())
}

/// Appends the relative path `rel` to `base`, as `PathBuf::push` does.
pub fn join(base: &str, rel: &str) -> (r: String)
    ensures
        r@ == join_path(base@, rel@),
{
    let n = base.unicode_len();
    let mut out = String::from_str(base);
    if n > 0 && base.get_char(n - 1) != '/' {
        out.append("/");
        proof {
            reveal_strlit("/");
        }
    }
    out.append(rel);
    out
}

/// The interpreter's path relative to an environment's root, or with the
/// default directory in front of it.
pub fn relative_venv_path(add_default: bool) -> (r: String)
    ensures
        r@ == relative_venv(add_default),
{
    proof {
        reveal_strlit(".venv/bin/python");
        reveal_strlit("bin/python");
    }
    if add_default {
        String::from_str(".venv/bin/python")
    } else {
        String::from_str("bin/python")
    }
}

/// The interpreter of the environment rooted at `venv_root`; whether it
/// exists is not asked.
pub fn venv_executable_path(venv_root: &str) -> (r: String)
    ensures
        r@ == venv_executable_of(venv_root@),
{
    let rel = relative_venv_path(false);
    join(venv_root, rel.as_str())
}

/// Where to look for the default environment's interpreter under `dir`.
pub fn venv_candidate_path(dir: &str) -> (r: String)
    ensures
        r@ == venv_candidate(dir@),
{
    let rel = relative_venv_path(true);
    join(dir, rel.as_str())
}

} // verus!
