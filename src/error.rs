//! The ways a resolution can fail.

use vstd::prelude::*;
use crate::version::RequestedVersion;

verus! {

/// Why no action could be decided.
#[derive(Debug, PartialEq, Eq)]
pub enum Error {
    /// A reserved flag (second field) was followed by more arguments; the
    /// first field is the launcher's own path.
    IllegalArgument(String, String),
    /// No interpreter satisfies the request.
    NoExecutableFound(RequestedVersion),
    /// An explicit version text does not follow the `MAJOR[.MINOR]` grammar.
    BadVersionFormat(String),
}

/// An [`Error`] with its texts as character sequences.
pub enum ErrorModel {
    IllegalArgument(Seq<char>, Seq<char>),
    NoExecutableFound(RequestedVersion),
    BadVersionFormat(Seq<char>),
}

impl View for Error {
    type V = ErrorModel;

    open spec fn view(&self) -> ErrorModel {
        match self {
            Error::IllegalArgument(l, f) => ErrorModel::IllegalArgument(l@, f@),
            Error::NoExecutableFound(v) => ErrorModel::NoExecutableFound(*v),
            Error::BadVersionFormat(s) => ErrorModel::BadVersionFormat(s@),
        }
    }
}

} // verus!
