//! The resolution error taxonomy.
use vstd::prelude::*;
use crate::json::Json;

verus! {

/// A terminal failure of one resolution call.
///
/// `ParseUrlError` and `InvalidUrl` reject the caller's input;
/// `NetworkError` carries the URL whose fetch failed; `InvalidResponse`
/// carries the payload whose shape was not recognized; `PermissionDenied`
/// carries the payload with which the platform refused a tier-gated item;
/// `AggregateFailure` wraps several member failures of one collection call.
#[derive(Debug)]
pub enum Error {
    ParseUrlError { url: String },
    InvalidUrl { url: String },
    InvalidResponse { resp: Json },
    NetworkError { url: String },
    PermissionDenied { resp: Json },
    AggregateFailure { errors: Vec<Error> },
}

pub enum ErrorV {
    ParseUrl { url: Seq<char> },
    InvalidUrl { url: Seq<char> },
    InvalidResponse { resp: Json },
    Network { url: Seq<char> },
    PermissionDenied { resp: Json },
    Aggregate { errors: Seq<ErrorV> },
}

pub open spec fn err_view(e: Error) -> ErrorV
    decreases e,
{
    match e {
        Error::ParseUrlError { url } => ErrorV::ParseUrl { url: url@ },
        Error::InvalidUrl { url } => ErrorV::InvalidUrl { url: url@ },
        Error::InvalidResponse { resp } => ErrorV::InvalidResponse { resp },
        Error::NetworkError { url } => ErrorV::Network { url: url@ },
        Error::PermissionDenied { resp } => ErrorV::PermissionDenied { resp },
        Error::AggregateFailure { errors } => ErrorV::Aggregate { errors: errs_view(errors@) },
    }
}

pub open spec fn errs_view(s: Seq<Error>) -> Seq<ErrorV>
    decreases s,
{
    if s.len() == 0 {
        Seq::empty()
    } else {
        seq![err_view(s[0])] + errs_view(s.drop_first())
    }
}

pub proof fn lemma_errs_view_index(s: Seq<Error>)
    ensures
        errs_view(s).len() == s.len(),
        forall|j: int| 0 <= j < s.len() ==> errs_view(s)[j] == (#[trigger] s[j])@,
    decreases s.len(),
{
    if s.len() > 0 {
        lemma_errs_view_index(s.drop_first());
        assert forall|j: int| 0 <= j < s.len() implies errs_view(s)[j] == (#[trigger] s[j])@ by {
            if j > 0 {
                assert(s.drop_first()[j - 1] == s[j]);
            }
        }
    }
}

impl View for Error {
    type V = ErrorV;

    open spec fn view(&self) -> ErrorV {
        err_view(*self)
    }
}

impl Error {
    /// Whether a collection resolver may skip a member that failed with
    /// this error: only the platform's explicit permission refusals are
    /// ignorable there.
    pub fn is_permission_denied(&self) -> (r: bool)
        ensures
            r == (self@ matches ErrorV::PermissionDenied { .. }),
    {
        match self {
            Error::PermissionDenied { .. } => true,
            _ => false,
        }
    }
}

} // verus!
