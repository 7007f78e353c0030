//! The error mapper: a pure function from anything that can go wrong
//! while handling a request to the HTTP response it answers with.

use vstd::prelude::*;
use crate::extract::{ExtractionError, ErrModel};
use crate::handlers::{Response, RespModel, DomainError, DomainModel};

verus! {

/// Everything that can fail while one request is handled.
pub enum DispatchError {
    /// No registered pattern matches the path.
    RouteNotFound,
    /// A pattern matches the path, but not with this method.
    MethodNotAllowed,
    /// An extractor refused the request's data.
    Extraction(ExtractionError),
    /// The handler returned a domain error.
    Domain(DomainError),
    /// A poisoned or otherwise failed lock: an internal fault.
    LockFailure,
}

/// Mathematical model of a `DispatchError`.
pub enum DispatchErrModel {
    RouteNotFound,
    MethodNotAllowed,
    Extraction(ErrModel),
    Domain(DomainModel),
    LockFailure,
}

impl DispatchError {
    pub open spec fn model(&self) -> DispatchErrModel {
        match self {
            DispatchError::RouteNotFound => DispatchErrModel::RouteNotFound,
            DispatchError::MethodNotAllowed => DispatchErrModel::MethodNotAllowed,
            DispatchError::Extraction(x) => DispatchErrModel::Extraction(x.model()),
            DispatchError::Domain(d) => DispatchErrModel::Domain(d.model()),
            DispatchError::LockFailure => DispatchErrModel::LockFailure,
        }
    }
}

/// The response an error maps to: 404 for an unknown path, 405 for a
/// known path with the wrong method, 400 for bad input — 409 instead
/// when the route configures conflict answers for body failures — a
/// domain error's declared status or the default 500, and 500 for an
/// internal fault. Bodies are empty but for the domain error's message.
pub open spec fn map_error_spec(e: DispatchErrModel, conflict_on_body: bool) -> RespModel {
    match e {
        DispatchErrModel::RouteNotFound => RespModel { status: 404, body: Seq::empty() },
        DispatchErrModel::MethodNotAllowed => RespModel { status: 405, body: Seq::empty() },
        DispatchErrModel::Extraction(x) => match x {
            ErrModel::Malformed | ErrModel::TooLarge => if conflict_on_body {
                RespModel { status: 409, body: Seq::empty() }
            } else {
                RespModel { status: 400, body: Seq::empty() }
            },
            ErrModel::Missing(_) | ErrModel::TypeMismatch(_) => RespModel {
                status: 400,
                body: Seq::empty(),
            },
        },
        DispatchErrModel::Domain(d) => RespModel {
            status: match d.status {
                Option::Some(s) => s,
                Option::None => 500,
            },
            body: d.message,
        },
        DispatchErrModel::LockFailure => RespModel { status: 500, body: Seq::empty() },
    }
}

/// Convert a failure into its HTTP response.
pub fn map_error(e: DispatchError, conflict_on_body: bool) -> (r: Response)
    ensures
        r.model() == map_error_spec(e.model(), conflict_on_body),
{
    match e {
        DispatchError::RouteNotFound => Response { status: 404, body: Vec::new() },
        DispatchError::MethodNotAllowed => Response { status: 405, body: Vec::new() },
        DispatchError::Extraction(x) => match x {
            ExtractionError::Malformed | ExtractionError::TooLarge => if conflict_on_body {
                Response { status: 409, body: Vec::new() }
            } else {
                Response { status: 400, body: Vec::new() }
            },
            ExtractionError::Missing(_) | ExtractionError::TypeMismatch(_) => Response {
                status: 400,
                body: Vec::new(),
            },
        },
        DispatchError::Domain(d) => Response {
            status: match d.status {
                Option::Some(s) => s,
                Option::None => 500,
            },
            body: d.message,
        },
        DispatchError::LockFailure => Response { status: 500, body: Vec::new() },
    }
}

} // verus!
