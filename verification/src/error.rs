//! The error taxonomy of the client, and the status gate every fetch applies.
//!
//! Each variant carries plain data: the transport's own error values stay in
//! the surrounding application, which passes their messages on.

use vstd::prelude::*;

use crate::summary::BuildError;

verus! {

/// Why a fetch failed. The variants mirror the stages of a request: building
/// it, sending it, its status, reading its body, decoding the body, and
/// translating the decoded payload.
#[derive(Debug, PartialEq, Eq)]
pub enum GetError {
    BuildError(String),
    RequestError(String),
    ResponseError(u16),
    ResponseBodyError(String),
    ParseError(String),
    TranslateError(BuildError),
}

/// A success HTTP status: the 2xx range.
pub open spec fn spec_success_status(status: u16) -> bool {
    200 <= status < 300
}

/// Is the status a success status?
pub fn is_success_status(status: u16) -> (r: bool)
    ensures
        r == spec_success_status(status),
{
    200 <= status && status < 300
}

} // verus!
