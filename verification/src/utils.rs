//! Answers to requests that failed.

use vstd::prelude::*;
use crate::http::{bare, Response, BAD_REQUEST, INTERNAL_SERVER_ERROR};

verus! {

/// The answer to an internal fault: 500, and nothing of the error.
pub fn e500(error: &str) -> (response: Response)
    ensures
        response@ == bare(INTERNAL_SERVER_ERROR as int),
{
    Response::from_status(INTERNAL_SERVER_ERROR)
}

/// The answer to a request that validation rejected: 400, and nothing of
/// the error.
pub fn e400(error: &str) -> (response: Response)
    ensures
        response@ == bare(BAD_REQUEST as int),
{
    Response::from_status(BAD_REQUEST)
}

} // verus!
