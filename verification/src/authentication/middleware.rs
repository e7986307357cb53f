//! The guard of the pages behind the login.

use vstd::prelude::*;
use crate::authentication::UserId;
use crate::http::{bare, with_header, Response, INTERNAL_SERVER_ERROR, SEE_OTHER};

verus! {

/// Lets a request pass only if its session holds a user: that user.
/// Without one the request is sent to the login page, and a fault of the
/// session store is answered with 500.
pub fn reject_anonymous_users(session_user: Result<Option<UserId>, String>) -> (outcome: Result<
    UserId,
    Response,
>)
    ensures
        match session_user {
            Ok(Some(user_id)) => outcome == Ok::<UserId, Response>(user_id),
            Ok(None) => outcome is Err && outcome->Err_0@ == with_header(
                SEE_OTHER as int,
                "Location"@,
                "/login"@,
            ),
            Err(_) => outcome is Err && outcome->Err_0@ == bare(INTERNAL_SERVER_ERROR as int),
        },
{
    match session_user {
        Ok(Some(user_id)) => Ok(user_id),
        Ok(None) => Err(Response::see_other("/login")),
        Err(_) => Err(Response::from_status(INTERNAL_SERVER_ERROR)),
    }
}

} // verus!
