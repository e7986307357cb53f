//! Logging out.

use vstd::prelude::*;
use vstd::string::StringExecFns;
use crate::http::{with_header, Response, SEE_OTHER};
use crate::session_state::TypedSession;

verus! {

/// Logs the user out and sends them to the login page, which tells them
/// so.
pub fn log_out(session: &mut TypedSession) -> (response: Response)
    ensures
        final(session).user_id is None,
        final(session).message() == Some("You have successfully logged out."@),
        final(session).id == old(session).id,
        response@ == with_header(SEE_OTHER as int, "Location"@, "/login"@),
{
    session.log_out();
    session.set_flash(String::from_str("You have successfully logged out."));
    Response::see_other("/login")
}

} // verus!
