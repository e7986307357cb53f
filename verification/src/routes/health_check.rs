//! The pages that need no state.

use vstd::prelude::*;
use crate::http::{bare, Response, OK};
use crate::text::concat;

verus! {

/// Tells that the service is up: 200 with an empty body.
pub fn health_check() -> (response: Response)
    ensures
        response@ == bare(OK as int),
{
    Response::from_status(OK)
}

/// The text of the index page.
pub fn index() -> (text: &'static str)
    ensures
        text@ == "Rust Rocks!"@,
{
    "Rust Rocks!"
}

/// Greets by name.
pub fn greet(name: &str) -> (text: String)
    ensures
        text@ == "Hello, "@ + name@,
{
    concat("Hello, ", name)
}

/// Welcomes a user.
pub fn home(username: &str) -> (text: String)
    ensures
        text@ == "Welcome: "@ + username@,
{
    concat("Welcome: ", username)
}

} // verus!
