//! The dashboard of a logged-in user.

use vstd::prelude::*;
use crate::entities::UserRow;
use crate::http::{bare, Response, ResponseView, INTERNAL_SERVER_ERROR, OK};
use crate::pages::{rendered_template, slot_of, template_of, Page};
use crate::text::{one_cause, push_cause};

verus! {

/// The causes of a failed lookup of a user name.
pub open spec fn username_fault(lookup: Result<Option<UserRow>, String>) -> Option<Seq<Seq<char>>> {
    match lookup {
        Ok(Some(_)) => None,
        Ok(None) => Some(seq!["User not found"@]),
        Err(fault) => Some(seq!["Failed to perform a query to retrieve a username."@, fault@]),
    }
}

/// The name of the user that the lookup found. A user that is not stored
/// and a fault of the store are errors.
pub fn get_username(lookup: Result<Option<UserRow>, String>) -> (username: Result<
    String,
    Vec<String>,
>)
    ensures
        match username_fault(lookup) {
            None => username is Ok && username->Ok_0@ == lookup->Ok_0->Some_0.username@,
            Some(causes) => username is Err && username->Err_0.deep_view() == causes,
        },
{
    match lookup {
        Ok(Some(user)) => Ok(user.username),
        Ok(None) => Err(one_cause("User not found")),
        Err(fault) => {
            let mut causes = one_cause("Failed to perform a query to retrieve a username.");
            push_cause(&mut causes, fault);
            assert(causes.deep_view() =~= seq![
                "Failed to perform a query to retrieve a username."@,
                fault@,
            ]);
            Err(causes)
        },
    }
}

/// A page as a response: 200, the content type of HTML, and the page as
/// the body.
pub open spec fn html_response(page: Seq<char>) -> ResponseView {
    ResponseView {
        status: OK as int,
        headers: seq![
            crate::http::HeaderView {
                name: "Content-Type"@,
                value: vstd::utf8::encode_utf8("text/html; charset=utf-8"@),
            },
        ],
        body: vstd::utf8::encode_utf8(page),
    }
}

/// Answers with a page, or with 500 where the page did not render.
pub fn html_or_500(page: Option<String>) -> (response: Response)
    ensures
        response@ == (match page {
            Some(p) => html_response(p@),
            None => bare(INTERNAL_SERVER_ERROR as int),
        }),
{
    match page {
        None => Response::from_status(INTERNAL_SERVER_ERROR),
        Some(p) => {
            let mut response = Response::with_header(OK, "Content-Type", "text/html; charset=utf-8");
            let ghost headers = response@.headers;
            response.body = vstd::slice::slice_to_vec(p.as_str().as_bytes());
            assert(response@.headers =~= headers);
            response
        },
    }
}

/// The dashboard of the user that the lookup found, or 500 where the
/// lookup failed or the page did not render.
pub fn admin_dashboard(lookup: Result<Option<UserRow>, String>) -> (response: Response)
    ensures
        response@ == (match username_fault(lookup) {
            Some(_) => bare(INTERNAL_SERVER_ERROR as int),
            None => match rendered_template(
                template_of(Page::Dashboard),
                slot_of(Page::Dashboard),
                lookup->Ok_0->Some_0.username@,
            ) {
                Some(page) => html_response(page),
                None => bare(INTERNAL_SERVER_ERROR as int),
            },
        }),
{
    match get_username(lookup) {
        Err(_) => Response::from_status(INTERNAL_SERVER_ERROR),
        Ok(username) => html_or_500(Page::Dashboard.render(username.as_str())),
    }
}

} // verus!
