//! Changing the password of the logged-in user.

use vstd::prelude::*;
use vstd::string::StringExecFns;
use vstd::utf8::encode_utf8;
use crate::authentication::{AuthError, MIN_PASSWORD_LENGTH};
use crate::http::{bare, with_header, Response, ResponseView, INTERNAL_SERVER_ERROR, SEE_OTHER};
use crate::pages::Page;
use crate::routes::login::{form_page, show_form_page};
use crate::session_state::TypedSession;
use crate::text::same_text;

verus! {

/// The fields of the form that changes the password.
pub struct FormData {
    pub current_password: String,
    pub new_password: String,
    pub new_password_check: String,
}

/// Why a new password is not taken.
#[derive(Clone, Copy, Debug, PartialEq, Eq, Structural)]
pub enum NewPasswordError {
    /// The two entries of the new password differ.
    Mismatch,
    /// The new password has fewer than twelve bytes.
    TooShort,
}

/// What the user is told where the two entries of the new password
/// differ.
pub const MISMATCH_TEXT: &'static str =
    "You entered two different new passwords - the field values must match.";

/// What the policy makes of a new password and its repetition.
pub open spec fn new_password_rejection(
    new_password: Seq<char>,
    new_password_check: Seq<char>,
) -> Option<NewPasswordError> {
    if new_password != new_password_check {
        Some(NewPasswordError::Mismatch)
    } else if encode_utf8(new_password).len() < MIN_PASSWORD_LENGTH {
        Some(NewPasswordError::TooShort)
    } else {
        None
    }
}

/// The message for a new password that is not taken.
pub open spec fn new_password_text(e: NewPasswordError) -> Seq<char> {
    match e {
        NewPasswordError::Mismatch => MISMATCH_TEXT@,
        NewPasswordError::TooShort => "You password is too short!"@,
    }
}

impl NewPasswordError {
    /// The message shown to the user.
    pub fn message(&self) -> (text: &'static str)
        ensures
            text@ == new_password_text(*self),
    {
        match self {
            NewPasswordError::Mismatch => MISMATCH_TEXT,
            NewPasswordError::TooShort => "You password is too short!",
        }
    }
}

/// Holds a new password to the policy before anything is hashed: the two
/// entries must be equal and at least twelve bytes long.
pub fn check_new_password(form: &FormData) -> (checked: Result<(), NewPasswordError>)
    ensures
        match new_password_rejection(form.new_password@, form.new_password_check@) {
            Some(e) => checked == Err::<(), NewPasswordError>(e),
            None => checked is Ok,
        },
{
    if !same_text(form.new_password.as_str(), form.new_password_check.as_str()) {
        return Err(NewPasswordError::Mismatch);
    }
    if form.new_password.as_str().as_bytes().len() < MIN_PASSWORD_LENGTH {
        return Err(NewPasswordError::TooShort);
    }
    Ok(())
}

/// The redirect back to the form.
pub open spec fn back_to_form() -> ResponseView {
    with_header(SEE_OTHER as int, "Location"@, "/admin/password"@)
}

/// Sends the user back to the form, where the session tells them why the
/// new password is not taken.
pub fn reject_new_password(e: NewPasswordError, session: &mut TypedSession) -> (response: Response)
    ensures
        response@ == back_to_form(),
        final(session).message() == Some(new_password_text(e)),
        final(session).user_id == old(session).user_id,
        final(session).id == old(session).id,
{
    session.set_flash(e.message().to_owned());
    Response::see_other("/admin/password")
}

/// What the steps of a change of password found, as far as they were
/// taken: the steps stop at the first that fails.
#[derive(Debug)]
pub enum ChangeProgress {
    /// The user's name could not be looked up.
    UsernameFailed,
    /// The current password was checked, and not accepted.
    CurrentPasswordRejected(AuthError),
    /// The new hash could not be computed or stored.
    UpdateFailed,
    /// The new hash is stored.
    Updated,
}

/// What the user is told after a request to change the password, or
/// nothing where the request ends in an internal fault.
pub open spec fn change_message(rejection: Option<NewPasswordError>, progress: ChangeProgress) -> Option<
    Seq<char>,
> {
    match rejection {
        Some(e) => Some(new_password_text(e)),
        None => match progress {
            ChangeProgress::UsernameFailed => None,
            ChangeProgress::CurrentPasswordRejected(AuthError::InvalidCredentials(_)) => Some(
                "The current password is incorrect."@,
            ),
            ChangeProgress::CurrentPasswordRejected(AuthError::UnexpectedError(_)) => None,
            ChangeProgress::UpdateFailed => None,
            ChangeProgress::Updated => Some("Your password has been changed."@),
        },
    }
}

/// Answers a request to change the password. A new password that the
/// policy rejects sends the user back with the reason, whatever else
/// happened. A wrong current password sends them back too, and so does
/// success, each with its message waiting in the session. A fault is
/// answered with 500 and leaves the session as it was.
pub fn change_password(form: &FormData, progress: ChangeProgress, session: &mut TypedSession) -> (response:
    Response)
    ensures
        final(session).user_id == old(session).user_id,
        final(session).id == old(session).id,
        match change_message(
            new_password_rejection(form.new_password@, form.new_password_check@),
            progress,
        ) {
            Some(message) => response@ == back_to_form() && final(session).message() == Some(
                message,
            ),
            None => response@ == bare(INTERNAL_SERVER_ERROR as int) && final(session).message()
                == old(session).message(),
        },
{
    if let Err(e) = check_new_password(form) {
        return reject_new_password(e, session);
    }
    match progress {
        ChangeProgress::UsernameFailed => Response::from_status(INTERNAL_SERVER_ERROR),
        ChangeProgress::CurrentPasswordRejected(AuthError::InvalidCredentials(_)) => {
            session.set_flash(String::from_str("The current password is incorrect."));
            Response::see_other("/admin/password")
        },
        ChangeProgress::CurrentPasswordRejected(AuthError::UnexpectedError(_)) => Response::from_status(
            INTERNAL_SERVER_ERROR,
        ),
        ChangeProgress::UpdateFailed => Response::from_status(INTERNAL_SERVER_ERROR),
        ChangeProgress::Updated => {
            session.set_flash(String::from_str("Your password has been changed."));
            Response::see_other("/admin/password")
        },
    }
}

/// The page that changes the password, with the message that waits for
/// it, for a logged-in user; anyone else is sent to the login page, and
/// a message that waits stays.
pub fn change_password_form(session: &mut TypedSession) -> (response: Response)
    ensures
        final(session).user_id == old(session).user_id,
        final(session).id == old(session).id,
        match old(session).user_id {
            None => response@ == with_header(SEE_OTHER as int, "Location"@, "/login"@)
                && final(session).message() == old(session).message(),
            Some(_) => response@ == form_page(Page::Password, old(session).message())
                && final(session).flash is None,
        },
{
    match session.get_user_id() {
        None => Response::see_other("/login"),
        Some(_) => show_form_page(Page::Password, session),
    }
}

} // verus!
