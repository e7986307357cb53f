//! Logging in, the message that a failed attempt leaves for the login
//! page, and the signed query parameters that can carry a message
//! through a redirect.

use vstd::prelude::*;
use vstd::string::StringExecFns;
use vstd::utf8::encode_utf8;
use crate::encoding::{
    ascii_text, ascii_text_encoding, hex_bytes, hex_decode, hex_decoded, hex_encode,
    hex_digit_value, hex_round_trip, hex_text, is_hex_digit, is_hex_text,
    percent_encode, percent_encoded,
};
use crate::authentication::{
    accepted_user, authenticate, hash_for, password_check, AuthError, Credentials, UserId,
};
use crate::http::{bare, with_header, Response, ResponseView, INTERNAL_SERVER_ERROR, SEE_OTHER};
use crate::pages::{rendered_template, slot_of, template_of, Page};
use crate::routes::admin::dashboard::{html_or_500, html_response};
use crate::fresh::is_random_id;
use crate::session_state::TypedSession;
use crate::store::Users;
use crate::text::{chain_text, error_chain_fmt};
use crate::signature::{hmac_sha256, hmac_sha256_tag, hmac_sha256_verify, HmacSecret};

verus! {

/// Why a login attempt failed. Each kind carries the chain of causes, for
/// the log only.
#[derive(Debug)]
pub enum LoginError {
    AuthError(Vec<String>),
    UnexpectedError(Vec<String>),
}

/// Why a signed pair was not accepted.
#[derive(Clone, Copy, Debug, PartialEq, Eq, Structural)]
pub enum TagError {
    /// The tag is no hexadecimal string.
    Malformed,
    /// The tag is not the one that the secret gives for the message.
    Mismatch,
}

/// A message and its tag, as two query parameters.
#[derive(Debug)]
pub struct QueryParams {
    pub error: String,
    pub tag: String,
}

/// The query string that is signed: the parameter `error` with the
/// percent-encoded message.
pub open spec fn query_string(error: Seq<char>) -> Seq<char> {
    "error="@ + ascii_text(percent_encoded(encode_utf8(error)))
}

/// The tag that the secret gives for a message.
pub open spec fn expected_tag(secret: Seq<char>, error: Seq<char>) -> Seq<u8> {
    hmac_sha256(encode_utf8(secret), encode_utf8(query_string(error)))
}

/// The text of the tag that the secret gives for a message.
pub open spec fn tag_text(secret: Seq<char>, error: Seq<char>) -> Seq<char> {
    ascii_text(hex_text(expected_tag(secret, error)))
}

/// The outcome of verifying the pair `error`, `tag` under `secret`.
pub open spec fn verified(error: Seq<char>, tag: Seq<char>, secret: Seq<char>) -> Result<
    Seq<char>,
    TagError,
> {
    match hex_decoded(encode_utf8(tag)) {
        None => Err(TagError::Malformed),
        Some(bytes) => if bytes == expected_tag(secret, error) {
            Ok(error)
        } else {
            Err(TagError::Mismatch)
        },
    }
}

/// The signed query string for a message: `error=..&tag=..`.
pub open spec fn signed_query(error: Seq<char>, secret: Seq<char>) -> Seq<char> {
    query_string(error) + "&tag="@ + tag_text(secret, error)
}

/// The text that a login failure shows to the user.
pub open spec fn login_error_text(e: LoginError) -> Seq<char> {
    match e {
        LoginError::AuthError(_) => "Authentication failed"@,
        LoginError::UnexpectedError(_) => "Unexpected error"@,
    }
}

fn signed_part(error: &str) -> (query: String)
    ensures
        query@ == query_string(error@),
{
    let encoded = percent_encode(error);
    let mut query = String::from_str("error=");
    query.append(encoded.as_str());
    query
}

/// Signs a message: the query string `error=..&tag=..` whose tag is the
/// hexadecimal HMAC-SHA-256 of the part before `&tag=`.
pub fn sign(error: &str, secret: &HmacSecret) -> (query: String)
    ensures
        query@ == signed_query(error@, secret.0@),
{
    let query = signed_part(error);
    let tag = hmac_sha256_tag(secret.0.as_str().as_bytes(), query.as_str().as_bytes());
    with_tag(query, tag.as_slice())
}

/// Appends a tag to the query string it was computed for, as the
/// parameter `tag` in lower-case hexadecimal.
pub fn with_tag(query: String, tag: &[u8]) -> (signed: String)
    ensures
        signed@ == query@ + "&tag="@ + ascii_text(hex_text(tag@)),
{
    let tag_hex = hex_encode(tag);
    let mut signed = query;
    signed.append("&tag=");
    signed.append(tag_hex.as_str());
    signed
}

/// The outcome of a verification, from what decoding the tag gave and
/// from whether the decoded tag is the expected one.
pub fn tag_outcome(error: String, decoded: bool, accepted: bool) -> (outcome: Result<
    String,
    TagError,
>)
    ensures
        outcome == (if !decoded {
            Err::<String, TagError>(TagError::Malformed)
        } else if accepted {
            Ok::<String, TagError>(error)
        } else {
            Err::<String, TagError>(TagError::Mismatch)
        }),
{
    if !decoded {
        Err(TagError::Malformed)
    } else if accepted {
        Ok(error)
    } else {
        Err(TagError::Mismatch)
    }
}

/// The redirect to `path` that carries `message`, signed, in its query
/// string.
pub open spec fn message_redirect(
    path: Seq<char>,
    message: Seq<char>,
    secret: Seq<char>,
) -> ResponseView {
    with_header(SEE_OTHER as int, "Location"@, path + "?"@ + signed_query(message, secret))
}

/// Redirects to `path` with a message for the page there. The message
/// goes through the client, so it is signed.
pub fn redirect_with_message(path: &str, message: &str, secret: &HmacSecret) -> (response: Response)
    ensures
        response@ == message_redirect(path@, message@, secret.0@),
{
    let query = sign(message, secret);
    let mut location = path.to_owned();
    location.append("?");
    location.append(query.as_str());
    Response::see_other(location.as_str())
}

impl LoginError {
    /// The report of the failure for the log: what the user is shown, and
    /// the causes, which the user is not shown.
    pub fn report(&self) -> (report: String)
        ensures
            report@ == (match *self {
                LoginError::AuthError(causes) => chain_text(
                    login_error_text(*self),
                    causes.deep_view(),
                ),
                LoginError::UnexpectedError(causes) => chain_text(
                    login_error_text(*self),
                    causes.deep_view(),
                ),
            }),
    {
        match self {
            LoginError::AuthError(causes) => error_chain_fmt("Authentication failed", causes),
            LoginError::UnexpectedError(causes) => error_chain_fmt("Unexpected error", causes),
        }
    }

    /// The login failure for credentials that were not accepted: invalid
    /// credentials are an authentication failure, anything else is
    /// unexpected. The causes are kept for the log.
    pub fn from_auth(e: AuthError) -> (error: LoginError)
        ensures
            error == (match e {
                AuthError::InvalidCredentials(causes) => LoginError::AuthError(causes),
                AuthError::UnexpectedError(causes) => LoginError::UnexpectedError(causes),
            }),
    {
        match e {
            AuthError::InvalidCredentials(causes) => LoginError::AuthError(causes),
            AuthError::UnexpectedError(causes) => LoginError::UnexpectedError(causes),
        }
    }

    /// The text shown to the user, which tells the kind of failure and
    /// nothing of its cause.
    pub fn message(&self) -> (text: String)
        ensures
            text@ == login_error_text(*self),
    {
        match self {
            LoginError::AuthError(_) => String::from_str("Authentication failed"),
            LoginError::UnexpectedError(_) => String::from_str("Unexpected error"),
        }
    }

    /// The redirect back to the login page, which carries the message and
    /// its tag in the query string.
    pub fn into_response(self, secret: &HmacSecret) -> (response: Response)
        ensures
            response@ == with_header(
                SEE_OTHER as int,
                "Location"@,
                "/login?"@ + signed_query(login_error_text(self), secret.0@),
            ),
    {
        let text = self.message();
        let response = redirect_with_message("/login", text.as_str(), secret);
        assert("/login"@ + "?"@ =~= "/login?"@) by {
            reveal_strlit("/login");
            reveal_strlit("?");
            reveal_strlit("/login?");
        }
        assert("/login"@ + "?"@ + signed_query(login_error_text(self), secret.0@) =~= "/login?"@
            + signed_query(login_error_text(self), secret.0@));
        response
    }
}

/// The fields of the login form.
pub struct FormData {
    pub username: String,
    pub password: String,
}

/// The response to a login attempt, once the credentials were validated:
/// the dashboard for an accepted user, the login page for anyone else.
pub open spec fn login_response(outcome: Result<UserId, AuthError>) -> ResponseView {
    match outcome {
        Ok(_) => with_header(SEE_OTHER as int, "Location"@, "/admin/dashboard"@),
        Err(_) => with_header(SEE_OTHER as int, "Location"@, "/login"@),
    }
}

/// The message that waits for the next page after a login attempt: what
/// kind of failure it was, or what was waiting before where the attempt
/// succeeded.
pub open spec fn login_flash(outcome: Result<UserId, AuthError>, waiting: Option<Seq<char>>) -> Option<
    Seq<char>,
> {
    match outcome {
        Ok(_) => waiting,
        Err(AuthError::InvalidCredentials(_)) => Some("Authentication failed"@),
        Err(AuthError::UnexpectedError(_)) => Some("Unexpected error"@),
    }
}

/// Finishes a login attempt. An accepted user is logged in to the
/// session, which gets a fresh identifier, and is sent to the dashboard.
/// After a failure nobody is logged in, the user is sent back to the
/// login page, and the session holds for that page what kind of failure
/// it was, never why.
pub fn finish_login(session: &mut TypedSession, outcome: Result<UserId, AuthError>) -> (response:
    Response)
    ensures
        response@ == login_response(outcome),
        final(session).user_id == (match outcome {
            Ok(user_id) => Some(user_id),
            Err(_) => old(session).user_id,
        }),
        final(session).message() == login_flash(outcome, old(session).message()),
        outcome is Ok ==> is_random_id(final(session).id),
        outcome is Err ==> final(session).id == old(session).id,
{
    match outcome {
        Ok(user_id) => {
            session.cycle_id();
            session.insert_iser_id(user_id);
            Response::see_other("/admin/dashboard")
        },
        Err(e) => {
            let error = LoginError::from_auth(e);
            session.set_flash(error.message());
            Response::see_other("/login")
        },
    }
}

/// Handles a login attempt against the stored accounts. Credentials that
/// the accounts accept log their user in and lead to the dashboard. Any
/// others lead back to the login page, with the message
/// `Authentication failed` waiting for it; where the stored hash cannot
/// be read the message is `Unexpected error`.
pub fn login(users: &Users, session: &mut TypedSession, form: FormData) -> (response: Response)
    requires
        users.consistent(),
    ensures
        match accepted_user(users@, form.username@, form.password@) {
            Some(user_id) => {
                &&& response@ == with_header(SEE_OTHER as int, "Location"@, "/admin/dashboard"@)
                &&& final(session).user_id == Some(UserId(user_id))
                &&& final(session).message() == old(session).message()
                &&& is_random_id(final(session).id)
            },
            None => {
                &&& response@ == with_header(SEE_OTHER as int, "Location"@, "/login"@)
                &&& final(session).user_id == old(session).user_id
                &&& final(session).id == old(session).id
                &&& final(session).message() == Some(
                    if password_check(
                        hash_for(users@, form.username@),
                        encode_utf8(form.password@),
                    ) is None {
                        "Unexpected error"@
                    } else {
                        "Authentication failed"@
                    },
                )
            },
        },
{
    let credentials = Credentials { username: form.username, password: form.password };
    let outcome = authenticate(users, credentials);
    finish_login(session, outcome)
}

/// The response that shows a page with a form and with the given message:
/// the rendered page, or 500 where the page does not render.
pub open spec fn form_page(page: Page, message: Option<Seq<char>>) -> ResponseView {
    match rendered_template(template_of(page), slot_of(page), error_html(message)) {
        Some(p) => html_response(p),
        None => bare(INTERNAL_SERVER_ERROR as int),
    }
}

/// Renders a page that holds a form, with the message for it.
pub fn render_form_page(page: Page, message: Option<String>) -> (response: Response)
    ensures
        response@ == form_page(
            page,
            match message {
                Some(m) => Some(m@),
                None => None,
            },
        ),
{
    let html = match &message {
        Some(m) => render_error(Some(m.as_str())),
        None => render_error(None),
    };
    html_or_500(page.render(html.as_str()))
}

/// Shows a page that holds a form, with the message that waits for it in
/// the session. The message is taken out of the session: the next page
/// does not show it again.
pub fn show_form_page(page: Page, session: &mut TypedSession) -> (response: Response)
    ensures
        response@ == form_page(page, old(session).message()),
        final(session).flash is None,
        final(session).user_id == old(session).user_id,
        final(session).id == old(session).id,
{
    let message = session.take_flash();
    render_form_page(page, message)
}

/// The login page, with the message left by a failed attempt.
pub fn login_form(session: &mut TypedSession) -> (response: Response)
    ensures
        response@ == form_page(Page::Login, old(session).message()),
        final(session).flash is None,
        final(session).user_id == old(session).user_id,
        final(session).id == old(session).id,
{
    show_form_page(Page::Login, session)
}

/// The message that a pair of query parameters carries: that of a pair
/// that verifies, and none for a pair that does not.
pub open spec fn shown_error(query: Option<QueryParams>, secret: Seq<char>) -> Option<Seq<char>> {
    match query {
        None => None,
        Some(q) => match verified(q.error@, q.tag@, secret) {
            Ok(message) => Some(message),
            Err(_) => None,
        },
    }
}

/// Reads the message out of a pair of query parameters. A pair that was
/// forged or damaged is dropped as if no parameters had been sent.
pub fn error_to_show(query: Option<QueryParams>, secret: &HmacSecret) -> (message: Option<String>)
    ensures
        message is Some <==> shown_error(query, secret.0@) is Some,
        message matches Some(m) ==> Some(m@) == shown_error(query, secret.0@),
{
    match query {
        None => None,
        Some(q) => match q.verify(secret) {
            Ok(message) => Some(message),
            Err(_) => None,
        },
    }
}

/// The fragment of a page that shows a message.
pub open spec fn error_html(message: Option<Seq<char>>) -> Seq<char> {
    match message {
        None => Seq::empty(),
        Some(m) => "<p><i>"@ + m + "</i></p>"@,
    }
}

/// Renders the message, if there is one, as a paragraph in italics.
pub fn render_error(message: Option<&str>) -> (html: String)
    ensures
        html@ == error_html(
            match message {
                Some(m) => Some(m@),
                None => None,
            },
        ),
{
    match message {
        None => String::new(),
        Some(m) => {
            let mut html = String::from_str("<p><i>");
            html.append(m);
            html.append("</i></p>");
            html
        },
    }
}

impl QueryParams {
    /// Checks the tag against the message. The message comes back exactly
    /// if the tag is the hexadecimal text, in either case, of the
    /// HMAC-SHA-256 that the secret gives for `error=` and the
    /// percent-encoded message.
    pub fn verify(self, secret: &HmacSecret) -> (outcome: Result<String, TagError>)
        ensures
            outcome matches Ok(message) ==> message@ == self.error@ && verified(
                self.error@,
                self.tag@,
                secret.0@,
            ) == Ok::<Seq<char>, TagError>(self.error@),
            outcome matches Err(e) ==> verified(self.error@, self.tag@, secret.0@) == Err::<
                Seq<char>,
                TagError,
            >(e),
    {
        let tag = match hex_decode(self.tag.as_str().as_bytes()) {
            Some(tag) => tag,
            None => {
                return tag_outcome(self.error, false, false);
            },
        };
        let query = signed_part(self.error.as_str());
        let accepted = hmac_sha256_verify(
            secret.0.as_str().as_bytes(),
            query.as_str().as_bytes(),
            tag.as_slice(),
        );
        tag_outcome(self.error, true, accepted)
    }
}

/// A text whose bytes form a hexadecimal string is the ASCII text of
/// those bytes.
pub proof fn hex_text_is_ascii(text: Seq<char>)
    requires
        is_hex_text(encode_utf8(text)),
    ensures
        text == ascii_text(encode_utf8(text)),
{
    let bytes = encode_utf8(text);
    assert forall|i: int| 0 <= i < bytes.len() implies #[trigger] bytes[i] < 0x80 by {
        assert(is_hex_digit(bytes[i]));
    }
    ascii_text_encoding(bytes);
    vstd::utf8::encode_utf8_decode_utf8(ascii_text(bytes));
    vstd::utf8::encode_utf8_decode_utf8(text);
}

/// An unmodified signed pair always verifies: the tag that `sign` writes
/// for a message is accepted for that message under the same secret.
pub proof fn signed_pair_verifies(error: Seq<char>, secret: Seq<char>)
    ensures
        verified(error, tag_text(secret, error), secret) == Ok::<Seq<char>, TagError>(error),
{
    let tag = expected_tag(secret, error);
    hex_round_trip(tag);
    assert(is_hex_text(hex_text(tag)));
    assert forall|i: int| 0 <= i < hex_text(tag).len() implies #[trigger] hex_text(tag)[i]
        < 0x80 by {
        assert(is_hex_digit(hex_text(tag)[i]));
    }
    ascii_text_encoding(hex_text(tag));
}

/// Whether `tampered` is `genuine` with the one character at `at`
/// replaced by another.
pub open spec fn differs_at(genuine: Seq<char>, tampered: Seq<char>, at: int) -> bool {
    &&& tampered.len() == genuine.len()
    &&& 0 <= at < genuine.len()
    &&& tampered[at] != genuine[at]
    &&& forall|j: int| 0 <= j < genuine.len() && j != at ==> tampered[j] == genuine[j]
}

/// Whether `c` is the upper-case spelling of the lower-case hexadecimal
/// digit `d`, one of `a` to `f`.
pub open spec fn is_upper_case_of(c: char, d: char) -> bool {
    'a' <= d <= 'f' && c as u32 + 0x20 == d as u32
}

/// A tag with one character changed is rejected for the message it was
/// written for, unless the change only puts a hexadecimal digit in upper
/// case, which leaves the bytes of the tag unchanged.
pub proof fn tampered_tag_is_rejected(
    error: Seq<char>,
    secret: Seq<char>,
    tampered: Seq<char>,
    at: int,
)
    requires
        differs_at(tag_text(secret, error), tampered, at),
        !is_upper_case_of(tampered[at], tag_text(secret, error)[at]),
    ensures
        verified(error, tampered, secret) is Err,
{
    let tag = expected_tag(secret, error);
    let genuine = hex_text(tag);
    let bytes = encode_utf8(tampered);
    if is_hex_text(bytes) {
        hex_text_is_ascii(tampered);
        assert(tampered.len() == bytes.len());
        let k = at / 2;
        assert(0 <= k < tag.len());
        let v = tag[k] as int;
        assert(0 <= v / 16 < 16 && 0 <= v % 16 < 16);
        assert(16 * (v / 16) + v % 16 == v);
        assert(is_hex_digit(bytes[at]));
        assert(tampered[at] == bytes[at] as char);
        assert(tag_text(secret, error)[at] == genuine[at] as char);
        assert(hex_bytes(bytes)[k] == (16 * hex_digit_value(bytes[2 * k]) + hex_digit_value(
            bytes[2 * k + 1],
        )) as u8);
        if at % 2 == 0 {
            assert(at == 2 * k);
            let other = 2 * k + 1;
            assert(tampered[other] == tag_text(secret, error)[other]);
            assert(tampered[other] == bytes[other] as char);
            assert(tag_text(secret, error)[other] == genuine[other] as char);
            assert(bytes[other] == genuine[other]);
            assert(other / 2 == k && other % 2 == 1);
            assert(hex_digit_value(bytes[other]) == v % 16);
            assert(hex_digit_value(bytes[at]) != v / 16);
        } else {
            assert(at == 2 * k + 1);
            let other = 2 * k;
            assert(tampered[other] == tag_text(secret, error)[other]);
            assert(tampered[other] == bytes[other] as char);
            assert(tag_text(secret, error)[other] == genuine[other] as char);
            assert(bytes[other] == genuine[other]);
            assert(other / 2 == k && other % 2 == 0);
            assert(hex_digit_value(bytes[other]) == v / 16);
            assert(hex_digit_value(bytes[at]) != v % 16);
        }
        assert(hex_bytes(bytes)[k] != tag[k]);
    }
}

/// A genuine tag is rejected for any other message, unless the secret
/// gives both messages the same tag.
pub proof fn tampered_error_is_rejected(error: Seq<char>, secret: Seq<char>, tampered: Seq<char>)
    requires
        expected_tag(secret, tampered) != expected_tag(secret, error),
    ensures
        verified(tampered, tag_text(secret, error), secret) == Err::<Seq<char>, TagError>(
            TagError::Mismatch,
        ),
{
    signed_pair_verifies(error, secret);
}

} // verus!
