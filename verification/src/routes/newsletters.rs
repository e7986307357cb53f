//! Publishing a newsletter issue to every confirmed subscriber, once for
//! each idempotency key.

use vstd::prelude::*;
use crate::authentication::{
    accepted_user, authenticate, basic_authentication, basic_credentials, hash_for, password_check,
    AuthError, AuthorizationHeader, UserId,
};
use crate::domain::{email_rejection, SubscriberEmail};
use crate::email_client::{EmailClient, EmailView, SendEmailRequest};
use crate::email_grammar::valid_email;
use crate::http::{
    bare, with_header, Response, ResponseView, BAD_REQUEST, INTERNAL_SERVER_ERROR, OK, UNAUTHORIZED,
};
use crate::idempotency::{key_error_text, key_rejection, IdempotencyKey};
use crate::routes::newsletters::steps::{advance, Progress};
use crate::startup::{AppState, StateView};
use crate::store::confirmed_addresses;
use crate::pages::Page;
use crate::routes::login::{form_page, show_form_page};
use crate::session_state::TypedSession;
use crate::text::{
    chain_text, concat, error_chain_fmt, one_cause, push_cause, transparent_report,
    transparent_text,
};

pub mod steps;

verus! {

/// The fields of the form that publishes an issue.
#[derive(Debug)]
pub struct FormData {
    pub title: String,
    pub text_content: String,
    pub html_content: String,
    pub idempotency_key: String,
}

/// The two renderings of an issue.
#[derive(Debug)]
pub struct Content {
    pub html: String,
    pub text: String,
}

/// An issue as a request body.
#[derive(Debug)]
pub struct BodyData {
    pub title: String,
    pub content: Content,
    pub idempotency_key: String,
}

/// A confirmed subscriber whose stored address is well formed.
#[derive(Debug)]
pub struct ConfirmedSubscriber {
    pub email: SubscriberEmail,
}

/// Why an issue was not published.
#[derive(Debug)]
pub enum PublishError {
    /// An internal fault, with the messages of its causes.
    UnexpectedError(Vec<String>),
    /// The caller is not an authenticated account.
    AuthError(Vec<String>),
    /// A field of the form was rejected.
    ValidationError(String),
}

/// The response to an error: 500 for an internal fault, 400 for a
/// rejected field, and 401 with a challenge for a caller that is not
/// authenticated.
pub open spec fn publish_error_response(e: PublishError) -> ResponseView {
    match e {
        PublishError::UnexpectedError(_) => bare(INTERNAL_SERVER_ERROR as int),
        PublishError::ValidationError(_) => bare(BAD_REQUEST as int),
        PublishError::AuthError(_) => with_header(
            UNAUTHORIZED as int,
            "WWW-Authenticate"@,
            "Basic realm=\"publish\""@,
        ),
    }
}

impl PublishError {
    /// The report of the error for the log.
    pub fn report(&self) -> (report: String)
        ensures
            report@ == (match *self {
                PublishError::UnexpectedError(causes) => transparent_text(causes.deep_view()),
                PublishError::AuthError(causes) => chain_text(
                    "Authentication failed"@,
                    causes.deep_view(),
                ),
                PublishError::ValidationError(message) => chain_text(message@, Seq::empty()),
            }),
    {
        match self {
            PublishError::UnexpectedError(causes) => transparent_report(causes),
            PublishError::AuthError(causes) => error_chain_fmt("Authentication failed", causes),
            PublishError::ValidationError(message) => {
                let none: Vec<String> = Vec::new();
                assert(none.deep_view() =~= Seq::<Seq<char>>::empty());
                error_chain_fmt(message.as_str(), &none)
            },
        }
    }

    /// The response to the error, which tells nothing of its cause.
    pub fn into_response(self) -> (response: Response)
        ensures
            response@ == publish_error_response(self),
    {
        match self {
            PublishError::UnexpectedError(_) => Response::from_status(INTERNAL_SERVER_ERROR),
            PublishError::ValidationError(_) => Response::from_status(BAD_REQUEST),
            PublishError::AuthError(_) => Response::with_header(
                UNAUTHORIZED,
                "WWW-Authenticate",
                "Basic realm=\"publish\"",
            ),
        }
    }

    /// The error for credentials that were not accepted: invalid
    /// credentials are an authentication error, anything else is an
    /// internal fault.
    pub fn from_auth(e: AuthError) -> (error: PublishError)
        ensures
            e is InvalidCredentials <==> error is AuthError,
            e is UnexpectedError <==> error is UnexpectedError,
            error == (match e {
                AuthError::InvalidCredentials(causes) => PublishError::AuthError(causes),
                AuthError::UnexpectedError(causes) => PublishError::UnexpectedError(causes),
            }),
    {
        match e {
            AuthError::InvalidCredentials(causes) => PublishError::AuthError(causes),
            AuthError::UnexpectedError(causes) => PublishError::UnexpectedError(causes),
        }
    }
}

/// What the stored address of a confirmed subscriber is read as: the
/// address where it is well formed, else the message that rejects it.
pub open spec fn recipient(address: Seq<char>) -> Result<Seq<char>, Seq<char>> {
    if valid_email(address) {
        Ok(address)
    } else {
        Err(email_rejection(address))
    }
}

/// Whether `read` is what `address` is read as.
pub open spec fn reads_address(read: Result<ConfirmedSubscriber, String>, address: Seq<char>) -> bool {
    match recipient(address) {
        Ok(a) => read is Ok && read->Ok_0.email@ == a,
        Err(message) => read is Err && read->Err_0@ == message,
    }
}

/// Reads the stored addresses of the confirmed subscribers, one by one
/// and in their order. A stored address that is not well formed gives an
/// error in its place and does not stop the others.
pub fn get_confirmed_subscribers(addresses: Vec<String>) -> (subscribers: Vec<
    Result<ConfirmedSubscriber, String>,
>)
    ensures
        subscribers@.len() == addresses@.len(),
        forall|i: int|
            0 <= i < addresses@.len() ==> reads_address(#[trigger] subscribers@[i], addresses@[i]@),
{
    let mut subscribers: Vec<Result<ConfirmedSubscriber, String>> = Vec::new();
    let mut i: usize = 0;
    while i < addresses.len()
        invariant
            i <= addresses.len(),
            subscribers@.len() == i,
            forall|j: int| 0 <= j < i ==> reads_address(#[trigger] subscribers@[j], addresses@[j]@),
        decreases addresses.len() - i,
    {
        let read = match SubscriberEmail::parse(addresses[i].clone()) {
            Ok(email) => Ok(ConfirmedSubscriber { email }),
            Err(error) => Err(error),
        };
        subscribers.push(read);
        i += 1;
    }
    subscribers
}

/// What the log says of a delivery that failed: whom the issue did not
/// reach, and why.
pub open spec fn delivery_failure_causes(recipient: Seq<char>, cause: Seq<char>) -> Seq<Seq<char>> {
    seq!["Failed to send newsletter issue to "@ + recipient, cause]
}

/// The entry for the log when one delivery failed. The failure concerns
/// that recipient only: the issue still goes to the others, and the
/// request is answered as if every delivery had succeeded.
pub fn delivery_failure(recipient: &str, cause: String) -> (causes: Vec<String>)
    ensures
        causes.deep_view() == delivery_failure_causes(recipient@, cause@),
{
    let context = concat("Failed to send newsletter issue to ", recipient);
    let mut causes = one_cause(context.as_str());
    push_cause(&mut causes, cause);
    assert(causes.deep_view() =~= delivery_failure_causes(recipient@, cause@));
    causes
}

/// The messages of one issue: one for each address that is well formed,
/// in the order of the addresses.
pub open spec fn issue_messages(
    sender: Seq<char>,
    addresses: Seq<Seq<char>>,
    title: Seq<char>,
    html: Seq<char>,
    text: Seq<char>,
) -> Seq<EmailView>
    decreases addresses.len(),
{
    if addresses.len() == 0 {
        Seq::empty()
    } else {
        let earlier = issue_messages(sender, addresses.drop_last(), title, html, text);
        if valid_email(addresses.last()) {
            earlier.push(
                EmailView {
                    from: sender,
                    to: addresses.last(),
                    subject: title,
                    html_body: html,
                    text_body: text,
                },
            )
        } else {
            earlier
        }
    }
}

/// Writes the messages of one issue: one to each confirmed subscriber
/// whose stored address is well formed. The others are skipped.
pub fn issue(
    email_client: &EmailClient,
    addresses: Vec<String>,
    title: &str,
    html_content: &str,
    text_content: &str,
) -> (messages: Vec<SendEmailRequest>)
    ensures
        Seq::new(messages@.len(), |i: int| messages@[i]@) == issue_messages(
            email_client.sender@,
            addresses.deep_view(),
            title@,
            html_content@,
            text_content@,
        ),
{
    let ghost all = addresses.deep_view();
    let subscribers = get_confirmed_subscribers(addresses);
    let mut messages: Vec<SendEmailRequest> = Vec::new();
    let mut i: usize = 0;
    assert(all.take(0) =~= Seq::<Seq<char>>::empty());
    assert(Seq::new(messages@.len(), |k: int| messages@[k]@) =~= Seq::<EmailView>::empty());
    while i < subscribers.len()
        invariant
            i <= subscribers.len(),
            subscribers@.len() == all.len(),
            forall|j: int| 0 <= j < all.len() ==> reads_address(#[trigger] subscribers@[j], all[j]),
            Seq::new(messages@.len(), |k: int| messages@[k]@) == issue_messages(
                email_client.sender@,
                all.take(i as int),
                title@,
                html_content@,
                text_content@,
            ),
        decreases subscribers.len() - i,
    {
        let ghost before = Seq::new(messages@.len(), |k: int| messages@[k]@);
        proof {
            assert(all.take(i + 1).drop_last() =~= all.take(i as int));
            assert(all.take(i + 1).last() == all[i as int]);
            assert(reads_address(subscribers@[i as int], all[i as int]));
        }
        match &subscribers[i] {
            Ok(subscriber) => {
                let message = email_client.send_email(
                    &subscriber.email,
                    title,
                    html_content,
                    text_content,
                );
                messages.push(message);
                assert(Seq::new(messages@.len(), |k: int| messages@[k]@) =~= before.push(message@));
            },
            Err(_) => {},
        }
        i += 1;
    }
    assert(all.take(all.len() as int) =~= all);
    messages
}

/// The page that publishes an issue, with the message that waits for it
/// in the session.
pub fn publish_newsletter_form(session: &mut TypedSession) -> (response: Response)
    ensures
        response@ == form_page(Page::Newsletter, old(session).message()),
        final(session).flash is None,
        final(session).user_id == old(session).user_id,
        final(session).id == old(session).id,
{
    show_form_page(Page::Newsletter, session)
}

/// The state after a request to publish an issue, and the response to
/// it. Where a response is saved under the user's key, that response is
/// the answer and nothing changes. Otherwise the issue goes to every
/// confirmed subscriber whose address is well formed, the answer is 200,
/// and it is saved under the key.
pub open spec fn after_publish(
    state: StateView,
    user_id: u128,
    key: Seq<char>,
    title: Seq<char>,
    html: Seq<char>,
    text: Seq<char>,
) -> (StateView, ResponseView) {
    match crate::idempotency::saved_under(state.saved_responses, (user_id, key)) {
        Some(response) => (state, response),
        None => (
            StateView {
                outbox: state.outbox + issue_messages(
                    state.sender,
                    confirmed_addresses(state.subscriptions),
                    title,
                    html,
                    text,
                ),
                saved_responses: state.saved_responses.insert((user_id, key), Some(bare(OK as int))),
                ..state
            },
            bare(OK as int),
        ),
    }
}

/// Publishes an issue on behalf of an authenticated user. A key that is
/// rejected is a validation error and changes nothing. A request whose
/// key the user has used before is answered with the response saved
/// then, and nothing is sent again.
pub fn publish_newsletter(state: &mut AppState, user_id: UserId, form: FormData) -> (outcome:
    Result<Response, PublishError>)
    requires
        old(state).consistent(),
    ensures
        final(state).consistent(),
        match key_rejection(form.idempotency_key@) {
            Some(e) => final(state)@ == old(state)@ && outcome is Err
                && outcome->Err_0 is ValidationError && outcome->Err_0->ValidationError_0@
                == key_error_text(e),
            None => outcome is Ok && (final(state)@, outcome->Ok_0@) == after_publish(
                old(state)@,
                user_id.0,
                form.idempotency_key@,
                form.title@,
                form.html_content@,
                form.text_content@,
            ),
        },
{
    let FormData { title, text_content, html_content, idempotency_key } = form;
    let idempotency_key = match IdempotencyKey::try_from(idempotency_key) {
        Ok(key) => key,
        Err(e) => {
            return Err(PublishError::ValidationError(e.message().to_owned()));
        },
    };
    let ghost before = state@;
    let ghost id = (user_id.0, idempotency_key@);
    let mut progress = advance(
        state,
        Progress::Arrived,
        user_id,
        &idempotency_key,
        title.as_str(),
        html_content.as_str(),
        text_content.as_str(),
    );
    if let Progress::Answered(saved_response) = progress {
        return Ok(saved_response);
    }
    assert(progress@ is Working) by {
        if before.saved_responses.contains_key(id) {
            assert(before.saved_responses[id] is Some);
        }
    }
    progress = advance(
        state,
        progress,
        user_id,
        &idempotency_key,
        title.as_str(),
        html_content.as_str(),
        text_content.as_str(),
    );
    progress = advance(
        state,
        progress,
        user_id,
        &idempotency_key,
        title.as_str(),
        html_content.as_str(),
        text_content.as_str(),
    );
    proof {
        let saved = before.saved_responses;
        assert(state@.saved_responses =~= saved.insert(id, Some(bare(OK as int))));
        assert forall|other: (u128, Seq<char>)| state@.saved_responses.contains_key(other) implies (
        #[trigger] state@.saved_responses[other]) is Some by {
            if other != id {
                assert(saved.contains_key(other));
            }
        }
    }
    match progress {
        Progress::Answered(response) => Ok(response),
        _ => vstd::pervasive::unreached(),
    }
}

impl BodyData {
    /// The issue as a form.
    pub fn into_form(self) -> (form: FormData)
        ensures
            form.title == self.title,
            form.html_content == self.content.html,
            form.text_content == self.content.text,
            form.idempotency_key == self.idempotency_key,
    {
        FormData {
            title: self.title,
            text_content: self.content.text,
            html_content: self.content.html,
            idempotency_key: self.idempotency_key,
        }
    }
}

/// Publishes an issue on behalf of whoever the `Authorization` header
/// names. Nothing is published, and nothing changes, unless the header
/// holds the credentials of an account: a header that cannot be read, an
/// unknown user and a wrong password are authentication errors, and a
/// stored hash that cannot be read is an internal fault.
pub fn publish_newsletter_as(
    state: &mut AppState,
    authorization: AuthorizationHeader,
    form: FormData,
) -> (outcome: Result<Response, PublishError>)
    requires
        old(state).consistent(),
    ensures
        final(state).consistent(),
        match basic_credentials(authorization) {
            Err(_) => final(state)@ == old(state)@ && outcome is Err && outcome->Err_0 is AuthError,
            Ok((username, password)) => match accepted_user(old(state)@.users, username, password) {
                None => final(state)@ == old(state)@ && outcome is Err && (if password_check(
                    hash_for(old(state)@.users, username),
                    vstd::utf8::encode_utf8(password),
                ) is None {
                    outcome->Err_0 is UnexpectedError
                } else {
                    outcome->Err_0 is AuthError
                }),
                Some(user_id) => match key_rejection(form.idempotency_key@) {
                    Some(e) => final(state)@ == old(state)@ && outcome is Err
                        && outcome->Err_0 is ValidationError && outcome->Err_0->ValidationError_0@
                        == key_error_text(e),
                    None => outcome is Ok && (final(state)@, outcome->Ok_0@) == after_publish(
                        old(state)@,
                        user_id,
                        form.idempotency_key@,
                        form.title@,
                        form.html_content@,
                        form.text_content@,
                    ),
                },
            },
        },
{
    let credentials = match basic_authentication(authorization) {
        Ok(credentials) => credentials,
        Err(e) => {
            return Err(PublishError::AuthError(one_cause(e.message())));
        },
    };
    let user_id = match authenticate(&state.users, credentials) {
        Ok(user_id) => user_id,
        Err(e) => {
            return Err(PublishError::from_auth(e));
        },
    };
    publish_newsletter(state, user_id, form)
}

/// Publishing is idempotent: a second request with the same key of the
/// same user, whatever else it holds, is answered with the very response
/// of the first and changes nothing. In particular nothing is handed to
/// the e-mail client again.
pub proof fn publishing_twice_sends_once(
    state: StateView,
    user_id: u128,
    key: Seq<char>,
    first: (Seq<char>, Seq<char>, Seq<char>),
    second: (Seq<char>, Seq<char>, Seq<char>),
)
    ensures
        ({
            let (once, response) = after_publish(state, user_id, key, first.0, first.1, first.2);
            let (twice, replayed) = after_publish(once, user_id, key, second.0, second.1, second.2);
            &&& replayed == response
            &&& twice == once
            &&& twice.outbox == once.outbox
        }),
{
}

/// The first request with a new key sends the issue exactly once to each
/// confirmed subscriber with a well-formed address, and to nobody else.
pub proof fn first_request_sends_to_confirmed_subscribers(
    state: StateView,
    user_id: u128,
    key: Seq<char>,
    title: Seq<char>,
    html: Seq<char>,
    text: Seq<char>,
)
    requires
        !state.saved_responses.contains_key((user_id, key)),
    ensures
        after_publish(state, user_id, key, title, html, text).0.outbox == state.outbox
            + issue_messages(
            state.sender,
            confirmed_addresses(state.subscriptions),
            title,
            html,
            text,
        ),
        after_publish(state, user_id, key, title, html, text).1 == bare(OK as int),
{
}

} // verus!
