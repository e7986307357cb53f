//! Subscribing: validation of the form, the rows and the token to store,
//! and the confirmation e-mail.

use vstd::prelude::*;
use vstd::string::StringExecFns;
use crate::domain::{
    email_rejection, name_rejection, valid_name, NewSubscriber, SubscriberEmail, SubscriberName,
};
use crate::email_client::{EmailClient, EmailView, SendEmailRequest};
use crate::email_grammar::{is_letter_or_digit, valid_email};
use crate::entities::{SubscriptionRow, SubscriptionStatus, TokenRow};
use crate::fresh::{fresh_id, is_random_id, now_micros, sample_alphanumeric};
use crate::http::{bare, Response, BAD_REQUEST, INTERNAL_SERVER_ERROR, OK};
use crate::startup::{AppState, StateView};
use crate::store::{has_email, has_subscriber, has_token};
use crate::text::{
    chain_text, error_chain_fmt, one_cause, push_cause, push_char, transparent_report,
    transparent_text,
};

verus! {

/// Why a subscription request failed.
#[derive(Debug)]
pub enum SubscribeError {
    /// The form was rejected; the message names the rejected field.
    ValidationError(String),
    /// An internal fault, with the messages of its causes, outermost first.
    UnexpectedError(Vec<String>),
}

/// The fault of storing a confirmation token; it carries the message of
/// the store's error.
#[derive(Debug)]
pub struct StoreTokenError(pub String);

/// The fields of the subscription form.
#[derive(Debug)]
pub struct FormData {
    pub name: String,
    pub email: String,
}

/// The length of a subscription token.
pub const TOKEN_LENGTH: usize = 25;

/// Whether `token` has the form of a subscription token: 25 ASCII letters
/// and digits.
pub open spec fn is_token(token: Seq<char>) -> bool {
    &&& token.len() == TOKEN_LENGTH
    &&& forall|i: int| 0 <= i < token.len() ==> is_letter_or_digit(#[trigger] token[i])
}

/// Generate a random 25-characters-long case-sensitive subscription token.
pub fn generate_subscription_token() -> (token: String)
    ensures
        is_token(token@),
{
    let mut token = String::new();
    let mut i: usize = 0;
    while i < TOKEN_LENGTH
        invariant
            i <= TOKEN_LENGTH,
            token@.len() == i,
            forall|j: int| 0 <= j < i ==> is_letter_or_digit(#[trigger] token@[j]),
        decreases TOKEN_LENGTH - i,
    {
        let b = sample_alphanumeric();
        push_char(&mut token, b as char);
        i += 1;
    }
    token
}

/// What validation makes of a form: nothing to object, or the message
/// for the first field that is rejected, the name before the address.
pub open spec fn form_rejection(name: Seq<char>, email: Seq<char>) -> Option<Seq<char>> {
    if !valid_name(name) {
        Some(name_rejection(name))
    } else if !valid_email(email) {
        Some(email_rejection(email))
    } else {
        None
    }
}

/// Validates the form: the subscriber's data, or the message for the
/// first field that is rejected.
pub fn parse_subscriber(form: FormData) -> (parsed: Result<NewSubscriber, String>)
    ensures
        match form_rejection(form.name@, form.email@) {
            Some(message) => parsed is Err && parsed->Err_0@ == message,
            None => parsed is Ok && parsed->Ok_0.name@ == form.name@ && parsed->Ok_0.email@
                == form.email@,
        },
{
    let name = match SubscriberName::parse(form.name) {
        Ok(name) => name,
        Err(message) => {
            return Err(message);
        },
    };
    let email = match SubscriberEmail::parse(form.email) {
        Ok(email) => email,
        Err(message) => {
            return Err(message);
        },
    };
    Ok(NewSubscriber { email, name })
}

impl NewSubscriber {
    /// Validates the form, as `parse_subscriber` does.
    pub fn try_from(form: FormData) -> (parsed: Result<NewSubscriber, String>)
        ensures
            match form_rejection(form.name@, form.email@) {
                Some(message) => parsed is Err && parsed->Err_0@ == message,
                None => parsed is Ok && parsed->Ok_0.name@ == form.name@ && parsed->Ok_0.email@
                    == form.email@,
            },
    {
        parse_subscriber(form)
    }
}

/// The row of a new subscriber: the validated data, with the given
/// identity and time, pending confirmation.
pub fn insert_subscriber(subscriber_id: u128, new_subscriber: &NewSubscriber, now: i64) -> (row:
    SubscriptionRow)
    ensures
        row.id == subscriber_id,
        row.name@ == new_subscriber.name@,
        row.email@ == new_subscriber.email@,
        row.subscribed_at == now,
        row.status == SubscriptionStatus::PendingConfirmation,
        valid_name(row.name@),
        valid_email(row.email@),
{
    SubscriptionRow {
        id: subscriber_id,
        name: new_subscriber.name.as_ref().to_owned(),
        email: new_subscriber.email.as_ref().to_owned(),
        subscribed_at: now,
        status: SubscriptionStatus::PendingConfirmation,
    }
}

/// The row that ties a token to a subscriber.
pub fn store_token(subscription_token: &str, subscriber_id: u128) -> (row: TokenRow)
    ensures
        row.subscription_token@ == subscription_token@,
        row.subscriber_id == subscriber_id,
{
    TokenRow { subscription_token: subscription_token.to_owned(), subscriber_id }
}

/// The link that confirms a subscription.
pub open spec fn confirmation_link(base_url: Seq<char>, token: Seq<char>) -> Seq<char> {
    base_url + "/subscriptions/confirm?subscription_token="@ + token
}

/// The plain-text body of the confirmation e-mail.
pub open spec fn confirmation_text(link: Seq<char>) -> Seq<char> {
    "Welcome to our newsletter!\nVisit "@ + link + " to confirm your subscription."@
}

/// The HTML body of the confirmation e-mail.
pub open spec fn confirmation_html(link: Seq<char>) -> Seq<char> {
    "Welcome to our newsletter!<br />Click <a href=\""@ + link
        + "\">here</a> to confirm your subscription."@
}

/// The confirmation e-mail for a new subscriber: both bodies hold the
/// link that embeds the token.
pub fn send_confirmation_email(
    email_client: &EmailClient,
    new_subscriber: &NewSubscriber,
    base_url: &str,
    subscription_token: &str,
) -> (request: SendEmailRequest)
    ensures
        request@ == (EmailView {
            from: email_client.sender@,
            to: new_subscriber.email@,
            subject: "Welcome!"@,
            html_body: confirmation_html(confirmation_link(base_url@, subscription_token@)),
            text_body: confirmation_text(confirmation_link(base_url@, subscription_token@)),
        }),
{
    let mut confirmation_link = base_url.to_owned();
    confirmation_link.append("/subscriptions/confirm?subscription_token=");
    confirmation_link.append(subscription_token);
    let mut plain_body = String::from_str("Welcome to our newsletter!\nVisit ");
    plain_body.append(confirmation_link.as_str());
    plain_body.append(" to confirm your subscription.");
    let mut html_body = String::from_str("Welcome to our newsletter!<br />Click <a href=\"");
    html_body.append(confirmation_link.as_str());
    html_body.append("\">here</a> to confirm your subscription.");
    email_client.send_email(
        &new_subscriber.email,
        "Welcome!",
        html_body.as_str(),
        plain_body.as_str(),
    )
}

/// What a valid subscription request asks for: the two rows to store in
/// one transaction, and the e-mail to send once they are stored.
#[derive(Debug)]
pub struct Subscription {
    pub subscriber: SubscriptionRow,
    pub token: TokenRow,
    pub email: SendEmailRequest,
}

/// Whether `plan` is what the form asks for: a subscriber with a random
/// identity and the form's data who is pending confirmation, a token that
/// refers to that subscriber, and the confirmation e-mail with that token
/// to the subscriber's address.
pub open spec fn subscription_for(
    plan: Subscription,
    name: Seq<char>,
    email: Seq<char>,
    sender: Seq<char>,
    base_url: Seq<char>,
) -> bool {
    let token = plan.token.subscription_token@;
    &&& is_random_id(plan.subscriber.id)
    &&& plan.subscriber.name@ == name
    &&& plan.subscriber.email@ == email
    &&& plan.subscriber.status == SubscriptionStatus::PendingConfirmation
    &&& plan.token.subscriber_id == plan.subscriber.id
    &&& is_token(token)
    &&& plan.email@ == (EmailView {
        from: sender,
        to: email,
        subject: "Welcome!"@,
        html_body: confirmation_html(confirmation_link(base_url, token)),
        text_body: confirmation_text(confirmation_link(base_url, token)),
    })
}

/// Takes a subscription request up to what must be stored and sent. A
/// form that validation rejects gives a validation error and nothing to
/// store; any other form gives one subscriber row, pending confirmation,
/// and one token row that refers to it.
pub fn plan_subscription(email_client: &EmailClient, base_url: &str, form: FormData) -> (outcome:
    Result<
    Subscription,
    SubscribeError,
>)
    ensures
        match form_rejection(form.name@, form.email@) {
            Some(message) => outcome is Err && outcome->Err_0 is ValidationError
                && outcome->Err_0->ValidationError_0@ == message,
            None => outcome is Ok && subscription_for(
                outcome->Ok_0,
                form.name@,
                form.email@,
                email_client.sender@,
                base_url@,
            ),
        },
{
    let new_subscriber = match NewSubscriber::try_from(form) {
        Ok(new_subscriber) => new_subscriber,
        Err(message) => {
            return Err(SubscribeError::ValidationError(message));
        },
    };
    let subscriber = insert_subscriber(fresh_id(), &new_subscriber, now_micros());
    let subscription_token = generate_subscription_token();
    let token = store_token(subscription_token.as_str(), subscriber.id);
    let email = send_confirmation_email(
        email_client,
        &new_subscriber,
        base_url,
        subscription_token.as_str(),
    );
    Ok(Subscription { subscriber, token, email })
}

/// The step of a subscription at which an outside fault can occur.
#[derive(Clone, Copy, Debug, PartialEq, Eq, Structural)]
pub enum SubscribeStep {
    AcquireConnection,
    InsertSubscriber,
    StoreToken,
    Commit,
    SendEmail,
}

/// What the service says of a fault at a step.
pub open spec fn step_context(step: SubscribeStep) -> Seq<char> {
    match step {
        SubscribeStep::AcquireConnection => "Failed to acquire a Postgres connection from the pool"@,
        SubscribeStep::InsertSubscriber => "Failed to insert new subscriber in the database."@,
        SubscribeStep::StoreToken => "Failed to store the confirmation token a new subscriber."@,
        SubscribeStep::Commit => "Failed to commit SQL transaction to store a new subscriber."@,
        SubscribeStep::SendEmail => "Failed to send a confirmation email"@,
    }
}

/// The message of a fault of storing a token.
pub open spec fn store_token_text() -> Seq<char> {
    "A database error was encountered while trying to store a confirmation token."@
}

/// The causes of a fault at a step, outermost first: what the service
/// says of the step, for the token also what it says of storing one, and
/// last the outside error's own message.
pub open spec fn fault_causes(step: SubscribeStep, cause: Seq<char>) -> Seq<Seq<char>> {
    if step == SubscribeStep::StoreToken {
        seq![step_context(step), store_token_text(), cause]
    } else {
        seq![step_context(step), cause]
    }
}

impl StoreTokenError {
    /// The message, which tells nothing of the cause.
    pub fn message(&self) -> (text: &'static str)
        ensures
            text@ == store_token_text(),
    {
        "A database error was encountered while trying to store a confirmation token."
    }

    /// The report of the fault with its cause.
    pub fn report(&self) -> (report: String)
        ensures
            report@ == chain_text(store_token_text(), seq![self.0@]),
    {
        let causes = one_cause(self.0.as_str());
        error_chain_fmt(self.message(), &causes)
    }
}

impl SubscribeStep {
    /// What the service says of a fault at this step.
    pub fn context(&self) -> (text: &'static str)
        ensures
            text@ == step_context(*self),
    {
        match self {
            SubscribeStep::AcquireConnection => "Failed to acquire a Postgres connection from the pool",
            SubscribeStep::InsertSubscriber => "Failed to insert new subscriber in the database.",
            SubscribeStep::StoreToken => "Failed to store the confirmation token a new subscriber.",
            SubscribeStep::Commit => "Failed to commit SQL transaction to store a new subscriber.",
            SubscribeStep::SendEmail => "Failed to send a confirmation email",
        }
    }
}

/// The status code that answers an error.
pub open spec fn subscribe_error_status(e: SubscribeError) -> int {
    match e {
        SubscribeError::ValidationError(_) => BAD_REQUEST as int,
        SubscribeError::UnexpectedError(_) => INTERNAL_SERVER_ERROR as int,
    }
}

impl SubscribeError {
    /// The report of the error for the log: a validation error reports
    /// its message, an internal fault its causes.
    pub fn report(&self) -> (report: String)
        ensures
            report@ == (match *self {
                SubscribeError::ValidationError(message) => chain_text(message@, Seq::empty()),
                SubscribeError::UnexpectedError(causes) => transparent_text(causes.deep_view()),
            }),
    {
        match self {
            SubscribeError::ValidationError(message) => {
                let none: Vec<String> = Vec::new();
                assert(none.deep_view() =~= Seq::<Seq<char>>::empty());
                error_chain_fmt(message.as_str(), &none)
            },
            SubscribeError::UnexpectedError(causes) => transparent_report(causes),
        }
    }

    /// A validation error with the given message.
    pub fn from(e: String) -> (error: SubscribeError)
        ensures
            error == SubscribeError::ValidationError(e),
    {
        SubscribeError::ValidationError(e)
    }

    /// The internal fault for an outside error at a step.
    pub fn fault(step: SubscribeStep, cause: String) -> (error: SubscribeError)
        ensures
            error is UnexpectedError,
            error->UnexpectedError_0.deep_view() == fault_causes(step, cause@),
    {
        let mut causes = one_cause(step.context());
        if step == SubscribeStep::StoreToken {
            let inner = StoreTokenError(cause);
            push_cause(&mut causes, inner.message().to_owned());
            push_cause(&mut causes, inner.0);
        } else {
            push_cause(&mut causes, cause);
        }
        assert(causes.deep_view() =~= fault_causes(step, cause@));
        SubscribeError::UnexpectedError(causes)
    }

    /// The response to an error: 400 for a rejected form, 500 for an
    /// internal fault, and nothing of the cause.
    pub fn into_response(self) -> (response: Response)
        ensures
            response@ == bare(subscribe_error_status(self)),
    {
        match self {
            SubscribeError::ValidationError(_) => Response::from_status(BAD_REQUEST),
            SubscribeError::UnexpectedError(_) => Response::from_status(INTERNAL_SERVER_ERROR),
        }
    }
}

/// The answer to a subscription request once the outside work was tried:
/// 200 where nothing failed, else the fault of the first step that did.
pub fn subscribe_response(failure: Option<(SubscribeStep, String)>) -> (outcome: Result<
    Response,
    SubscribeError,
>)
    ensures
        failure is None ==> outcome is Ok && outcome->Ok_0@ == bare(OK as int),
        failure is Some ==> outcome is Err && outcome->Err_0 is UnexpectedError
            && outcome->Err_0->UnexpectedError_0.deep_view() == fault_causes(
            failure->Some_0.0,
            failure->Some_0.1@,
        ),
{
    match failure {
        None => Ok(Response::from_status(OK)),
        Some((step, cause)) => Err(SubscribeError::fault(step, cause)),
    }
}

/// Whether the store takes the two rows of a subscription: the identity,
/// the address and the token are new.
pub open spec fn can_store(state: StateView, plan: Subscription) -> bool {
    &&& !has_subscriber(state.subscriptions, plan.subscriber.id)
    &&& !has_email(state.subscriptions, plan.subscriber.email@)
    &&& !has_token(state.tokens, plan.token.subscription_token@)
    &&& plan.token.subscriber_id == plan.subscriber.id
}

/// The state after a subscription was stored and its e-mail handed over:
/// one row more in each table, one message more in the outbox.
pub open spec fn after_subscription(state: StateView, plan: Subscription) -> StateView {
    StateView {
        subscriptions: state.subscriptions.push(plan.subscriber@),
        tokens: state.tokens.push(plan.token@),
        outbox: state.outbox.push(plan.email@),
        ..state
    }
}

/// The step at which the store refuses a subscription: storing the token
/// where the token is taken, else inserting the subscriber.
pub open spec fn refused_step(state: StateView, plan: Subscription) -> SubscribeStep {
    if has_token(state.tokens, plan.token.subscription_token@) {
        SubscribeStep::StoreToken
    } else {
        SubscribeStep::InsertSubscriber
    }
}

/// Whether `after` and `outcome` are what a request with a valid form
/// leads to, for the subscription `plan` that was drawn up for it: where
/// the store takes the rows, they are stored, the e-mail is handed over
/// and the answer is 200; where it does not, nothing changes and the
/// outcome is an internal fault.
pub open spec fn subscribed(
    before: StateView,
    after: StateView,
    outcome: Result<Response, SubscribeError>,
    plan: Subscription,
) -> bool {
    if can_store(before, plan) {
        &&& after == after_subscription(before, plan)
        &&& outcome is Ok
        &&& outcome->Ok_0@ == bare(OK as int)
    } else {
        &&& after == before
        &&& outcome is Err
        &&& outcome->Err_0 is UnexpectedError
        &&& outcome->Err_0->UnexpectedError_0.deep_view() == fault_causes(
            refused_step(before, plan),
            "duplicate key"@,
        )
    }
}

/// Stores what a subscription asks for and hands its e-mail over.
pub fn store_subscription(state: &mut AppState, plan: Subscription) -> (outcome: Result<
    Response,
    SubscribeError,
>)
    requires
        old(state).consistent(),
    ensures
        final(state).consistent(),
        subscribed(old(state)@, final(state)@, outcome, plan),
{
    let token_is_stored = state.subscribers.get_subscriber_id_from_token(
        plan.token.subscription_token.as_str(),
    ).is_some();
    let Subscription { subscriber, token, email } = plan;
    if state.subscribers.insert(subscriber, token) {
        state.send(email);
        subscribe_response(None)
    } else {
        let step = if token_is_stored {
            SubscribeStep::StoreToken
        } else {
            SubscribeStep::InsertSubscriber
        };
        subscribe_response(Some((step, String::from_str("duplicate key"))))
    }
}

/// Handles a subscription request. A form that validation rejects is
/// answered with a validation error and changes nothing. Any other form
/// leads to one new subscriber, pending confirmation, one token that
/// refers to it, and one confirmation e-mail, unless the store refuses
/// the rows.
pub fn subscribe(state: &mut AppState, form: FormData) -> (outcome: Result<Response, SubscribeError>)
    requires
        old(state).consistent(),
    ensures
        final(state).consistent(),
        match form_rejection(form.name@, form.email@) {
            Some(message) => final(state)@ == old(state)@ && outcome is Err
                && outcome->Err_0 is ValidationError && outcome->Err_0->ValidationError_0@
                == message,
            None => exists|plan: Subscription|
                subscription_for(
                    plan,
                    form.name@,
                    form.email@,
                    old(state)@.sender,
                    old(state)@.base_url,
                ) && #[trigger] subscribed(old(state)@, final(state)@, outcome, plan),
        },
{
    let plan = match plan_subscription(&state.email_client, state.base_url.as_str(), form) {
        Ok(plan) => plan,
        Err(e) => {
            return Err(e);
        },
    };
    let outcome = store_subscription(state, plan);
    assert(subscribed(old(state)@, state@, outcome, plan));
    outcome
}

/// A valid request whose identity, address and token are new shows in
/// the store as exactly one new subscriber, pending confirmation, and
/// exactly one new token, which refers to that subscriber.
pub proof fn subscription_adds_one_subscriber_and_one_token(
    before: StateView,
    after: StateView,
    outcome: Result<Response, SubscribeError>,
    plan: Subscription,
    name: Seq<char>,
    email: Seq<char>,
)
    requires
        subscription_for(plan, name, email, before.sender, before.base_url),
        subscribed(before, after, outcome, plan),
        can_store(before, plan),
    ensures
        outcome is Ok && outcome->Ok_0@.status == OK,
        after.subscriptions.len() == before.subscriptions.len() + 1,
        after.subscriptions.drop_last() == before.subscriptions,
        after.subscriptions.last().name == name,
        after.subscriptions.last().email == email,
        after.subscriptions.last().status == SubscriptionStatus::PendingConfirmation,
        after.tokens.len() == before.tokens.len() + 1,
        after.tokens.drop_last() == before.tokens,
        after.tokens.last().subscriber_id == after.subscriptions.last().id,
{
    assert(after.subscriptions.drop_last() =~= before.subscriptions);
    assert(after.tokens.drop_last() =~= before.tokens);
}

/// A form with an address that is not well formed is answered with 400
/// and stores nothing, whatever the rest of the form holds.
pub proof fn invalid_email_is_rejected(name: Seq<char>, email: Seq<char>)
    requires
        !valid_email(email),
    ensures
        form_rejection(name, email) is Some,
        forall|e: SubscribeError| e is ValidationError ==> subscribe_error_status(e) == BAD_REQUEST,
{
}

} // verus!
