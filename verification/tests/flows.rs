use zero2prod::authentication::{AuthorizationHeader, UserId};
use zero2prod::entities::UserRow;
use zero2prod::domain::SubscriberEmail;
use zero2prod::email_client::EmailClient;
use zero2prod::entities::SubscriptionStatus;
use zero2prod::routes::health_check::{greet, health_check, home, index};
use zero2prod::routes::newsletters::{
    delivery_failure, get_confirmed_subscribers, issue, publish_newsletter,
    publish_newsletter_as, BodyData, Content, FormData as IssueForm, PublishError,
};
use zero2prod::routes::subscriptions::{
    generate_subscription_token, parse_subscriber, plan_subscription, store_subscription,
    subscribe,
    subscribe_response, FormData, StoreTokenError, SubscribeError, SubscribeStep,
};
use zero2prod::routes::subscriptions_confirm::{
    confirm, confirmation_response, subscriber_to_confirm, Parameters,
};
use zero2prod::signature::HmacSecret;
use zero2prod::startup::AppState;

fn client() -> EmailClient {
    EmailClient::new(
        "http://127.0.0.1:9999".to_string(),
        SubscriberEmail::parse("newsletter@example.com".to_string()).unwrap(),
        "api-token".to_string(),
    )
}

fn state() -> AppState {
    AppState::new(client(), "http://127.0.0.1".to_string(), HmacSecret("secret".to_string()))
}

fn form(name: &str, email: &str) -> FormData {
    FormData { name: name.to_string(), email: email.to_string() }
}

fn issue_form(key: &str) -> IssueForm {
    IssueForm {
        title: "Newsletter title".to_string(),
        text_content: "Newsletter body as plain text".to_string(),
        html_content: "<p>Newsletter body as HTML</p>".to_string(),
        idempotency_key: key.to_string(),
    }
}

fn token_in(body: &str) -> String {
    let marker = "subscription_token=";
    let start = body.find(marker).unwrap() + marker.len();
    body[start..start + 25].to_string()
}

#[test]
fn health_check_works() {
    let response = health_check();
    assert_eq!(response.status, 200);
    assert_eq!(response.body.len(), 0);
}

#[test]
fn plain_pages_say_what_they_should() {
    assert_eq!(index(), "Rust Rocks!");
    assert_eq!(greet("Ursula"), "Hello, Ursula");
    assert_eq!(home("admin"), "Welcome: admin");
}

#[test]
fn subscriptions_subscribe_returns_a_200_for_valid_form_data() {
    let mut app = state();
    let response = subscribe(&mut app, form("le guin", "ursula_le_guin@gmail.com")).unwrap();
    assert_eq!(200, response.status);
}

#[test]
fn health_check_subscribe_returns_a_200_for_valid_form_data() {
    let mut app = state();
    let response = subscribe(&mut app, form("le guin", "ursula_le_guin@gmail.com")).unwrap();
    assert_eq!(200, response.status);
    assert_eq!(app.outbox[0].to, "ursula_le_guin@gmail.com");
    let token = token_in(&app.outbox[0].text_body);
    assert!(app.subscribers.get_subscriber_id_from_token(&token).is_some());
}

#[test]
fn health_check_subscribe_returns_a_400_when_fields_are_present_but_invalid() {
    let test_cases = vec![
        ("", "ursula_le_guin@gmail.com", "empty name"),
        ("Ursula", "", "empty email"),
        ("Ursula", "definitely-not-an-email", "invalid email"),
    ];
    for (name, email, description) in test_cases {
        let error = parse_subscriber(form(name, email)).map(|_| ()).unwrap_err();
        assert_eq!(
            400,
            SubscribeError::from(error).into_response().status,
            "The API did not return a 400 Bad Request when the payload was {}.",
            description
        );
    }
}

#[test]
fn subscribe_persists_the_new_subscriber() {
    let mut app = state();
    let response = subscribe(&mut app, form("le guin", "ursula_le_guin@gmail.com")).unwrap();
    assert_eq!(200, response.status);
    assert_eq!(app.subscribers.confirmed_subscribers(), Vec::<String>::new());
    let token = token_in(&app.outbox[0].text_body);
    let id = app.subscribers.get_subscriber_id_from_token(&token).unwrap();
    assert_eq!(app.subscribers.status_of(id), Some(SubscriptionStatus::PendingConfirmation));
    assert_eq!(SubscriptionStatus::PendingConfirmation.as_str(), "pending_confirmation");
}

#[test]
fn subscriptions_subscribe_returns_a_400_when_fields_are_present_but_invalid() {
    let test_cases = vec![
        ("", "ursula_le_guin@gmail.com", "empty name"),
        ("Ursula", "", "empty email"),
        ("Ursula", "definitely-not-an-email", "invalid email"),
    ];
    for (name, email, description) in test_cases {
        let mut app = state();
        let error = subscribe(&mut app, form(name, email)).unwrap_err();
        assert!(matches!(error, SubscribeError::ValidationError(_)));
        assert_eq!(
            400,
            error.into_response().status,
            "The API did not return a 400 Bad Request when the payload was {}.",
            description
        );
        assert!(app.outbox.is_empty());
        assert_eq!(app.subscribers.confirmed_subscribers(), Vec::<String>::new());
    }
}

#[test]
fn subscribe_sends_a_configuration_email_for_valid_data() {
    let mut app = state();
    let response = subscribe(&mut app, form("le guin", "ursula_le_guin@gmail.com")).unwrap();
    assert_eq!(200, response.status);
    assert_eq!(app.outbox.len(), 1);
    assert_eq!(app.outbox[0].to, "ursula_le_guin@gmail.com");
    assert_eq!(app.outbox[0].from, "newsletter@example.com");
    assert_eq!(app.outbox[0].subject, "Welcome!");
}

#[test]
fn subscribe_sends_a_confirmation_email_with_a_link() {
    let mut app = state();
    let _ = subscribe(&mut app, form("le guin", "ursula_le_guin@gmail.com"));
    let email = &app.outbox[0];
    let token = token_in(&email.text_body);
    assert_eq!(token, token_in(&email.html_body));
    let link = format!("http://127.0.0.1/subscriptions/confirm?subscription_token={}", token);
    assert_eq!(
        email.text_body,
        format!("Welcome to our newsletter!\nVisit {} to confirm your subscription.", link)
    );
    assert_eq!(
        email.html_body,
        format!(
            "Welcome to our newsletter!<br />Click <a href=\"{}\">here</a> to confirm your subscription.",
            link
        )
    );
}

#[test]
fn subscribe_fails_if_there_is_a_fatal_database_error() {
    // Arrange: the form is fine, but the store fails when the row is inserted.
    let plan = plan_subscription(
        &client(),
        "http://127.0.0.1",
        form("le\u{ff05}20guin", "ursula_le_guin@gmail.com"),
    );
    assert!(plan.is_ok());
    let fault = "column \"email\" of relation \"subscriptions\" does not exist".to_string();

    // Act
    let error = subscribe_response(Some((SubscribeStep::InsertSubscriber, fault))).unwrap_err();

    // Assert
    assert_eq!(error.into_response().status, 500);
}

#[test]
fn a_second_subscription_with_the_same_address_is_refused_by_the_store() {
    let mut app = state();
    subscribe(&mut app, form("le guin", "ursula_le_guin@gmail.com")).unwrap();
    let error = subscribe(&mut app, form("another", "ursula_le_guin@gmail.com")).unwrap_err();
    assert!(matches!(error, SubscribeError::UnexpectedError(_)));
    assert_eq!(error.into_response().status, 500);
    assert_eq!(app.outbox.len(), 1);
}

#[test]
fn the_identity_of_a_new_subscriber_is_a_random_identifier() {
    for _ in 0..20 {
        let plan =
            plan_subscription(&client(), "x", form("le guin", "ursula_le_guin@gmail.com")).unwrap();
        assert_eq!((plan.subscriber.id >> 76) & 0xf, 4);
        assert_eq!((plan.subscriber.id >> 62) & 0x3, 2);
    }
}

#[test]
fn a_subscription_token_has_25_letters_and_digits() {
    for _ in 0..50 {
        let token = generate_subscription_token();
        assert_eq!(token.len(), 25);
        assert!(token.chars().all(|c| c.is_ascii_alphanumeric()));
    }
    assert_ne!(generate_subscription_token(), generate_subscription_token());
}

#[test]
fn a_plan_ties_the_token_to_the_subscriber() {
    let plan = plan_subscription(
        &client(),
        "https://news.example.com",
        form("le guin", "ursula_le_guin@gmail.com"),
    )
    .unwrap();
    assert_eq!(plan.subscriber.name, "le guin");
    assert_eq!(plan.subscriber.email, "ursula_le_guin@gmail.com");
    assert_eq!(plan.subscriber.status, SubscriptionStatus::PendingConfirmation);
    assert_eq!(plan.token.subscriber_id, plan.subscriber.id);
    assert_eq!(plan.token.subscription_token.len(), 25);
    assert!(plan.subscriber.subscribed_at > 1_600_000_000_000_000);
    assert!(plan.email.text_body.contains(&format!(
        "https://news.example.com/subscriptions/confirm?subscription_token={}",
        plan.token.subscription_token
    )));
    let other = plan_subscription(&client(), "x", form("le guin", "ursula_le_guin@gmail.com"))
        .unwrap();
    assert_ne!(other.subscriber.id, plan.subscriber.id);
    assert_ne!(other.token.subscription_token, plan.token.subscription_token);
}

#[test]
fn a_plan_that_the_store_refuses_changes_nothing() {
    let mut app = state();
    let plan = plan_subscription(&client(), "x", form("a", "a@example.com")).unwrap();
    let token = plan.token.subscription_token.clone();
    let id = plan.subscriber.id;
    assert_eq!(store_subscription(&mut app, plan).unwrap().status, 200);
    // The same token for another subscriber.
    let mut again = plan_subscription(&client(), "x", form("b", "b@example.com")).unwrap();
    again.token.subscription_token = token.clone();
    let error = store_subscription(&mut app, again).unwrap_err();
    match &error {
        SubscribeError::UnexpectedError(causes) => {
            assert_eq!(causes[0], "Failed to store the confirmation token a new subscriber.");
            assert_eq!(
                causes[1],
                "A database error was encountered while trying to store a confirmation token."
            );
        }
        other => panic!("{:?}", other),
    }
    assert_eq!(app.outbox.len(), 1);
    assert_eq!(app.subscribers.get_subscriber_id_from_token(&token), Some(id));
    // A token that refers to another subscriber.
    let mut broken = plan_subscription(&client(), "x", form("c", "c@example.com")).unwrap();
    broken.token.subscriber_id = broken.subscriber.id.wrapping_add(1);
    let broken_id = broken.subscriber.id;
    assert!(store_subscription(&mut app, broken).is_err());
    assert_eq!(app.subscribers.status_of(broken_id), None);
}

#[test]
fn each_failed_step_has_its_own_context() {
    let cases = [
        (SubscribeStep::AcquireConnection, "Failed to acquire a Postgres connection from the pool"),
        (SubscribeStep::InsertSubscriber, "Failed to insert new subscriber in the database."),
        (SubscribeStep::Commit, "Failed to commit SQL transaction to store a new subscriber."),
        (SubscribeStep::SendEmail, "Failed to send a confirmation email"),
    ];
    for (step, context) in cases {
        let error = subscribe_response(Some((step, "cause".to_string()))).unwrap_err();
        assert_eq!(error.report(), format!("{}\n\nCaused by:\n\tcause\n", context));
        assert_eq!(error.into_response().status, 500);
    }
    let error = SubscribeError::fault(SubscribeStep::StoreToken, "cause".to_string());
    assert_eq!(
        error.report(),
        "Failed to store the confirmation token a new subscriber.\n\nCaused by:\n\tA database error was encountered while trying to store a confirmation token.\nCaused by:\n\tcause\n"
    );
    assert_eq!(subscribe_response(None).unwrap().status, 200);
    assert_eq!(
        StoreTokenError("cause".to_string()).report(),
        "A database error was encountered while trying to store a confirmation token.\n\nCaused by:\n\tcause\n"
    );
    let error = SubscribeError::from("bad name".to_string());
    assert_eq!(error.report(), "bad name\n\n");
    assert_eq!(error.into_response().status, 400);
}

#[test]
fn confirming_twice_is_answered_with_200_both_times() {
    let mut app = state();
    subscribe(&mut app, form("le guin", "ursula_le_guin@gmail.com")).unwrap();
    let token = token_in(&app.outbox[0].text_body);
    let id = app.subscribers.get_subscriber_id_from_token(&token).unwrap();
    let parameters = Parameters { subscription_token: token };
    assert_eq!(confirm(&mut app, &parameters).status, 200);
    assert_eq!(app.subscribers.status_of(id), Some(SubscriptionStatus::Confirmed));
    assert_eq!(confirm(&mut app, &parameters).status, 200);
    assert_eq!(app.subscribers.status_of(id), Some(SubscriptionStatus::Confirmed));
    assert_eq!(app.subscribers.confirmed_subscribers(), vec!["ursula_le_guin@gmail.com"]);
}

#[test]
fn an_unknown_token_is_answered_with_401_and_confirms_nobody() {
    let mut app = state();
    subscribe(&mut app, form("le guin", "ursula_le_guin@gmail.com")).unwrap();
    let token = token_in(&app.outbox[0].text_body);
    let id = app.subscribers.get_subscriber_id_from_token(&token).unwrap();
    for unknown in ["", "unknown", &token[..24], &token.to_uppercase().to_lowercase().repeat(2)] {
        let parameters = Parameters { subscription_token: unknown.to_string() };
        assert_eq!(confirm(&mut app, &parameters).status, 401);
    }
    assert_eq!(app.subscribers.status_of(id), Some(SubscriptionStatus::PendingConfirmation));
    assert_eq!(app.subscribers.confirmed_subscribers(), Vec::<String>::new());
}

#[test]
fn the_steps_of_a_confirmation_answer_faults_with_500() {
    assert_eq!(subscriber_to_confirm(Ok(Some(5))).unwrap(), 5);
    assert_eq!(subscriber_to_confirm(Ok(None)).unwrap_err().status, 401);
    assert_eq!(subscriber_to_confirm(Err("down".to_string())).unwrap_err().status, 500);
    assert_eq!(confirmation_response(Ok(())).status, 200);
    assert_eq!(confirmation_response(Err("down".to_string())).status, 500);
    assert_eq!(SubscriptionStatus::PendingConfirmation.confirm(), SubscriptionStatus::Confirmed);
    assert_eq!(SubscriptionStatus::Confirmed.confirm(), SubscriptionStatus::Confirmed);
    assert_eq!(SubscriptionStatus::Confirmed.as_str(), "confirmed");
}

fn confirmed_app(addresses: &[&str]) -> AppState {
    let mut app = state();
    for (i, address) in addresses.iter().enumerate() {
        subscribe(&mut app, form(&format!("name {}", i), address)).unwrap();
        let token = token_in(&app.outbox[i].text_body);
        confirm(&mut app, &Parameters { subscription_token: token });
    }
    app.outbox.clear();
    app
}

#[test]
fn newsletters_are_not_delivered_to_unconfirmed_subscribers() {
    let mut app = state();
    subscribe(&mut app, form("le guin", "ursula_le_guin@gmail.com")).unwrap();
    let response = publish_newsletter(&mut app, UserId(1), issue_form("key-1")).unwrap();
    assert_eq!(response.status, 200);
    assert_eq!(app.outbox.len(), 1);
    assert_eq!(app.outbox[0].subject, "Welcome!");
}

#[test]
fn newsletters_are_delivered_to_confirmed_subscribers() {
    let mut app = confirmed_app(&["a@example.com", "b@example.com"]);
    subscribe(&mut app, form("pending", "c@example.com")).unwrap();
    app.outbox.clear();
    let response = publish_newsletter(&mut app, UserId(1), issue_form("key-1")).unwrap();
    assert_eq!(response.status, 200);
    assert!(response.headers.is_empty());
    assert!(response.body.is_empty());
    let recipients: Vec<&str> = app.outbox.iter().map(|m| m.to.as_str()).collect();
    assert_eq!(recipients, vec!["a@example.com", "b@example.com"]);
    for message in &app.outbox {
        assert_eq!(message.from, "newsletter@example.com");
        assert_eq!(message.subject, "Newsletter title");
        assert_eq!(message.html_body, "<p>Newsletter body as HTML</p>");
        assert_eq!(message.text_body, "Newsletter body as plain text");
    }
}

#[test]
fn newsletter_creation_is_idempotent() {
    let mut app = confirmed_app(&["a@example.com"]);
    let first = publish_newsletter(&mut app, UserId(1), issue_form("key-1")).unwrap();
    assert_eq!(app.outbox.len(), 1);
    let second = publish_newsletter(&mut app, UserId(1), issue_form("key-1")).unwrap();
    assert_eq!(first, second);
    assert_eq!(app.outbox.len(), 1);
    // Another key, or another user, is another attempt.
    publish_newsletter(&mut app, UserId(1), issue_form("key-2")).unwrap();
    assert_eq!(app.outbox.len(), 2);
    publish_newsletter(&mut app, UserId(2), issue_form("key-1")).unwrap();
    assert_eq!(app.outbox.len(), 3);
}

#[test]
fn a_replayed_key_answers_with_the_saved_response_whatever_the_form_holds() {
    let mut app = confirmed_app(&["a@example.com"]);
    let first = publish_newsletter(&mut app, UserId(1), issue_form("key-1")).unwrap();
    let mut changed = issue_form("key-1");
    changed.title = "Another title".to_string();
    let second = publish_newsletter(&mut app, UserId(1), changed).unwrap();
    assert_eq!(first, second);
    assert_eq!(app.outbox.len(), 1);
    assert_eq!(app.outbox[0].subject, "Newsletter title");
}

#[test]
fn a_rejected_key_is_a_validation_error() {
    let mut app = confirmed_app(&["a@example.com"]);
    for key in [String::new(), "k".repeat(50)] {
        let error = publish_newsletter(&mut app, UserId(1), issue_form(&key)).unwrap_err();
        assert!(matches!(error, PublishError::ValidationError(_)));
        assert_eq!(error.into_response().status, 400);
    }
    assert!(app.outbox.is_empty());
}

#[test]
fn a_stored_address_that_is_malformed_is_skipped() {
    let addresses = vec![
        "a@example.com".to_string(),
        "not-an-address".to_string(),
        "b@example.com".to_string(),
    ];
    let read = get_confirmed_subscribers(addresses.clone());
    assert_eq!(read.len(), 3);
    assert_eq!(read[0].as_ref().unwrap().email.as_ref(), "a@example.com");
    assert_eq!(
        read[1].as_ref().unwrap_err(),
        "not-an-address is not a valid subscriber email."
    );
    assert_eq!(read[2].as_ref().unwrap().email.as_ref(), "b@example.com");
    let messages = issue(&client(), addresses, "t", "<b>h</b>", "x");
    let recipients: Vec<&str> = messages.iter().map(|m| m.to.as_str()).collect();
    assert_eq!(recipients, vec!["a@example.com", "b@example.com"]);
    assert!(issue(&client(), Vec::new(), "t", "h", "x").is_empty());
}

#[test]
fn a_failed_delivery_is_logged_with_its_recipient() {
    assert_eq!(
        delivery_failure("a@example.com", "connection refused".to_string()),
        vec![
            "Failed to send newsletter issue to a@example.com".to_string(),
            "connection refused".to_string()
        ]
    );
}

#[test]
fn publish_errors_map_to_their_responses() {
    let response = PublishError::AuthError(vec!["x".to_string()]).into_response();
    assert_eq!(response.status, 401);
    assert_eq!(response.headers.len(), 1);
    assert_eq!(response.headers[0].name, "WWW-Authenticate");
    assert_eq!(response.headers[0].value, b"Basic realm=\"publish\"".to_vec());
    let response = PublishError::UnexpectedError(vec!["x".to_string()]).into_response();
    assert_eq!(response.status, 500);
    assert!(response.headers.is_empty());
    assert_eq!(
        PublishError::AuthError(vec!["Invalid credentials.".to_string()]).report(),
        "Authentication failed\n\nCaused by:\n\tInvalid credentials.\n"
    );
}

#[test]
fn subscribe_confirm_publish_sends_exactly_one_email() {
    let mut app = state();
    let response = subscribe(&mut app, form("le guin", "ursula_le_guin@gmail.com")).unwrap();
    assert_eq!(response.status, 200);
    let token = token_in(&app.outbox[0].html_body);
    let id = app.subscribers.get_subscriber_id_from_token(&token).unwrap();
    assert_eq!(app.subscribers.status_of(id), Some(SubscriptionStatus::PendingConfirmation));
    assert_eq!(confirm(&mut app, &Parameters { subscription_token: token }).status, 200);
    assert_eq!(app.subscribers.status_of(id), Some(SubscriptionStatus::Confirmed));
    let before = app.outbox.len();
    let response = publish_newsletter(&mut app, UserId(1), issue_form("fresh-key")).unwrap();
    assert_eq!(response.status, 200);
    assert_eq!(app.outbox.len(), before + 1);
    assert_eq!(app.outbox[before].to, "ursula_le_guin@gmail.com");
}

const SEED_HASH: &str = "$argon2id$v=19$m=15000,t=2,p=1$OEx/rcq+3ts//WUDzGNl2g$Am8UFBA4w5NJEmAtquGvBmAlu92q/VQcaoL5AyJPfc8";

fn app_with_admin() -> AppState {
    let mut app = confirmed_app(&["a@example.com"]);
    assert!(app.users.insert(UserRow {
        user_id: 77,
        username: "admin".to_string(),
        password_hash: SEED_HASH.to_string(),
    }));
    assert!(app.users.insert(UserRow {
        user_id: 78,
        username: "broken".to_string(),
        password_hash: "not a hash".to_string(),
    }));
    app
}

fn basic(value: &str) -> AuthorizationHeader {
    AuthorizationHeader::Text(value.to_string())
}

#[test]
fn requests_missing_authorization_are_rejected() {
    let mut app = app_with_admin();
    let error =
        publish_newsletter_as(&mut app, AuthorizationHeader::Missing, issue_form("k")).unwrap_err();
    assert!(matches!(error, PublishError::AuthError(_)));
    let response = error.into_response();
    assert_eq!(401, response.status);
    assert_eq!(response.headers[0].name, "WWW-Authenticate");
    assert_eq!(response.headers[0].value, br#"Basic realm="publish""#.to_vec());
    assert!(app.outbox.is_empty());
}

#[test]
fn non_existing_user_is_rejected() {
    let mut app = app_with_admin();
    // nobody:everythinghastostartsomewhere
    let header = basic("Basic bm9ib2R5OmV2ZXJ5dGhpbmdoYXN0b3N0YXJ0c29tZXdoZXJl");
    let error = publish_newsletter_as(&mut app, header, issue_form("k")).unwrap_err();
    assert!(matches!(error, PublishError::AuthError(_)));
    assert_eq!(401, error.into_response().status);
    assert!(app.outbox.is_empty());
}

#[test]
fn invalid_password_is_rejected() {
    let mut app = app_with_admin();
    // admin:wrong
    let error =
        publish_newsletter_as(&mut app, basic("Basic YWRtaW46d3Jvbmc="), issue_form("k")).unwrap_err();
    assert!(matches!(error, PublishError::AuthError(_)));
    assert_eq!(401, error.into_response().status);
    assert!(app.outbox.is_empty());
}

#[test]
fn a_stored_hash_that_cannot_be_read_is_an_internal_fault() {
    let mut app = app_with_admin();
    // broken:x
    let error =
        publish_newsletter_as(&mut app, basic("Basic YnJva2VuOng="), issue_form("k")).unwrap_err();
    assert!(matches!(error, PublishError::UnexpectedError(_)));
    assert_eq!(500, error.into_response().status);
    assert!(app.outbox.is_empty());
}

#[test]
fn an_authenticated_account_publishes_once_for_each_key() {
    let mut app = app_with_admin();
    let header = "Basic YWRtaW46ZXZlcnl0aGluZ2hhc3Rvc3RhcnRzb21ld2hlcmU=";
    let body = BodyData {
        title: "Newsletter title".to_string(),
        content: Content {
            html: "<p>Newsletter body as HTML</p>".to_string(),
            text: "Newsletter body as plain text".to_string(),
        },
        idempotency_key: "key-1".to_string(),
    };
    let form = body.into_form();
    assert_eq!(form.title, "Newsletter title");
    assert_eq!(form.html_content, "<p>Newsletter body as HTML</p>");
    assert_eq!(form.text_content, "Newsletter body as plain text");
    assert_eq!(form.idempotency_key, "key-1");
    let first = publish_newsletter_as(&mut app, basic(header), form).unwrap();
    assert_eq!(first.status, 200);
    assert_eq!(app.outbox.len(), 1);
    let second = publish_newsletter_as(&mut app, basic(header), issue_form("key-1")).unwrap();
    assert_eq!(first, second);
    assert_eq!(app.outbox.len(), 1);
    // The same key of the same user through the session is the same attempt.
    let third = publish_newsletter(&mut app, UserId(77), issue_form("key-1")).unwrap();
    assert_eq!(first, third);
    assert_eq!(app.outbox.len(), 1);
}
