use zero2prod::authentication::{AuthError, UserId};
use zero2prod::domain::SubscriberEmail;
use zero2prod::email_client::EmailClient;
use zero2prod::entities::UserRow;
use zero2prod::http::Response;
use zero2prod::pages::Page;
use zero2prod::routes::admin::dashboard::{admin_dashboard, get_username, html_or_500};
use zero2prod::routes::admin::logout::log_out;
use zero2prod::routes::admin::password::{
    change_password, change_password_form, check_new_password, reject_new_password,
    ChangeProgress, FormData, NewPasswordError,
};
use zero2prod::routes::login::{finish_login, login, login_form, FormData as LoginForm};
use zero2prod::routes::newsletters::publish_newsletter_form;
use zero2prod::session_state::TypedSession;
use zero2prod::store::Users;
use zero2prod::utils::{e400, e500};

const SEED_HASH: &str = "$argon2id$v=19$m=15000,t=2,p=1$OEx/rcq+3ts//WUDzGNl2g$Am8UFBA4w5NJEmAtquGvBmAlu92q/VQcaoL5AyJPfc8";

fn seeded() -> Users {
    let mut users = Users::new();
    assert!(users.insert(UserRow {
        user_id: 42,
        username: "admin".to_string(),
        password_hash: SEED_HASH.to_string(),
    }));
    users
}

fn login_form_data(username: &str, password: &str) -> LoginForm {
    LoginForm { username: username.to_string(), password: password.to_string() }
}

fn logged_in(user_id: u128) -> TypedSession {
    let mut session = TypedSession::new();
    session.insert_iser_id(UserId(user_id));
    session
}

fn location(response: &Response) -> String {
    assert_eq!(response.status, 303);
    assert_eq!(response.headers.len(), 1);
    assert_eq!(response.headers[0].name, "Location");
    String::from_utf8(response.headers[0].value.clone()).unwrap()
}

fn body(response: &Response) -> String {
    String::from_utf8(response.body.clone()).unwrap()
}

fn user(name: &str) -> UserRow {
    UserRow { user_id: 1, username: name.to_string(), password_hash: String::new() }
}

fn password_form(current: &str, new: &str, check: &str) -> FormData {
    FormData {
        current_password: current.to_string(),
        new_password: new.to_string(),
        new_password_check: check.to_string(),
    }
}

#[test]
fn an_error_flash_message_is_set_on_failure() {
    // Arrange
    let users = seeded();
    let mut session = TypedSession::new();

    // Act
    let response =
        login(&users, &mut session, login_form_data("random-username", "random-password"));

    // Assert
    assert_eq!(response.status, 303);
    assert_eq!(location(&response), "/login");
    assert_eq!(session.flash.as_deref(), Some("Authentication failed"));
    assert_eq!(session.get_user_id(), None);

    // Act - Part 2: the login page shows the message once.
    let html_page = body(&login_form(&mut session));
    assert!(html_page.contains(r#"<p><i>Authentication failed</i></p>"#));
    assert_eq!(session.flash, None);

    // Act - Part 3: the message is gone when the page is loaded again.
    let html_page = body(&login_form(&mut session));
    assert!(!html_page.contains(r#"Authentication failed"#));
}

#[test]
fn a_wrong_password_fails_like_an_unknown_user() {
    let users = seeded();
    let mut session = TypedSession::new();
    let response = login(&users, &mut session, login_form_data("admin", "random-password"));
    assert_eq!(location(&response), "/login");
    assert_eq!(session.flash.as_deref(), Some("Authentication failed"));
    assert_eq!(session.get_user_id(), None);
}

#[test]
fn redirect_to_admin_dashboard_after_login_success() {
    let users = seeded();
    let mut session = TypedSession::new();
    let id_before = session.id;
    let response =
        login(&users, &mut session, login_form_data("admin", "everythinghastostartsomewhere"));
    assert_eq!(location(&response), "/admin/dashboard");
    assert_eq!(session.get_user_id(), Some(UserId(42)));
    assert_eq!(session.flash, None);
    assert_ne!(session.id, id_before);
}

#[test]
fn a_stored_hash_that_cannot_be_read_shows_no_detail() {
    let mut users = Users::new();
    users.insert(UserRow {
        user_id: 1,
        username: "broken".to_string(),
        password_hash: "not a hash".to_string(),
    });
    let mut session = TypedSession::new();
    let response = login(&users, &mut session, login_form_data("broken", "whatever"));
    assert_eq!(location(&response), "/login");
    assert_eq!(session.flash.as_deref(), Some("Unexpected error"));
}

#[test]
fn finishing_a_login_follows_the_outcome_of_the_validation() {
    let mut session = TypedSession::new();
    let response = finish_login(
        &mut session,
        Err(AuthError::UnexpectedError(vec!["the database is on fire".to_string()])),
    );
    assert_eq!(location(&response), "/login");
    assert_eq!(session.flash.as_deref(), Some("Unexpected error"));
    let response = finish_login(&mut session, Ok(UserId(11)));
    assert_eq!(location(&response), "/admin/dashboard");
    assert_eq!(session.get_user_id(), Some(UserId(11)));
    // A message that was waiting still waits.
    assert_eq!(session.flash.as_deref(), Some("Unexpected error"));
    let response =
        finish_login(&mut session, Err(AuthError::InvalidCredentials(vec!["x".to_string()])));
    assert_eq!(location(&response), "/login");
    assert_eq!(session.flash.as_deref(), Some("Authentication failed"));
    assert_eq!(session.get_user_id(), Some(UserId(11)));
}

#[test]
fn logout_clears_the_session() {
    let mut session = logged_in(3);
    let response = log_out(&mut session);
    assert_eq!(session.get_user_id(), None);
    assert_eq!(location(&response), "/login");
    assert_eq!(session.flash.as_deref(), Some("You have successfully logged out."));
    let html_page = body(&login_form(&mut session));
    assert!(html_page.contains(r#"<p><i>You have successfully logged out.</i></p>"#));
    assert_eq!(session.flash, None);
}

#[test]
fn a_message_is_taken_out_of_the_session_when_it_is_read() {
    let mut session = TypedSession::new();
    assert_eq!(session.take_flash(), None);
    session.set_flash("first".to_string());
    session.set_flash("second".to_string());
    assert_eq!(session.take_flash(), Some("second".to_string()));
    assert_eq!(session.take_flash(), None);
}

fn has_the_form_of_a_random_id(id: u128) -> bool {
    // Version 4 in bits 76 to 79, variant binary 10 in bits 62 and 63.
    (id >> 76) & 0xf == 4 && (id >> 62) & 0x3 == 2
}

#[test]
fn session_identifiers_are_random_identifiers() {
    let mut seen = Vec::new();
    for _ in 0..20 {
        let mut session = TypedSession::new();
        assert!(has_the_form_of_a_random_id(session.id));
        assert_eq!(session.get_user_id(), None);
        seen.push(session.id);
        session.cycle_id();
        assert!(has_the_form_of_a_random_id(session.id));
        seen.push(session.id);
    }
    seen.sort();
    seen.dedup();
    assert_eq!(seen.len(), 40);
}

#[test]
fn cycling_gives_a_session_with_any_identifier_a_random_one() {
    for id in [0u128, 1, u128::MAX, 0x0000_0000_0000_4000_8000_0000_0000_0000] {
        let mut session = TypedSession { id, user_id: Some(UserId(5)), flash: None };
        session.cycle_id();
        assert!(has_the_form_of_a_random_id(session.id));
        assert_ne!(session.id, id);
        assert_eq!(session.get_user_id(), Some(UserId(5)));
    }
}

#[test]
fn a_session_keeps_its_user_when_its_id_is_cycled() {
    let mut session = TypedSession::new();
    assert_eq!(session.get_user_id(), None);
    session.insert_iser_id(UserId(3));
    let id = session.id;
    session.cycle_id();
    assert_ne!(session.id, id);
    assert_eq!(session.get_user_id(), Some(UserId(3)));
}

#[test]
fn the_dashboard_welcomes_the_user() {
    let response = admin_dashboard(Ok(Some(user("admin"))));
    assert_eq!(response.status, 200);
    assert_eq!(response.headers[0].name, "Content-Type");
    assert_eq!(response.headers[0].value, b"text/html; charset=utf-8".to_vec());
    assert!(body(&response).contains("<p>Welcome admin!</p>"));
}

#[test]
fn the_dashboard_escapes_the_user_name() {
    let response = admin_dashboard(Ok(Some(user("<script>"))));
    assert!(body(&response).contains("Welcome &lt;script&gt;!"));
    assert!(!body(&response).contains("<script>"));
}

#[test]
fn the_dashboard_fails_without_a_user() {
    assert_eq!(admin_dashboard(Ok(None)).status, 500);
    assert_eq!(admin_dashboard(Err("down".to_string())).status, 500);
    assert_eq!(get_username(Ok(Some(user("admin")))).unwrap(), "admin");
    assert_eq!(get_username(Ok(None)).unwrap_err(), vec!["User not found".to_string()]);
    assert_eq!(
        get_username(Err("down".to_string())).unwrap_err(),
        vec!["Failed to perform a query to retrieve a username.".to_string(), "down".to_string()]
    );
    assert_eq!(html_or_500(None).status, 500);
    assert_eq!(html_or_500(Some("<p>x</p>".to_string())).body, b"<p>x</p>".to_vec());
}

#[test]
fn pages_render_their_value() {
    let page = Page::Login.render("<p><i>x</i></p>").unwrap();
    assert!(page.contains("<p><i>x</i></p>\n<form action=\"/login\" method=\"post\">"));
    assert!(!page.contains("{{"));
    let page = Page::Password.render("").unwrap();
    assert!(page.contains("name=\"new_password_check\""));
    let page = Page::Newsletter.render("<p><i>sent</i></p>").unwrap();
    assert!(page.contains("<p><i>sent</i></p>"));
    assert!(page.contains("name=\"idempotency_key\""));
    assert_eq!(Page::Dashboard.slot(), "username");
    assert!(Page::Dashboard.template().contains("{{username}}"));
}

#[test]
fn new_passwords_must_match() {
    let form = password_form("old", "a-long-enough-password", "another-long-password");
    assert_eq!(check_new_password(&form), Err(NewPasswordError::Mismatch));
    let mut session = logged_in(1);
    let response = change_password(&form, ChangeProgress::Updated, &mut session);
    assert_eq!(location(&response), "/admin/password");
    assert_eq!(
        session.flash.as_deref(),
        Some("You entered two different new passwords - the field values must match.")
    );
}

#[test]
fn new_password_must_have_twelve_bytes() {
    let form = password_form("old", "elevenbytes", "elevenbytes");
    assert_eq!(check_new_password(&form), Err(NewPasswordError::TooShort));
    let form = password_form("old", "", "");
    assert_eq!(check_new_password(&form), Err(NewPasswordError::TooShort));
    let form = password_form("old", "twelve-bytes", "twelve-bytes");
    assert_eq!(check_new_password(&form), Ok(()));
    // Six characters of two bytes each.
    let six = "\u{e9}".repeat(6);
    let form = password_form("old", &six, &six);
    assert_eq!(check_new_password(&form), Ok(()));
    let form = password_form("old", "short", "short");
    let mut session = logged_in(1);
    let response = change_password(&form, ChangeProgress::Updated, &mut session);
    assert_eq!(location(&response), "/admin/password");
    assert_eq!(session.flash.as_deref(), Some("You password is too short!"));
}

#[test]
fn a_rejected_new_password_sends_the_user_back_with_the_reason() {
    let mut session = logged_in(1);
    let response = reject_new_password(NewPasswordError::TooShort, &mut session);
    assert_eq!(location(&response), "/admin/password");
    assert_eq!(session.flash.as_deref(), Some("You password is too short!"));
    assert_eq!(session.get_user_id(), Some(UserId(1)));
    assert_eq!(
        NewPasswordError::Mismatch.message(),
        "You entered two different new passwords - the field values must match."
    );
}

#[test]
fn current_password_must_be_valid() {
    let form = password_form("wrong", "a-long-enough-password", "a-long-enough-password");
    let mut session = logged_in(1);
    let response = change_password(
        &form,
        ChangeProgress::CurrentPasswordRejected(AuthError::InvalidCredentials(Vec::new())),
        &mut session,
    );
    assert_eq!(location(&response), "/admin/password");
    assert_eq!(session.flash.as_deref(), Some("The current password is incorrect."));
    let mut session = logged_in(1);
    let response = change_password(
        &form,
        ChangeProgress::CurrentPasswordRejected(AuthError::UnexpectedError(Vec::new())),
        &mut session,
    );
    assert_eq!(response.status, 500);
    assert_eq!(session.flash, None);
}

#[test]
fn changing_password_works() {
    let form = password_form("old", "a-long-enough-password", "a-long-enough-password");
    let mut session = logged_in(1);
    let response = change_password(&form, ChangeProgress::Updated, &mut session);
    assert_eq!(location(&response), "/admin/password");
    assert_eq!(session.flash.as_deref(), Some("Your password has been changed."));
    let html_page = body(&change_password_form(&mut session));
    assert!(html_page.contains("<p><i>Your password has been changed.</i></p>"));
    assert_eq!(session.flash, None);
    let mut session = logged_in(1);
    assert_eq!(change_password(&form, ChangeProgress::UsernameFailed, &mut session).status, 500);
    assert_eq!(change_password(&form, ChangeProgress::UpdateFailed, &mut session).status, 500);
    assert_eq!(session.flash, None);
}

#[test]
fn you_must_be_logged_in_to_see_the_change_password_form() {
    let mut session = TypedSession::new();
    session.set_flash("kept".to_string());
    let response = change_password_form(&mut session);
    assert_eq!(location(&response), "/login");
    assert_eq!(session.flash.as_deref(), Some("kept"));
    let mut session = logged_in(1);
    session.set_flash("You password is too short!".to_string());
    let response = change_password_form(&mut session);
    assert_eq!(response.status, 200);
    assert!(body(&response).contains("<p><i>You password is too short!</i></p>"));
}

#[test]
fn the_newsletter_form_shows_its_message() {
    let mut session = logged_in(1);
    session.set_flash("The newsletter issue has been published!".to_string());
    let response = publish_newsletter_form(&mut session);
    assert_eq!(response.status, 200);
    assert!(body(&response).contains("<p><i>The newsletter issue has been published!</i></p>"));
    assert_eq!(session.flash, None);
}

#[test]
fn faults_are_answered_without_detail() {
    assert_eq!(e500("the database is on fire").status, 500);
    assert!(e500("the database is on fire").body.is_empty());
    assert_eq!(e400("bad field").status, 400);
    assert!(e400("bad field").body.is_empty());
}

#[test]
fn send_email_fires_a_request_to_base_url() {
    let client = EmailClient::new(
        "http://127.0.0.1:4000".to_string(),
        SubscriberEmail::parse("sender@example.com".to_string()).unwrap(),
        "api-token".to_string(),
    );
    assert_eq!(client.url(), "http://127.0.0.1:4000/email");
    let recipient = SubscriberEmail::parse("to@example.com".to_string()).unwrap();
    let request = client.send_email(&recipient, "subject", "<p>html</p>", "text");
    assert_eq!(request.from, "sender@example.com");
    assert_eq!(request.to, "to@example.com");
    assert_eq!(request.subject, "subject");
    assert_eq!(request.html_body, "<p>html</p>");
    assert_eq!(request.text_body, "text");
}
