use zero2prod::authentication::basic::{credentials_from_decoded, credentials_from_text};
use zero2prod::authentication::{
    basic_authentication, change_password, compute_password_hash, lanes_in_bounds,
    new_password_hash, PasswordChangeError, credential_outcome, password_outcome,
    reject_anonymous_users, validate_credentials, verify_password_hash, AuthError,
    AuthorizationHeader, BasicAuthError, Credentials, StoredCredentials, UserId,
};

const SEED_HASH: &str = "$argon2id$v=19$m=15000,t=2,p=1$OEx/rcq+3ts//WUDzGNl2g$Am8UFBA4w5NJEmAtquGvBmAlu92q/VQcaoL5AyJPfc8";

fn credentials(username: &str, password: &str) -> Credentials {
    Credentials { username: username.to_string(), password: password.to_string() }
}

fn stored(hash: &str) -> StoredCredentials {
    StoredCredentials { user_id: UserId(7), password_hash: hash.to_string() }
}

#[test]
fn the_right_password_is_accepted() {
    assert!(verify_password_hash(SEED_HASH, "everythinghastostartsomewhere").is_ok());
}

#[test]
fn a_wrong_password_is_invalid_credentials() {
    match verify_password_hash(SEED_HASH, "everythinghastostartsomewherf") {
        Err(AuthError::InvalidCredentials(causes)) => {
            assert_eq!(causes, vec!["Invalid password.".to_string()])
        }
        other => panic!("{:?}", other),
    }
}

#[test]
fn a_hash_that_is_no_phc_string_is_an_unexpected_error() {
    for hash in ["", "not a hash", "everythinghastostartsomewhere"] {
        match verify_password_hash(hash, "everythinghastostartsomewhere") {
            Err(AuthError::UnexpectedError(causes)) => {
                assert_eq!(causes, vec!["Failed to parse hash in PHC string format.".to_string()])
            }
            other => panic!("{:?}", other),
        }
    }
}

#[test]
fn password_outcome_covers_the_three_cases() {
    assert!(password_outcome(Some(true)).is_ok());
    assert!(matches!(password_outcome(Some(false)), Err(AuthError::InvalidCredentials(_))));
    assert!(matches!(password_outcome(None), Err(AuthError::UnexpectedError(_))));
}

#[test]
fn credential_outcome_needs_a_user_and_an_accepted_password() {
    assert_eq!(credential_outcome(Some(true), Some(UserId(3))).unwrap(), UserId(3));
    match credential_outcome(Some(true), None) {
        Err(AuthError::InvalidCredentials(causes)) => {
            assert_eq!(causes, vec!["Unknown username.".to_string()])
        }
        other => panic!("{:?}", other),
    }
    assert!(matches!(
        credential_outcome(Some(false), Some(UserId(3))),
        Err(AuthError::InvalidCredentials(_))
    ));
    assert!(matches!(credential_outcome(Some(false), None), Err(AuthError::InvalidCredentials(_))));
    assert!(matches!(
        credential_outcome(None, Some(UserId(3))),
        Err(AuthError::UnexpectedError(_))
    ));
}

#[test]
fn a_stored_user_with_the_right_password_is_validated() {
    let outcome = validate_credentials(
        credentials("admin", "everythinghastostartsomewhere"),
        Ok(Some(stored(SEED_HASH))),
    );
    assert_eq!(outcome.unwrap(), UserId(7));
}

#[test]
fn a_stored_user_with_a_wrong_password_is_rejected() {
    let outcome = validate_credentials(credentials("admin", "wrong"), Ok(Some(stored(SEED_HASH))));
    assert!(matches!(outcome, Err(AuthError::InvalidCredentials(_))));
}

#[test]
fn an_unknown_user_is_rejected_like_a_wrong_password() {
    let outcome = validate_credentials(credentials("nobody", "everythinghastostartsomewhere"), Ok(None));
    assert!(matches!(outcome, Err(AuthError::InvalidCredentials(_))));
}

#[test]
fn a_stored_hash_that_does_not_parse_is_an_unexpected_error() {
    let outcome = validate_credentials(credentials("admin", "x"), Ok(Some(stored("garbage"))));
    assert!(matches!(outcome, Err(AuthError::UnexpectedError(_))));
}

#[test]
fn a_failed_lookup_is_an_unexpected_error() {
    let outcome = validate_credentials(credentials("admin", "x"), Err("connection reset".to_string()));
    match outcome {
        Err(AuthError::UnexpectedError(causes)) => assert_eq!(
            causes,
            vec![
                "Failed to perform a query to validate auth credentials.".to_string(),
                "connection reset".to_string()
            ]
        ),
        other => panic!("{:?}", other),
    }
}

#[test]
fn a_new_hash_is_argon2i_with_the_fixed_costs_and_validates() {
    let hash = compute_password_hash("a-long-enough-password").unwrap();
    assert!(hash.starts_with("$argon2i$v=19$m=15000,t=2,p=1$"));
    assert_ne!(hash, "a-long-enough-password");
    let outcome = validate_credentials(
        credentials("admin", "a-long-enough-password"),
        Ok(Some(stored(&hash))),
    );
    assert_eq!(outcome.unwrap(), UserId(7));
    let outcome =
        validate_credentials(credentials("admin", "another-password"), Ok(Some(stored(&hash))));
    assert!(matches!(outcome, Err(AuthError::InvalidCredentials(_))));
}

#[test]
fn two_hashes_of_one_password_differ_by_their_salt() {
    let first = compute_password_hash("a-long-enough-password").unwrap();
    let second = compute_password_hash("a-long-enough-password").unwrap();
    assert_ne!(first, second);
}

#[test]
fn auth_error_reports_its_causes() {
    let error = AuthError::InvalidCredentials(vec!["Invalid password.".to_string()]);
    assert_eq!(error.report(), "Invalid credentials.\n\nCaused by:\n\tInvalid password.\n");
    let error = AuthError::UnexpectedError(vec!["outer".to_string(), "inner".to_string()]);
    assert_eq!(error.report(), "outer\n\nCaused by:\n\tinner\n");
    let error = AuthError::UnexpectedError(Vec::new());
    assert_eq!(error.report(), "\n\n");
}

fn basic(value: &str) -> Result<Credentials, BasicAuthError> {
    basic_authentication(AuthorizationHeader::Text(value.to_string()))
}

#[test]
fn basic_credentials_are_read() {
    let read = basic("Basic YWRtaW46ZXZlcnl0aGluZ2hhc3Rvc3RhcnRzb21ld2hlcmU=").ok().unwrap();
    assert_eq!(read.username, "admin");
    assert_eq!(read.password, "everythinghastostartsomewhere");
}

#[test]
fn the_password_may_hold_a_colon() {
    let read = basic("Basic dXNlcjpwYTpzcw==").ok().unwrap();
    assert_eq!(read.username, "user");
    assert_eq!(read.password, "pa:ss");
}

#[test]
fn each_kind_of_broken_authorization_header_is_told_apart() {
    assert_eq!(
        basic_authentication(AuthorizationHeader::Missing).err(),
        Some(BasicAuthError::MissingHeader)
    );
    assert_eq!(
        basic_authentication(AuthorizationHeader::NotText).err(),
        Some(BasicAuthError::NotText)
    );
    assert_eq!(basic("Bearer abc").err(), Some(BasicAuthError::NotBasic));
    assert_eq!(basic("basic YWRtaW46eA==").err(), Some(BasicAuthError::NotBasic));
    assert_eq!(basic("Basic").err(), Some(BasicAuthError::NotBasic));
    assert_eq!(basic("").err(), Some(BasicAuthError::NotBasic));
    assert_eq!(basic("Basic not base64!").err(), Some(BasicAuthError::NotBase64));
    assert_eq!(basic("Basic YWRtaW46eA").err(), Some(BasicAuthError::NotBase64));
    assert_eq!(basic("Basic //46eA==").err(), Some(BasicAuthError::NotUtf8));
    assert_eq!(basic("Basic bm9jb2xvbg==").err(), Some(BasicAuthError::NoPassword));
    assert_eq!(basic("Basic ").err(), Some(BasicAuthError::NoPassword));
}

#[test]
fn basic_auth_errors_have_messages() {
    assert_eq!(BasicAuthError::MissingHeader.message(), "The 'Authorization' header was missing");
    assert_eq!(BasicAuthError::NotBasic.message(), "The authorization schema was not 'Basic'.");
    assert_eq!(
        BasicAuthError::NoPassword.message(),
        "A password must be provided in 'Basic' auth."
    );
}

#[test]
fn decoded_credentials_are_split_at_the_first_colon() {
    let read = credentials_from_text(":").ok().unwrap();
    assert_eq!(read.username, "");
    assert_eq!(read.password, "");
    let read = credentials_from_text("a\u{e9}:b:c").ok().unwrap();
    assert_eq!(read.username, "a\u{e9}");
    assert_eq!(read.password, "b:c");
    assert_eq!(credentials_from_text("").err(), Some(BasicAuthError::NoPassword));
    assert_eq!(credentials_from_decoded(None).err(), Some(BasicAuthError::NotBase64));
    assert_eq!(
        credentials_from_decoded(Some(vec![0xc3, 0x28])).err(),
        Some(BasicAuthError::NotUtf8)
    );
    let read = credentials_from_decoded(Some(b"u:p".to_vec())).ok().unwrap();
    assert_eq!(read.username, "u");
    assert_eq!(read.password, "p");
}

#[test]
fn anonymous_users_are_sent_to_the_login_page() {
    assert_eq!(reject_anonymous_users(Ok(Some(UserId(9)))).unwrap(), UserId(9));
    let response = reject_anonymous_users(Ok(None)).unwrap_err();
    assert_eq!(response.status, 303);
    assert_eq!(response.headers[0].name, "Location");
    assert_eq!(response.headers[0].value, b"/login".to_vec());
    let response = reject_anonymous_users(Err("redis is down".to_string())).unwrap_err();
    assert_eq!(response.status, 500);
    assert!(response.headers.is_empty());
}

fn seeded() -> zero2prod::store::Users {
    let mut users = zero2prod::store::Users::new();
    users.insert(zero2prod::entities::UserRow {
        user_id: 0xddf8994f_d522_4659_8d02_c1d479057be6,
        username: "admin".to_string(),
        password_hash: SEED_HASH.to_string(),
    });
    users.insert(zero2prod::entities::UserRow {
        user_id: 2,
        username: "other".to_string(),
        password_hash: SEED_HASH.to_string(),
    });
    users
}

#[test]
fn the_seed_user_is_authenticated() {
    let users = seeded();
    let outcome = zero2prod::authentication::authenticate(
        &users,
        credentials("admin", "everythinghastostartsomewhere"),
    );
    assert_eq!(outcome.unwrap(), UserId(0xddf8994f_d522_4659_8d02_c1d479057be6));
    let outcome =
        zero2prod::authentication::authenticate(&users, credentials("admin", "something else"));
    assert!(matches!(outcome, Err(AuthError::InvalidCredentials(_))));
    let outcome = zero2prod::authentication::authenticate(
        &users,
        credentials("nobody", "everythinghastostartsomewhere"),
    );
    assert!(matches!(outcome, Err(AuthError::InvalidCredentials(_))));
}

#[test]
fn after_a_change_the_new_password_logs_in_and_the_old_does_not() {
    let mut users = seeded();
    let admin = UserId(0xddf8994f_d522_4659_8d02_c1d479057be6);
    assert_eq!(
        zero2prod::authentication::change_password(&mut users, admin, "a-brand-new-password"),
        Ok(())
    );
    let outcome =
        zero2prod::authentication::authenticate(&users, credentials("admin", "a-brand-new-password"));
    assert_eq!(outcome.unwrap(), admin);
    let outcome = zero2prod::authentication::authenticate(
        &users,
        credentials("admin", "everythinghastostartsomewhere"),
    );
    assert!(matches!(outcome, Err(AuthError::InvalidCredentials(_))));
    // The other account is as it was.
    let outcome = zero2prod::authentication::authenticate(
        &users,
        credentials("other", "everythinghastostartsomewhere"),
    );
    assert_eq!(outcome.unwrap(), UserId(2));
    assert!(users
        .get_stored_credentials("admin")
        .unwrap()
        .password_hash
        .starts_with("$argon2i$v=19$m=15000,t=2,p=1$"));
}

#[test]
fn a_password_shorter_than_twelve_bytes_is_refused_and_the_stored_hash_stays() {
    let mut users = seeded();
    let admin = UserId(0xddf8994f_d522_4659_8d02_c1d479057be6);
    for short in ["short", "", "elevenbytes", "\u{e9}\u{e9}\u{e9}\u{e9}\u{e9}x"] {
        assert_eq!(change_password(&mut users, admin, short), Err(PasswordChangeError::TooShort));
        assert_eq!(new_password_hash(short), Err(PasswordChangeError::TooShort));
        assert_eq!(users.get_stored_credentials("admin").unwrap().password_hash, SEED_HASH);
    }
    assert_eq!(change_password(&mut users, admin, "twelve-bytes"), Ok(()));
    assert_ne!(users.get_stored_credentials("admin").unwrap().password_hash, SEED_HASH);
    assert!(new_password_hash("twelve-bytes").unwrap().starts_with("$argon2i$v=19$m=15000,t=2,p=1$"));
}

#[test]
fn hashing_succeeds_for_any_password_of_ordinary_length() {
    for password in ["", "x", "a-long-enough-password", &"long ".repeat(1000)] {
        let hash = compute_password_hash(password).unwrap();
        assert!(verify_password_hash(&hash, password).is_ok());
    }
}

#[test]
fn a_stored_hash_that_names_too_many_lanes_is_an_unexpected_error() {
    // 536870912 lanes: eight times as many do not fit in 32 bits.
    let overflowing = "$argon2id$v=19$m=15000,t=2,p=536870912$gZiV/M1gPc22ElAH/Jh1Hw$CWOrkoo7oJBQ/iyh7uJ0LO2aLEfrHwTWllSAxT0zRno";
    assert!(!lanes_in_bounds(overflowing));
    assert!(matches!(
        verify_password_hash(overflowing, "everythinghastostartsomewhere"),
        Err(AuthError::UnexpectedError(_))
    ));
    let outcome = validate_credentials(credentials("admin", "x"), Ok(Some(stored(overflowing))));
    assert!(matches!(outcome, Err(AuthError::UnexpectedError(_))));
    let huge = "$argon2id$v=19$m=4294967295,t=2,p=4294967295$gZiV/M1gPc22ElAH/Jh1Hw$CWOrkoo7oJBQ/iyh7uJ0LO2aLEfrHwTWllSAxT0zRno";
    assert!(!lanes_in_bounds(huge));
    assert!(matches!(verify_password_hash(huge, "x"), Err(AuthError::UnexpectedError(_))));
}

#[test]
fn a_stored_hash_with_up_to_eight_digits_of_lanes_goes_to_the_check() {
    assert!(lanes_in_bounds(SEED_HASH));
    assert!(lanes_in_bounds(""));
    assert!(lanes_in_bounds("p="));
    assert!(lanes_in_bounds("p=12345678"));
    assert!(lanes_in_bounds("p=12345678,x"));
    assert!(!lanes_in_bounds("p=123456789"));
    assert!(!lanes_in_bounds("xxp=000000000"));
    assert!(lanes_in_bounds("q=123456789"));
    assert!(lanes_in_bounds("p=1234p=5678x9"));
    // 99999999 lanes are more than Argon2 takes, but the crate says so itself.
    let many = "$argon2id$v=19$m=15000,t=2,p=99999999$gZiV/M1gPc22ElAH/Jh1Hw$CWOrkoo7oJBQ/iyh7uJ0LO2aLEfrHwTWllSAxT0zRno";
    assert!(lanes_in_bounds(many));
    assert!(matches!(verify_password_hash(many, "x"), Err(AuthError::InvalidCredentials(_))));
}
