use zero2prod::entities::IdempotencyRow;
use zero2prod::http::{HeaderPairRecord, Response};
use zero2prod::idempotency::{
    get_saved_response, next_action, save_response, IdempotencyKey, KeyError, NextAction,
};
use zero2prod::store::SavedResponses;

fn key(text: &str) -> IdempotencyKey {
    IdempotencyKey::try_from(text.to_string()).unwrap()
}

fn response(status: u16, body: &[u8]) -> Response {
    Response {
        status,
        headers: vec![
            HeaderPairRecord { name: "content-type".to_string(), value: b"text/plain".to_vec() },
            HeaderPairRecord { name: "x-binary".to_string(), value: vec![0xff, 0x00, 0x7f] },
        ],
        body: body.to_vec(),
    }
}

#[test]
fn an_empty_key_is_rejected() {
    assert_eq!(IdempotencyKey::try_from(String::new()).unwrap_err(), KeyError::Empty);
    assert_eq!(KeyError::Empty.message(), "The idempotency key cannot be empty");
}

#[test]
fn a_key_of_fifty_bytes_is_rejected() {
    assert_eq!(IdempotencyKey::try_from("k".repeat(50)).unwrap_err(), KeyError::TooLong);
    assert_eq!(IdempotencyKey::try_from("k".repeat(500)).unwrap_err(), KeyError::TooLong);
    // 25 characters of two bytes each.
    assert_eq!(IdempotencyKey::try_from("\u{e9}".repeat(25)).unwrap_err(), KeyError::TooLong);
    assert_eq!(
        KeyError::TooLong.message(),
        "The idempotency key must be shorter than 50 characters"
    );
}

#[test]
fn a_key_of_up_to_49_bytes_is_accepted() {
    assert_eq!(key("k").as_ref(), "k");
    assert_eq!(key(&"k".repeat(49)).as_ref(), "k".repeat(49));
    assert!(IdempotencyKey::try_from(format!("{}k", "\u{e9}".repeat(24))).is_ok());
}

#[test]
fn a_saved_response_comes_back_byte_for_byte() {
    let sent = response(200, b"\x00\x01published\xff");
    let row = save_response(&key("abc"), 42, &sent, 1_700_000_000_000_000).unwrap();
    assert_eq!(row.user_id, 42);
    assert_eq!(row.idempotency_key, "abc");
    assert_eq!(row.response_status_code, 200);
    assert_eq!(row.created_at, 1_700_000_000_000_000);
    assert_eq!(get_saved_response(&row).unwrap(), sent);
}

#[test]
fn a_status_that_is_no_status_code_is_not_saved() {
    for status in [0u16, 99, 1000, 40_000, u16::MAX] {
        assert!(save_response(&key("abc"), 42, &response(status, b""), 0).is_none());
    }
    for status in [100u16, 303, 999] {
        assert!(save_response(&key("abc"), 42, &response(status, b""), 0).is_some());
    }
}

#[test]
fn a_row_with_a_broken_status_gives_no_response() {
    for code in [-1i16, 0, 99, 1000, i16::MAX, i16::MIN] {
        let row = IdempotencyRow {
            user_id: 1,
            idempotency_key: "k".to_string(),
            response_status_code: code,
            response_headers: Vec::new(),
            response_body: Vec::new(),
            created_at: 0,
        };
        assert!(get_saved_response(&row).is_none());
    }
}

#[test]
fn next_action_follows_the_claim_and_the_saved_response() {
    assert!(matches!(next_action(true, None), NextAction::StartProcessing));
    assert!(matches!(next_action(true, Some(response(200, b""))), NextAction::StartProcessing));
    assert!(matches!(next_action(false, None), NextAction::AwaitSavedResponse));
    match next_action(false, Some(response(201, b"x"))) {
        NextAction::ReturnSavedResponse(r) => assert_eq!(r, response(201, b"x")),
        other => panic!("{:?}", other),
    }
}

#[test]
fn a_key_is_claimed_only_once() {
    let mut table = SavedResponses::new();
    assert!(table.claim(1, &key("a")));
    assert!(!table.claim(1, &key("a")));
    assert!(!table.claim(1, &key("a")));
    // Another user, or another key, is another claim.
    assert!(table.claim(2, &key("a")));
    assert!(table.claim(1, &key("b")));
}

#[test]
fn the_second_claimant_waits_and_then_gets_the_saved_response() {
    let mut table = SavedResponses::new();
    assert!(matches!(table.try_processing(1, &key("a")), NextAction::StartProcessing));
    assert!(matches!(table.try_processing(1, &key("a")), NextAction::AwaitSavedResponse));
    assert_eq!(table.saved(1, &key("a")), None);
    table.save(1, &key("a"), response(200, b"done"));
    match table.try_processing(1, &key("a")) {
        NextAction::ReturnSavedResponse(r) => assert_eq!(r, response(200, b"done")),
        other => panic!("{:?}", other),
    }
}

#[test]
fn the_first_saved_response_stays() {
    let mut table = SavedResponses::new();
    table.save(1, &key("a"), response(200, b"first"));
    table.save(1, &key("a"), response(500, b"second"));
    assert_eq!(table.saved(1, &key("a")), Some(response(200, b"first")));
    assert_eq!(table.saved(2, &key("a")), None);
    assert_eq!(table.saved(1, &key("b")), None);
}
