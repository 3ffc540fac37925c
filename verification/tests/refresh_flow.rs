use jwtest::flow::{
    generate_refresh_token, refresh, request_initial, validate_refresh_token, RefreshError,
};
use jwtest::gate::{classify_token, TokenStatus};
use jwtest::masked_token::MaskedToken;
use jwtest::store::RefreshStore;

fn secret() -> MaskedToken {
    MaskedToken::new(String::from("a-long-enough-test-secret"))
}

#[test]
fn initial_request_enrolls_exactly_the_returned_credential() {
    let mut store = RefreshStore::new();
    let user = String::from("u1");
    let cred = request_initial(&mut store, &user);
    assert_eq!(cred.chars().count(), 36);
    assert!(validate_refresh_token(&store, &user, &cred));
    assert!(!validate_refresh_token(&store, &user, &String::from("something-else")));
    assert!(!validate_refresh_token(&store, &String::from("u2"), &cred));
}

#[test]
fn issuing_again_invalidates_the_previous_credential() {
    let mut store = RefreshStore::new();
    let user = String::from("u1");
    let first = generate_refresh_token(&mut store, &user);
    let second = generate_refresh_token(&mut store, &user);
    assert_ne!(first, second);
    assert!(!validate_refresh_token(&store, &user, &first));
    assert!(validate_refresh_token(&store, &user, &second));
}

#[test]
fn refresh_rotates_once_and_rejects_the_replay() {
    let mut store = RefreshStore::new();
    let secret = secret();
    let user = String::from("u1");
    let r1 = request_initial(&mut store, &user);

    let pair = refresh(&mut store, &secret, &user, &r1, 1_000).expect("the current credential must refresh");
    assert_ne!(pair.refresh_token, r1);
    assert_eq!(pair.refresh_token.chars().count(), 36);
    match classify_token(&secret, Some(&pair.session_token), 1_000) {
        TokenStatus::Authorized { subject } => assert_eq!(subject, "u1"),
        _ => panic!("the freshly minted session token must be authorized"),
    }

    // The old credential is spent: a replay fails with the single error code.
    match refresh(&mut store, &secret, &user, &r1, 1_001) {
        Err(e) => assert_eq!(e.code(), "invalid_refresh_token"),
        Ok(_) => panic!("a spent credential must not refresh again"),
    }
    // The rotated credential is the one that now validates.
    assert!(validate_refresh_token(&store, &user, &pair.refresh_token));
    assert!(!validate_refresh_token(&store, &user, &r1));
}

#[test]
fn subjects_do_not_interfere() {
    let mut store = RefreshStore::new();
    let u1 = String::from("u1");
    let u2 = String::from("u2");
    let c1 = request_initial(&mut store, &u1);
    let c2 = request_initial(&mut store, &u2);
    let c1b = generate_refresh_token(&mut store, &u1);
    assert!(validate_refresh_token(&store, &u2, &c2));
    assert!(validate_refresh_token(&store, &u1, &c1b));
    assert!(!validate_refresh_token(&store, &u1, &c1));
}

#[test]
fn the_subject_identifier_is_not_format_validated() {
    // An empty subject is an opaque identifier like any other.
    let mut store = RefreshStore::new();
    let empty = String::new();
    let cred = request_initial(&mut store, &empty);
    assert!(validate_refresh_token(&store, &empty, &cred));
}

#[test]
fn refresh_for_unknown_subject_fails_without_touching_the_store() {
    let mut store = RefreshStore::new();
    let secret = secret();
    let user = String::from("ghost");
    match refresh(&mut store, &secret, &user, &String::from("anything"), 1_000) {
        Err(RefreshError::InvalidRefreshToken) => {}
        Ok(_) => panic!("an unenrolled subject must not refresh"),
    }
    assert!(store.lookup(&user).is_none());
}

#[test]
fn refresh_with_mismatched_credential_keeps_the_stored_one() {
    let mut store = RefreshStore::new();
    let secret = secret();
    let user = String::from("u1");
    let cred = request_initial(&mut store, &user);
    let wrong = String::from("00000000-0000-4000-8000-000000000000");
    assert!(refresh(&mut store, &secret, &user, &wrong, 1_000).is_err());
    assert!(validate_refresh_token(&store, &user, &cred));
}
