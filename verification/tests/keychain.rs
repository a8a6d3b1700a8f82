use cntrl_browser::keychain::{
    delete_outcome, delete_secret, retrieve_outcome, retrieve_secret, secret_exists, store_outcome, store_secret,
    KeyringFailure,
};
use cntrl_browser::error::CntrlError;

#[test]
fn store_retrieve_delete_roundtrip() {
    let test_key = "cntrl_test_key_roundtrip";
    let test_value = "test-secret-value-do-not-use";

    // Ensure clean state
    let _ = delete_secret(test_key);

    // Store
    if let Err(e) = store_secret(test_key, test_value) {
        // Keychain unavailable in this environment — skip gracefully
        println!("Keychain unavailable ({e:?}), skipping roundtrip test");
        return;
    }

    // Retrieve
    let retrieved = retrieve_secret(test_key).expect("should retrieve stored secret");
    assert_eq!(
        retrieved, test_value,
        "retrieved secret must match stored value"
    );

    // Verify it does NOT appear as plaintext anywhere near the service name
    assert!(!retrieved.is_empty(), "retrieved secret must not be empty");

    // Delete
    delete_secret(test_key).expect("should delete secret");

    // After deletion, retrieve must fail
    assert!(
        retrieve_secret(test_key).is_err(),
        "retrieve after delete must return Err"
    );
}

#[test]
fn delete_nonexistent_key_is_ok() {
    let result = delete_secret("cntrl_test_key_definitely_does_not_exist_xyz");
    assert!(result.is_ok(), "deleting non-existent key must return Ok");
}

#[test]
fn secret_exists_false_for_unknown_key() {
    assert!(
        !secret_exists("cntrl_test_key_that_was_never_stored_abc123"),
        "secret_exists must return false for unknown key"
    );
}

#[test]
fn delete_outcome_is_idempotent_and_reports_failures() {
    assert!(delete_outcome("k", Ok(())).is_ok());
    let missing = KeyringFailure { no_entry: true, message: "No matching entry".to_string() };
    assert!(delete_outcome("k", Err(missing)).is_ok());
    let locked = KeyringFailure { no_entry: false, message: "locked".to_string() };
    match delete_outcome("k", Err(locked)) {
        Err(CntrlError::Keychain(m)) => assert_eq!(m, "Failed to delete secret 'k': locked"),
        other => panic!("unexpected {other:?}"),
    }
}

#[test]
fn store_and_retrieve_outcomes() {
    assert!(store_outcome("k", Ok(())).is_ok());
    let denied = KeyringFailure { no_entry: false, message: "denied".to_string() };
    match store_outcome("k", Err(denied)) {
        Err(CntrlError::Keychain(m)) => assert_eq!(m, "Failed to store secret 'k': denied"),
        other => panic!("unexpected {other:?}"),
    }
    assert_eq!(retrieve_outcome("k", Ok("s3cret".to_string())).unwrap(), "s3cret");
    let missing = KeyringFailure { no_entry: true, message: "No matching entry".to_string() };
    match retrieve_outcome("k", Err(missing)) {
        Err(CntrlError::Keychain(m)) => assert_eq!(m, "Failed to retrieve secret 'k': No matching entry"),
        other => panic!("unexpected {other:?}"),
    }
}
