use auth_core::store::{CredentialStore, StoreFailure, UserRecord};
use auth_core::text::same_text;

fn record(username: &str, email: &str) -> UserRecord {
    UserRecord {
        name: "Name".to_string(),
        email: email.to_string(),
        username: username.to_string(),
        password_hash: "$argon2id$stub".to_string(),
    }
}

#[test]
fn new_store_holds_nobody() {
    let store = CredentialStore::new();
    assert!(store.find_by_username("alice").is_none());
    assert!(store.find_by_username("").is_none());
}

#[test]
fn inserted_record_is_found_under_its_username() {
    let mut store = CredentialStore::new();
    assert_eq!(store.insert(record("alice", "a@example.org")), Ok(()));
    assert_eq!(store.insert(record("bob", "b@example.org")), Ok(()));
    let alice = store.find_by_username("alice").unwrap();
    assert_eq!(alice.username, "alice");
    assert_eq!(alice.email, "a@example.org");
    assert_eq!(alice.name, "Name");
    assert_eq!(alice.password_hash, "$argon2id$stub");
    assert_eq!(store.find_by_username("bob").unwrap().email, "b@example.org");
    assert!(store.find_by_username("carol").is_none());
}

#[test]
fn second_record_for_a_username_is_refused_and_the_first_kept() {
    let mut store = CredentialStore::new();
    assert_eq!(store.insert(record("alice", "first@example.org")), Ok(()));
    assert_eq!(
        store.insert(record("alice", "second@example.org")),
        Err(StoreFailure::UniquenessViolation)
    );
    assert_eq!(store.find_by_username("alice").unwrap().email, "first@example.org");
}

#[test]
fn usernames_differing_in_case_or_space_are_different_keys() {
    let mut store = CredentialStore::new();
    assert_eq!(store.insert(record("alice", "1")), Ok(()));
    assert_eq!(store.insert(record("Alice", "2")), Ok(()));
    assert_eq!(store.insert(record(" alice", "3")), Ok(()));
    assert_eq!(store.insert(record("alicé", "4")), Ok(()));
    assert_eq!(store.find_by_username("Alice").unwrap().email, "2");
    assert_eq!(store.find_by_username("alicé").unwrap().email, "4");
    assert!(store.find_by_username("alic").is_none());
}

#[test]
fn texts_are_the_same_only_character_for_character() {
    assert!(same_text("", ""));
    assert!(same_text("alice", "alice"));
    assert!(same_text("Zoë 名前", "Zoë 名前"));
    assert!(!same_text("alice", "alicf"));
    assert!(!same_text("alice", "alice "));
    assert!(!same_text("alice", "Alice"));
    assert!(!same_text("", "a"));
    assert!(!same_text("é", "e"));
}
