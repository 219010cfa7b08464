use identity_gateway::store::Store;

#[test]
fn repeated_user_upsert_creates_one_row() {
    let mut store = Store::new();
    let first = store.find_or_create_user("a@x.com", Some("A".to_string()));
    let second = store.find_or_create_user("a@x.com", Some("Other".to_string()));
    assert_eq!(first, second);
    assert_eq!(store.users.len(), 1);
    assert_eq!(store.users[0].email.as_str(), "a@x.com");
    assert_eq!(store.users[0].display_name.as_deref(), Some("A"));
}

#[test]
fn distinct_emails_create_distinct_rows() {
    let mut store = Store::new();
    let first = store.find_or_create_user("a@x.com", None);
    let second = store.find_or_create_user("b@x.com", None);
    assert_ne!(first, second);
    assert_eq!(store.users.len(), 2);
}

#[test]
fn repeated_identity_upsert_creates_one_row() {
    let mut store = Store::new();
    let owner = store.find_or_create_user("a@x.com", None);
    let first = store.find_or_create_identity("hack_club", "abc", owner, Some("S1".to_string()));
    let second = store.find_or_create_identity("hack_club", "abc", owner, Some("S2".to_string()));
    assert_eq!(first, second);
    assert_eq!(store.identities.len(), 1);
    assert_eq!(store.identities[0].user_id, owner);
    assert_eq!(store.identities[0].slack_id.as_deref(), Some("S1"));
}

#[test]
fn same_external_id_under_another_provider_is_a_new_identity() {
    let mut store = Store::new();
    let owner = store.find_or_create_user("a@x.com", None);
    let first = store.find_or_create_identity("hack_club", "abc", owner, None);
    let second = store.find_or_create_identity("other", "abc", owner, None);
    assert_ne!(first, second);
    assert_eq!(store.identities.len(), 2);
}

#[test]
fn taken_refresh_record_cannot_be_taken_again() {
    let mut store = Store::new();
    assert!(store.insert_refresh_token(5, "hash-one".to_string(), 1000));
    assert_eq!(store.take_refresh_token("hash-one", 500), Some(5));
    assert_eq!(store.take_refresh_token("hash-one", 500), None);
    assert_eq!(store.refresh_tokens.len(), 0);
}

#[test]
fn expired_record_is_treated_as_absent() {
    let mut store = Store::new();
    assert!(store.insert_refresh_token(5, "hash-one".to_string(), 1000));
    assert_eq!(store.take_refresh_token("hash-one", 1000), None);
    assert_eq!(store.take_refresh_token("hash-one", 2000), None);
    // an expired record is not deleted by a failed take
    assert_eq!(store.refresh_tokens.len(), 1);
}

#[test]
fn duplicate_hash_insert_is_refused() {
    let mut store = Store::new();
    assert!(store.insert_refresh_token(5, "hash-one".to_string(), 1000));
    assert!(!store.insert_refresh_token(6, "hash-one".to_string(), 2000));
    assert_eq!(store.refresh_tokens.len(), 1);
    assert_eq!(store.refresh_tokens[0].user_id, 5);
}

#[test]
fn delete_is_idempotent() {
    let mut store = Store::new();
    assert!(store.insert_refresh_token(5, "hash-one".to_string(), 1000));
    store.delete_refresh_token("hash-one");
    assert_eq!(store.refresh_tokens.len(), 0);
    store.delete_refresh_token("hash-one");
    assert_eq!(store.refresh_tokens.len(), 0);
}

#[test]
fn get_user_finds_by_id() {
    let mut store = Store::new();
    let id = store.find_or_create_user("a@x.com", Some("A".to_string()));
    let row = store.get_user(id).unwrap();
    assert_eq!(row.email.as_str(), "a@x.com");
    assert!(store.get_user(id + 1).is_none());
}
