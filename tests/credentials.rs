use bank_api::models::{CredentialError, User, Users};
use bank_api::store::AccountStore;

fn user(name: &str, password: &str) -> User {
    User { username: name.to_string(), password: password.to_string() }
}

fn store_with_alice() -> AccountStore {
    let mut store = AccountStore::new();
    let created = Users::create_user(&mut store, user("alice", "secret1")).unwrap();
    assert_eq!(created.username, "alice");
    store
}

#[test]
fn alice_full_scenario() {
    let mut store = store_with_alice();
    assert_eq!(Users::verify_user(&store, "alice", "secret1"), Ok(true));
    assert_eq!(Users::verify_user(&store, "alice", "wrong"), Ok(false));
    let changed = Users::update_password(&mut store, "alice", "secret1", "secret2", "secret2");
    assert!(changed.is_ok());
    assert_eq!(Users::verify_user(&store, "alice", "secret1"), Ok(false));
    assert_eq!(Users::verify_user(&store, "alice", "secret2"), Ok(true));
}

#[test]
fn wrong_old_password_is_rejected_and_keeps_hash() {
    let mut store = store_with_alice();
    let before = store.find_by_username("alice").unwrap().password;
    let r = Users::update_password(&mut store, "alice", "wrongold", "secret2", "secret2");
    assert_eq!(r.err(), Some(CredentialError::InvalidCredentials));
    assert_eq!(store.find_by_username("alice").unwrap().password, before);
    assert_eq!(Users::verify_user(&store, "alice", "secret1"), Ok(true));
}

#[test]
fn mismatched_confirmation_keeps_hash() {
    let mut store = store_with_alice();
    let before = store.find_by_username("alice").unwrap().password;
    let r = Users::update_password(&mut store, "alice", "secret1", "secret2", "secret3");
    assert_eq!(r.err(), Some(CredentialError::PasswordMismatch));
    assert_eq!(store.find_by_username("alice").unwrap().password, before);
}

#[test]
fn old_password_is_checked_before_confirmation() {
    let mut store = store_with_alice();
    let r = Users::update_password(&mut store, "alice", "wrongold", "secret2", "secret3");
    assert_eq!(r.err(), Some(CredentialError::InvalidCredentials));
}

#[test]
fn created_account_verifies_only_its_password() {
    let mut store = AccountStore::new();
    Users::create_user(&mut store, user("bob", "hunter2")).unwrap();
    assert_eq!(Users::verify_user(&store, "bob", "hunter2"), Ok(true));
    assert_eq!(Users::verify_user(&store, "bob", "hunter3"), Ok(false));
}

#[test]
fn same_password_gets_different_hashes() {
    let mut store = AccountStore::new();
    let a = Users::create_user(&mut store, user("carol", "same")).unwrap();
    let b = Users::create_user(&mut store, user("dave", "same")).unwrap();
    assert_ne!(a.password, b.password);
    assert_ne!(a.password, "same");
    assert_ne!(a.id, b.id);
}

#[test]
fn concurrent_changes_one_wins_other_conflicts() {
    let mut store = store_with_alice();
    let snapshot = store.find_by_username("alice").unwrap();
    let h1 = snapshot
        .prepare_password_change("secret1", "first", "first")
        .unwrap();
    let h2 = snapshot
        .prepare_password_change("secret1", "second", "second")
        .unwrap();
    let r1 = store.update_password_hash("alice", &snapshot.password, h1.clone(), 10);
    let r2 = store.update_password_hash("alice", &snapshot.password, h2, 11);
    assert!(r1.is_ok());
    assert_eq!(r2.err(), Some(CredentialError::Conflict));
    assert_eq!(store.find_by_username("alice").unwrap().password, h1);
    assert_eq!(store.find_by_username("alice").unwrap().updated_at, 10);
}

#[test]
fn duplicate_username_is_refused() {
    let mut store = store_with_alice();
    let r = Users::create_user(&mut store, user("alice", "other"));
    assert_eq!(r.err(), Some(CredentialError::DuplicateUsername));
    assert_eq!(store.len(), 1);
}

#[test]
fn empty_username_is_refused() {
    let mut store = AccountStore::new();
    let r = Users::create_user(&mut store, user("", "pw"));
    assert_eq!(r.err(), Some(CredentialError::EmptyUsername));
    assert_eq!(store.len(), 0);
}

#[test]
fn unknown_username_is_not_found() {
    let mut store = AccountStore::new();
    assert_eq!(Users::verify_user(&store, "nobody", "pw"), Err(CredentialError::NotFound));
    let r = Users::update_password(&mut store, "nobody", "a", "b", "b");
    assert_eq!(r.err(), Some(CredentialError::NotFound));
}

#[test]
fn commit_refuses_a_hash_that_is_not_phc() {
    let mut store = store_with_alice();
    let before = store.find_by_username("alice").unwrap();
    let r = store.commit_password("alice", &before.password, "plaintext".to_string());
    assert_eq!(r.err(), Some(CredentialError::HashingFailure));
    assert_eq!(store.find_by_username("alice").unwrap().password, before.password);
    let r = store.commit_password("alice", "stale", "plaintext".to_string());
    assert_eq!(r.err(), Some(CredentialError::Conflict));
}

#[test]
fn taken_username_is_refused_before_hashing() {
    let mut store = AccountStore::new();
    Users::create_user_with(&mut store, user("lena", "pw"), "c2FsdHNhbHRzYWx0", 1).unwrap();
    let r = Users::create_user_with(&mut store, user("lena", "pw"), "!", 2);
    assert_eq!(r.err(), Some(CredentialError::DuplicateUsername));
    assert_eq!(store.len(), 1);
}

#[test]
fn salt_of_sixteen_bytes_registers() {
    let mut store = AccountStore::new();
    let salt = "AAECAwQFBgcICQoLDA0ODw";
    let a = Users::create_user_with(&mut store, user("mia", "pw"), salt, 7).unwrap();
    assert!(a.password.contains(salt));
    assert_eq!(Users::verify_user(&store, "mia", "pw"), Ok(true));
    let b = Users::update_password_with(&mut store, "mia", "pw", "pw2", "pw2", "DwwLCgkIBwYFBAMCAQAPDg", 8)
        .unwrap();
    assert_eq!(b.updated_at, 8);
    assert_eq!(Users::verify_user(&store, "mia", "pw2"), Ok(true));
}

#[test]
fn invalid_salt_is_a_hashing_failure() {
    let mut store = AccountStore::new();
    let r = Users::create_user_with(&mut store, user("frank", "pw"), "!", 1);
    assert_eq!(r.err(), Some(CredentialError::HashingFailure));
    assert_eq!(store.len(), 0);
}

#[test]
fn create_with_given_salt_and_time() {
    let mut store = AccountStore::new();
    let salt = "c2FsdHNhbHRzYWx0";
    let a = Users::create_user_with(&mut store, user("gina", "pw"), salt, 1234).unwrap();
    assert_eq!(a.id, 1);
    assert!(a.is_active);
    assert!(!a.is_admin);
    assert_eq!(a.created_at, 1234);
    assert_eq!(a.updated_at, 1234);
    assert!(a.password.starts_with("$argon2id$v=19$"));
    assert!(a.password.contains(salt));
    assert_eq!(Users::verify_user(&store, "gina", "pw"), Ok(true));
    let mut again = AccountStore::new();
    let b = Users::create_user_with(&mut again, user("gina", "pw"), salt, 1).unwrap();
    assert_eq!(a.password, b.password);
    let mut other = AccountStore::new();
    let c = Users::create_user_with(&mut other, user("gina", "pw"), "b3RoZXJzYWx0c2FsdA", 1).unwrap();
    assert_ne!(a.password, c.password);
}

#[test]
fn update_with_given_salt_and_time_bumps_updated_at() {
    let mut store = AccountStore::new();
    let a = Users::create_user_with(&mut store, user("hank", "pw"), "c2FsdHNhbHRzYWx0", 5).unwrap();
    let b = Users::update_password_with(&mut store, "hank", "pw", "pw2", "pw2", "b3RoZXJzYWx0c2FsdA", 9)
        .unwrap();
    assert_eq!(b.id, a.id);
    assert_eq!(b.created_at, 5);
    assert_eq!(b.updated_at, 9);
    assert!(b.password.contains("b3RoZXJzYWx0c2FsdA"));
    assert_ne!(b.password, a.password);
    assert_eq!(Users::verify_user(&store, "hank", "pw2"), Ok(true));
    assert_eq!(Users::verify_user(&store, "hank", "pw"), Ok(false));
}

#[test]
fn authorize_gives_a_hash_of_the_new_password() {
    let mut store = AccountStore::new();
    let a = Users::create_user_with(&mut store, user("judy", "old"), "c2FsdHNhbHRzYWx0", 1).unwrap();
    let h = a.authorize_password_change("old", "new", "new", "b3RoZXJzYWx0c2FsdA").unwrap();
    assert!(h.starts_with("$argon2id$v=19$"));
    assert_ne!(h, "new");
    assert_ne!(h, a.password);
    assert_eq!(a.authorize_password_change("Old", "new", "new", "b3RoZXJzYWx0c2FsdA"), Err(CredentialError::InvalidCredentials));
    assert_eq!(a.authorize_password_change("old", "new", "neW", "b3RoZXJzYWx0c2FsdA"), Err(CredentialError::PasswordMismatch));
    assert_eq!(a.authorize_password_change("old", "new", "new", "!"), Err(CredentialError::HashingFailure));
    store.commit_password("judy", &a.password, h).unwrap();
    assert_eq!(Users::verify_user(&store, "judy", "new"), Ok(true));
    assert_eq!(Users::verify_user(&store, "judy", "old"), Ok(false));
}

#[test]
fn fresh_salts_and_current_time_on_registration() {
    let mut store = AccountStore::new();
    let a = Users::create_user(&mut store, user("kim", "pw")).unwrap();
    assert!(a.created_at > 1_600_000_000);
    assert_eq!(a.created_at, a.updated_at);
    let p1 = a.prepare_password_change("pw", "x", "x").unwrap();
    let p2 = a.prepare_password_change("pw", "x", "x").unwrap();
    assert_ne!(p1, p2);
}

#[test]
fn listing_and_lookup_by_id() {
    let mut store = store_with_alice();
    Users::create_user_with(&mut store, user("ivan", "pw"), "c2FsdHNhbHRzYWx0", 3).unwrap();
    let all = Users::get_users(&store);
    assert_eq!(all.len(), 2);
    assert_eq!(all[0].username, "alice");
    assert_eq!(all[1].username, "ivan");
    assert_eq!(all[1].id, 2);
    let one = Users::get_user(&store, 2).unwrap();
    assert_eq!(one.username, "ivan");
    assert!(one.is_active);
    assert_eq!(Users::get_user(&store, 7).err(), Some(CredentialError::NotFound));
}

#[test]
fn error_status_codes() {
    assert_eq!(CredentialError::NotFound.status_code(), 404);
    assert_eq!(CredentialError::InvalidCredentials.status_code(), 400);
    assert_eq!(CredentialError::PasswordMismatch.status_code(), 400);
    assert_eq!(CredentialError::DuplicateUsername.status_code(), 409);
    assert_eq!(CredentialError::Conflict.status_code(), 409);
    assert_eq!(CredentialError::StoreUnavailable.status_code(), 500);
    assert_eq!(CredentialError::HashingFailure.status_code(), 500);
    assert!(CredentialError::EmptyUsername.is_caller_error());
    assert!(!CredentialError::HashingFailure.is_caller_error());
}
