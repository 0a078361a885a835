use auth_core::hasher::{verify_password, HashError};
use auth_core::identity::Identity;
use auth_core::memory::IdentityStore;
use auth_core::registrar::{register_user, RegisterData, Registration, RegistrationError};
use auth_core::store::{StoreReply, StoreRequest};

fn data(name: &str, email: &str, password: &str) -> RegisterData {
    RegisterData {
        name: name.to_string(),
        email: email.to_string(),
        password: password.to_string(),
    }
}

fn identity(id: &str, name: &str, email: &str, hash: &str) -> Identity {
    Identity {
        id: id.to_string(),
        name: name.to_string(),
        email: email.to_string(),
        password_hash: hash.to_string(),
    }
}

fn unused() -> (String, Result<String, HashError>) {
    (String::new(), Err(HashError::HashingFailed))
}

#[test]
fn registration_asks_for_the_display_name_first() {
    let state = Registration::begin(data("alice", "a@x.com", "pw1"));
    assert_eq!(state.pending(), Some(StoreRequest::FindByDisplayName("alice".to_string())));
    assert_eq!(state.outcome(), None);
}

#[test]
fn held_display_name_ends_the_registration() {
    let state = Registration::begin(data("alice", "a@x.com", "pw1"));
    let (id, hashed) = unused();
    let next =
        state.advance_with(StoreReply::Found(identity("1", "alice", "z@x.com", "$h")), id, hashed);
    assert_eq!(next, Registration::Finished(Err(RegistrationError::DisplayNameTaken)));
    assert_eq!(next.pending(), None);
    assert_eq!(next.outcome(), Some(Err(RegistrationError::DisplayNameTaken)));
}

#[test]
fn free_display_name_leads_to_the_email_lookup() {
    let state = Registration::begin(data("alice", "a@x.com", "pw1"));
    let (id, hashed) = unused();
    let next = state.advance_with(StoreReply::Missing, id, hashed);
    assert_eq!(next, Registration::CheckingEmail(data("alice", "a@x.com", "pw1")));
    assert_eq!(next.pending(), Some(StoreRequest::FindByEmail("a@x.com".to_string())));
}

#[test]
fn held_email_ends_the_registration() {
    let state = Registration::CheckingEmail(data("bob", "a@x.com", "pw2"));
    let next = state.advance_with(
        StoreReply::Found(identity("1", "alice", "a@x.com", "$h")),
        "id-2".to_string(),
        Ok("$h2".to_string()),
    );
    assert_eq!(next, Registration::Finished(Err(RegistrationError::EmailTaken)));
}

#[test]
fn free_email_hands_the_new_record_to_the_store() {
    let state = Registration::CheckingEmail(data("alice", "a@x.com", "pw1"));
    let next =
        state.advance_with(StoreReply::Missing, "id-1".to_string(), Ok("$hash".to_string()));
    assert_eq!(next, Registration::Creating(identity("id-1", "alice", "a@x.com", "$hash")));
    assert_eq!(
        next.pending(),
        Some(StoreRequest::Create(identity("id-1", "alice", "a@x.com", "$hash")))
    );
}

#[test]
fn failed_hashing_ends_the_registration() {
    let state = Registration::CheckingEmail(data("alice", "a@x.com", "pw1"));
    let next = state.advance_with(
        StoreReply::Missing,
        "id-1".to_string(),
        Err(HashError::HashingFailed),
    );
    assert_eq!(next, Registration::Finished(Err(RegistrationError::HashingFailed)));
}

#[test]
fn created_record_is_the_outcome() {
    let state = Registration::Creating(identity("id-1", "alice", "a@x.com", "$hash"));
    let (id, hashed) = unused();
    let next = state.advance_with(
        StoreReply::Found(identity("id-1", "alice", "a@x.com", "$hash")),
        id,
        hashed,
    );
    assert_eq!(next.outcome(), Some(Ok(identity("id-1", "alice", "a@x.com", "$hash"))));
}

#[test]
fn conflict_at_create_is_reported_as_the_conflict() {
    let (id, hashed) = unused();
    let by_name = Registration::Creating(identity("id-1", "alice", "a@x.com", "$hash"))
        .advance_with(StoreReply::NameConflict, id, hashed);
    assert_eq!(by_name, Registration::Finished(Err(RegistrationError::DisplayNameTaken)));
    let (id, hashed) = unused();
    let by_email = Registration::Creating(identity("id-1", "alice", "a@x.com", "$hash"))
        .advance_with(StoreReply::EmailConflict, id, hashed);
    assert_eq!(by_email, Registration::Finished(Err(RegistrationError::EmailTaken)));
}

#[test]
fn store_failure_is_a_store_error_in_every_state() {
    let states = vec![
        Registration::begin(data("alice", "a@x.com", "pw1")),
        Registration::CheckingEmail(data("alice", "a@x.com", "pw1")),
        Registration::Creating(identity("id-1", "alice", "a@x.com", "$hash")),
    ];
    for state in states {
        let next = state.advance(StoreReply::Failed);
        assert_eq!(next, Registration::Finished(Err(RegistrationError::StoreError)));
    }
    let no_row = Registration::Creating(identity("id-1", "alice", "a@x.com", "$hash"))
        .advance(StoreReply::Missing);
    assert_eq!(no_row, Registration::Finished(Err(RegistrationError::StoreError)));
    let odd = Registration::begin(data("alice", "a@x.com", "pw1")).advance(StoreReply::EmailConflict);
    assert_eq!(odd, Registration::Finished(Err(RegistrationError::StoreError)));
}

#[test]
fn finished_registration_stays_finished() {
    let done = Registration::Finished(Err(RegistrationError::EmailTaken));
    let next = done.advance(StoreReply::Missing);
    assert_eq!(next, Registration::Finished(Err(RegistrationError::EmailTaken)));
}

#[test]
fn advancing_past_both_checks_hashes_the_secret_and_draws_an_identifier() {
    let state = Registration::CheckingEmail(data("alice", "a@x.com", "pw1"));
    match state.advance(StoreReply::Missing) {
        Registration::Creating(record) => {
            assert_eq!(record.name, "alice");
            assert_eq!(record.email, "a@x.com");
            assert_ne!(record.password_hash, "pw1");
            assert!(verify_password("pw1", &record.password_hash));
            assert_eq!(record.id.len(), 36);
            assert_eq!(record.id.matches('-').count(), 4);
        }
        other => panic!("unexpected state {:?}", other),
    }
}

#[test]
fn registering_creates_exactly_one_record() {
    let mut store = IdentityStore::new();
    let alice = register_user(&mut store, data("alice", "a@x.com", "pw1")).unwrap();
    assert_eq!(store.len(), 1);
    assert_eq!(alice.name, "alice");
    assert_eq!(alice.email, "a@x.com");
    assert_eq!(alice.id.len(), 36);
    assert!(verify_password("pw1", &alice.password_hash));
    assert_eq!(store.find_by_email(&"a@x.com".to_string()), Some(alice));
}

#[test]
fn second_registration_with_the_same_email_is_email_taken() {
    let mut store = IdentityStore::new();
    register_user(&mut store, data("alice", "a@x.com", "pw1")).unwrap();
    let second = register_user(&mut store, data("bob", "a@x.com", "pw2"));
    assert_eq!(second, Err(RegistrationError::EmailTaken));
    assert_eq!(store.len(), 1);
}

#[test]
fn second_registration_with_the_same_name_is_display_name_taken() {
    let mut store = IdentityStore::new();
    register_user(&mut store, data("alice", "a@x.com", "pw1")).unwrap();
    let second = register_user(&mut store, data("alice", "b@x.com", "pw2"));
    assert_eq!(second, Err(RegistrationError::DisplayNameTaken));
    let both = register_user(&mut store, data("alice", "a@x.com", "pw3"));
    assert_eq!(both, Err(RegistrationError::DisplayNameTaken));
    assert_eq!(store.len(), 1);
}

#[test]
fn two_registrations_get_two_identifiers() {
    let mut store = IdentityStore::new();
    let alice = register_user(&mut store, data("alice", "a@x.com", "pw1")).unwrap();
    let bob = register_user(&mut store, data("bob", "b@x.com", "pw1")).unwrap();
    assert_ne!(alice.id, bob.id);
    assert_ne!(alice.password_hash, bob.password_hash);
    assert_eq!(store.len(), 2);
}

#[test]
fn free_name_and_address_are_always_registered() {
    let mut store = IdentityStore::new();
    let secrets = ["", "pw1", "a much longer secret with spaces and \u{e9}\u{1F600}"];
    for (i, secret) in secrets.iter().enumerate() {
        let outcome =
            register_user(&mut store, data(&format!("user{}", i), &format!("u{}@x.com", i), secret));
        let record = outcome.unwrap();
        assert_eq!(record.id.len(), 36);
        assert!(verify_password(secret, &record.password_hash));
        assert_eq!(store.len(), i + 1);
    }
}
