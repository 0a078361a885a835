use auth_core::authenticator::{
    authenticate_user, authenticate_with, lookup_request, AuthenticationError, LoginData,
};
use auth_core::identity::{Identity, Profile};
use auth_core::memory::IdentityStore;
use auth_core::store::{StoreReply, StoreRequest};

const KNOWN_HASH: &str =
    "$argon2id$v=19$m=256,t=2,p=1$c29tZXNhbHQ$nf65EOgLrQMR/uIPnA4rEsF5h7TKyQwu9U1bMCHGi/4";

fn login(email: &str, password: &str) -> LoginData {
    LoginData { email: email.to_string(), password: password.to_string() }
}

fn alice(hash: &str) -> Identity {
    Identity {
        id: "id-1".to_string(),
        name: "alice".to_string(),
        email: "a@x.com".to_string(),
        password_hash: hash.to_string(),
    }
}

fn shown() -> Profile {
    Profile { id: "id-1".to_string(), name: "alice".to_string(), email: "a@x.com".to_string() }
}

#[test]
fn login_starts_with_a_lookup_of_the_address() {
    assert_eq!(
        lookup_request(&login("a@x.com", "password")),
        StoreRequest::FindByEmail("a@x.com".to_string())
    );
}

#[test]
fn right_secret_returns_the_record() {
    let verdict =
        authenticate_with(&login("a@x.com", "password"), StoreReply::Found(alice(KNOWN_HASH)));
    assert_eq!(verdict, Ok(shown()));
}

#[test]
fn wrong_secret_and_unknown_address_fail_alike() {
    let wrong =
        authenticate_with(&login("a@x.com", "sassword"), StoreReply::Found(alice(KNOWN_HASH)));
    let unknown = authenticate_with(&login("nobody@x.com", "password"), StoreReply::Missing);
    assert_eq!(wrong, Err(AuthenticationError::InvalidCredentials));
    assert_eq!(unknown, Err(AuthenticationError::InvalidCredentials));
    assert_eq!(wrong, unknown);
}

#[test]
fn malformed_stored_hash_is_invalid_credentials() {
    let verdict =
        authenticate_with(&login("a@x.com", "password"), StoreReply::Found(alice("password")));
    assert_eq!(verdict, Err(AuthenticationError::InvalidCredentials));
}

#[test]
fn store_failure_at_login_is_a_store_error() {
    assert_eq!(
        authenticate_with(&login("a@x.com", "password"), StoreReply::Failed),
        Err(AuthenticationError::StoreError)
    );
    assert_eq!(
        authenticate_with(&login("a@x.com", "password"), StoreReply::EmailConflict),
        Err(AuthenticationError::StoreError)
    );
    assert_eq!(
        authenticate_with(&login("a@x.com", "password"), StoreReply::NameConflict),
        Err(AuthenticationError::StoreError)
    );
}

#[test]
fn authentication_against_a_store_leaves_it_as_it_was() {
    let mut store = IdentityStore::new();
    store.serve(&StoreRequest::Create(alice(KNOWN_HASH)));
    assert_eq!(authenticate_user(&store, &login("a@x.com", "password")), Ok(shown()));
    assert_eq!(
        authenticate_user(&mut store, &login("a@x.com", "sassword")),
        Err(AuthenticationError::InvalidCredentials)
    );
    assert_eq!(
        authenticate_user(&mut store, &login("b@x.com", "password")),
        Err(AuthenticationError::InvalidCredentials)
    );
    assert_eq!(store.len(), 1);
}

#[test]
fn stored_hash_with_parameters_out_of_range_is_invalid_credentials() {
    let hash =
        "$argon2id$v=19$m=256,t=2,p=536870912$c29tZXNhbHQ$nf65EOgLrQMR/uIPnA4rEsF5h7TKyQwu9U1bMCHGi/4";
    let verdict = authenticate_with(&login("a@x.com", "password"), StoreReply::Found(alice(hash)));
    assert_eq!(verdict, Err(AuthenticationError::InvalidCredentials));
}
