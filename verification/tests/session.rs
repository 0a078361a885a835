use actix_session::{Session, SessionExt, SessionStatus};
use actix_web::test::TestRequest;
use actix_web::HttpRequest;
use auth_core::authenticator::AuthenticationError;
use auth_core::identity::{Identity, Profile};
use auth_core::registrar::RegistrationError;
use auth_core::service::{login, logout, refusal, register, require_session, welcome, Body, Response};
use auth_core::session::{check_auth, establish, revoke, SessionDetails, SessionError};

fn fresh() -> (HttpRequest, Session) {
    let request = TestRequest::default().to_http_request();
    let session = request.get_session();
    (request, session)
}

fn alice() -> Identity {
    Identity {
        id: "7d444840-9dc0-11d1-b245-5ffdce74fad2".to_string(),
        name: "alice".to_string(),
        email: "a@x.com".to_string(),
        password_hash: "$hash".to_string(),
    }
}

fn profile() -> Profile {
    Profile {
        id: "7d444840-9dc0-11d1-b245-5ffdce74fad2".to_string(),
        name: "alice".to_string(),
        email: "a@x.com".to_string(),
    }
}

fn shown() -> Body {
    Body::Identity(profile())
}

fn error(status: u16, reason: &str) -> Response {
    Response { status, body: Body::Error(reason.to_string()) }
}

#[test]
fn fresh_session_is_unauthenticated() {
    let (_request, session) = fresh();
    assert_eq!(check_auth(&session), Err(SessionError::Unauthenticated));
    assert_eq!(session.status(), SessionStatus::Unchanged);
}

#[test]
fn established_session_reads_as_the_identity() {
    let (_request, mut session) = fresh();
    assert_eq!(establish(&mut session, &"id-1".to_string()), Ok(()));
    assert_eq!(check_auth(&session), Ok(SessionDetails { user_id: "id-1".to_string() }));
    assert_eq!(session.status(), SessionStatus::Renewed);
    assert_eq!(session.get::<String>("user_id").unwrap(), Some("id-1".to_string()));
}

#[test]
fn establishing_again_replaces_the_binding() {
    let (_request, mut session) = fresh();
    establish(&mut session, &"id-1".to_string()).unwrap();
    establish(&mut session, &"id \"2\"\n".to_string()).unwrap();
    assert_eq!(check_auth(&session), Ok(SessionDetails { user_id: "id \"2\"\n".to_string() }));
    assert_eq!(session.entries().len(), 1);
}

#[test]
fn establishing_touches_no_other_entry() {
    let (_request, mut session) = fresh();
    session.insert("theme", "dark").unwrap();
    establish(&mut session, &"id-1".to_string()).unwrap();
    assert_eq!(session.get::<String>("theme").unwrap(), Some("dark".to_string()));
    revoke(&mut session);
    assert_eq!(session.get::<String>("theme").unwrap(), Some("dark".to_string()));
    assert_eq!(check_auth(&session), Err(SessionError::Unauthenticated));
}

#[test]
fn revoked_session_is_unauthenticated() {
    let (_request, mut session) = fresh();
    establish(&mut session, &"id-1".to_string()).unwrap();
    revoke(&mut session);
    assert_eq!(check_auth(&session), Err(SessionError::Unauthenticated));
    assert!(!session.contains_key("user_id"));
}

#[test]
fn revoking_an_unbound_session_marks_it_changed() {
    let (_request, mut session) = fresh();
    revoke(&mut session);
    assert_eq!(session.status(), SessionStatus::Changed);
    assert_eq!(check_auth(&session), Err(SessionError::Unauthenticated));
}

#[test]
fn entry_that_is_no_string_is_unauthenticated() {
    let (_request, session) = fresh();
    session.insert("user_id", 42u32).unwrap();
    assert_eq!(check_auth(&session), Err(SessionError::Unauthenticated));
}

#[test]
fn purged_session_takes_no_binding() {
    let (_request, mut session) = fresh();
    session.purge();
    assert_eq!(establish(&mut session, &"id-1".to_string()), Err(SessionError::Closed));
    assert_eq!(check_auth(&session), Err(SessionError::Unauthenticated));
    assert_eq!(session.status(), SessionStatus::Purged);
    revoke(&mut session);
    assert_eq!(session.status(), SessionStatus::Purged);
}

#[test]
fn accepted_login_binds_the_session_and_shows_the_identity() {
    let (_request, mut session) = fresh();
    let response = login(&Ok(profile()), &mut session);
    assert_eq!(response, Response { status: 200, body: shown() });
    assert_eq!(
        check_auth(&session),
        Ok(SessionDetails { user_id: "7d444840-9dc0-11d1-b245-5ffdce74fad2".to_string() })
    );
    assert_eq!(session.status(), SessionStatus::Renewed);
}

#[test]
fn refused_login_leaves_the_session_alone() {
    let (_request, mut session) = fresh();
    let response = login(&Err(AuthenticationError::InvalidCredentials), &mut session);
    assert_eq!(response, error(401, "Invalid credentials"));
    assert_eq!(session.status(), SessionStatus::Unchanged);
    assert_eq!(check_auth(&session), Err(SessionError::Unauthenticated));
    let response = login(&Err(AuthenticationError::StoreError), &mut session);
    assert_eq!(response, error(500, "StoreError"));
    assert_eq!(session.status(), SessionStatus::Unchanged);
}

#[test]
fn login_on_a_purged_session_is_a_server_error() {
    let (_request, mut session) = fresh();
    session.purge();
    assert_eq!(login(&Ok(profile()), &mut session), error(500, "SessionError"));
}

#[test]
fn refusal_and_welcome_responses() {
    assert_eq!(refusal(AuthenticationError::InvalidCredentials), error(401, "Invalid credentials"));
    assert_eq!(refusal(AuthenticationError::StoreError), error(500, "StoreError"));
    assert_eq!(welcome(&profile(), Ok(())), Response { status: 200, body: shown() });
    assert_eq!(welcome(&profile(), Err(SessionError::Closed)), error(500, "SessionError"));
    assert_eq!(welcome(&profile(), Err(SessionError::Unauthenticated)), error(500, "SessionError"));
}

#[test]
fn registration_responses() {
    assert_eq!(register(&Ok(alice())), Response { status: 200, body: shown() });
    assert_eq!(register(&Err(RegistrationError::DisplayNameTaken)), error(400, "DisplayNameTaken"));
    assert_eq!(register(&Err(RegistrationError::EmailTaken)), error(400, "EmailTaken"));
    assert_eq!(register(&Err(RegistrationError::HashingFailed)), error(400, "HashingFailed"));
    assert_eq!(register(&Err(RegistrationError::StoreError)), error(500, "StoreError"));
}

#[test]
fn logout_is_idempotent() {
    let (_request, mut session) = fresh();
    let expected =
        Response { status: 200, body: Body::Message("Logout successful".to_string()) };
    assert_eq!(logout(&mut session), expected);
    establish(&mut session, &"id-1".to_string()).unwrap();
    assert_eq!(logout(&mut session), expected);
    assert_eq!(logout(&mut session), expected);
    assert_eq!(check_auth(&session), Err(SessionError::Unauthenticated));
}

#[test]
fn protected_route_needs_a_bound_session() {
    let (_request, mut session) = fresh();
    assert_eq!(require_session(&session), Err(error(401, "User not logged in.")));
    establish(&mut session, &"id-1".to_string()).unwrap();
    assert_eq!(require_session(&session), Ok(SessionDetails { user_id: "id-1".to_string() }));
}

#[test]
fn accepted_login_on_any_open_session_is_answered_200() {
    let (_request, mut session) = fresh();
    session.insert("theme", "dark").unwrap();
    establish(&mut session, &"someone-else".to_string()).unwrap();
    let response = login(&Ok(profile()), &mut session);
    assert_eq!(response, Response { status: 200, body: shown() });
    assert_eq!(
        check_auth(&session),
        Ok(SessionDetails { user_id: "7d444840-9dc0-11d1-b245-5ffdce74fad2".to_string() })
    );
    assert_eq!(session.get::<String>("theme").unwrap(), Some("dark".to_string()));
    assert_eq!(session.entries().len(), 2);
}

#[test]
fn logout_keeps_the_other_entries() {
    let (_request, mut session) = fresh();
    session.insert("theme", "dark").unwrap();
    establish(&mut session, &"id-1".to_string()).unwrap();
    logout(&mut session);
    assert_eq!(session.get::<String>("theme").unwrap(), Some("dark".to_string()));
    assert_eq!(session.entries().len(), 1);
    assert_eq!(session.status(), SessionStatus::Renewed);
}

#[test]
fn identifier_of_any_text_can_be_bound() {
    let (_request, mut session) = fresh();
    for id in ["", "\u{0}", "\\\"{}[]", "\u{1F600} caf\u{e9}"] {
        assert_eq!(establish(&mut session, &id.to_string()), Ok(()));
        assert_eq!(check_auth(&session), Ok(SessionDetails { user_id: id.to_string() }));
    }
}
