//! The service's operations as the HTTP layer sees them: what is answered
//! to a login, a registration, a logout and a check of the session, as a
//! status code and a payload.

use crate::authenticator::AuthenticationError;
use crate::identity::{Identity, IdentityView, Profile, ProfileView};
use crate::registrar::RegistrationError;
use crate::session::{
    bound_identity, check_auth, entries_bound, entries_revoked, establish, revoke,
    session_entries, session_phase, touched, SessionDetails, SessionError, SessionPhase,
};
use actix_session::Session;
use vstd::prelude::*;

verus! {

/// The payload of a response.
#[derive(Debug, PartialEq, Eq)]
pub enum Body {
    /// `{ identity }`: the public part of a record.
    Identity(Profile),
    /// `{ error }`: a stable reason, without internal detail.
    Error(String),
    /// `{ message }`.
    Message(String),
}

/// The mathematical content of a [`Body`].
pub ghost enum BodyView {
    Identity(ProfileView),
    Error(Seq<char>),
    Message(Seq<char>),
}

impl View for Body {
    type V = BodyView;

    open spec fn view(&self) -> BodyView {
        match self {
            Body::Identity(profile) => BodyView::Identity(profile@),
            Body::Error(reason) => BodyView::Error(reason@),
            Body::Message(text) => BodyView::Message(text@),
        }
    }
}

/// A response: HTTP status code and payload.
#[derive(Debug, PartialEq, Eq)]
pub struct Response {
    pub status: u16,
    pub body: Body,
}

/// The mathematical content of a [`Response`].
pub ghost struct ResponseView {
    pub status: int,
    pub body: BodyView,
}

impl View for Response {
    type V = ResponseView;

    open spec fn view(&self) -> ResponseView {
        ResponseView { status: self.status as int, body: self.body@ }
    }
}

/// An error response with the given status and reason.
pub open spec fn failure(status: int, reason: Seq<char>) -> ResponseView {
    ResponseView { status, body: BodyView::Error(reason) }
}

/// The response that shows an identity: status 200 and its public part.
pub open spec fn success(profile: ProfileView) -> ResponseView {
    ResponseView { status: 200, body: BodyView::Identity(profile) }
}

/// The response to a registration with this outcome.
pub open spec fn registration_response(outcome: Result<IdentityView, RegistrationError>) -> ResponseView {
    match outcome {
        Ok(identity) => success(identity.profile()),
        Err(RegistrationError::DisplayNameTaken) => failure(400, "DisplayNameTaken"@),
        Err(RegistrationError::EmailTaken) => failure(400, "EmailTaken"@),
        Err(RegistrationError::HashingFailed) => failure(400, "HashingFailed"@),
        Err(RegistrationError::StoreError) => failure(500, "StoreError"@),
    }
}

/// The response to a login that was refused. Unknown address and wrong
/// secret arrive here as one error and so get one response.
pub open spec fn refusal_response(error: AuthenticationError) -> ResponseView {
    match error {
        AuthenticationError::InvalidCredentials => failure(401, "Invalid credentials"@),
        AuthenticationError::StoreError => failure(500, "StoreError"@),
    }
}

/// The response to a login that was accepted, given how binding the session
/// went.
pub open spec fn welcome_response(profile: ProfileView, established: Result<(), SessionError>) -> ResponseView {
    match established {
        Ok(_) => success(profile),
        Err(_) => failure(500, "SessionError"@),
    }
}

/// The response to a logout.
pub open spec fn logout_response() -> ResponseView {
    ResponseView { status: 200, body: BodyView::Message("Logout successful"@) }
}

/// The response to a request that needs a session and has none.
pub open spec fn unauthorized_response() -> ResponseView {
    failure(401, "User not logged in."@)
}

fn fail(status: u16, reason: &str) -> (r: Response)
    ensures
        r@ == failure(status as int, reason@),
{
    Response { status, body: Body::Error(reason.to_owned()) }
}

/// Answers a registration: the created identity without its hash, or the
/// reason it was not created.
pub fn register(outcome: &Result<Identity, RegistrationError>) -> (r: Response)
    ensures
        r@ == registration_response(crate::registrar::outcome_view(*outcome)),
{
    match outcome {
        Ok(identity) => Response { status: 200, body: Body::Identity(identity.profile()) },
        Err(RegistrationError::DisplayNameTaken) => fail(400, "DisplayNameTaken"),
        Err(RegistrationError::EmailTaken) => fail(400, "EmailTaken"),
        Err(RegistrationError::HashingFailed) => fail(400, "HashingFailed"),
        Err(RegistrationError::StoreError) => fail(500, "StoreError"),
    }
}

/// Answers a login that was refused.
pub fn refusal(error: AuthenticationError) -> (r: Response)
    ensures
        r@ == refusal_response(error),
{
    match error {
        AuthenticationError::InvalidCredentials => fail(401, "Invalid credentials"),
        AuthenticationError::StoreError => fail(500, "StoreError"),
    }
}

/// Answers a login that was accepted, given how binding the session went.
pub fn welcome(profile: &Profile, established: Result<(), SessionError>) -> (r: Response)
    ensures
        r@ == welcome_response(profile@, established),
{
    match established {
        Ok(_) => Response { status: 200, body: Body::Identity(profile.duplicate()) },
        Err(_) => fail(500, "SessionError"),
    }
}

/// Completes a login. An accepted identity is bound to the session, which
/// is flagged for a new key, and shown. A refused login leaves the session
/// exactly as it was, and so does an accepted one on a session that is
/// marked for deletion, which is answered with an error.
pub fn login(outcome: &Result<Profile, AuthenticationError>, session: &mut Session) -> (r: Response)
    ensures
        match *outcome {
            Err(error) => r@ == refusal_response(error) && *final(session) == *old(session),
            Ok(profile) => if session_phase(*old(session)) == SessionPhase::Purged {
                &&& r@ == welcome_response(profile@, Err(SessionError::Closed))
                &&& *final(session) == *old(session)
            } else {
                &&& r@ == success(profile@)
                &&& session_phase(*final(session)) == SessionPhase::Renewed
                &&& session_entries(*final(session)) == entries_bound(
                    session_entries(*old(session)),
                    profile@.id,
                )
                &&& bound_identity(
                    session_entries(*final(session)),
                    session_phase(*final(session)),
                ) == Some(profile@.id)
            },
        },
{
    match outcome {
        Ok(profile) => {
            let established = establish(session, &profile.id);
            welcome(profile, established)
        },
        Err(error) => refusal(*error),
    }
}

/// Logs out: the binding is revoked and every other entry kept, and the
/// answer is the same whether or not there was a binding.
pub fn logout(session: &mut Session) -> (r: Response)
    ensures
        r@ == logout_response(),
        session_phase(*final(session)) == touched(session_phase(*old(session))),
        session_entries(*final(session)) == if session_phase(*old(session))
            != SessionPhase::Purged {
            entries_revoked(session_entries(*old(session)))
        } else {
            session_entries(*old(session))
        },
        bound_identity(session_entries(*final(session)), session_phase(*final(session))) is None,
{
    revoke(session);
    Response { status: 200, body: Body::Message("Logout successful".to_owned()) }
}

/// Gates a protected route: the session's identity, or the 401 response to
/// send in its place.
pub fn require_session(session: &Session) -> (r: Result<SessionDetails, Response>)
    ensures
        match r {
            Ok(details) => bound_identity(session_entries(*session), session_phase(*session))
                == Some(details.user_id@),
            Err(response) => response@ == unauthorized_response() && bound_identity(
                session_entries(*session),
                session_phase(*session),
            ) is None,
        },
{
    match check_auth(session) {
        Ok(details) => Ok(details),
        Err(_) => Err(fail(401, "User not logged in.")),
    }
}

} // verus!
