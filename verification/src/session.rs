//! The session manager: binds an authenticated identity to the client's
//! session, reads the binding back, and revokes it.
//!
//! The session is the client-held cookie session of `actix-session`. The
//! service keeps a single entry in it, the identifier of the identity that
//! logged in.

use actix_session::{Session, SessionGetError, SessionInsertError, SessionStatus};
use vstd::prelude::*;

verus! {

/// The handle to one request's session state.
#[verifier::external_type_specification]
#[verifier::external_body]
pub struct ExSession(Session);

/// The error of `Session::get`.
#[verifier::external_type_specification]
#[verifier::external_body]
pub struct ExSessionGetError(SessionGetError);

/// The error of `Session::insert`.
#[verifier::external_type_specification]
#[verifier::external_body]
pub struct ExSessionInsertError(SessionInsertError);

/// What will become of a session when the response is sent.
#[derive(Clone, Copy, Debug, PartialEq, Eq, Structural)]
pub enum SessionPhase {
    /// Nothing was modified.
    Unchanged,
    /// The state was modified and will be written back.
    Changed,
    /// The session key will be regenerated, the state kept.
    Renewed,
    /// The session will be deleted; it takes no further entries.
    Purged,
}

/// The text entries of a session: each key whose stored JSON value is a
/// string, with that string. Handles cloned from one another share their
/// state; the library works on the one handle of a request and clones none.
pub uninterp spec fn session_entries(session: Session) -> Map<Seq<char>, Seq<char>>;

/// The status of a session, as `Session::status` reports it.
pub uninterp spec fn session_phase(session: Session) -> SessionPhase;

/// The key under which the identifier of the logged-in identity is kept.
pub open spec fn identity_key() -> Seq<char> {
    "user_id"@
}

/// The phase after a modification in `phase`: a purged session stays
/// purged, a renewed one stays renewed, any other is marked as changed.
pub open spec fn touched(phase: SessionPhase) -> SessionPhase {
    match phase {
        SessionPhase::Purged => SessionPhase::Purged,
        SessionPhase::Renewed => SessionPhase::Renewed,
        _ => SessionPhase::Changed,
    }
}

/// The phase after a renewal in `phase`.
pub open spec fn renewed(phase: SessionPhase) -> SessionPhase {
    match phase {
        SessionPhase::Purged => SessionPhase::Purged,
        _ => SessionPhase::Renewed,
    }
}

/// `Session::status`, as the library's own enum.
#[verifier::external_body]
fn session_status(session: &Session) -> (phase: SessionPhase)
    ensures
        phase == session_phase(*session),
{
    match session.status() {
        SessionStatus::Unchanged => SessionPhase::Unchanged,
        SessionStatus::Changed => SessionPhase::Changed,
        SessionStatus::Renewed => SessionPhase::Renewed,
        SessionStatus::Purged => SessionPhase::Purged,
    }
}

/// `Session::get` at type `String`. Trusted: it returns a string exactly
/// when the key holds one among the text entries, and then that string; a
/// missing key and a value that is no JSON string both give something else.
#[verifier::external_body]
fn session_get(session: &Session, key: &str) -> (r: Result<Option<String>, SessionGetError>)
    ensures
        match r {
            Ok(Some(value)) => session_entries(*session).contains_key(key@) && session_entries(
                *session,
            )[key@] == value@,
            _ => !session_entries(*session).contains_key(key@),
        },
{
    session.get::<String>(key)
}

/// `Session::insert` of a `String`. Trusted: the call returns `Ok`, since
/// it fails only where the value cannot be written as JSON and a string
/// always can; a purged session is left as it is; any other is marked as
/// modified and holds the value under the key afterwards.
#[verifier::external_body]
fn session_insert(session: &mut Session, key: &str, value: String) -> (r: Result<
    (),
    SessionInsertError,
>)
    ensures
        r is Ok,
        session_phase(*final(session)) == touched(session_phase(*old(session))),
        session_entries(*final(session)) == if session_phase(*old(session))
            != SessionPhase::Purged {
            session_entries(*old(session)).insert(key@, value@)
        } else {
            session_entries(*old(session))
        },
{
    session.insert(key, value)
}

/// `Session::remove`, without the raw value it hands back. Trusted: a
/// purged session is left as it is; any other is marked as modified and
/// loses the key.
#[verifier::external_body]
fn session_remove(session: &mut Session, key: &str)
    ensures
        session_phase(*final(session)) == touched(session_phase(*old(session))),
        session_entries(*final(session)) == if session_phase(*old(session))
            != SessionPhase::Purged {
            session_entries(*old(session)).remove(key@)
        } else {
            session_entries(*old(session))
        },
{
    session.remove(key);
}

/// `Session::renew`. Trusted: the entries stay, and the session is flagged
/// for a new key unless it is purged.
#[verifier::external_body]
fn session_renew(session: &mut Session)
    ensures
        session_phase(*final(session)) == renewed(session_phase(*old(session))),
        session_entries(*final(session)) == session_entries(*old(session)),
{
    session.renew();
}

/// Why the session manager refused.
#[derive(Clone, Copy, Debug, PartialEq, Eq, Structural)]
pub enum SessionError {
    /// The session is bound to no identity.
    Unauthenticated,
    /// The session takes no binding: it is marked for deletion.
    Closed,
}

/// What a session says about who is logged in.
#[derive(Debug, PartialEq, Eq)]
pub struct SessionDetails {
    /// The identifier of the identity that the session is bound to.
    pub user_id: String,
}

/// The identity that a session with these entries, in this phase, is bound
/// to. A session marked for deletion is bound to none.
pub open spec fn bound_identity(entries: Map<Seq<char>, Seq<char>>, phase: SessionPhase) -> Option<
    Seq<char>,
> {
    if phase != SessionPhase::Purged && entries.contains_key(identity_key()) {
        Some(entries[identity_key()])
    } else {
        None
    }
}

/// The entries once `identity_id` is bound: the binding replaces an earlier
/// one and touches nothing else.
pub open spec fn entries_bound(entries: Map<Seq<char>, Seq<char>>, identity_id: Seq<char>) -> Map<
    Seq<char>,
    Seq<char>,
> {
    entries.insert(identity_key(), identity_id)
}

/// The entries once the binding is revoked.
pub open spec fn entries_revoked(entries: Map<Seq<char>, Seq<char>>) -> Map<Seq<char>, Seq<char>> {
    entries.remove(identity_key())
}

/// Binds the session to `identity_id` and flags it for a new session key,
/// so that a key from before the login is never reused. The binding
/// replaces an earlier one and touches no other entry.
///
/// Only a session marked for deletion is refused, with `Closed`; it is left
/// as it is.
pub fn establish(session: &mut Session, identity_id: &String) -> (r: Result<(), SessionError>)
    ensures
        r is Ok <==> session_phase(*old(session)) != SessionPhase::Purged,
        match r {
            Ok(_) => {
                &&& session_entries(*final(session)) == entries_bound(
                    session_entries(*old(session)),
                    identity_id@,
                )
                &&& session_phase(*final(session)) == SessionPhase::Renewed
                &&& bound_identity(
                    session_entries(*final(session)),
                    session_phase(*final(session)),
                ) == Some(identity_id@)
            },
            Err(e) => e == SessionError::Closed && *final(session) == *old(session),
        },
{
    if session_status(session) == SessionPhase::Purged {
        return Err(SessionError::Closed);
    }
    match session_insert(session, "user_id", identity_id.clone()) {
        Ok(_) => {
            session_renew(session);
            Ok(())
        },
        Err(_) => Err(SessionError::Closed),
    }
}

/// Reads the identity that the session is bound to.
pub fn check_auth(session: &Session) -> (r: Result<SessionDetails, SessionError>)
    ensures
        match r {
            Ok(details) => bound_identity(session_entries(*session), session_phase(*session))
                == Some(details.user_id@),
            Err(e) => e == SessionError::Unauthenticated && bound_identity(
                session_entries(*session),
                session_phase(*session),
            ) is None,
        },
{
    if session_status(session) == SessionPhase::Purged {
        return Err(SessionError::Unauthenticated);
    }
    match session_get(session, "user_id") {
        Ok(Some(user_id)) => Ok(SessionDetails { user_id }),
        _ => Err(SessionError::Unauthenticated),
    }
}

/// Revokes the binding: afterwards the session is bound to no identity.
/// Revoking a session that is bound to none is not an error.
pub fn revoke(session: &mut Session)
    ensures
        session_phase(*final(session)) == touched(session_phase(*old(session))),
        session_entries(*final(session)) == if session_phase(*old(session))
            != SessionPhase::Purged {
            entries_revoked(session_entries(*old(session)))
        } else {
            session_entries(*old(session))
        },
        bound_identity(session_entries(*final(session)), session_phase(*final(session))) is None,
{
    session_remove(session, "user_id");
}

} // verus!
