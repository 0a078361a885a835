//! The authenticator: validates a claimed e-mail address and secret against
//! the record that the identity store returned for the address.

use crate::hasher::{credential_matches, verify_password};
use crate::identity::{Profile, ProfileView};
use crate::memory::IdentityStore;
use crate::store::{answer, StoreReply, StoreReplyView, StoreRequest, StoreRequestView};
use vstd::prelude::*;

verus! {

/// What a client submits to log in.
#[derive(Debug, PartialEq, Eq)]
pub struct LoginData {
    pub email: String,
    pub password: String,
}

/// The mathematical content of a [`LoginData`].
pub ghost struct LoginDataView {
    pub email: Seq<char>,
    pub password: Seq<char>,
}

impl View for LoginData {
    type V = LoginDataView;

    open spec fn view(&self) -> LoginDataView {
        LoginDataView { email: self.email@, password: self.password@ }
    }
}

/// Why a login was refused.
#[derive(Clone, Copy, Debug, PartialEq, Eq, Structural)]
pub enum AuthenticationError {
    /// No record has the address, or the secret is not the record's. The two
    /// are one error on purpose: a caller cannot tell whether an account
    /// exists.
    InvalidCredentials,
    /// The store was unreachable or rejected the lookup.
    StoreError,
}

/// The content of an authentication's outcome.
pub open spec fn verdict_view(verdict: Result<Profile, AuthenticationError>) -> Result<
    ProfileView,
    AuthenticationError,
> {
    match verdict {
        Ok(profile) => Ok(profile@),
        Err(e) => Err(e),
    }
}

/// The outcome of a login, given what the store answered to the lookup of
/// the address: the identifier, name and address of the record that was
/// found if the secret verifies against its hash, `InvalidCredentials` if
/// it does not or nothing was found, and `StoreError` for any other reply.
/// The hash of the record is not part of the outcome.
pub open spec fn authentication_result(data: LoginDataView, reply: StoreReplyView) -> Result<
    ProfileView,
    AuthenticationError,
> {
    match reply {
        StoreReplyView::Found(record) => if credential_matches(data.password, record.password_hash) {
            Ok(record.profile())
        } else {
            Err(AuthenticationError::InvalidCredentials)
        },
        StoreReplyView::Missing => Err(AuthenticationError::InvalidCredentials),
        _ => Err(AuthenticationError::StoreError),
    }
}

/// The lookup that a login starts with.
pub fn lookup_request(data: &LoginData) -> (request: StoreRequest)
    ensures
        request@ == StoreRequestView::FindByEmail(data@.email),
{
    StoreRequest::FindByEmail(data.email.clone())
}

/// Decides a login from the store's reply to the lookup of the address.
/// What comes back of the record is its public part.
pub fn authenticate_with(data: &LoginData, reply: StoreReply) -> (verdict: Result<
    Profile,
    AuthenticationError,
>)
    ensures
        verdict_view(verdict) == authentication_result(data@, reply@),
{
    match reply {
        StoreReply::Found(record) => {
            if verify_password(data.password.as_str(), record.password_hash.as_str()) {
                Ok(record.profile())
            } else {
                Err(AuthenticationError::InvalidCredentials)
            }
        },
        StoreReply::Missing => Err(AuthenticationError::InvalidCredentials),
        _ => Err(AuthenticationError::StoreError),
    }
}

/// Authenticates `data` against an in-memory store.
pub fn authenticate_user(store: &IdentityStore, data: &LoginData) -> (verdict: Result<
    Profile,
    AuthenticationError,
>)
    ensures
        verdict_view(verdict) == authentication_result(
            data@,
            answer(store@, StoreRequestView::FindByEmail(data@.email)),
        ),
{
    let reply = match store.find_by_email(&data.email) {
        Some(record) => StoreReply::Found(record),
        None => StoreReply::Missing,
    };
    authenticate_with(data, reply)
}

} // verus!
