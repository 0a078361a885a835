//! The persisted identity record and the part of it that may leave the service.

use uuid::Uuid;
use vstd::prelude::*;

verus! {

/// `Uuid::new_v4`, rendered in the hyphenated form. The value is random;
/// trusted of its text is the length alone: 32 digits and 4 hyphens.
#[verifier::external_body]
pub(crate) fn fresh_id() -> (id: String)
    ensures
        id@.len() == 36,
{
    Uuid::new_v4().to_string()
}

/// A stored user record.
#[derive(Debug, PartialEq, Eq)]
pub struct Identity {
    /// Opaque unique identifier, drawn once at creation.
    pub id: String,
    /// Display name, unique across all records.
    pub name: String,
    /// E-mail address, unique across all records.
    pub email: String,
    /// Salted one-way hash of the secret; never the secret itself.
    pub password_hash: String,
}

/// The mathematical content of an [`Identity`].
pub ghost struct IdentityView {
    pub id: Seq<char>,
    pub name: Seq<char>,
    pub email: Seq<char>,
    pub password_hash: Seq<char>,
}

impl View for Identity {
    type V = IdentityView;

    open spec fn view(&self) -> IdentityView {
        IdentityView {
            id: self.id@,
            name: self.name@,
            email: self.email@,
            password_hash: self.password_hash@,
        }
    }
}

/// What a response may show of an identity: everything but the hash.
#[derive(Debug, PartialEq, Eq)]
pub struct Profile {
    pub id: String,
    pub name: String,
    pub email: String,
}

/// The mathematical content of a [`Profile`].
pub ghost struct ProfileView {
    pub id: Seq<char>,
    pub name: Seq<char>,
    pub email: Seq<char>,
}

impl View for Profile {
    type V = ProfileView;

    open spec fn view(&self) -> ProfileView {
        ProfileView { id: self.id@, name: self.name@, email: self.email@ }
    }
}

impl IdentityView {
    /// The public part of a record.
    pub open spec fn profile(self) -> ProfileView {
        ProfileView { id: self.id, name: self.name, email: self.email }
    }
}

impl Identity {
    /// A copy with the same content.
    pub fn duplicate(&self) -> (r: Identity)
        ensures
            r@ == self@,
    {
        Identity {
            id: self.id.clone(),
            name: self.name.clone(),
            email: self.email.clone(),
            password_hash: self.password_hash.clone(),
        }
    }

    /// The public part of the record. The hash stays behind.
    pub fn profile(&self) -> (r: Profile)
        ensures
            r@ == self@.profile(),
    {
        Profile { id: self.id.clone(), name: self.name.clone(), email: self.email.clone() }
    }
}

impl Profile {
    /// A copy with the same content.
    pub fn duplicate(&self) -> (r: Profile)
        ensures
            r@ == self@,
    {
        Profile { id: self.id.clone(), name: self.name.clone(), email: self.email.clone() }
    }
}

} // verus!
