//! The identity registrar: uniqueness checks, hashing, and creation of a
//! new record, as a state machine over the replies of the identity store.

use crate::hasher::{credential_matches, hash_password, hashable, HashError};
use crate::identity::{fresh_id, Identity, IdentityView};
use crate::memory::IdentityStore;
use crate::store::{
    after, answer, lookup_email, lookup_name, StoreReply, StoreReplyView, StoreRequest,
    StoreRequestView,
};
use vstd::prelude::*;

verus! {

/// What a client submits to register.
#[derive(Debug, PartialEq, Eq)]
pub struct RegisterData {
    pub name: String,
    pub email: String,
    pub password: String,
}

/// The mathematical content of a [`RegisterData`].
pub ghost struct RegisterDataView {
    pub name: Seq<char>,
    pub email: Seq<char>,
    pub password: Seq<char>,
}

impl View for RegisterData {
    type V = RegisterDataView;

    open spec fn view(&self) -> RegisterDataView {
        RegisterDataView { name: self.name@, email: self.email@, password: self.password@ }
    }
}

/// Why a registration did not create a record.
#[derive(Clone, Copy, Debug, PartialEq, Eq, Structural)]
pub enum RegistrationError {
    /// A record with the display name exists.
    DisplayNameTaken,
    /// A record with the e-mail address exists.
    EmailTaken,
    /// The secret could not be hashed.
    HashingFailed,
    /// The store was unreachable or rejected an operation.
    StoreError,
}

/// Where a registration stands.
#[derive(Debug, PartialEq, Eq)]
pub enum Registration {
    /// The lookup by display name is under way.
    CheckingName(RegisterData),
    /// The display name is free; the lookup by e-mail address is under way.
    CheckingEmail(RegisterData),
    /// Both are free; the store has been handed this record to persist.
    Creating(Identity),
    /// Nothing more is asked of the store.
    Finished(Result<Identity, RegistrationError>),
}

/// The mathematical content of a [`Registration`].
pub ghost enum RegistrationView {
    CheckingName(RegisterDataView),
    CheckingEmail(RegisterDataView),
    Creating(IdentityView),
    Finished(Result<IdentityView, RegistrationError>),
}

/// The content of a registration's outcome.
pub open spec fn outcome_view(outcome: Result<Identity, RegistrationError>) -> Result<
    IdentityView,
    RegistrationError,
> {
    match outcome {
        Ok(identity) => Ok(identity@),
        Err(e) => Err(e),
    }
}

/// The content of a hashing outcome.
pub open spec fn hashed_view(hashed: Result<String, HashError>) -> Result<Seq<char>, HashError> {
    match hashed {
        Ok(h) => Ok(h@),
        Err(e) => Err(e),
    }
}

impl View for Registration {
    type V = RegistrationView;

    open spec fn view(&self) -> RegistrationView {
        match self {
            Registration::CheckingName(data) => RegistrationView::CheckingName(data@),
            Registration::CheckingEmail(data) => RegistrationView::CheckingEmail(data@),
            Registration::Creating(identity) => RegistrationView::Creating(identity@),
            Registration::Finished(outcome) => RegistrationView::Finished(outcome_view(*outcome)),
        }
    }
}

/// The record made from a submission once its secret is hashed.
pub open spec fn new_identity(data: RegisterDataView, id: Seq<char>, hash: Seq<char>) -> IdentityView {
    IdentityView { id, name: data.name, email: data.email, password_hash: hash }
}

/// The request that a registration waits on, if it waits on one.
pub open spec fn pending_request(state: RegistrationView) -> Option<StoreRequestView> {
    match state {
        RegistrationView::CheckingName(data) => Some(StoreRequestView::FindByDisplayName(data.name)),
        RegistrationView::CheckingEmail(data) => Some(StoreRequestView::FindByEmail(data.email)),
        RegistrationView::Creating(identity) => Some(StoreRequestView::Create(identity)),
        RegistrationView::Finished(_) => None,
    }
}

/// What holds of every identifier that is drawn and of every outcome of
/// hashing `secret`: the identifier has 36 characters, a hash that was made
/// is one that the secret verifies against, and one is made whenever the
/// secret is `hashable`.
pub open spec fn drawn(secret: Seq<char>, id: Seq<char>, hashed: Result<Seq<char>, HashError>) -> bool {
    &&& id.len() == 36
    &&& hashable(secret) ==> hashed is Ok
    &&& hashed matches Ok(hash) ==> credential_matches(secret, hash)
}

/// Whether this reply in this state makes the registrar hash the secret and
/// draw an identifier: both uniqueness checks have passed.
pub open spec fn draws(state: RegistrationView, reply: StoreReplyView) -> bool {
    state is CheckingEmail && reply is Missing
}

/// The state after `reply` arrived in `state`. `id` and `hashed` are the
/// identifier drawn and the outcome of hashing; they matter only where
/// `draws(state, reply)` holds.
///
/// A display name that is found ends the registration before the e-mail
/// address is looked at; the secret is hashed only after both checks; a
/// create that the store refuses for a conflict reports that conflict, and
/// every other failure of the store is a `StoreError`.
pub open spec fn step(
    state: RegistrationView,
    reply: StoreReplyView,
    id: Seq<char>,
    hashed: Result<Seq<char>, HashError>,
) -> RegistrationView {
    match state {
        RegistrationView::CheckingName(data) => match reply {
            StoreReplyView::Found(_) => RegistrationView::Finished(
                Err(RegistrationError::DisplayNameTaken),
            ),
            StoreReplyView::Missing => RegistrationView::CheckingEmail(data),
            _ => RegistrationView::Finished(Err(RegistrationError::StoreError)),
        },
        RegistrationView::CheckingEmail(data) => match reply {
            StoreReplyView::Found(_) => RegistrationView::Finished(Err(RegistrationError::EmailTaken)),
            StoreReplyView::Missing => match hashed {
                Ok(hash) => RegistrationView::Creating(new_identity(data, id, hash)),
                Err(_) => RegistrationView::Finished(Err(RegistrationError::HashingFailed)),
            },
            _ => RegistrationView::Finished(Err(RegistrationError::StoreError)),
        },
        RegistrationView::Creating(_) => match reply {
            StoreReplyView::Found(created) => RegistrationView::Finished(Ok(created)),
            StoreReplyView::NameConflict => RegistrationView::Finished(
                Err(RegistrationError::DisplayNameTaken),
            ),
            StoreReplyView::EmailConflict => RegistrationView::Finished(
                Err(RegistrationError::EmailTaken),
            ),
            _ => RegistrationView::Finished(Err(RegistrationError::StoreError)),
        },
        RegistrationView::Finished(outcome) => RegistrationView::Finished(outcome),
    }
}

impl Registration {
    /// A registration that has asked nothing yet.
    pub fn begin(data: RegisterData) -> (state: Registration)
        ensures
            state@ == RegistrationView::CheckingName(data@),
    {
        Registration::CheckingName(data)
    }

    /// The request to put to the store next; `None` once finished.
    pub fn pending(&self) -> (request: Option<StoreRequest>)
        ensures
            match request {
                Some(r) => pending_request(self@) == Some(r@),
                None => pending_request(self@) is None,
            },
    {
        match self {
            Registration::CheckingName(data) => Some(
                StoreRequest::FindByDisplayName(data.name.clone()),
            ),
            Registration::CheckingEmail(data) => Some(StoreRequest::FindByEmail(data.email.clone())),
            Registration::Creating(identity) => Some(StoreRequest::Create(identity.duplicate())),
            Registration::Finished(_) => None,
        }
    }

    /// The next state, given the store's reply, the identifier to use and
    /// the outcome of hashing the secret.
    pub fn advance_with(self, reply: StoreReply, id: String, hashed: Result<String, HashError>) -> (next:
        Registration)
        ensures
            next@ == step(self@, reply@, id@, hashed_view(hashed)),
    {
        match self {
            Registration::CheckingName(data) => match reply {
                StoreReply::Found(_) => Registration::Finished(
                    Err(RegistrationError::DisplayNameTaken),
                ),
                StoreReply::Missing => Registration::CheckingEmail(data),
                _ => Registration::Finished(Err(RegistrationError::StoreError)),
            },
            Registration::CheckingEmail(data) => match reply {
                StoreReply::Found(_) => Registration::Finished(Err(RegistrationError::EmailTaken)),
                StoreReply::Missing => match hashed {
                    Ok(hash) => Registration::Creating(
                        Identity { id, name: data.name, email: data.email, password_hash: hash },
                    ),
                    Err(_) => Registration::Finished(Err(RegistrationError::HashingFailed)),
                },
                _ => Registration::Finished(Err(RegistrationError::StoreError)),
            },
            Registration::Creating(_) => match reply {
                StoreReply::Found(created) => Registration::Finished(Ok(created)),
                StoreReply::NameConflict => Registration::Finished(
                    Err(RegistrationError::DisplayNameTaken),
                ),
                StoreReply::EmailConflict => Registration::Finished(
                    Err(RegistrationError::EmailTaken),
                ),
                _ => Registration::Finished(Err(RegistrationError::StoreError)),
            },
            Registration::Finished(outcome) => Registration::Finished(outcome),
        }
    }

    /// The next state, given the store's reply. Where both checks have
    /// passed, the secret is hashed under a fresh salt and an identifier of
    /// 36 characters is drawn: the record handed to the store then carries
    /// them with the submitted name and address, and the submitted secret
    /// verifies against its hash. Hashing fails on no `hashable` secret.
    pub fn advance(self, reply: StoreReply) -> (next: Registration)
        ensures
            !draws(self@, reply@) ==> next@ == step(
                self@,
                reply@,
                Seq::empty(),
                Err(HashError::HashingFailed),
            ),
            draws(self@, reply@) ==> exists|id: Seq<char>, hashed: Result<Seq<char>, HashError>|
                drawn(self@->CheckingEmail_0.password, id, hashed) && next@ == #[trigger] step(
                    self@,
                    reply@,
                    id,
                    hashed,
                ),
            draws(self@, reply@) && hashable(self@->CheckingEmail_0.password) ==> next@ is Creating,
    {
        match (&self, &reply) {
            (Registration::CheckingEmail(data), StoreReply::Missing) => {
                let hashed = hash_password(data.password.as_str());
                let id = fresh_id();
                let ghost witness_id = id@;
                let ghost witness_hashed = hashed_view(hashed);
                let next = self.advance_with(reply, id, hashed);
                assert(next@ == step(self@, reply@, witness_id, witness_hashed));
                next
            },
            _ => self.advance_with(reply, String::new(), Err(HashError::HashingFailed)),
        }
    }

    /// The outcome, once finished.
    pub fn outcome(self) -> (r: Option<Result<Identity, RegistrationError>>)
        ensures
            match r {
                Some(outcome) => self@ == RegistrationView::Finished(outcome_view(outcome)),
                None => !(self@ is Finished),
            },
    {
        match self {
            Registration::Finished(outcome) => Some(outcome),
            _ => None,
        }
    }
}

/// No record holds the submitted display name or e-mail address.
pub open spec fn is_free(records: Seq<IdentityView>, data: RegisterDataView) -> bool {
    lookup_name(records, data.name) is None && lookup_email(records, data.email) is None
}

/// The outcome of a whole registration against a store that holds
/// `records`, given the identifier drawn and the outcome of hashing.
pub open spec fn registration_result(
    records: Seq<IdentityView>,
    data: RegisterDataView,
    id: Seq<char>,
    hashed: Result<Seq<char>, HashError>,
) -> Result<IdentityView, RegistrationError> {
    if lookup_name(records, data.name) is Some {
        Err(RegistrationError::DisplayNameTaken)
    } else if lookup_email(records, data.email) is Some {
        Err(RegistrationError::EmailTaken)
    } else {
        match hashed {
            Ok(hash) => Ok(new_identity(data, id, hash)),
            Err(_) => Err(RegistrationError::HashingFailed),
        }
    }
}

/// The records after a whole registration: exactly one more on success,
/// the same on every failure.
pub open spec fn records_after_registration(
    records: Seq<IdentityView>,
    data: RegisterDataView,
    id: Seq<char>,
    hashed: Result<Seq<char>, HashError>,
) -> Seq<IdentityView> {
    match registration_result(records, data, id, hashed) {
        Ok(identity) => records.push(identity),
        Err(_) => records,
    }
}

/// One round trip at the level of contents: the pending request of `state`
/// is answered by a store that holds `records`, and the registration moves
/// on that answer. A finished registration and its store stay as they are.
pub open spec fn exchanged(
    state: RegistrationView,
    records: Seq<IdentityView>,
    id: Seq<char>,
    hashed: Result<Seq<char>, HashError>,
) -> (RegistrationView, Seq<IdentityView>) {
    match pending_request(state) {
        Some(request) => (step(state, answer(records, request), id, hashed), after(records, request)),
        None => (state, records),
    }
}

/// Puts the pending request, if any, to the store and advances on its reply.
fn exchange(store: &mut IdentityStore, state: Registration) -> (next: Registration)
    ensures
        pending_request(state@) is None ==> next@ == state@ && final(store)@ == old(store)@,
        pending_request(state@) matches Some(request) ==> {
            let reply = answer(old(store)@, request);
            &&& final(store)@ == after(old(store)@, request)
            &&& !draws(state@, reply) ==> next@ == step(
                state@,
                reply,
                Seq::empty(),
                Err(HashError::HashingFailed),
            )
            &&& draws(state@, reply) ==> exists|id: Seq<char>, hashed: Result<Seq<char>, HashError>|
                drawn(state@->CheckingEmail_0.password, id, hashed) && next@ == #[trigger] step(
                    state@,
                    reply,
                    id,
                    hashed,
                )
        },
{
    match state.pending() {
        Some(request) => {
            let reply = store.serve(&request);
            state.advance(reply)
        },
        None => state,
    }
}

/// Registers `data` with an in-memory store: the display name is checked,
/// then the e-mail address, then the secret is hashed, an identifier drawn
/// and the record created.
///
/// A free name and address with a `hashable` secret are always registered.
/// The identifier and the salt are random, so the contract speaks of some
/// identifier of 36 characters and some outcome of hashing; a hash that was
/// made verifies against the submitted secret.
pub fn register_user(store: &mut IdentityStore, data: RegisterData) -> (r: Result<
    Identity,
    RegistrationError,
>)
    ensures
        !is_free(old(store)@, data@) ==> {
            &&& outcome_view(r) == registration_result(
                old(store)@,
                data@,
                Seq::empty(),
                Err(HashError::HashingFailed),
            )
            &&& r is Err
            &&& final(store)@ == old(store)@
        },
        is_free(old(store)@, data@) ==> exists|id: Seq<char>, hashed: Result<Seq<char>, HashError>|
            {
                &&& drawn(data@.password, id, hashed)
                &&& outcome_view(r) == #[trigger] registration_result(
                    old(store)@,
                    data@,
                    id,
                    hashed,
                )
                &&& final(store)@ == records_after_registration(old(store)@, data@, id, hashed)
            },
        is_free(old(store)@, data@) && hashable(data@.password) ==> r is Ok,
        r matches Ok(identity) ==> {
            &&& identity@.id.len() == 36
            &&& identity@.name == data@.name
            &&& identity@.email == data@.email
            &&& credential_matches(data@.password, identity@.password_hash)
            &&& final(store)@ == old(store)@.push(identity@)
        },
        r is Err ==> final(store)@ == old(store)@,
{
    let ghost records = store@;
    let ghost submitted = data@;
    let named = exchange(store, Registration::begin(data));
    let addressed = exchange(store, named);
    let ghost handed = addressed@;
    let done = exchange(store, addressed);
    proof {
        if is_free(records, submitted) {
            let state = RegistrationView::CheckingEmail(submitted);
            let (id, hashed): (Seq<char>, Result<Seq<char>, HashError>) = choose|
                id: Seq<char>,
                hashed: Result<Seq<char>, HashError>,
            |
                drawn(submitted.password, id, hashed) && handed == #[trigger] step(
                    state,
                    StoreReplyView::Missing,
                    id,
                    hashed,
                );
            assert(done@ == RegistrationView::Finished(
                registration_result(records, submitted, id, hashed),
            ));
            assert(store@ == records_after_registration(records, submitted, id, hashed));
        } else {
            assert(done@ == RegistrationView::Finished(
                registration_result(
                    records,
                    submitted,
                    Seq::empty(),
                    Err(HashError::HashingFailed),
                ),
            ));
        }
    }
    match done.outcome() {
        Some(outcome) => outcome,
        None => Err(RegistrationError::StoreError),
    }
}

} // verus!
