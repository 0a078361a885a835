//! What holds of the service as a whole, across its operations.

use crate::authenticator::{authentication_result, AuthenticationError, LoginDataView};
use crate::hasher::{credential_matches, hashable, HashError};
use crate::identity::{IdentityView, ProfileView};
use crate::registrar::{
    drawn, exchanged, is_free, new_identity, records_after_registration, registration_result,
    RegisterDataView, RegistrationError, RegistrationView,
};
use crate::service::{refusal_response, registration_response, success, BodyView};
use crate::session::{
    bound_identity, entries_bound, entries_revoked, renewed, touched, SessionPhase,
};
use crate::store::{
    answer, lemma_lookup_email, lemma_lookup_name, lookup_email, lookup_name, unique,
    StoreRequestView,
};
use vstd::prelude::*;

verus! {

/// Registering a name and an address that no record holds, with a secret
/// that is short enough to be hashed, succeeds, and logging in afterwards
/// with the same address and secret returns the identifier, name and
/// address of the registered identity and nothing else of it: the submitted
/// name and address and an identifier of 36 characters.
/// This holds for every identifier and every outcome of hashing that the
/// registrar can draw.
pub proof fn law_register_then_authenticate(
    records: Seq<IdentityView>,
    data: RegisterDataView,
    id: Seq<char>,
    hashed: Result<Seq<char>, HashError>,
)
    requires
        is_free(records, data),
        hashable(data.password),
        drawn(data.password, id, hashed),
    ensures
        ({
            let registered = registration_result(records, data, id, hashed);
            let stored = records_after_registration(records, data, id, hashed);
            let login = LoginDataView { email: data.email, password: data.password };
            &&& registered matches Ok(identity)
            &&& identity == new_identity(data, id, hashed->Ok_0)
            &&& stored == records.push(identity)
            &&& authentication_result(
                login,
                answer(stored, StoreRequestView::FindByEmail(data.email)),
            ) == Ok::<ProfileView, AuthenticationError>(identity.profile())
            &&& identity.name == data.name
            &&& identity.email == data.email
            &&& identity.id.len() == 36
            &&& identity.profile() == ProfileView { id, name: data.name, email: data.email }
            &&& registration_response(registered) == success(identity.profile())
            &&& success(identity.profile()).status == 200
            &&& success(identity.profile()).body == BodyView::Identity(identity.profile())
        }),
{
    let identity = new_identity(data, id, hashed->Ok_0);
    let stored = records.push(identity);
    assert(stored.last() == identity);
    assert(lookup_email(stored, data.email) == Some(identity));
}

/// After a registration that succeeded, a second one with the same address
/// and a display name that no record holds fails with `EmailTaken` and
/// creates nothing.
pub proof fn law_second_registration_email_taken(
    records: Seq<IdentityView>,
    first: RegisterDataView,
    first_id: Seq<char>,
    first_hashed: Result<Seq<char>, HashError>,
    second: RegisterDataView,
    second_id: Seq<char>,
    second_hashed: Result<Seq<char>, HashError>,
)
    requires
        registration_result(records, first, first_id, first_hashed) is Ok,
        second.email == first.email,
        second.name != first.name,
        lookup_name(records, second.name) is None,
    ensures
        ({
            let stored = records_after_registration(records, first, first_id, first_hashed);
            &&& registration_result(stored, second, second_id, second_hashed) == Err::<
                IdentityView,
                RegistrationError,
            >(RegistrationError::EmailTaken)
            &&& records_after_registration(stored, second, second_id, second_hashed) == stored
        }),
{
    let identity = registration_result(records, first, first_id, first_hashed)->Ok_0;
    let stored = records.push(identity);
    assert(stored.last() == identity);
    assert(stored.drop_last() =~= records);
    assert(lookup_name(stored, second.name) is None);
    assert(lookup_email(stored, second.email) == Some(identity));
}

/// After a registration that succeeded, a second one with the same display
/// name fails with `DisplayNameTaken`, whatever its address, and creates
/// nothing.
pub proof fn law_second_registration_name_taken(
    records: Seq<IdentityView>,
    first: RegisterDataView,
    first_id: Seq<char>,
    first_hashed: Result<Seq<char>, HashError>,
    second: RegisterDataView,
    second_id: Seq<char>,
    second_hashed: Result<Seq<char>, HashError>,
)
    requires
        registration_result(records, first, first_id, first_hashed) is Ok,
        second.name == first.name,
    ensures
        ({
            let stored = records_after_registration(records, first, first_id, first_hashed);
            &&& registration_result(stored, second, second_id, second_hashed) == Err::<
                IdentityView,
                RegistrationError,
            >(RegistrationError::DisplayNameTaken)
            &&& records_after_registration(stored, second, second_id, second_hashed) == stored
        }),
{
    let identity = registration_result(records, first, first_id, first_hashed)->Ok_0;
    let stored = records.push(identity);
    assert(stored.last() == identity);
    assert(lookup_name(stored, second.name) == Some(identity));
}

/// A login with a wrong secret for a known address and a login with an
/// address that no record holds fail with the same error and get the same
/// response.
pub proof fn law_refusals_are_alike(
    records: Seq<IdentityView>,
    known: LoginDataView,
    unknown: LoginDataView,
)
    requires
        lookup_email(records, known.email) matches Some(record) && !credential_matches(
            known.password,
            record.password_hash,
        ),
        lookup_email(records, unknown.email) is None,
    ensures
        ({
            let wrong_secret = authentication_result(
                known,
                answer(records, StoreRequestView::FindByEmail(known.email)),
            );
            let no_account = authentication_result(
                unknown,
                answer(records, StoreRequestView::FindByEmail(unknown.email)),
            );
            &&& wrong_secret == Err::<ProfileView, AuthenticationError>(
                AuthenticationError::InvalidCredentials,
            )
            &&& no_account == wrong_secret
            &&& refusal_response(no_account->Err_0) == refusal_response(wrong_secret->Err_0)
        }),
{
}

/// Binding a session that is not marked for deletion makes it read as the
/// bound identity; revoking it, or any session whatever, makes it read as
/// unauthenticated.
pub proof fn law_revoked_session_is_unauthenticated(
    entries: Map<Seq<char>, Seq<char>>,
    phase: SessionPhase,
    identity_id: Seq<char>,
)
    ensures
        bound_identity(entries_bound(entries, identity_id), renewed(touched(SessionPhase::Changed)))
            == Some(identity_id),
        phase != SessionPhase::Purged ==> bound_identity(
            entries_bound(entries, identity_id),
            renewed(touched(phase)),
        ) == Some(identity_id),
        bound_identity(
            entries_revoked(entries_bound(entries, identity_id)),
            touched(renewed(touched(phase))),
        ) is None,
        bound_identity(entries_revoked(entries), touched(phase)) is None,
        bound_identity(entries, SessionPhase::Purged) is None,
{
}

/// A store without two records of one address or one name stays so through
/// every registration, and a registration adds one record or none.
pub proof fn law_registration_keeps_uniqueness(
    records: Seq<IdentityView>,
    data: RegisterDataView,
    id: Seq<char>,
    hashed: Result<Seq<char>, HashError>,
)
    requires
        unique(records),
    ensures
        unique(records_after_registration(records, data, id, hashed)),
        registration_result(records, data, id, hashed) is Ok ==> records_after_registration(
            records,
            data,
            id,
            hashed,
        ).len() == records.len() + 1,
        registration_result(records, data, id, hashed) is Err ==> records_after_registration(
            records,
            data,
            id,
            hashed,
        ) == records,
{
    lemma_lookup_name(records, data.name);
    lemma_lookup_email(records, data.email);
}

/// A registration driven by the answers of a store is finished after three
/// round trips at most: its outcome is then the outcome of the whole
/// registration, the store holds the records of the whole registration, and
/// further round trips change neither.
pub proof fn law_three_round_trips_finish(
    records: Seq<IdentityView>,
    data: RegisterDataView,
    id: Seq<char>,
    hashed: Result<Seq<char>, HashError>,
)
    ensures
        ({
            let first = exchanged(RegistrationView::CheckingName(data), records, id, hashed);
            let second = exchanged(first.0, first.1, id, hashed);
            let third = exchanged(second.0, second.1, id, hashed);
            &&& third.0 == RegistrationView::Finished(
                registration_result(records, data, id, hashed),
            )
            &&& third.1 == records_after_registration(records, data, id, hashed)
            &&& exchanged(third.0, third.1, id, hashed) == third
        }),
{
}

} // verus!
