//! The credential store adapter: which requests the service makes of the
//! identity store, the parameterised query each one stands for, the replies
//! it understands, and an in-memory store that answers them.

use crate::identity::{Identity, IdentityView};
use vstd::prelude::*;
use vstd::string::StringSliceAdditionalSpecFns;

verus! {

/// One operation asked of the identity store.
#[derive(Debug, PartialEq, Eq)]
pub enum StoreRequest {
    /// Look up the record with this display name.
    FindByDisplayName(String),
    /// Look up the record with this e-mail address.
    FindByEmail(String),
    /// Persist this record.
    Create(Identity),
}

/// The mathematical content of a [`StoreRequest`].
pub ghost enum StoreRequestView {
    FindByDisplayName(Seq<char>),
    FindByEmail(Seq<char>),
    Create(IdentityView),
}

impl View for StoreRequest {
    type V = StoreRequestView;

    open spec fn view(&self) -> StoreRequestView {
        match self {
            StoreRequest::FindByDisplayName(name) => StoreRequestView::FindByDisplayName(name@),
            StoreRequest::FindByEmail(email) => StoreRequestView::FindByEmail(email@),
            StoreRequest::Create(identity) => StoreRequestView::Create(identity@),
        }
    }
}

/// What the identity store answered.
#[derive(Debug, PartialEq, Eq)]
pub enum StoreReply {
    /// A lookup matched this record, or a create persisted it.
    Found(Identity),
    /// A lookup matched nothing, or a create returned no record.
    Missing,
    /// A create was refused: the display name is already held.
    NameConflict,
    /// A create was refused: the e-mail address is already held.
    EmailConflict,
    /// The store was unreachable or rejected the operation.
    Failed,
}

/// The mathematical content of a [`StoreReply`].
pub ghost enum StoreReplyView {
    Found(IdentityView),
    Missing,
    NameConflict,
    EmailConflict,
    Failed,
}

impl View for StoreReply {
    type V = StoreReplyView;

    open spec fn view(&self) -> StoreReplyView {
        match self {
            StoreReply::Found(identity) => StoreReplyView::Found(identity@),
            StoreReply::Missing => StoreReplyView::Missing,
            StoreReply::NameConflict => StoreReplyView::NameConflict,
            StoreReply::EmailConflict => StoreReplyView::EmailConflict,
            StoreReply::Failed => StoreReplyView::Failed,
        }
    }
}

/// A named query parameter. Values travel beside the query text, never in it.
#[derive(Debug, PartialEq, Eq)]
pub struct Param {
    pub name: String,
    pub value: String,
}

/// A parameterised query: fixed text and the values bound to its names.
#[derive(Debug, PartialEq, Eq)]
pub struct StoreQuery {
    pub text: String,
    pub params: Vec<Param>,
}

/// The mathematical content of a [`StoreQuery`].
pub ghost struct StoreQueryView {
    pub text: Seq<char>,
    pub params: Seq<(Seq<char>, Seq<char>)>,
}

impl View for StoreQuery {
    type V = StoreQueryView;

    open spec fn view(&self) -> StoreQueryView {
        StoreQueryView {
            text: self.text@,
            params: Seq::new(self.params@.len(), |i: int| (self.params@[i].name@, self.params@[i].value@)),
        }
    }
}

/// The query that each request stands for. The text depends on the kind of
/// request alone; what the caller supplied appears only among the parameters.
pub open spec fn query_of(request: StoreRequestView) -> StoreQueryView {
    match request {
        StoreRequestView::FindByDisplayName(name) => StoreQueryView {
            text: "MATCH (u:User {name: $username}) RETURN u"@,
            params: seq![("username"@, name)],
        },
        StoreRequestView::FindByEmail(email) => StoreQueryView {
            text: "MATCH (u:User {email: $email}) RETURN u"@,
            params: seq![("email"@, email)],
        },
        StoreRequestView::Create(identity) => StoreQueryView {
            text: "CREATE (u:User {id: $id, name: $name, email: $email, password_hash: $password_hash}) RETURN u"@,
            params: seq![
                ("id"@, identity.id),
                ("name"@, identity.name),
                ("email"@, identity.email),
                ("password_hash"@, identity.password_hash),
            ],
        },
    }
}

/// Whether `text` begins with `needle`.
pub open spec fn is_prefix(needle: Seq<u8>, text: Seq<u8>) -> bool {
    needle.len() <= text.len() && text.subrange(0, needle.len() as int) == needle
}

/// What follows the first occurrence of `needle` in `text`, if it occurs.
pub open spec fn after_first(needle: Seq<u8>, text: Seq<u8>) -> Option<Seq<u8>>
    decreases text.len(),
{
    if is_prefix(needle, text) {
        Some(text.skip(needle.len() as int))
    } else if text.len() == 0 {
        None
    } else {
        after_first(needle, text.drop_first())
    }
}

/// The status code with which the store reports a broken constraint.
pub open spec fn constraint_code() -> Seq<u8> {
    "Neo.ClientError.Schema.ConstraintValidationFailed".spec_bytes()
}

/// The words after which such a report names the property concerned. They
/// come before the offending value.
pub open spec fn property_marker() -> Seq<u8> {
    "property `".spec_bytes()
}

/// How such a report names the display name.
pub open spec fn name_property() -> Seq<u8> {
    "name`".spec_bytes()
}

/// How such a report names the e-mail address.
pub open spec fn email_property() -> Seq<u8> {
    "email`".spec_bytes()
}

/// The reply that a failure reported by the store stands for, given the
/// bytes of its status code and of its message. A broken constraint is a
/// `NameConflict` or an `EmailConflict` by the property that the message
/// names first; what the message quotes after that, the offending value
/// among it, is not looked at. Everything else is `Failed`.
pub open spec fn rejection(code: Seq<u8>, message: Seq<u8>) -> StoreReplyView {
    if code != constraint_code() {
        StoreReplyView::Failed
    } else {
        match after_first(property_marker(), message) {
            Some(rest) => if is_prefix(name_property(), rest) {
                StoreReplyView::NameConflict
            } else if is_prefix(email_property(), rest) {
                StoreReplyView::EmailConflict
            } else {
                StoreReplyView::Failed
            },
            None => StoreReplyView::Failed,
        }
    }
}

fn begins_with(text: &[u8], from: usize, needle: &[u8]) -> (r: bool)
    requires
        from <= text@.len(),
    ensures
        r == is_prefix(needle@, text@.skip(from as int)),
{
    if needle.len() > text.len() - from {
        return false;
    }
    let ghost rest = text@.skip(from as int);
    let mut k: usize = 0;
    while k < needle.len()
        invariant
            k <= needle.len(),
            from + needle.len() <= text.len(),
            rest == text@.skip(from as int),
            forall|j: int| 0 <= j < k ==> text@[from + j] == needle@[j],
        decreases needle.len() - k,
    {
        if text[from + k] != needle[k] {
            assert(rest.subrange(0, needle@.len() as int)[k as int] == text@[from + k]);
            return false;
        }
        k += 1;
    }
    assert(rest.subrange(0, needle@.len() as int) =~= needle@);
    true
}

fn position_after_first(text: &[u8], needle: &[u8]) -> (r: Option<usize>)
    ensures
        match r {
            Some(at) => at <= text@.len() && after_first(needle@, text@) == Some(
                text@.skip(at as int),
            ),
            None => after_first(needle@, text@) is None,
        },
{
    let mut i: usize = 0;
    assert(text@.skip(0) =~= text@);
    loop
        invariant
            i <= text.len(),
            after_first(needle@, text@) == after_first(needle@, text@.skip(i as int)),
        decreases text.len() - i,
    {
        if begins_with(text, i, needle) {
            assert(text@.skip(i as int).skip(needle@.len() as int) =~= text@.skip(
                i + needle@.len(),
            ));
            return Some(i + needle.len());
        }
        if i == text.len() {
            return None;
        }
        assert(text@.skip(i as int).drop_first() =~= text@.skip(i + 1));
        i += 1;
    }
}

fn same_bytes(left: &[u8], right: &[u8]) -> (r: bool)
    ensures
        r == (left@ == right@),
{
    if left.len() != right.len() {
        return false;
    }
    assert(left@.skip(0) =~= left@);
    assert(left@.subrange(0, right@.len() as int) =~= left@);
    begins_with(left, 0, right)
}

/// Turns a failure that the store reported, by its status code and message,
/// into the reply that the registrar and the authenticator understand.
pub fn rejection_reply(code: &str, message: &str) -> (reply: StoreReply)
    ensures
        reply@ == rejection(code.spec_bytes(), message.spec_bytes()),
{
    let text = message.as_bytes();
    if !same_bytes(code.as_bytes(), "Neo.ClientError.Schema.ConstraintValidationFailed".as_bytes()) {
        return StoreReply::Failed;
    }
    match position_after_first(text, "property `".as_bytes()) {
        Some(at) => {
            if begins_with(text, at, "name`".as_bytes()) {
                StoreReply::NameConflict
            } else if begins_with(text, at, "email`".as_bytes()) {
                StoreReply::EmailConflict
            } else {
                StoreReply::Failed
            }
        },
        None => StoreReply::Failed,
    }
}

/// The record that a lookup by e-mail address returns: the latest one that
/// carries the address, if any does.
pub open spec fn lookup_email(records: Seq<IdentityView>, email: Seq<char>) -> Option<IdentityView>
    decreases records.len(),
{
    if records.len() == 0 {
        None
    } else if records.last().email == email {
        Some(records.last())
    } else {
        lookup_email(records.drop_last(), email)
    }
}

/// The record that a lookup by display name returns: the latest one that
/// carries the name, if any does.
pub open spec fn lookup_name(records: Seq<IdentityView>, name: Seq<char>) -> Option<IdentityView>
    decreases records.len(),
{
    if records.len() == 0 {
        None
    } else if records.last().name == name {
        Some(records.last())
    } else {
        lookup_name(records.drop_last(), name)
    }
}

/// No two records share an e-mail address or a display name.
pub open spec fn unique(records: Seq<IdentityView>) -> bool {
    forall|i: int, j: int|
        0 <= i < j < records.len() ==> records[i].email != records[j].email && records[i].name
            != records[j].name
}

/// What a store that holds `records` answers to `request`. A create is
/// refused where it would break uniqueness, the display name being looked
/// at first.
pub open spec fn answer(records: Seq<IdentityView>, request: StoreRequestView) -> StoreReplyView {
    match request {
        StoreRequestView::FindByDisplayName(name) => match lookup_name(records, name) {
            Some(found) => StoreReplyView::Found(found),
            None => StoreReplyView::Missing,
        },
        StoreRequestView::FindByEmail(email) => match lookup_email(records, email) {
            Some(found) => StoreReplyView::Found(found),
            None => StoreReplyView::Missing,
        },
        StoreRequestView::Create(identity) => if lookup_name(records, identity.name) is Some {
            StoreReplyView::NameConflict
        } else if lookup_email(records, identity.email) is Some {
            StoreReplyView::EmailConflict
        } else {
            StoreReplyView::Found(identity)
        },
    }
}

/// What a store that held `records` holds once it has answered `request`:
/// one record more after a create that was not refused, the same otherwise.
pub open spec fn after(records: Seq<IdentityView>, request: StoreRequestView) -> Seq<IdentityView> {
    match request {
        StoreRequestView::Create(identity) => if answer(records, request) is Found {
            records.push(identity)
        } else {
            records
        },
        _ => records,
    }
}

/// A lookup by e-mail address that finds nothing means no record carries
/// the address; one that finds a record returns a stored record with it.
pub proof fn lemma_lookup_email(records: Seq<IdentityView>, email: Seq<char>)
    ensures
        lookup_email(records, email) is None <==> forall|i: int|
            0 <= i < records.len() ==> (#[trigger] records[i]).email != email,
        lookup_email(records, email) matches Some(found) ==> found.email == email
            && records.contains(found),
    decreases records.len(),
{
    if records.len() > 0 {
        let rest = records.drop_last();
        lemma_lookup_email(rest, email);
        assert(forall|i: int| 0 <= i < rest.len() ==> rest[i] == records[i]);
        if records.last().email == email {
            assert(records[records.len() - 1].email == email);
        } else {
            if let Some(found) = lookup_email(rest, email) {
                let k = choose|k: int| 0 <= k < rest.len() && rest[k] == found;
                assert(records[k] == found);
            }
        }
    }
}

/// A lookup by display name that finds nothing means no record carries the
/// name; one that finds a record returns a stored record with it.
pub proof fn lemma_lookup_name(records: Seq<IdentityView>, name: Seq<char>)
    ensures
        lookup_name(records, name) is None <==> forall|i: int|
            0 <= i < records.len() ==> (#[trigger] records[i]).name != name,
        lookup_name(records, name) matches Some(found) ==> found.name == name && records.contains(
            found,
        ),
    decreases records.len(),
{
    if records.len() > 0 {
        let rest = records.drop_last();
        lemma_lookup_name(rest, name);
        assert(forall|i: int| 0 <= i < rest.len() ==> rest[i] == records[i]);
        if records.last().name == name {
            assert(records[records.len() - 1].name == name);
        } else {
            if let Some(found) = lookup_name(rest, name) {
                let k = choose|k: int| 0 <= k < rest.len() && rest[k] == found;
                assert(records[k] == found);
            }
        }
    }
}

/// Answering a request never breaks uniqueness.
pub proof fn lemma_after_unique(records: Seq<IdentityView>, request: StoreRequestView)
    requires
        unique(records),
    ensures
        unique(after(records, request)),
{
    if let StoreRequestView::Create(identity) = request {
        lemma_lookup_name(records, identity.name);
        lemma_lookup_email(records, identity.email);
    }
}

fn param(name: &str, value: &String) -> (p: Param)
    ensures
        p.name@ == name@,
        p.value@ == value@,
{
    Param { name: name.to_owned(), value: value.clone() }
}

impl StoreRequest {
    /// The parameterised query to run for this request.
    pub fn query(&self) -> (q: StoreQuery)
        ensures
            q@ == query_of(self@),
    {
        let mut params: Vec<Param> = Vec::new();
        let text = match self {
            StoreRequest::FindByDisplayName(name) => {
                params.push(param("username", name));
                "MATCH (u:User {name: $username}) RETURN u".to_owned()
            },
            StoreRequest::FindByEmail(email) => {
                params.push(param("email", email));
                "MATCH (u:User {email: $email}) RETURN u".to_owned()
            },
            StoreRequest::Create(identity) => {
                params.push(param("id", &identity.id));
                params.push(param("name", &identity.name));
                params.push(param("email", &identity.email));
                params.push(param("password_hash", &identity.password_hash));
                "CREATE (u:User {id: $id, name: $name, email: $email, password_hash: $password_hash}) RETURN u".to_owned()
            },
        };
        let q = StoreQuery { text, params };
        assert(q@.params =~= query_of(self@).params);
        q
    }
}

} // verus!
