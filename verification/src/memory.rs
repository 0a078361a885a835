//! An identity store held in memory. It answers the adapter's requests as a
//! store with uniqueness constraints on e-mail address and display name does:
//! a store that starts empty never holds two records with one address or name.

use crate::identity::{Identity, IdentityView};
use crate::store::{
    after, answer, lemma_after_unique, lookup_email, lookup_name, unique, StoreReply, StoreRequest,
};
use vstd::prelude::*;

verus! {

/// The records of an in-memory identity store, oldest first.
pub struct IdentityStore {
    records: Vec<Identity>,
}

impl View for IdentityStore {
    type V = Seq<IdentityView>;

    closed spec fn view(&self) -> Seq<IdentityView> {
        Seq::new(self.records@.len(), |i: int| self.records@[i]@)
    }
}

impl IdentityStore {
    /// A store without records.
    pub fn new() -> (store: IdentityStore)
        ensures
            store@ == Seq::<IdentityView>::empty(),
    {
        let store = IdentityStore { records: Vec::new() };
        assert(store@ =~= Seq::<IdentityView>::empty());
        store
    }

    /// The number of records held.
    pub fn len(&self) -> (n: usize)
        ensures
            n == self@.len(),
    {
        self.records.len()
    }

    /// The record with this e-mail address, if one is held.
    pub fn find_by_email(&self, email: &String) -> (r: Option<Identity>)
        ensures
            match r {
                Some(found) => lookup_email(self@, email@) == Some(found@),
                None => lookup_email(self@, email@) is None,
            },
    {
        let mut i: usize = self.records.len();
        assert(self@.take(i as int) =~= self@);
        while i > 0
            invariant
                i <= self.records.len(),
                lookup_email(self@, email@) == lookup_email(self@.take(i as int), email@),
            decreases i,
        {
            i -= 1;
            assert(self@.take(i + 1).drop_last() =~= self@.take(i as int));
            if self.records[i].email == *email {
                return Some(self.records[i].duplicate());
            }
        }
        None
    }

    /// The record with this display name, if one is held.
    pub fn find_by_display_name(&self, name: &String) -> (r: Option<Identity>)
        ensures
            match r {
                Some(found) => lookup_name(self@, name@) == Some(found@),
                None => lookup_name(self@, name@) is None,
            },
    {
        let mut i: usize = self.records.len();
        assert(self@.take(i as int) =~= self@);
        while i > 0
            invariant
                i <= self.records.len(),
                lookup_name(self@, name@) == lookup_name(self@.take(i as int), name@),
            decreases i,
        {
            i -= 1;
            assert(self@.take(i + 1).drop_last() =~= self@.take(i as int));
            if self.records[i].name == *name {
                return Some(self.records[i].duplicate());
            }
        }
        None
    }

    /// Answers one request, persisting the record of a create that breaks
    /// no uniqueness constraint. This store is never unreachable.
    pub fn serve(&mut self, request: &StoreRequest) -> (reply: StoreReply)
        ensures
            reply@ == answer(old(self)@, request@),
            final(self)@ == after(old(self)@, request@),
            unique(old(self)@) ==> unique(final(self)@),
    {
        proof {
            if unique(self@) {
                lemma_after_unique(self@, request@);
            }
        }
        match request {
            StoreRequest::FindByDisplayName(name) => match self.find_by_display_name(name) {
                Some(found) => StoreReply::Found(found),
                None => StoreReply::Missing,
            },
            StoreRequest::FindByEmail(email) => match self.find_by_email(email) {
                Some(found) => StoreReply::Found(found),
                None => StoreReply::Missing,
            },
            StoreRequest::Create(identity) => {
                if self.find_by_display_name(&identity.name).is_some() {
                    StoreReply::NameConflict
                } else if self.find_by_email(&identity.email).is_some() {
                    StoreReply::EmailConflict
                } else {
                    let ghost before = self@;
                    self.records.push(identity.duplicate());
                    assert(self@ =~= before.push(identity@));
                    StoreReply::Found(identity.duplicate())
                }
            },
        }
    }
}

} // verus!
