//! What the requests of a store mean to a database that carries them out
//! as asked, and what follows for a store on such a database.
//!
//! The database is taken as a map from slots to documents: a slot is a
//! collection and an identifier in it, and the document is the one that was
//! last written there. The identifier is the slot's key; that a database
//! also keeps it as a field of the record, and hands it back with what a
//! lookup finds, is left aside. Nothing here is executable: the functions
//! describe, and the proofs are about what they describe.

use crate::conn::{found_spec, FindRequest, ReplaceRequest};
use crate::document::{doc_text, id_field};
use crate::error::StoreError;
use crate::index::Target;
use mongodb::bson::Document;
use vstd::prelude::*;

verus! {

/// The place of one record: a collection and an identifier in it.
pub struct Slot {
    pub target: Target,
    pub key: Seq<char>,
}

/// The records of a database: for each slot that holds a record, the
/// document written there. A slot holds one record at most.
pub type Contents = Map<Slot, Document>;

impl ReplaceRequest {
    /// The slot that the request's filter selects.
    pub open spec fn slot(self) -> Slot {
        Slot { target: self.target(), key: doc_text(self.filter)[id_field()] }
    }

    /// The records once the request has been carried out on `before`: the
    /// replacement stands in the slot, whole, if a record was there or the
    /// request asks for one to be added; otherwise nothing changes.
    pub open spec fn effect(self, before: Contents) -> Contents {
        if before.dom().contains(self.slot()) || self.options.upsert == Some(true) {
            before.insert(self.slot(), self.replacement)
        } else {
            before
        }
    }
}

impl FindRequest {
    /// The slot that the request's filter selects.
    pub open spec fn slot(self) -> Slot {
        Slot { target: self.target(), key: doc_text(self.filter)[id_field()] }
    }

    /// What the request finds in `contents`: the document that was written
    /// to the slot, or nothing where nothing was.
    pub open spec fn answer(self, contents: Contents) -> Option<Document> {
        if contents.dom().contains(self.slot()) {
            Some(contents[self.slot()])
        } else {
            None
        }
    }
}

/// The records of a database that was empty before the given requests were
/// carried out on it, the first of them first.
pub open spec fn replay(requests: Seq<ReplaceRequest>) -> Contents
    decreases requests.len(),
{
    if requests.len() == 0 {
        Map::empty()
    } else {
        requests.last().effect(replay(requests.drop_last()))
    }
}

/// A document stored under a key is what a lookup of that key finds.
pub proof fn stored_is_found(
    before: Contents,
    set: ReplaceRequest,
    get: FindRequest,
    target: Target,
    key: Seq<char>,
    body: Document,
)
    requires
        set.writes(target, key, body),
        get.reads(target, key),
    ensures
        found_spec(Ok(get.answer(set.effect(before)))) == Ok::<Option<Document>, StoreError>(
            Some(body),
        ),
{
    assert(set.slot() == get.slot());
}

/// Storing the same document under the same key a second time changes
/// nothing.
pub proof fn storing_again_changes_nothing(
    before: Contents,
    first: ReplaceRequest,
    second: ReplaceRequest,
    target: Target,
    key: Seq<char>,
    body: Document,
)
    requires
        first.writes(target, key, body),
        second.writes(target, key, body),
    ensures
        second.effect(first.effect(before)) == first.effect(before),
{
    assert(first.slot() == second.slot());
    assert(second.effect(first.effect(before)) =~= first.effect(before));
}

/// After two documents were stored under one key, a lookup finds the
/// second, and nothing of the first.
pub proof fn last_write_wins(
    before: Contents,
    first: ReplaceRequest,
    second: ReplaceRequest,
    get: FindRequest,
    target: Target,
    key: Seq<char>,
    old_body: Document,
    new_body: Document,
)
    requires
        first.writes(target, key, old_body),
        second.writes(target, key, new_body),
        get.reads(target, key),
    ensures
        found_spec(Ok(get.answer(second.effect(first.effect(before))))) == Ok::<
            Option<Document>,
            StoreError,
        >(Some(new_body)),
{
    assert(second.slot() == get.slot());
}

/// Storing under one key leaves what a lookup of any other slot finds as
/// it was.
pub proof fn other_slots_are_untouched(before: Contents, set: ReplaceRequest, get: FindRequest)
    requires
        set.slot() != get.slot(),
    ensures
        get.answer(set.effect(before)) == get.answer(before),
{
}

/// A lookup of a key under which nothing was ever stored finds nothing,
/// and that is no failure.
pub proof fn unwritten_is_missing(
    requests: Seq<ReplaceRequest>,
    get: FindRequest,
    target: Target,
    key: Seq<char>,
)
    requires
        get.reads(target, key),
        forall|i: int|
            0 <= i < requests.len() ==> (#[trigger] requests[i]).slot() != (Slot { target, key }),
    ensures
        found_spec(Ok(get.answer(replay(requests)))) == Ok::<Option<Document>, StoreError>(None),
    decreases requests.len(),
{
    assert(get.slot() == Slot { target, key });
    if requests.len() > 0 {
        unwritten_is_missing(requests.drop_last(), get, target, key);
        other_slots_are_untouched(replay(requests.drop_last()), requests.last(), get);
    }
}

} // verus!
