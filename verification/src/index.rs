//! The place in the database where the records of a store live.

use vstd::prelude::*;

verus! {

/// A database and a collection in it, both by name.
#[derive(Debug, Clone)]
pub struct MongoDbIndex {
    pub db_name: String,
    pub coll_name: String,
}

/// The two names of a [`MongoDbIndex`] as sequences of characters.
pub struct Target {
    pub database: Seq<char>,
    pub collection: Seq<char>,
}

impl View for MongoDbIndex {
    type V = Target;

    open spec fn view(&self) -> Target {
        Target { database: self.db_name@, collection: self.coll_name@ }
    }
}

/// The target that every store is bound to when it is opened.
pub open spec fn default_target() -> Target {
    Target { database: "default"@, collection: "default"@ }
}

impl MongoDbIndex {
    /// The index of the database `default` and its collection `default`.
    pub fn default_index() -> (index: MongoDbIndex)
        ensures
            index@ == default_target(),
    {
        MongoDbIndex { db_name: "default".to_owned(), coll_name: "default".to_owned() }
    }
}

} // verus!
