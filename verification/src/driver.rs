//! The handles and options of the MongoDB driver that the store passes on.
//!
//! None of the calls made here reaches the database: they name a database
//! and a collection, and they put options together.

use mongodb::bson::Document;
use mongodb::options::{Collation, Hint, ReplaceOptions, WriteConcern};
use mongodb::{Client, Collection, Database};
use vstd::prelude::*;

verus! {

/// `mongodb::Client`, carried through as it is.
#[verifier::external_type_specification]
#[verifier::external_body]
pub struct ExClient(Client);

/// `mongodb::Database`, carried through as it is.
#[verifier::external_type_specification]
#[verifier::external_body]
pub struct ExDatabase(Database);

/// `mongodb::Collection`, carried through as it is.
#[verifier::external_type_specification]
#[verifier::external_body]
#[verifier::reject_recursive_types(T)]
pub struct ExCollection<T>(Collection<T>);

/// `mongodb::error::Error`, carried through as it is.
#[verifier::external_type_specification]
#[verifier::external_body]
pub struct ExDriverError(mongodb::error::Error);

/// `mongodb::options::Collation`, the type of an option that the store
/// leaves unset.
#[verifier::external_type_specification]
#[verifier::external_body]
pub struct ExCollation(Collation);

/// `mongodb::options::Hint`, the type of an option that the store leaves
/// unset.
#[verifier::external_type_specification]
#[verifier::external_body]
pub struct ExHint(Hint);

/// `mongodb::options::WriteConcern`, the type of an option that the store
/// leaves unset.
#[verifier::external_type_specification]
#[verifier::external_body]
pub struct ExWriteConcern(WriteConcern);

/// `mongodb::options::ReplaceOptions`, with its fields: all of them are
/// public, and the requests of the store are stated over them.
#[verifier::external_type_specification]
pub struct ExReplaceOptions(ReplaceOptions);

/// `Client::clone`: another handle to the same client. Nothing is said of
/// it here.
pub assume_specification[ <Client as Clone>::clone ](client: &Client) -> (copy: Client);

/// The name of the database that a handle stands for: what
/// `Database::name` returns.
pub uninterp spec fn database_name(db: Database) -> Seq<char>;

/// The database and the collection that a collection handle stands for, by
/// name and in this order: the two fields of what `Collection::namespace`
/// returns.
pub uninterp spec fn collection_namespace(coll: Collection<Document>) -> (Seq<char>, Seq<char>);

/// `Client::database`: a handle to the database of the given name.
#[verifier::external_body]
pub(crate) fn database(client: &Client, name: &str) -> (db: Database)
    ensures
        database_name(db) == name@,
{
    client.database(name)
}

/// `Database::collection`: a handle to the collection of the given name in
/// the database that `db` stands for, with documents as its records.
#[verifier::external_body]
pub(crate) fn collection(db: &Database, name: &str) -> (coll: Collection<Document>)
    ensures
        collection_namespace(coll) == (database_name(*db), name@),
{
    db.collection(name)
}

/// The builder of `ReplaceOptions`: only `upsert` is set, to the given
/// choice, and every other option is left to the driver's default.
#[verifier::external_body]
pub(crate) fn replace_options(upsert: bool) -> (options: ReplaceOptions)
    ensures
        options.upsert == Some(upsert),
        options.bypass_document_validation is None,
        options.collation is None,
        options.hint is None,
        options.write_concern is None,
        options.let_vars is None,
        options.comment is None,
{
    ReplaceOptions::builder().upsert(upsert).build()
}

} // verus!
