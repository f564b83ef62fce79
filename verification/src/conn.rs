//! A store bound to one collection, the requests it makes of the database
//! and what it returns for each answer.

use crate::document::{id_filter, selects_id};
use crate::driver::{collection, collection_namespace, database, replace_options};
use crate::error::{CodecError, StoreError};
use crate::index::{default_target, MongoDbIndex, Target};
use mongodb::bson::Document;
use mongodb::options::ReplaceOptions;
use mongodb::{Client, Collection};
use vstd::prelude::*;

verus! {

/// A client of the database together with the target that every operation
/// of the store addresses.
#[derive(Debug, Clone)]
pub struct MongoDbConn {
    pub client: Client,
    pub index: MongoDbIndex,
}

/// A replacement of one record, ready to be sent: `collection.replace_one`
/// with the three other fields as its arguments.
#[derive(Debug)]
pub struct ReplaceRequest {
    pub collection: Collection<Document>,
    pub filter: Document,
    pub replacement: Document,
    pub options: ReplaceOptions,
}

/// A lookup of one record, ready to be sent: `collection.find_one` with the
/// filter as its argument and no options.
#[derive(Debug)]
pub struct FindRequest {
    pub collection: Collection<Document>,
    pub filter: Document,
}

/// The target that a collection handle stands for.
pub open spec fn target_of(coll: Collection<Document>) -> Target {
    Target { database: collection_namespace(coll).0, collection: collection_namespace(coll).1 }
}

impl ReplaceRequest {
    /// The collection that the request is sent to.
    pub open spec fn target(self) -> Target {
        target_of(self.collection)
    }

    /// Whether the request writes `body` under `key` in `target`, replacing
    /// the record of that key or adding one where there is none.
    pub open spec fn writes(self, target: Target, key: Seq<char>, body: Document) -> bool {
        &&& self.target() == target
        &&& selects_id(self.filter, key)
        &&& self.replacement == body
        &&& self.options.upsert == Some(true)
        &&& self.options.bypass_document_validation is None
        &&& self.options.collation is None
        &&& self.options.hint is None
        &&& self.options.write_concern is None
        &&& self.options.let_vars is None
        &&& self.options.comment is None
    }
}

impl FindRequest {
    /// The collection that the request is sent to.
    pub open spec fn target(self) -> Target {
        target_of(self.collection)
    }

    /// Whether the request looks up the record of `key` in `target`.
    pub open spec fn reads(self, target: Target, key: Seq<char>) -> bool {
        &&& self.target() == target
        &&& selects_id(self.filter, key)
    }
}

impl MongoDbConn {
    /// Binds a client that was set up to the default target, or reports
    /// that none could be set up.
    pub fn opened(client: Result<Client, mongodb::error::Error>) -> (conn: Result<
        MongoDbConn,
        StoreError,
    >)
        ensures
            match (client, conn) {
                (Ok(c), Ok(conn)) => conn.client == c && conn.index@ == default_target(),
                (Err(e), Err(err)) => err == StoreError::ConnectionError(e),
                _ => false,
            },
    {
        match client {
            Ok(client) => Ok(MongoDbConn { client, index: MongoDbIndex::default_index() }),
            Err(e) => Err(StoreError::ConnectionError(e)),
        }
    }

    /// A handle to the collection that the store is bound to.
    pub fn collection(&self) -> (coll: Collection<Document>)
        ensures
            target_of(coll) == self.index@,
    {
        let db = database(&self.client, self.index.db_name.as_str());
        collection(&db, self.index.coll_name.as_str())
    }

    /// The request that stores `encoded` under `key`, where the value to be
    /// stored could be encoded as a document; the codec's failure where it
    /// could not.
    pub fn set_request(
        &self,
        key: &str,
        encoded: Result<Document, mongodb::bson::ser::Error>,
    ) -> (request: Result<ReplaceRequest, StoreError>)
        ensures
            match (encoded, request) {
                (Ok(body), Ok(request)) => request.writes(self.index@, key@, body),
                (Err(e), Err(err)) => err == StoreError::SerializationError(CodecError::Encode(e)),
                _ => false,
            },
    {
        match encoded {
            Ok(body) => Ok(
                ReplaceRequest {
                    collection: self.collection(),
                    filter: id_filter(key),
                    replacement: body,
                    options: replace_options(true),
                },
            ),
            Err(e) => Err(StoreError::SerializationError(CodecError::Encode(e))),
        }
    }

    /// The request that looks up the record stored under `key`.
    pub fn get_request(&self, key: &str) -> (request: FindRequest)
        ensures
            request.reads(self.index@, key@),
    {
        FindRequest { collection: self.collection(), filter: id_filter(key) }
    }
}

/// What storing a record returns for each answer of the database to the
/// replacement. What the database reports of a write that succeeded is
/// dropped.
pub fn set_result<R>(answer: Result<R, mongodb::error::Error>) -> (result: Result<(), StoreError>)
    ensures
        match answer {
            Ok(_) => result == Ok::<(), StoreError>(()),
            Err(e) => result == Err::<(), StoreError>(StoreError::WriteError(e)),
        },
{
    match answer {
        Ok(_) => Ok(()),
        Err(e) => Err(StoreError::WriteError(e)),
    }
}

/// What a lookup found, for each answer of the database to it: the stored
/// document, or nothing where no record has the key.
pub open spec fn found_spec(answer: Result<Option<Document>, mongodb::error::Error>) -> Result<
    Option<Document>,
    StoreError,
> {
    match answer {
        Ok(record) => Ok(record),
        Err(e) => Err(StoreError::ReadError(e)),
    }
}

/// Computes [`found_spec`].
pub fn found(answer: Result<Option<Document>, mongodb::error::Error>) -> (result: Result<
    Option<Document>,
    StoreError,
>)
    ensures
        result == found_spec(answer),
{
    match answer {
        Ok(record) => Ok(record),
        Err(e) => Err(StoreError::ReadError(e)),
    }
}

/// What a lookup returns once the codec has been applied to what was
/// found: nothing where nothing was found, the value where the document
/// had its shape, and the codec's failure where it had not.
pub fn decoded<T>(value: Option<Result<T, mongodb::bson::de::Error>>) -> (result: Result<
    Option<T>,
    StoreError,
>)
    ensures
        match value {
            None => result == Ok::<Option<T>, StoreError>(None),
            Some(Ok(v)) => result == Ok::<Option<T>, StoreError>(Some(v)),
            Some(Err(e)) => result == Err::<Option<T>, StoreError>(
                StoreError::SerializationError(CodecError::Decode(e)),
            ),
        },
{
    match value {
        None => Ok(None),
        Some(Ok(v)) => Ok(Some(v)),
        Some(Err(e)) => Err(StoreError::SerializationError(CodecError::Decode(e))),
    }
}

} // verus!
