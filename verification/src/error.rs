//! What can go wrong between the store and its database.

use vstd::prelude::*;

verus! {

/// `bson::ser::Error`, carried through as it is.
#[verifier::external_type_specification]
#[verifier::external_body]
pub struct ExEncodeError(mongodb::bson::ser::Error);

/// `bson::de::Error`, carried through as it is.
#[verifier::external_type_specification]
#[verifier::external_body]
pub struct ExDecodeError(mongodb::bson::de::Error);

/// A value and a document that could not be turned into one another.
#[derive(Debug)]
pub enum CodecError {
    /// The value has no form as a document.
    Encode(mongodb::bson::ser::Error),
    /// The document does not have the shape of the type asked for.
    Decode(mongodb::bson::de::Error),
}

/// The failure of an operation of the store. Each kind carries what the
/// driver or the codec reported, unchanged.
#[derive(Debug)]
pub enum StoreError {
    /// The address of the database is malformed, or no client could be
    /// set up for it.
    ConnectionError(mongodb::error::Error),
    /// A value could not be encoded, or a stored document not decoded.
    SerializationError(CodecError),
    /// The database refused or failed to write a record.
    WriteError(mongodb::error::Error),
    /// The database failed to look a record up.
    ReadError(mongodb::error::Error),
}

} // verus!
