//! BSON documents, as far as the store builds and reads them.
//!
//! A document is an ordered list of named fields. The store only ever writes
//! text fields itself, so two things are said of a document here: the names
//! of its fields in order, and the text held by those fields that hold text.

use mongodb::bson::{Bson, Document};
use vstd::prelude::*;

verus! {

/// `bson::Document`, an ordered map from field names to values.
#[verifier::external_type_specification]
#[verifier::external_body]
pub struct ExDocument(Document);

/// `bson::Bson`, the value of a field, carried through as it is.
#[verifier::external_type_specification]
#[verifier::external_body]
pub struct ExBson(Bson);

/// The names of a document's fields, in the order in which the document
/// keeps them: what `Document::keys` walks through.
pub uninterp spec fn doc_keys(doc: Document) -> Seq<Seq<char>>;

/// The text of each field of a document that holds a string, by the
/// field's name: the names for which `Document::get_str` succeeds, each
/// with what it returns. Fields that hold anything else are not in the map.
pub uninterp spec fn doc_text(doc: Document) -> Map<Seq<char>, Seq<char>>;

/// The field names of a document without fields.
pub open spec fn no_keys() -> Seq<Seq<char>> {
    Seq::empty()
}

/// The text fields of a document without text fields.
pub open spec fn no_text() -> Map<Seq<char>, Seq<char>> {
    Map::empty()
}

/// `Document::new`: a document without fields.
#[verifier::external_body]
pub(crate) fn empty_document() -> (doc: Document)
    ensures
        doc_keys(doc) == no_keys(),
        doc_text(doc) == no_text(),
{
    Document::new()
}

/// `Document::insert` with a string for the value. A field of that name
/// keeps its place and gets the new value, and its old value is returned;
/// a new name is added behind the last field, and `None` is returned.
/// No other field changes.
#[verifier::external_body]
pub(crate) fn insert_text(doc: &mut Document, key: &str, value: &str) -> (replaced: Option<Bson>)
    ensures
        doc_keys(*final(doc)) == if doc_keys(*old(doc)).contains(key@) {
            doc_keys(*old(doc))
        } else {
            doc_keys(*old(doc)).push(key@)
        },
        doc_text(*final(doc)) == doc_text(*old(doc)).insert(key@, value@),
        replaced is Some <==> doc_keys(*old(doc)).contains(key@),
{
    doc.insert(key, value)
}

/// The name of the field by which the database identifies a record.
pub open spec fn id_field() -> Seq<char> {
    "_id"@
}

/// Whether `filter` selects exactly the record identified by `key`: its one
/// field is the identifier, and it holds `key` as text.
pub open spec fn selects_id(filter: Document, key: Seq<char>) -> bool {
    &&& doc_keys(filter) == seq![id_field()]
    &&& doc_text(filter) == map![id_field() => key]
}

/// The filter that selects the record identified by `key`.
pub fn id_filter(key: &str) -> (filter: Document)
    ensures
        selects_id(filter, key@),
{
    let mut filter = empty_document();
    let _ = insert_text(&mut filter, "_id", key);
    filter
}

} // verus!
