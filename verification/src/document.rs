//! BSON documents as the gateway builds and reads them.
//!
//! The document type itself belongs to the store's client library. This module
//! gives its contents a mathematical reading, a map from field names to
//! [`Field`] values, and states the few operations the gateway needs over it.

use mongodb::bson::oid::ObjectId;
use mongodb::bson::{Bson, DateTime, Document};
use vstd::prelude::*;

verus! {

/// What a document field holds, as far as the gateway distinguishes it.
pub enum Field {
    /// An explicit null.
    Null,
    /// A UTF-8 string.
    Text(Seq<char>),
    /// A boolean.
    Flag(bool),
    /// A 32-bit integer.
    Int(int),
    /// A UTC instant in milliseconds since the Unix epoch.
    Time(int),
    /// A twelve-byte document identifier.
    Id(Seq<u8>),
    /// An embedded document.
    Doc(Map<Seq<char>, Field>),
    /// Any other kind of value.
    Other,
}

/// The contents of a document: field names with what they hold.
pub type Fields = Map<Seq<char>, Field>;

/// The executable counterpart of [`Field`].
#[derive(Debug, PartialEq)]
pub enum Value {
    Null,
    Text(String),
    Flag(bool),
    Int(i32),
    Time(i64),
    Id([u8; 12]),
    Doc(Document),
    Other,
}

#[verifier::external_type_specification]
#[verifier::external_body]
pub struct ExDocument(Document);

/// The fields of a document: each key that is present, with what it holds.
pub uninterp spec fn entries(doc: Document) -> Fields;

impl View for Value {
    type V = Field;

    open spec fn view(&self) -> Field {
        match self {
            Value::Null => Field::Null,
            Value::Text(s) => Field::Text(s@),
            Value::Flag(b) => Field::Flag(*b),
            Value::Int(i) => Field::Int(*i as int),
            Value::Time(t) => Field::Time(*t as int),
            Value::Id(b) => Field::Id(b@),
            Value::Doc(d) => Field::Doc(entries(*d)),
            Value::Other => Field::Other,
        }
    }
}

/// The contents of a document without fields.
pub open spec fn no_fields() -> Fields {
    Map::empty()
}

/// `Document::new`: a document without fields.
#[verifier::external_body]
pub(crate) fn empty_document() -> (fresh: Document)
    ensures
        entries(fresh) == no_fields(),
{
    Document::new()
}

/// `Document::insert`: sets `key` to `value`, replacing what the key held
/// before and leaving every other field as it was.
#[verifier::external_body]
pub(crate) fn put(doc: &mut Document, key: &str, value: Value)
    requires
        !(value is Other),
    ensures
        entries(*final(doc)) == entries(*old(doc)).insert(key@, value@),
{
    let bson = match value {
        Value::Text(s) => Bson::String(s),
        Value::Flag(b) => Bson::Boolean(b),
        Value::Int(i) => Bson::Int32(i),
        Value::Time(t) => Bson::DateTime(DateTime::from_millis(t)),
        Value::Id(b) => Bson::ObjectId(ObjectId::from_bytes(b)),
        Value::Doc(d) => Bson::Document(d),
        _ => Bson::Null,
    };
    doc.insert(key, bson);
}

/// `Document::get`: what `key` holds, if the document has that field.
#[verifier::external_body]
pub(crate) fn get(doc: &Document, key: &str) -> (found: Option<Value>)
    ensures
        found is Some <==> entries(*doc).contains_key(key@),
        found matches Some(v) ==> v@ == entries(*doc)[key@],
{
    match doc.get(key) {
        None => None,
        Some(Bson::Null) => Some(Value::Null),
        Some(Bson::String(s)) => Some(Value::Text(s.clone())),
        Some(Bson::Boolean(b)) => Some(Value::Flag(*b)),
        Some(Bson::Int32(i)) => Some(Value::Int(*i)),
        Some(Bson::DateTime(t)) => Some(Value::Time(t.timestamp_millis())),
        Some(Bson::ObjectId(o)) => Some(Value::Id(o.bytes())),
        Some(Bson::Document(d)) => Some(Value::Doc(d.clone())),
        Some(_) => Some(Value::Other),
    }
}

} // verus!
