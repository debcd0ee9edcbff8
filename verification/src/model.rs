//! The stored entity.

use crate::document::{entries, get, Field, Fields, Value};
use crate::errors::{Error, ErrorView};
use crate::oid::NoteId;
use crate::schema::text_view;
use mongodb::bson::Document;
use vstd::prelude::*;
use vstd::string::StringExecFns;

verus! {

/// A note as the store holds it.
#[allow(non_snake_case)]
#[derive(Debug, Clone, PartialEq)]
pub struct NoteModel {
    /// The identifier the store assigned on insert.
    pub id: NoteId,
    /// Title of the note; unique across the collection.
    pub title: String,
    /// Content of the note.
    pub content: String,
    /// Category of the note, if the document holds one.
    pub category: Option<String>,
    /// Publication state, if the document holds one.
    pub published: Option<bool>,
    /// Creation time, in milliseconds since the Unix epoch.
    pub createdAt: i64,
    /// Time of the last update, in milliseconds since the Unix epoch.
    pub updatedAt: i64,
}

#[allow(non_snake_case)]
pub struct NoteModelView {
    pub id: Seq<u8>,
    pub title: Seq<char>,
    pub content: Seq<char>,
    pub category: Option<Seq<char>>,
    pub published: Option<bool>,
    pub createdAt: int,
    pub updatedAt: int,
}

impl View for NoteModel {
    type V = NoteModelView;

    open spec fn view(&self) -> NoteModelView {
        NoteModelView {
            id: self.id@,
            title: self.title@,
            content: self.content@,
            category: text_view(self.category),
            published: self.published,
            createdAt: self.createdAt as int,
            updatedAt: self.updatedAt as int,
        }
    }
}

/// The identifier under `key`, if the field is there and holds one.
pub open spec fn id_at(m: Fields, key: Seq<char>) -> Option<Seq<u8>> {
    if m.contains_key(key) {
        match m[key] {
            Field::Id(b) => Some(b),
            _ => None,
        }
    } else {
        None
    }
}

/// The string under `key`, if the field is there and holds one.
pub open spec fn text_at(m: Fields, key: Seq<char>) -> Option<Seq<char>> {
    if m.contains_key(key) {
        match m[key] {
            Field::Text(s) => Some(s),
            _ => None,
        }
    } else {
        None
    }
}

/// The instant under `key`, if the field is there and holds one.
pub open spec fn time_at(m: Fields, key: Seq<char>) -> Option<int> {
    if m.contains_key(key) {
        match m[key] {
            Field::Time(t) => Some(t),
            _ => None,
        }
    } else {
        None
    }
}

/// The optional string under `key`: nothing where the field is missing or
/// null. The outer `None` marks a field of another type.
pub open spec fn optional_text_at(m: Fields, key: Seq<char>) -> Option<Option<Seq<char>>> {
    if m.contains_key(key) {
        match m[key] {
            Field::Text(s) => Some(Some(s)),
            Field::Null => Some(None),
            _ => None,
        }
    } else {
        Some(None)
    }
}

/// The optional boolean under `key`: nothing where the field is missing or
/// null. The outer `None` marks a field of another type.
pub open spec fn optional_flag_at(m: Fields, key: Seq<char>) -> Option<Option<bool>> {
    if m.contains_key(key) {
        match m[key] {
            Field::Flag(b) => Some(Some(b)),
            Field::Null => Some(None),
            _ => None,
        }
    } else {
        Some(None)
    }
}

/// Whether a document has the structure of a stored note.
pub open spec fn is_note(m: Fields) -> bool {
    &&& id_at(m, "_id"@) is Some
    &&& text_at(m, "title"@) is Some
    &&& text_at(m, "content"@) is Some
    &&& optional_text_at(m, "category"@) is Some
    &&& optional_flag_at(m, "published"@) is Some
    &&& time_at(m, "createdAt"@) is Some
    &&& time_at(m, "updatedAt"@) is Some
}

/// The first field, in the order identifier, title, content, category,
/// publication state, creation time, update time, that keeps a document
/// from being a note.
pub open spec fn first_malformed(m: Fields) -> Seq<char> {
    if id_at(m, "_id"@) is None {
        "_id"@
    } else if text_at(m, "title"@) is None {
        "title"@
    } else if text_at(m, "content"@) is None {
        "content"@
    } else if optional_text_at(m, "category"@) is None {
        "category"@
    } else if optional_flag_at(m, "published"@) is None {
        "published"@
    } else if time_at(m, "createdAt"@) is None {
        "createdAt"@
    } else {
        "updatedAt"@
    }
}

/// The note that a well-structured document holds.
pub open spec fn note_of(m: Fields) -> NoteModelView {
    NoteModelView {
        id: id_at(m, "_id"@)->0,
        title: text_at(m, "title"@)->0,
        content: text_at(m, "content"@)->0,
        category: optional_text_at(m, "category"@)->0,
        published: optional_flag_at(m, "published"@)->0,
        createdAt: time_at(m, "createdAt"@)->0,
        updatedAt: time_at(m, "updatedAt"@)->0,
    }
}

/// Reading a stored document as a note: the note, or the name of the first
/// field that is missing or of the wrong type.
pub open spec fn decode_note(m: Fields) -> Result<NoteModelView, ErrorView> {
    if is_note(m) {
        Ok(note_of(m))
    } else {
        Err(ErrorView::MongoDataError(first_malformed(m)))
    }
}

/// The view of a decoding result.
pub open spec fn decoded_view(r: Result<NoteModel, Error>) -> Result<NoteModelView, ErrorView> {
    match r {
        Ok(n) => Ok(n@),
        Err(e) => Err(e@),
    }
}

fn read_id(doc: &Document, key: &str) -> (found: Option<NoteId>)
    ensures
        found is Some <==> id_at(entries(*doc), key@) is Some,
        found matches Some(id) ==> id@ == id_at(entries(*doc), key@)->0,
{
    match get(doc, key) {
        Some(Value::Id(bytes)) => Some(NoteId { bytes }),
        _ => None,
    }
}

fn read_text(doc: &Document, key: &str) -> (found: Option<String>)
    ensures
        text_view(found) == text_at(entries(*doc), key@),
{
    match get(doc, key) {
        Some(Value::Text(s)) => Some(s),
        _ => None,
    }
}

fn read_time(doc: &Document, key: &str) -> (found: Option<i64>)
    ensures
        found is Some <==> time_at(entries(*doc), key@) is Some,
        found matches Some(t) ==> t as int == time_at(entries(*doc), key@)->0,
{
    match get(doc, key) {
        Some(Value::Time(t)) => Some(t),
        _ => None,
    }
}

fn read_optional_text(doc: &Document, key: &str) -> (found: Option<Option<String>>)
    ensures
        found is Some <==> optional_text_at(entries(*doc), key@) is Some,
        found matches Some(t) ==> text_view(t) == optional_text_at(entries(*doc), key@)->0,
{
    match get(doc, key) {
        None => Some(None),
        Some(Value::Null) => Some(None),
        Some(Value::Text(s)) => Some(Some(s)),
        _ => None,
    }
}

fn read_optional_flag(doc: &Document, key: &str) -> (found: Option<Option<bool>>)
    ensures
        found == optional_flag_at(entries(*doc), key@),
{
    match get(doc, key) {
        None => Some(None),
        Some(Value::Null) => Some(None),
        Some(Value::Flag(b)) => Some(Some(b)),
        _ => None,
    }
}

fn malformed(field: &str) -> (e: Error)
    ensures
        e@ == ErrorView::MongoDataError(field@),
{
    Error::MongoDataError(String::from_str(field))
}

impl NoteModel {
    /// Reads a stored document as a note. The identifier, the title, the
    /// content and both timestamps must be present with their types; the
    /// category and the publication state may be missing or null. The error
    /// names the first field that is not as it should be.
    pub fn from_document(doc: &Document) -> (r: Result<NoteModel, Error>)
        ensures
            decoded_view(r) == decode_note(entries(*doc)),
    {
        let id = match read_id(doc, "_id") {
            Some(id) => id,
            None => { return Err(malformed("_id")); },
        };
        let title = match read_text(doc, "title") {
            Some(t) => t,
            None => { return Err(malformed("title")); },
        };
        let content = match read_text(doc, "content") {
            Some(t) => t,
            None => { return Err(malformed("content")); },
        };
        let category = match read_optional_text(doc, "category") {
            Some(c) => c,
            None => { return Err(malformed("category")); },
        };
        let published = match read_optional_flag(doc, "published") {
            Some(p) => p,
            None => { return Err(malformed("published")); },
        };
        let created: i64 = match read_time(doc, "createdAt") {
            Some(t) => t,
            None => { return Err(malformed("createdAt")); },
        };
        let updated: i64 = match read_time(doc, "updatedAt") {
            Some(t) => t,
            None => { return Err(malformed("updatedAt")); },
        };
        Ok(NoteModel { id, title, content, category, published, createdAt: created, updatedAt: updated })
    }
}

} // verus!
