//! The schema mapper: from request bodies to documents, and from stored
//! notes to what clients see.

use crate::document::{empty_document, entries, no_fields, put, Field, Fields, Value};
use crate::model::{NoteModel, NoteModelView};
use crate::oid::hex_of_bytes;
use crate::response::{NoteResponse, NoteResponseView};
use crate::schema::{
    text_view, CreateNoteSchema, CreateNoteView, UpdateNoteSchema, UpdateNoteView,
};
use mongodb::bson::Document;
use vstd::prelude::*;

verus! {

/// The category a note is stored or shown with where none was given.
pub open spec fn category_or_default(category: Option<Seq<char>>) -> Seq<char> {
    match category {
        Some(c) => c,
        None => Seq::empty(),
    }
}

/// The publication state a note is stored or shown with where none was given.
pub open spec fn published_or_default(published: Option<bool>) -> bool {
    match published {
        Some(p) => p,
        None => false,
    }
}

/// The fields of a new note that come from the request: title and content
/// as given, category and publication state with their defaults filled in.
/// Identifier and timestamps are not among them.
pub open spec fn storable_fields(body: CreateNoteView) -> Fields {
    no_fields().insert("title"@, Field::Text(body.title)).insert(
        "content"@,
        Field::Text(body.content),
    ).insert("category"@, Field::Text(category_or_default(body.category))).insert(
        "published"@,
        Field::Flag(published_or_default(body.published)),
    )
}

/// `m` with `key` set to a string where one is given, and `m` itself where not.
pub open spec fn with_text(m: Fields, key: Seq<char>, value: Option<Seq<char>>) -> Fields {
    match value {
        Some(s) => m.insert(key, Field::Text(s)),
        None => m,
    }
}

/// `m` with `key` set to a boolean where one is given, and `m` itself where not.
pub open spec fn with_flag(m: Fields, key: Seq<char>, value: Option<bool>) -> Fields {
    match value {
        Some(b) => m.insert(key, Field::Flag(b)),
        None => m,
    }
}

/// The fields that an update request changes: exactly those it states.
pub open spec fn update_fields(body: UpdateNoteView) -> Fields {
    with_flag(
        with_text(
            with_text(with_text(no_fields(), "title"@, body.title), "content"@, body.content),
            "category"@,
            body.category,
        ),
        "published"@,
        body.published,
    )
}

/// A stored note as clients see it.
pub open spec fn response_of(note: NoteModelView) -> NoteResponseView {
    NoteResponseView {
        id: hex_of_bytes(note.id),
        title: note.title,
        content: note.content,
        category: category_or_default(note.category),
        published: published_or_default(note.published),
        createdAt: note.createdAt,
        updatedAt: note.updatedAt,
    }
}

fn put_text(doc: &mut Document, key: &str, value: &Option<String>)
    ensures
        entries(*final(doc)) == with_text(entries(*old(doc)), key@, text_view(*value)),
{
    match value {
        Some(s) => put(doc, key, Value::Text(s.clone())),
        None => {},
    }
}

fn put_flag(doc: &mut Document, key: &str, value: &Option<bool>)
    ensures
        entries(*final(doc)) == with_flag(entries(*old(doc)), key@, *value),
{
    match value {
        Some(b) => put(doc, key, Value::Flag(*b)),
        None => {},
    }
}

/// Maps a create request to the document that is to be stored, without
/// identifier and timestamps: those are the gateway's to add.
pub fn to_storable_document(body: &CreateNoteSchema) -> (doc: Document)
    ensures
        entries(doc) == storable_fields(body@),
{
    let category = match &body.category {
        Some(c) => c.clone(),
        None => String::new(),
    };
    let published = match body.published {
        Some(p) => p,
        None => false,
    };
    let mut doc = empty_document();
    put(&mut doc, "title", Value::Text(body.title.clone()));
    put(&mut doc, "content", Value::Text(body.content.clone()));
    put(&mut doc, "category", Value::Text(category));
    put(&mut doc, "published", Value::Flag(published));
    doc
}

/// Maps an update request to the document of fields to set. A field that
/// the request leaves out is absent from the document.
pub fn to_update_document(body: &UpdateNoteSchema) -> (doc: Document)
    ensures
        entries(doc) == update_fields(body@),
{
    let mut doc = empty_document();
    put_text(&mut doc, "title", &body.title);
    put_text(&mut doc, "content", &body.content);
    put_text(&mut doc, "category", &body.category);
    put_flag(&mut doc, "published", &body.published);
    doc
}

/// Maps a stored note to its response: the identifier in hexadecimal, an
/// empty category and `false` where the note holds neither, the rest as it is.
pub fn to_response(note: &NoteModel) -> (response: NoteResponse)
    ensures
        response@ == response_of(note@),
{
    let category = match &note.category {
        Some(c) => c.clone(),
        None => String::new(),
    };
    let published = match note.published {
        Some(p) => p,
        None => false,
    };
    NoteResponse {
        id: note.id.to_hex(),
        title: note.title.clone(),
        content: note.content.clone(),
        category,
        published,
        createdAt: note.createdAt,
        updatedAt: note.updatedAt,
    }
}

} // verus!
