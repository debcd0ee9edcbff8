use mongodb::bson::oid::ObjectId;
use mongodb::bson::{Bson, DateTime, Document};
use notes_crud::errors::Error;
use notes_crud::mapper::{to_response, to_storable_document, to_update_document};
use notes_crud::model::NoteModel;
use notes_crud::oid::NoteId;
use notes_crud::schema::{CreateNoteSchema, UpdateNoteSchema};

fn stored() -> Document {
    let mut doc = Document::new();
    doc.insert("_id", ObjectId::parse_str("6021e59541a3ae69b39ecb46").unwrap());
    doc.insert("title", "Groceries");
    doc.insert("content", "Milk, eggs");
    doc.insert("category", "home");
    doc.insert("published", true);
    doc.insert("createdAt", DateTime::from_millis(1_700_000_000_000));
    doc.insert("updatedAt", DateTime::from_millis(1_700_000_360_000));
    doc
}

#[test]
fn storable_document_fills_in_defaults() {
    let body = CreateNoteSchema {
        title: "Groceries".to_string(),
        content: "Milk, eggs".to_string(),
        category: None,
        published: None,
    };
    let doc = to_storable_document(&body);
    assert_eq!(doc.len(), 4);
    assert_eq!(doc.get_str("title"), Ok("Groceries"));
    assert_eq!(doc.get_str("content"), Ok("Milk, eggs"));
    assert_eq!(doc.get_str("category"), Ok(""));
    assert_eq!(doc.get_bool("published"), Ok(false));
    assert!(!doc.contains_key("_id"));
    assert!(!doc.contains_key("createdAt"));
    assert!(!doc.contains_key("updatedAt"));
}

#[test]
fn storable_document_keeps_what_is_given() {
    let body = CreateNoteSchema {
        title: "Groceries".to_string(),
        content: "Milk, eggs".to_string(),
        category: Some("home".to_string()),
        published: Some(true),
    };
    let doc = to_storable_document(&body);
    assert_eq!(doc.len(), 4);
    assert_eq!(doc.get_str("category"), Ok("home"));
    assert_eq!(doc.get_bool("published"), Ok(true));
}

#[test]
fn update_document_leaves_out_what_is_absent() {
    let body = UpdateNoteSchema {
        title: Some("X".to_string()),
        content: None,
        category: None,
        published: Some(false),
    };
    let doc = to_update_document(&body);
    assert_eq!(doc.len(), 2);
    assert_eq!(doc.get_str("title"), Ok("X"));
    assert_eq!(doc.get_bool("published"), Ok(false));
    assert!(!doc.contains_key("content"));
    assert!(!doc.contains_key("category"));
}

#[test]
fn update_document_of_an_empty_request_is_empty() {
    let body = UpdateNoteSchema { title: None, content: None, category: None, published: None };
    assert!(to_update_document(&body).is_empty());
}

#[test]
fn update_document_of_a_full_request_has_every_field() {
    let body = UpdateNoteSchema {
        title: Some("t".to_string()),
        content: Some("c".to_string()),
        category: Some("k".to_string()),
        published: Some(true),
    };
    let doc = to_update_document(&body);
    assert_eq!(doc.len(), 4);
    assert_eq!(doc.get_str("content"), Ok("c"));
    assert_eq!(doc.get_str("category"), Ok("k"));
    assert_eq!(doc.get_bool("published"), Ok(true));
}

#[test]
fn stored_document_is_read_as_a_note() {
    let note = NoteModel::from_document(&stored()).unwrap();
    assert_eq!(
        note,
        NoteModel {
            id: NoteId::parse_str("6021e59541a3ae69b39ecb46").unwrap(),
            title: "Groceries".to_string(),
            content: "Milk, eggs".to_string(),
            category: Some("home".to_string()),
            published: Some(true),
            createdAt: 1_700_000_000_000,
            updatedAt: 1_700_000_360_000,
        }
    );
}

#[test]
fn missing_or_null_optional_fields_are_read_as_absent() {
    let mut doc = stored();
    doc.remove("category");
    doc.insert("published", Bson::Null);
    let note = NoteModel::from_document(&doc).unwrap();
    assert_eq!(note.category, None);
    assert_eq!(note.published, None);
    let response = to_response(&note);
    assert_eq!(response.category, "");
    assert!(!response.published);
}

#[test]
fn missing_required_field_is_a_data_error() {
    let mut doc = stored();
    doc.remove("title");
    assert_eq!(
        NoteModel::from_document(&doc),
        Err(Error::MongoDataError("title".to_string()))
    );
    let mut doc = stored();
    doc.remove("content");
    assert_eq!(
        NoteModel::from_document(&doc),
        Err(Error::MongoDataError("content".to_string()))
    );
    let mut doc = stored();
    doc.remove("_id");
    doc.remove("updatedAt");
    assert_eq!(NoteModel::from_document(&doc), Err(Error::MongoDataError("_id".to_string())));
}

#[test]
fn field_of_another_type_is_a_data_error() {
    let mut doc = stored();
    doc.insert("title", 7_i32);
    assert_eq!(
        NoteModel::from_document(&doc),
        Err(Error::MongoDataError("title".to_string()))
    );
    let mut doc = stored();
    doc.insert("category", 7_i64);
    assert_eq!(
        NoteModel::from_document(&doc),
        Err(Error::MongoDataError("category".to_string()))
    );
    let mut doc = stored();
    doc.insert("published", "yes");
    assert_eq!(
        NoteModel::from_document(&doc),
        Err(Error::MongoDataError("published".to_string()))
    );
    let mut doc = stored();
    doc.insert("createdAt", 1_700_000_000_000_i64);
    assert_eq!(
        NoteModel::from_document(&doc),
        Err(Error::MongoDataError("createdAt".to_string()))
    );
    let mut doc = stored();
    doc.insert("updatedAt", Bson::Null);
    assert_eq!(
        NoteModel::from_document(&doc),
        Err(Error::MongoDataError("updatedAt".to_string()))
    );
    let mut doc = stored();
    doc.insert("_id", "6021e59541a3ae69b39ecb46");
    assert_eq!(NoteModel::from_document(&doc), Err(Error::MongoDataError("_id".to_string())));
}

#[test]
fn response_copies_the_note() {
    let note = NoteModel::from_document(&stored()).unwrap();
    let response = to_response(&note);
    assert_eq!(response.id, "6021e59541a3ae69b39ecb46");
    assert_eq!(response.title, "Groceries");
    assert_eq!(response.content, "Milk, eggs");
    assert_eq!(response.category, "home");
    assert!(response.published);
    assert_eq!(response.createdAt, 1_700_000_000_000);
    assert_eq!(response.updatedAt, 1_700_000_360_000);
}
