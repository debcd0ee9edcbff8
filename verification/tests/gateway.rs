use mongodb::bson::oid::ObjectId;
use mongodb::bson::{Bson, DateTime, Document};
use notes_crud::db::{CreateCommand, CreateProgress, CreateReply, CreateState, UpdateOne, DB};
use notes_crud::errors::{Error, StoreFailure};
use notes_crud::oid::NoteId;
use notes_crud::query::FindMany;
use notes_crud::response::{NoteListResponse, SingleNoteResponse};
use notes_crud::schema::{CreateNoteSchema, UpdateNoteSchema};

/// A collection in memory with a uniqueness index on titles.
struct Store {
    notes: Vec<Document>,
    assigned: u8,
}

fn passes(doc: &Document, filter: &Document) -> bool {
    filter.iter().all(|(key, value)| doc.get(key) == Some(value))
}

fn duplicate() -> StoreFailure {
    StoreFailure {
        code: Some(11000),
        detail: "E11000 duplicate key error collection".to_string(),
    }
}

impl Store {
    fn new() -> Store {
        Store { notes: Vec::new(), assigned: 0 }
    }

    fn title_taken(&self, title: Option<&Bson>, but: Option<usize>) -> bool {
        self.notes
            .iter()
            .enumerate()
            .any(|(at, note)| Some(at) != but && note.get("title") == title)
    }

    fn answer(&mut self, command: CreateCommand) -> CreateReply {
        match command {
            CreateCommand::EnsureIndex { .. } => CreateReply::IndexReady,
            CreateCommand::InsertOne(mut doc) => {
                if self.title_taken(doc.get("title"), None) {
                    return CreateReply::Failed(duplicate());
                }
                self.assigned += 1;
                let bytes = [0x65, 0, 0, 0, 0, 0, 0, 0, 0, 0, 0, self.assigned];
                doc.insert("_id", ObjectId::from_bytes(bytes));
                self.notes.push(doc);
                CreateReply::Inserted(Some(NoteId { bytes }))
            }
            CreateCommand::FindOne(filter) => CreateReply::Found(self.find_one(&filter)),
        }
    }

    fn find_one(&self, filter: &Document) -> Option<Document> {
        self.notes.iter().find(|note| passes(note, filter)).cloned()
    }

    fn find(&self, window: &FindMany) -> Vec<Document> {
        self.notes
            .iter()
            .filter(|note| passes(note, &window.filter))
            .skip(window.skip as usize)
            .take(window.limit as usize)
            .cloned()
            .collect()
    }

    fn find_one_and_update(&mut self, request: &UpdateOne) -> Result<Option<Document>, StoreFailure> {
        let at = match self.notes.iter().position(|note| passes(note, &request.filter)) {
            Some(at) => at,
            None => return Ok(None),
        };
        let mut changed = self.notes[at].clone();
        for (key, value) in request.update.get_document("$set").unwrap() {
            changed.insert(key.clone(), value.clone());
        }
        if self.title_taken(changed.get("title"), Some(at)) {
            return Err(duplicate());
        }
        self.notes[at] = changed.clone();
        Ok(Some(changed))
    }

    fn delete_one(&mut self, filter: &Document) -> u64 {
        match self.notes.iter().position(|note| passes(note, filter)) {
            Some(at) => {
                self.notes.remove(at);
                1
            }
            None => 0,
        }
    }
}

fn drive(
    db: &mut DB,
    store: &mut Store,
    begun: (CreateState, CreateCommand),
) -> Result<Option<SingleNoteResponse>, Error> {
    let (mut state, mut command) = begun;
    loop {
        let reply = store.answer(command);
        match db.create_note_next(state, reply) {
            CreateProgress::Next(next, ask) => {
                state = next;
                command = ask;
            }
            CreateProgress::Done(result) => return result,
        }
    }
}

fn create(
    db: &mut DB,
    store: &mut Store,
    body: &CreateNoteSchema,
    now: i64,
) -> Result<Option<SingleNoteResponse>, Error> {
    let begun = db.create_note_at(body, now);
    drive(db, store, begun)
}

fn get(db: &DB, store: &Store, id: &str) -> Result<Option<SingleNoteResponse>, Error> {
    let filter = db.get_note(id)?;
    db.note_found(Ok(store.find_one(&filter)))
}

fn update(
    db: &DB,
    store: &mut Store,
    id: &str,
    body: &UpdateNoteSchema,
    now: i64,
) -> Result<Option<SingleNoteResponse>, Error> {
    let request = db.edit_note_at(id, body, now)?;
    db.note_found(store.find_one_and_update(&request))
}

fn delete(db: &DB, store: &mut Store, id: &str) -> Result<Option<()>, Error> {
    let filter = db.delete_note(id)?;
    db.note_deleted(Ok(store.delete_one(&filter)))
}

fn list(db: &DB, store: &Store, page: i64, limit: i64) -> Result<NoteListResponse, Error> {
    let window = db.fetch_notes(limit, page)?;
    db.notes_fetched(Ok(store.find(&window)))
}

fn request(title: &str) -> CreateNoteSchema {
    CreateNoteSchema {
        title: title.to_string(),
        content: "some content".to_string(),
        category: None,
        published: None,
    }
}

fn nothing() -> UpdateNoteSchema {
    UpdateNoteSchema { title: None, content: None, category: None, published: None }
}

fn five_notes() -> (DB, Store) {
    let mut db = DB::init();
    let mut store = Store::new();
    for (at, title) in ["a", "b", "c", "d", "e"].iter().enumerate() {
        create(&mut db, &mut store, &request(title), 1_000 + at as i64).unwrap().unwrap();
    }
    (db, store)
}

#[test]
fn create_with_a_fresh_title_succeeds() {
    let mut db = DB::init();
    let mut store = Store::new();
    let created = create(&mut db, &mut store, &request("first"), 1_700_000_000_000)
        .unwrap()
        .unwrap();
    assert_eq!(created.status, "success");
    let note = created.data.note;
    assert!(!note.id.is_empty());
    assert_eq!(note.id, "650000000000000000000001");
    assert_eq!(note.title, "first");
    assert_eq!(note.content, "some content");
    assert_eq!(note.category, "");
    assert!(!note.published);
    assert_eq!(note.createdAt, 1_700_000_000_000);
    assert_eq!(note.updatedAt, note.createdAt);
    assert_eq!(store.notes.len(), 1);
}

#[test]
fn create_keeps_category_and_publication_state() {
    let mut db = DB::init();
    let mut store = Store::new();
    let body = CreateNoteSchema {
        title: "first".to_string(),
        content: "text".to_string(),
        category: Some("work".to_string()),
        published: Some(true),
    };
    let note = create(&mut db, &mut store, &body, 5).unwrap().unwrap().data.note;
    assert_eq!(note.category, "work");
    assert!(note.published);
    let filed = &store.notes[0];
    assert_eq!(filed.get_str("category"), Ok("work"));
    assert_eq!(filed.get_bool("published"), Ok(true));
    assert_eq!(filed.get_datetime("createdAt"), Ok(&DateTime::from_millis(5)));
    assert_eq!(filed.get_datetime("updatedAt"), Ok(&DateTime::from_millis(5)));
}

#[test]
fn stored_note_always_has_category_and_publication_state() {
    let mut db = DB::init();
    let mut store = Store::new();
    create(&mut db, &mut store, &request("first"), 5).unwrap();
    assert_eq!(store.notes[0].get_str("category"), Ok(""));
    assert_eq!(store.notes[0].get_bool("published"), Ok(false));
}

#[test]
fn index_comes_before_the_first_insert_and_is_remembered() {
    let mut db = DB::init();
    assert!(!db.is_index_confirmed());
    let (state, command) = db.create_note_at(&request("first"), 5);
    let stamped = match state {
        CreateState::AwaitIndex(doc) => doc,
        other => panic!("the document should wait for the index, not {:?}", other),
    };
    match command {
        CreateCommand::EnsureIndex { keys, unique } => {
            assert_eq!(keys.get_i32("title"), Ok(1));
            assert_eq!(keys.len(), 1);
            assert!(unique);
        }
        other => panic!("the index should be asked for first, not {:?}", other),
    }
    let progress =
        db.create_note_next(CreateState::AwaitIndex(stamped.clone()), CreateReply::IndexReady);
    assert_eq!(
        progress,
        CreateProgress::Next(CreateState::AwaitInsert, CreateCommand::InsertOne(stamped))
    );
    assert!(db.is_index_confirmed());
    let (state, command) = db.create_note_at(&request("second"), 6);
    assert_eq!(state, CreateState::AwaitInsert);
    assert!(matches!(command, CreateCommand::InsertOne(_)));
}

#[test]
fn failed_index_ends_the_creation_without_an_insert() {
    let mut db = DB::init();
    let (state, _) = db.create_note_at(&request("first"), 5);
    let failure = StoreFailure { code: None, detail: "no primary".to_string() };
    let progress = db.create_note_next(state, CreateReply::Failed(failure));
    assert_eq!(progress, CreateProgress::Done(Err(Error::MongoError("no primary".to_string()))));
    assert!(!db.is_index_confirmed());
}

#[test]
fn second_create_with_the_same_title_is_a_duplicate() {
    let mut db = DB::init();
    let mut store = Store::new();
    create(&mut db, &mut store, &request("same"), 5).unwrap().unwrap();
    let again = create(&mut db, &mut store, &request("same"), 6);
    assert_eq!(
        again,
        Err(Error::MongoDuplicateError("E11000 duplicate key error collection".to_string()))
    );
    let titled = store.notes.iter().filter(|n| n.get_str("title") == Ok("same")).count();
    assert_eq!(titled, 1);
    assert_eq!(store.notes.len(), 1);
}

#[test]
fn other_insert_failures_are_query_failures() {
    let mut db = DB::init();
    let failure = StoreFailure { code: Some(121), detail: "rejected".to_string() };
    let progress = db.create_note_next(CreateState::AwaitInsert, CreateReply::Failed(failure));
    assert_eq!(
        progress,
        CreateProgress::Done(Err(Error::MongoQueryError("rejected".to_string())))
    );
}

#[test]
fn insert_without_a_native_identifier_is_a_data_error() {
    let mut db = DB::init();
    let progress = db.create_note_next(CreateState::AwaitInsert, CreateReply::Inserted(None));
    assert_eq!(progress, CreateProgress::Done(Err(Error::MongoDataError("_id".to_string()))));
}

#[test]
fn insert_is_followed_by_a_lookup_of_the_new_note() {
    let mut db = DB::init();
    let id = NoteId::parse_str("6021e59541a3ae69b39ecb46").unwrap();
    let progress = db.create_note_next(CreateState::AwaitInsert, CreateReply::Inserted(Some(id)));
    let mut filter = Document::new();
    filter.insert("_id", ObjectId::parse_str("6021e59541a3ae69b39ecb46").unwrap());
    assert_eq!(
        progress,
        CreateProgress::Next(CreateState::AwaitReread, CreateCommand::FindOne(filter))
    );
}

#[test]
fn reread_that_finds_nothing_gives_nothing() {
    let mut db = DB::init();
    let progress = db.create_note_next(CreateState::AwaitReread, CreateReply::Found(None));
    assert_eq!(progress, CreateProgress::Done(Ok(None)));
}

#[test]
fn reread_that_fails_is_a_query_failure() {
    let mut db = DB::init();
    let failure = StoreFailure { code: None, detail: "timed out".to_string() };
    let progress = db.create_note_next(CreateState::AwaitReread, CreateReply::Failed(failure));
    assert_eq!(
        progress,
        CreateProgress::Done(Err(Error::MongoQueryError("timed out".to_string())))
    );
}

#[test]
fn answer_to_another_request_is_a_query_failure() {
    let unexpected = Error::MongoQueryError("unexpected reply from the store".to_string());
    let mut db = DB::init();
    let progress = db.create_note_next(CreateState::AwaitInsert, CreateReply::IndexReady);
    assert_eq!(progress, CreateProgress::Done(Err(unexpected)));
    assert!(!db.is_index_confirmed());
    let unexpected = Error::MongoQueryError("unexpected reply from the store".to_string());
    let progress = db.create_note_next(CreateState::AwaitReread, CreateReply::Inserted(None));
    assert_eq!(progress, CreateProgress::Done(Err(unexpected)));
    let unexpected = Error::MongoQueryError("unexpected reply from the store".to_string());
    let progress =
        db.create_note_next(CreateState::AwaitIndex(Document::new()), CreateReply::Found(None));
    assert_eq!(progress, CreateProgress::Done(Err(unexpected)));
}

#[test]
fn get_after_create_returns_the_same_note() {
    let mut db = DB::init();
    let mut store = Store::new();
    create(&mut db, &mut store, &request("other"), 4).unwrap();
    let created = create(&mut db, &mut store, &request("mine"), 5).unwrap().unwrap();
    let found = get(&db, &store, &created.data.note.id).unwrap().unwrap();
    assert_eq!(found, created);
}

#[test]
fn get_of_an_unknown_identifier_finds_nothing() {
    let (db, store) = five_notes();
    assert_eq!(get(&db, &store, "6021e59541a3ae69b39ecb46"), Ok(None));
}

#[test]
fn update_of_the_title_changes_only_title_and_update_time() {
    let mut db = DB::init();
    let mut store = Store::new();
    let before = create(&mut db, &mut store, &request("old"), 1_000).unwrap().unwrap().data.note;
    let body = UpdateNoteSchema { title: Some("X".to_string()), ..nothing() };
    let returned = update(&db, &mut store, &before.id, &body, 2_000).unwrap().unwrap();
    let seen = get(&db, &store, &before.id).unwrap().unwrap();
    assert_eq!(seen, returned);
    let after = seen.data.note;
    assert_eq!(after.title, "X");
    assert_eq!(after.content, before.content);
    assert_eq!(after.category, before.category);
    assert_eq!(after.published, before.published);
    assert_eq!(after.id, before.id);
    assert_eq!(after.createdAt, before.createdAt);
    assert_eq!(after.updatedAt, 2_000);
    assert!(after.updatedAt > before.updatedAt);
}

#[test]
fn empty_update_changes_only_the_update_time() {
    let mut db = DB::init();
    let mut store = Store::new();
    let body = CreateNoteSchema {
        title: "kept".to_string(),
        content: "as it is".to_string(),
        category: Some("work".to_string()),
        published: Some(true),
    };
    let before = create(&mut db, &mut store, &body, 1_000).unwrap().unwrap().data.note;
    let after = update(&db, &mut store, &before.id, &nothing(), 3_000)
        .unwrap()
        .unwrap()
        .data
        .note;
    assert_eq!(after.title, "kept");
    assert_eq!(after.content, "as it is");
    assert_eq!(after.category, "work");
    assert!(after.published);
    assert_eq!(after.createdAt, 1_000);
    assert_eq!(after.updatedAt, 3_000);
    assert!(after.updatedAt > before.updatedAt);
}

#[test]
fn update_request_sets_the_stated_fields_and_the_update_time() {
    let db = DB::init();
    let body = UpdateNoteSchema { content: Some("new".to_string()), ..nothing() };
    let request = db.edit_note_at("6021e59541a3ae69b39ecb46", &body, 77).unwrap();
    assert_eq!(
        request.filter.get_object_id("_id"),
        Ok(ObjectId::parse_str("6021e59541a3ae69b39ecb46").unwrap())
    );
    let set = request.update.get_document("$set").unwrap();
    assert_eq!(set.len(), 2);
    assert_eq!(set.get_str("content"), Ok("new"));
    assert_eq!(set.get_datetime("updatedAt"), Ok(&DateTime::from_millis(77)));
    assert_eq!(request.update.len(), 1);
}

#[test]
fn update_of_an_unknown_identifier_finds_nothing() {
    let (db, mut store) = five_notes();
    let body = UpdateNoteSchema { title: Some("X".to_string()), ..nothing() };
    assert_eq!(update(&db, &mut store, "6021e59541a3ae69b39ecb46", &body, 9), Ok(None));
    assert_eq!(store.notes.len(), 5);
}

#[test]
fn update_to_a_taken_title_is_a_query_failure() {
    let (db, mut store) = five_notes();
    let body = UpdateNoteSchema { title: Some("b".to_string()), ..nothing() };
    assert_eq!(
        update(&db, &mut store, "650000000000000000000001", &body, 9),
        Err(Error::MongoQueryError("E11000 duplicate key error collection".to_string()))
    );
}

#[test]
fn malformed_identifier_is_invalid_not_a_query_failure() {
    let (db, mut store) = five_notes();
    let invalid = || Error::InvalidIDError("not-an-id".to_string());
    assert_eq!(get(&db, &store, "not-an-id"), Err(invalid()));
    assert_eq!(update(&db, &mut store, "not-an-id", &nothing(), 9), Err(invalid()));
    assert_eq!(delete(&db, &mut store, "not-an-id"), Err(invalid()));
    assert_eq!(db.edit_note("not-an-id", &nothing()).err(), Some(invalid()));
    assert_eq!(store.notes.len(), 5);
}

#[test]
fn delete_of_an_unknown_identifier_finds_nothing() {
    let (db, mut store) = five_notes();
    assert_eq!(delete(&db, &mut store, "6021e59541a3ae69b39ecb46"), Ok(None));
    assert_eq!(store.notes.len(), 5);
}

#[test]
fn second_delete_finds_nothing() {
    let (db, mut store) = five_notes();
    let id = "650000000000000000000003";
    assert_eq!(delete(&db, &mut store, id), Ok(Some(())));
    assert_eq!(store.notes.len(), 4);
    assert_eq!(get(&db, &store, id), Ok(None));
    assert_eq!(delete(&db, &mut store, id), Ok(None));
    assert_eq!(store.notes.len(), 4);
}

#[test]
fn removal_counts() {
    let db = DB::init();
    assert_eq!(db.note_deleted(Ok(0)), Ok(None));
    assert_eq!(db.note_deleted(Ok(1)), Ok(Some(())));
    assert_eq!(db.note_deleted(Ok(2)), Ok(Some(())));
    let failure = StoreFailure { code: None, detail: "gone".to_string() };
    assert_eq!(db.note_deleted(Err(failure)), Err(Error::MongoQueryError("gone".to_string())));
}

#[test]
fn list_pages_of_five_notes() {
    let (db, store) = five_notes();
    let first = list(&db, &store, 1, 2).unwrap();
    assert_eq!(first.status, "success");
    assert_eq!(first.results, 2);
    assert_eq!(first.notes.len(), 2);
    assert_eq!(first.notes[0].title, "a");
    assert_eq!(first.notes[1].title, "b");
    let third = list(&db, &store, 3, 2).unwrap();
    assert_eq!(third.results, 1);
    assert_eq!(third.notes.len(), 1);
    assert_eq!(third.notes[0].title, "e");
    assert_eq!(third.notes[0].id, "650000000000000000000005");
    let tenth = list(&db, &store, 10, 2).unwrap();
    assert_eq!(tenth.status, "success");
    assert_eq!(tenth.results, 0);
    assert!(tenth.notes.is_empty());
}

#[test]
fn list_of_an_empty_collection_is_empty() {
    let db = DB::init();
    let listed = db.notes_fetched(Ok(Vec::new())).unwrap();
    assert_eq!(listed.status, "success");
    assert_eq!(listed.results, 0);
    assert!(listed.notes.is_empty());
}

#[test]
fn list_with_a_page_or_size_below_one_is_rejected() {
    let db = DB::init();
    assert_eq!(db.fetch_notes(10, 0), Err(Error::InvalidPaginationError));
    assert_eq!(db.fetch_notes(0, 1), Err(Error::InvalidPaginationError));
    assert_eq!(db.fetch_notes(-3, -3), Err(Error::InvalidPaginationError));
    let window = db.fetch_notes(10, 1).unwrap();
    assert_eq!((window.skip, window.limit), (0, 10));
    let window = db.fetch_notes(2, 3).unwrap();
    assert_eq!((window.skip, window.limit), (4, 2));
}

#[test]
fn list_names_the_first_document_that_is_no_note() {
    let (db, store) = five_notes();
    let mut docs = store.notes.clone();
    docs[1].remove("content");
    docs[3].remove("title");
    assert_eq!(db.notes_fetched(Ok(docs)), Err(Error::MongoDataError("content".to_string())));
}

#[test]
fn list_that_fails_is_a_query_failure() {
    let db = DB::init();
    let failure = StoreFailure { code: None, detail: "cursor lost".to_string() };
    assert_eq!(
        db.notes_fetched(Err(failure)),
        Err(Error::MongoQueryError("cursor lost".to_string()))
    );
}

#[test]
fn lookup_outcomes() {
    let db = DB::init();
    assert_eq!(db.note_found(Ok(None)), Ok(None));
    let failure = StoreFailure { code: Some(11000), detail: "down".to_string() };
    assert_eq!(db.note_found(Err(failure)), Err(Error::MongoQueryError("down".to_string())));
    let mut doc = Document::new();
    doc.insert("title", "no identifier");
    assert_eq!(db.note_found(Ok(Some(doc))), Err(Error::MongoDataError("_id".to_string())));
}

#[test]
fn creation_now_stamps_one_instant() {
    let db = DB::init();
    let (state, _) = db.create_note(&request("timed"));
    let doc = match state {
        CreateState::AwaitIndex(doc) => doc,
        other => panic!("the document should wait for the index, not {:?}", other),
    };
    let created = doc.get_datetime("createdAt").unwrap();
    let updated = doc.get_datetime("updatedAt").unwrap();
    assert_eq!(created, updated);
    assert!(created.timestamp_millis() > 1_600_000_000_000);
    assert_eq!(doc.get_str("title"), Ok("timed"));
    assert_eq!(doc.len(), 6);
}

#[test]
fn update_now_sets_the_update_time() {
    let db = DB::init();
    let request = db.edit_note("6021e59541a3ae69b39ecb46", &nothing()).unwrap();
    let set = request.update.get_document("$set").unwrap();
    assert_eq!(set.len(), 1);
    assert!(set.get_datetime("updatedAt").unwrap().timestamp_millis() > 1_600_000_000_000);
}

#[test]
fn note_maps_to_its_response() {
    let (db, store) = five_notes();
    let note = notes_crud::model::NoteModel::from_document(&store.notes[0]).unwrap();
    let response = db.doc_to_note(&note).unwrap();
    assert_eq!(response.id, "650000000000000000000001");
    assert_eq!(response.title, "a");
    assert_eq!(response.createdAt, 1_000);
}
