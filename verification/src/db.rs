//! The persistence gateway: what to ask of the store for each operation, and
//! what to make of its answer.
//!
//! The store is reached over the network, so the gateway never talks to it
//! itself. Every operation is split where it would wait: one function builds
//! the request, the caller performs it, and a second function interprets the
//! outcome. Creating a note takes up to three round trips and is written as a
//! step function over [`CreateState`].

use crate::clock::now_millis;
use crate::document::{entries, put, Field, Fields, Value};
use crate::errors::{insert_error, Error, ErrorView, StoreFailure, StoreFailureView};
use crate::mapper::{
    response_of, storable_fields, to_response, to_storable_document, to_update_document,
    update_fields,
};
use crate::model::{decode_note, first_malformed, is_note, note_of, NoteModel};
use crate::oid::{bytes_of_hex, is_object_id_text, NoteId};
use crate::query::{
    by_id, id_filter, list_filter, list_request, set_fields, set_update, title_index_keys,
    unique_title_keys, window_view, FindMany,
};
use crate::response::{
    note_views, NoteData, NoteListResponse, NoteListResponseView, NoteResponse, NoteResponseView,
    SingleNoteResponse, SingleNoteResponseView,
};
use crate::schema::{CreateNoteSchema, CreateNoteView, UpdateNoteSchema, UpdateNoteView};
use mongodb::bson::Document;
use vstd::prelude::*;
use vstd::string::StringExecFns;

verus! {

/// The contents of each document of a sequence.
pub open spec fn all_entries(docs: Seq<Document>) -> Seq<Fields> {
    Seq::new(docs.len(), |i: int| entries(docs[i]))
}

/// The document of a new note: the request's fields, stamped with one
/// instant as creation and update time.
pub open spec fn stamped_fields(body: CreateNoteView, now: int) -> Fields {
    storable_fields(body).insert("createdAt"@, Field::Time(now)).insert(
        "updatedAt"@,
        Field::Time(now),
    )
}

/// The fields that an update sets: those the request states, and the update
/// time in any case.
pub open spec fn touched_fields(body: UpdateNoteView, now: int) -> Fields {
    update_fields(body).insert("updatedAt"@, Field::Time(now))
}

/// A find-and-update that returns the note as it is after the update.
#[derive(Debug, PartialEq)]
pub struct UpdateOne {
    /// Selects the note.
    pub filter: Document,
    /// The merge update to apply.
    pub update: Document,
}

/// The view of a request that consists of a filter.
pub open spec fn filter_view(r: Result<Document, Error>) -> Result<Fields, ErrorView> {
    match r {
        Ok(filter) => Ok(entries(filter)),
        Err(e) => Err(e@),
    }
}

/// What a lookup or a removal asks of the store: the note with the
/// identifier that `id` spells. A string that spells none is turned away
/// as it is.
pub open spec fn lookup_request(id: Seq<char>) -> Result<Fields, ErrorView> {
    if is_object_id_text(id) {
        Ok(id_filter(bytes_of_hex(id)))
    } else {
        Err(ErrorView::InvalidIDError(id))
    }
}

pub struct UpdateOneView {
    pub filter: Fields,
    pub update: Fields,
}

impl View for UpdateOne {
    type V = UpdateOneView;

    open spec fn view(&self) -> UpdateOneView {
        UpdateOneView { filter: entries(self.filter), update: entries(self.update) }
    }
}

/// The view of a request for an update.
pub open spec fn update_view(r: Result<UpdateOne, Error>) -> Result<UpdateOneView, ErrorView> {
    match r {
        Ok(u) => Ok(u@),
        Err(e) => Err(e@),
    }
}

/// What an update asks of the store: to set, on the note with the
/// identifier that `id` spells, the fields the request states and the
/// update time. A string that spells no identifier is turned away as it is.
pub open spec fn update_request(id: Seq<char>, body: UpdateNoteView, now: int) -> Result<
    UpdateOneView,
    ErrorView,
> {
    if is_object_id_text(id) {
        Ok(
            UpdateOneView {
                filter: id_filter(bytes_of_hex(id)),
                update: set_update(touched_fields(body, now)),
            },
        )
    } else {
        Err(ErrorView::InvalidIDError(id))
    }
}

/// A single note under the status `success`.
pub open spec fn single_response(note: NoteResponseView) -> SingleNoteResponseView {
    SingleNoteResponseView { status: "success"@, note }
}

/// The view of what a lookup comes to.
pub open spec fn lookup_view(r: Result<Option<SingleNoteResponse>, Error>) -> Result<
    Option<SingleNoteResponseView>,
    ErrorView,
> {
    match r {
        Ok(Some(s)) => Ok(Some(s@)),
        Ok(None) => Ok(None),
        Err(e) => Err(e@),
    }
}

/// What a lookup comes to, given the store's answer: the note under the
/// status `success`, nothing where the store found none, a data error where
/// the document it found is no note.
pub open spec fn lookup_result(found: Option<Fields>) -> Result<
    Option<SingleNoteResponseView>,
    ErrorView,
> {
    match found {
        None => Ok(None),
        Some(m) => match decode_note(m) {
            Ok(note) => Ok(Some(single_response(response_of(note)))),
            Err(e) => Err(e),
        },
    }
}

/// The view of the store's answer to a lookup.
pub open spec fn found_view(o: Result<Option<Document>, StoreFailure>) -> Result<
    Option<Fields>,
    StoreFailureView,
> {
    match o {
        Ok(Some(doc)) => Ok(Some(entries(doc))),
        Ok(None) => Ok(None),
        Err(f) => Err(f@),
    }
}

/// What a lookup or an update comes to: [`lookup_result`] of what the store
/// found, a query failure where the store failed.
pub open spec fn lookup_outcome(o: Result<Option<Fields>, StoreFailureView>) -> Result<
    Option<SingleNoteResponseView>,
    ErrorView,
> {
    match o {
        Ok(found) => lookup_result(found),
        Err(f) => Err(ErrorView::MongoQueryError(f.detail)),
    }
}

/// Whether every document of a page is a note.
pub open spec fn all_notes(docs: Seq<Fields>) -> bool {
    forall|i: int| 0 <= i < docs.len() ==> is_note(#[trigger] docs[i])
}

/// Whether `k` is the place of the first document of a page that is no note.
pub open spec fn is_first_malformed(docs: Seq<Fields>, k: int) -> bool {
    &&& 0 <= k < docs.len()
    &&& !is_note(docs[k])
    &&& forall|j: int| 0 <= j < k ==> is_note(#[trigger] docs[j])
}

/// The place of the first document of a page that is no note.
pub open spec fn first_malformed_at(docs: Seq<Fields>) -> int {
    choose|k: int| is_first_malformed(docs, k)
}

/// A page of well-formed documents as clients see it: under the status
/// `success`, each note mapped to its response, in the same order, with
/// their number.
pub open spec fn page_of(docs: Seq<Fields>) -> NoteListResponseView {
    NoteListResponseView {
        status: "success"@,
        results: docs.len(),
        notes: Seq::new(docs.len(), |i: int| response_of(note_of(docs[i]))),
    }
}

/// The view of the store's answer to a find.
pub open spec fn found_many_view(o: Result<Vec<Document>, StoreFailure>) -> Result<
    Seq<Fields>,
    StoreFailureView,
> {
    match o {
        Ok(docs) => Ok(all_entries(docs@)),
        Err(f) => Err(f@),
    }
}

/// The view of what a list comes to.
pub open spec fn list_view(r: Result<NoteListResponse, Error>) -> Result<
    NoteListResponseView,
    ErrorView,
> {
    match r {
        Ok(l) => Ok(l@),
        Err(e) => Err(e@),
    }
}

/// What a list comes to: the page where every document is a note, the data
/// error of the first that is none otherwise, a query failure where the
/// store failed.
pub open spec fn list_result(o: Result<Seq<Fields>, StoreFailureView>) -> Result<
    NoteListResponseView,
    ErrorView,
> {
    match o {
        Ok(docs) => if all_notes(docs) {
            Ok(page_of(docs))
        } else {
            Err(ErrorView::MongoDataError(first_malformed(docs[first_malformed_at(docs)])))
        },
        Err(f) => Err(ErrorView::MongoQueryError(f.detail)),
    }
}

/// There is one first malformed document at most.
pub proof fn lemma_first_malformed_unique(docs: Seq<Fields>, k: int)
    requires
        is_first_malformed(docs, k),
    ensures
        first_malformed_at(docs) == k,
        !all_notes(docs),
{
    let c = first_malformed_at(docs);
    assert(is_first_malformed(docs, c));
    if c < k {
        assert(is_note(docs[c]));
    }
    if k < c {
        assert(is_note(docs[k]));
    }
}

/// The view of the store's answer to a removal.
pub open spec fn removed_view(o: Result<u64, StoreFailure>) -> Result<int, StoreFailureView> {
    match o {
        Ok(n) => Ok(n as int),
        Err(f) => Err(f@),
    }
}

/// The view of what a removal comes to.
pub open spec fn removal_view(r: Result<Option<()>, Error>) -> Result<bool, ErrorView> {
    match r {
        Ok(done) => Ok(done is Some),
        Err(e) => Err(e@),
    }
}

/// What a removal comes to: whether a note was removed, or a query failure
/// where the store failed.
pub open spec fn removal_result(o: Result<int, StoreFailureView>) -> Result<bool, ErrorView> {
    match o {
        Ok(n) => Ok(n != 0),
        Err(f) => Err(ErrorView::MongoQueryError(f.detail)),
    }
}

/// The answers of the store while a note is being created.
#[derive(Debug, PartialEq)]
pub enum CreateReply {
    /// The uniqueness index on titles exists.
    IndexReady,
    /// The document was inserted, under this identifier if the store
    /// reported one of the native kind.
    Inserted(Option<NoteId>),
    /// The lookup by identifier finished, with or without a document.
    Found(Option<Document>),
    /// The operation failed.
    Failed(StoreFailure),
}

pub enum CreateReplyView {
    IndexReady,
    Inserted(Option<Seq<u8>>),
    Found(Option<Fields>),
    Failed(StoreFailureView),
}

impl View for CreateReply {
    type V = CreateReplyView;

    open spec fn view(&self) -> CreateReplyView {
        match self {
            CreateReply::IndexReady => CreateReplyView::IndexReady,
            CreateReply::Inserted(id) => CreateReplyView::Inserted(
                match id {
                    Some(i) => Some(i@),
                    None => None,
                },
            ),
            CreateReply::Found(d) => CreateReplyView::Found(
                match d {
                    Some(doc) => Some(entries(*doc)),
                    None => None,
                },
            ),
            CreateReply::Failed(f) => CreateReplyView::Failed(f@),
        }
    }
}

/// What the gateway asks of the store while a note is being created.
#[derive(Debug, PartialEq)]
pub enum CreateCommand {
    /// Create the index with this key pattern, or confirm that it exists.
    EnsureIndex { keys: Document, unique: bool },
    /// Insert this document.
    InsertOne(Document),
    /// Find the document that this filter selects.
    FindOne(Document),
}

pub enum CreateCommandView {
    EnsureIndex { keys: Fields, unique: bool },
    InsertOne(Fields),
    FindOne(Fields),
}

impl View for CreateCommand {
    type V = CreateCommandView;

    open spec fn view(&self) -> CreateCommandView {
        match self {
            CreateCommand::EnsureIndex { keys, unique } => CreateCommandView::EnsureIndex {
                keys: entries(*keys),
                unique: *unique,
            },
            CreateCommand::InsertOne(d) => CreateCommandView::InsertOne(entries(*d)),
            CreateCommand::FindOne(f) => CreateCommandView::FindOne(entries(*f)),
        }
    }
}

/// Where the creation of a note stands: which answer the gateway waits for.
#[derive(Debug, PartialEq)]
pub enum CreateState {
    /// The index was asked for; the document waits to be inserted.
    AwaitIndex(Document),
    /// The insert was asked for.
    AwaitInsert,
    /// The inserted note was asked for by its identifier.
    AwaitReread,
}

pub enum CreateStateView {
    AwaitIndex(Fields),
    AwaitInsert,
    AwaitReread,
}

impl View for CreateState {
    type V = CreateStateView;

    open spec fn view(&self) -> CreateStateView {
        match self {
            CreateState::AwaitIndex(d) => CreateStateView::AwaitIndex(entries(*d)),
            CreateState::AwaitInsert => CreateStateView::AwaitInsert,
            CreateState::AwaitReread => CreateStateView::AwaitReread,
        }
    }
}

/// One step of a creation: go on with another request, or finish.
#[derive(Debug, PartialEq)]
pub enum CreateProgress {
    /// Perform the command and come back with the answer.
    Next(CreateState, CreateCommand),
    /// The creation is over.
    Done(Result<Option<SingleNoteResponse>, Error>),
}

pub enum CreateProgressView {
    Next(CreateStateView, CreateCommandView),
    Done(Result<Option<SingleNoteResponseView>, ErrorView>),
}

impl View for CreateProgress {
    type V = CreateProgressView;

    open spec fn view(&self) -> CreateProgressView {
        match self {
            CreateProgress::Next(s, c) => CreateProgressView::Next(s@, c@),
            CreateProgress::Done(r) => CreateProgressView::Done(lookup_view(*r)),
        }
    }
}

/// The request for the uniqueness index on titles.
pub open spec fn ensure_index() -> CreateCommandView {
    CreateCommandView::EnsureIndex { keys: title_index_keys(), unique: true }
}

/// How a creation begins. With the index confirmed the document is inserted
/// at once; otherwise the index comes first and the document waits.
pub open spec fn create_start(confirmed: bool, body: CreateNoteView, now: int) -> (
    CreateStateView,
    CreateCommandView,
) {
    if confirmed {
        (CreateStateView::AwaitInsert, CreateCommandView::InsertOne(stamped_fields(body, now)))
    } else {
        (CreateStateView::AwaitIndex(stamped_fields(body, now)), ensure_index())
    }
}

/// The error for an answer that does not belong to the request it follows.
pub open spec fn unexpected_reply() -> ErrorView {
    ErrorView::MongoQueryError("unexpected reply from the store"@)
}

/// How a creation goes on when the store has answered.
pub open spec fn create_next(state: CreateStateView, reply: CreateReplyView) -> CreateProgressView {
    match (state, reply) {
        (CreateStateView::AwaitIndex(doc), CreateReplyView::IndexReady) => CreateProgressView::Next(
            CreateStateView::AwaitInsert,
            CreateCommandView::InsertOne(doc),
        ),
        (CreateStateView::AwaitIndex(_), CreateReplyView::Failed(f)) => CreateProgressView::Done(
            Err(ErrorView::MongoError(f.detail)),
        ),
        (CreateStateView::AwaitInsert, CreateReplyView::Inserted(Some(id))) => CreateProgressView::Next(
            CreateStateView::AwaitReread,
            CreateCommandView::FindOne(id_filter(id)),
        ),
        (CreateStateView::AwaitInsert, CreateReplyView::Inserted(None)) => CreateProgressView::Done(
            Err(ErrorView::MongoDataError("_id"@)),
        ),
        (CreateStateView::AwaitInsert, CreateReplyView::Failed(f)) => CreateProgressView::Done(
            Err(insert_error(f)),
        ),
        (CreateStateView::AwaitReread, CreateReplyView::Found(found)) => CreateProgressView::Done(
            lookup_result(found),
        ),
        (CreateStateView::AwaitReread, CreateReplyView::Failed(f)) => CreateProgressView::Done(
            Err(ErrorView::MongoQueryError(f.detail)),
        ),
        _ => CreateProgressView::Done(Err(unexpected_reply())),
    }
}

/// Whether the index is confirmed once the store has answered: it stays
/// confirmed, and becomes so when the store says the index is ready.
pub open spec fn confirmed_after(confirmed: bool, state: CreateStateView, reply: CreateReplyView) -> bool {
    confirmed || (state is AwaitIndex && reply is IndexReady)
}

/// The decisions of the persistence gateway. It remembers one thing: whether
/// the store has confirmed the uniqueness index on titles.
#[derive(Debug, Clone)]
pub struct DB {
    index_confirmed: bool,
}

fn unexpected() -> (e: Error)
    ensures
        e@ == unexpected_reply(),
{
    Error::MongoQueryError(String::from_str("unexpected reply from the store"))
}

fn success(note: NoteResponse) -> (s: SingleNoteResponse)
    ensures
        s@ == single_response(note@),
{
    SingleNoteResponse { status: String::from_str("success"), data: NoteData { note } }
}

impl DB {
    /// Whether the store has confirmed the uniqueness index on titles.
    pub closed spec fn index_confirmed(&self) -> bool {
        self.index_confirmed
    }

    /// A gateway that has not seen the index confirmed yet.
    pub fn init() -> (db: DB)
        ensures
            !db.index_confirmed(),
    {
        DB { index_confirmed: false }
    }

    /// Whether the store has confirmed the uniqueness index on titles.
    pub fn is_index_confirmed(&self) -> (confirmed: bool)
        ensures
            confirmed == self.index_confirmed(),
    {
        self.index_confirmed
    }

    /// Maps a stored note to its response.
    pub fn doc_to_note(&self, note: &NoteModel) -> (r: Result<NoteResponse, Error>)
        ensures
            r matches Ok(response) && response@ == response_of(note@),
    {
        Ok(to_response(note))
    }

    /// Begins a list: the window for page `page` of size `limit`. See
    /// [`list_request`].
    pub fn fetch_notes(&self, limit: i64, page: i64) -> (r: Result<FindMany, Error>)
        ensures
            window_view(r) == list_request(page as int, limit as int),
    {
        list_filter(page, limit)
    }

    /// Ends a list: the notes the store returned, each mapped to its
    /// response, in the store's order, with their number. An empty page is
    /// a success like any other. See [`list_result`].
    pub fn notes_fetched(&self, outcome: Result<Vec<Document>, StoreFailure>) -> (r: Result<
        NoteListResponse,
        Error,
    >)
        ensures
            list_view(r) == list_result(found_many_view(outcome)),
    {
        let docs = match outcome {
            Ok(docs) => docs,
            Err(f) => { return Err(Error::from_query_failure(f)); },
        };
        let ghost all = all_entries(docs@);
        let ghost expected = list_result(Ok(all));
        let mut notes: Vec<NoteResponse> = Vec::new();
        let mut i: usize = 0;
        while i < docs.len()
            invariant
                i <= docs.len(),
                all == all_entries(docs@),
                expected == list_result(Ok(all)),
                expected == list_result(found_many_view(outcome)),
                notes@.len() == i,
                forall|j: int| 0 <= j < i ==> is_note(#[trigger] all[j]),
                forall|j: int| 0 <= j < i ==> (#[trigger] notes@[j])@ == response_of(note_of(all[j])),
            decreases docs.len() - i,
        {
            match NoteModel::from_document(&docs[i]) {
                Ok(note) => {
                    notes.push(to_response(&note));
                },
                Err(e) => {
                    proof {
                        assert(all[i as int] == entries(docs@[i as int]));
                        assert(is_first_malformed(all, i as int));
                        lemma_first_malformed_unique(all, i as int);
                    }
                    return Err(e);
                },
            }
            i += 1;
        }
        proof {
            assert(all_notes(all));
            assert(note_views(notes@) =~= page_of(all).notes);
        }
        let results = notes.len();
        Ok(NoteListResponse { status: String::from_str("success"), results, notes })
    }

    /// Begins the creation of a note at the instant `now`. See
    /// [`create_start`].
    pub fn create_note_at(&self, body: &CreateNoteSchema, now: i64) -> (begun: (
        CreateState,
        CreateCommand,
    ))
        ensures
            (begun.0@, begun.1@) == create_start(self.index_confirmed(), body@, now as int),
    {
        let mut doc = to_storable_document(body);
        put(&mut doc, "createdAt", Value::Time(now));
        put(&mut doc, "updatedAt", Value::Time(now));
        if self.index_confirmed {
            (CreateState::AwaitInsert, CreateCommand::InsertOne(doc))
        } else {
            (
                CreateState::AwaitIndex(doc),
                CreateCommand::EnsureIndex { keys: unique_title_keys(), unique: true },
            )
        }
    }

    /// Begins the creation of a note now: [`DB::create_note_at`] at the
    /// instant the clock shows.
    pub fn create_note(&self, body: &CreateNoteSchema) -> (begun: (CreateState, CreateCommand))
        ensures
            exists|now: i64|
                (begun.0@, begun.1@) == #[trigger] create_start(
                    self.index_confirmed(),
                    body@,
                    now as int,
                ),
    {
        let now = now_millis();
        let begun = self.create_note_at(body, now);
        assert((begun.0@, begun.1@) == create_start(self.index_confirmed(), body@, now as int));
        begun
    }

    /// Takes the store's answer and decides how the creation goes on. See
    /// [`create_next`]. The gateway notes the index as confirmed when the
    /// store says so.
    pub fn create_note_next(&mut self, state: CreateState, reply: CreateReply) -> (progress:
        CreateProgress)
        ensures
            progress@ == create_next(state@, reply@),
            final(self).index_confirmed() == confirmed_after(
                old(self).index_confirmed(),
                state@,
                reply@,
            ),
    {
        match state {
            CreateState::AwaitIndex(doc) => match reply {
                CreateReply::IndexReady => {
                    self.index_confirmed = true;
                    CreateProgress::Next(CreateState::AwaitInsert, CreateCommand::InsertOne(doc))
                },
                CreateReply::Failed(f) => CreateProgress::Done(Err(Error::MongoError(f.detail))),
                _ => CreateProgress::Done(Err(unexpected())),
            },
            CreateState::AwaitInsert => match reply {
                CreateReply::Inserted(Some(id)) => CreateProgress::Next(
                    CreateState::AwaitReread,
                    CreateCommand::FindOne(by_id(&id)),
                ),
                CreateReply::Inserted(None) => CreateProgress::Done(
                    Err(Error::MongoDataError(String::from_str("_id"))),
                ),
                CreateReply::Failed(f) => CreateProgress::Done(Err(Error::from_insert_failure(f))),
                _ => CreateProgress::Done(Err(unexpected())),
            },
            CreateState::AwaitReread => match reply {
                CreateReply::Found(found) => CreateProgress::Done(self.note_found(Ok(found))),
                CreateReply::Failed(f) => CreateProgress::Done(Err(Error::from_query_failure(f))),
                _ => CreateProgress::Done(Err(unexpected())),
            },
        }
    }

    /// Begins a lookup: the filter for the note that `id` names. See
    /// [`lookup_request`].
    pub fn get_note(&self, id: &str) -> (r: Result<Document, Error>)
        ensures
            filter_view(r) == lookup_request(id@),
    {
        match NoteId::parse_str(id) {
            Ok(oid) => Ok(by_id(&oid)),
            Err(e) => Err(e),
        }
    }

    /// Ends a lookup or an update. "No such note" is a value, not a
    /// failure. See [`lookup_outcome`].
    pub fn note_found(&self, outcome: Result<Option<Document>, StoreFailure>) -> (r: Result<
        Option<SingleNoteResponse>,
        Error,
    >)
        ensures
            lookup_view(r) == lookup_outcome(found_view(outcome)),
    {
        match outcome {
            Err(f) => Err(Error::from_query_failure(f)),
            Ok(None) => Ok(None),
            Ok(Some(doc)) => {
                match NoteModel::from_document(&doc) {
                    Ok(note) => Ok(Some(success(to_response(&note)))),
                    Err(e) => Err(e),
                }
            },
        }
    }

    /// Begins an update at the instant `now`: the filter for the note that
    /// `id` names, and the merge update. See [`update_request`].
    pub fn edit_note_at(&self, id: &str, body: &UpdateNoteSchema, now: i64) -> (r: Result<
        UpdateOne,
        Error,
    >)
        ensures
            update_view(r) == update_request(id@, body@, now as int),
    {
        let oid = match NoteId::parse_str(id) {
            Ok(oid) => oid,
            Err(e) => { return Err(e); },
        };
        let mut fields = to_update_document(body);
        put(&mut fields, "updatedAt", Value::Time(now));
        Ok(UpdateOne { filter: by_id(&oid), update: set_fields(fields) })
    }

    /// Begins an update now: [`DB::edit_note_at`] at the instant the clock
    /// shows.
    pub fn edit_note(&self, id: &str, body: &UpdateNoteSchema) -> (r: Result<UpdateOne, Error>)
        ensures
            exists|now: i64| update_view(r) == #[trigger] update_request(id@, body@, now as int),
    {
        let now = now_millis();
        let r = self.edit_note_at(id, body, now);
        assert(update_view(r) == update_request(id@, body@, now as int));
        r
    }

    /// Begins a removal: the filter for the note that `id` names. See
    /// [`lookup_request`].
    pub fn delete_note(&self, id: &str) -> (r: Result<Document, Error>)
        ensures
            filter_view(r) == lookup_request(id@),
    {
        match NoteId::parse_str(id) {
            Ok(oid) => Ok(by_id(&oid)),
            Err(e) => Err(e),
        }
    }

    /// Ends a removal: done where the store removed a note, "no such note"
    /// where it removed none. See [`removal_result`].
    pub fn note_deleted(&self, outcome: Result<u64, StoreFailure>) -> (r: Result<Option<()>, Error>)
        ensures
            removal_view(r) == removal_result(removed_view(outcome)),
    {
        match outcome {
            Ok(count) => {
                if count == 0 {
                    Ok(None)
                } else {
                    Ok(Some(()))
                }
            },
            Err(f) => Err(Error::from_query_failure(f)),
        }
    }
}

} // verus!
