//! The decisions of the HTTP handlers: which request goes to the gateway,
//! and which status code and body answer the client.
//!
//! Each handler comes in two halves, as the gateway's operations do: the
//! first turns the request into what the store is asked, the second turns
//! the store's answer into a reply.

use crate::db::{
    create_start, found_many_view, found_view, list_result, lookup_outcome, lookup_request,
    lookup_view, removal_result, removed_view, update_request, CreateCommand, CreateState,
    UpdateOne, UpdateOneView, DB,
};
use crate::document::{entries, Fields};
use crate::errors::{generic_reply, Error, ErrorView, Rejection, RejectionView, StoreFailure};
use crate::query::{list_request, FindMany, FindManyView};
use crate::response::{
    Body, BodyView, GenericResponse, HttpReply, HttpReplyView, NoteListResponseView,
    SingleNoteResponse, SingleNoteResponseView,
};
use crate::schema::{CreateNoteSchema, FilterOptions, UpdateNoteSchema};
use mongodb::bson::Document;
use vstd::prelude::*;
use vstd::string::StringExecFns;

verus! {

/// The page size of a list request that names none.
pub const DEFAULT_LIMIT: i64 = 10;

/// The page of a list request that names none.
pub const DEFAULT_PAGE: i64 = 1;

/// The page size that a list request asks for.
pub open spec fn requested_limit(opts: FilterOptions) -> int {
    match opts.limit {
        Some(l) => l as int,
        None => DEFAULT_LIMIT as int,
    }
}

/// The page that a list request asks for.
pub open spec fn requested_page(opts: FilterOptions) -> int {
    match opts.page {
        Some(p) => p as int,
        None => DEFAULT_PAGE as int,
    }
}

/// What a list request asks of the store. A page or a size beyond the
/// store's signed 64-bit parameters is a pagination error like one below one.
pub open spec fn list_request_of(opts: FilterOptions) -> Result<FindManyView, ErrorView> {
    if requested_page(opts) <= i64::MAX && requested_limit(opts) <= i64::MAX {
        list_request(requested_page(opts), requested_limit(opts))
    } else {
        Err(ErrorView::InvalidPaginationError)
    }
}

/// A gateway error as a rejection.
pub open spec fn rejected<T>(r: Result<T, ErrorView>) -> Result<T, RejectionView> {
    match r {
        Ok(t) => Ok(t),
        Err(e) => Err(RejectionView::Custom(e)),
    }
}

/// The view of how a list request begins.
pub open spec fn begun_view(r: Result<FindMany, Rejection>) -> Result<FindManyView, RejectionView> {
    match r {
        Ok(w) => Ok(w@),
        Err(rejection) => Err(rejection@),
    }
}

/// The view of how a request that names one note begins.
pub open spec fn selected_view(r: Result<Document, Rejection>) -> Result<Fields, RejectionView> {
    match r {
        Ok(filter) => Ok(entries(filter)),
        Err(rejection) => Err(rejection@),
    }
}

/// The view of how an update request begins.
pub open spec fn changed_view(r: Result<UpdateOne, Rejection>) -> Result<
    UpdateOneView,
    RejectionView,
> {
    match r {
        Ok(u) => Ok(u@),
        Err(rejection) => Err(rejection@),
    }
}

/// The message that tells a client that no note has the identifier.
pub open spec fn not_found_message(id: Seq<char>) -> Seq<char> {
    "Note with ID: "@ + id + " not found"@
}

/// The reply that tells a client that no note has the identifier.
pub open spec fn not_found_reply(id: Seq<char>) -> HttpReplyView {
    generic_reply(404, "fail"@, not_found_message(id))
}

/// The reply to the health check.
pub open spec fn health_reply() -> HttpReplyView {
    generic_reply(200, "success"@, "Build CRUD API with Rust and MongoDB"@)
}

/// The view of what a handler comes to.
pub open spec fn handled_view(r: Result<HttpReply, Rejection>) -> Result<
    HttpReplyView,
    RejectionView,
> {
    match r {
        Ok(reply) => Ok(reply@),
        Err(rejection) => Err(rejection@),
    }
}

/// The reply to a list request, given what the gateway made of it.
pub open spec fn list_reply(r: Result<NoteListResponseView, ErrorView>) -> Result<
    HttpReplyView,
    RejectionView,
> {
    match r {
        Ok(list) => Ok(HttpReplyView { code: 200, body: BodyView::List(list) }),
        Err(e) => Err(RejectionView::Custom(e)),
    }
}

/// The reply to a create request, given what the gateway made of it: the
/// note under the status code 201.
pub open spec fn created_reply(r: Result<Option<SingleNoteResponseView>, ErrorView>) -> Result<
    HttpReplyView,
    RejectionView,
> {
    match r {
        Ok(note) => Ok(HttpReplyView { code: 201, body: BodyView::Note(note) }),
        Err(e) => Err(RejectionView::Custom(e)),
    }
}

/// The reply to a request for one note, given what the gateway made of it:
/// the note under 200, or the message that there is none under 404.
pub open spec fn note_reply(id: Seq<char>, r: Result<Option<SingleNoteResponseView>, ErrorView>) -> Result<
    HttpReplyView,
    RejectionView,
> {
    match r {
        Ok(Some(note)) => Ok(HttpReplyView { code: 200, body: BodyView::Note(Some(note)) }),
        Ok(None) => Ok(not_found_reply(id)),
        Err(e) => Err(RejectionView::Custom(e)),
    }
}

/// The reply to a removal, given what the gateway made of it: an empty body
/// under 204, or the message that there is no such note under 404.
pub open spec fn removed_reply(id: Seq<char>, r: Result<bool, ErrorView>) -> Result<
    HttpReplyView,
    RejectionView,
> {
    match r {
        Ok(true) => Ok(HttpReplyView { code: 204, body: BodyView::Empty }),
        Ok(false) => Ok(not_found_reply(id)),
        Err(e) => Err(RejectionView::Custom(e)),
    }
}

fn not_found(id: &str) -> (reply: HttpReply)
    ensures
        reply@ == not_found_reply(id@),
{
    let message = String::from_str("Note with ID: ").concat(id).concat(" not found");
    HttpReply {
        code: 404,
        body: Body::Generic(GenericResponse { status: String::from_str("fail"), message }),
    }
}

fn coerce(given: Option<usize>, default: i64) -> (value: Option<i64>)
    requires
        default >= 0,
    ensures
        match given {
            Some(g) => value == if g <= i64::MAX {
                Some(g as i64)
            } else {
                None
            },
            None => value == Some(default),
        },
{
    match given {
        None => Some(default),
        Some(g) => {
            let wide: u64 = g as u64;
            if wide > 0x7fff_ffff_ffff_ffff {
                None
            } else {
                Some(wide as i64)
            }
        },
    }
}

/// Answers the health check.
pub fn health_checker_handler() -> (reply: HttpReply)
    ensures
        reply@ == health_reply(),
{
    HttpReply {
        code: 200,
        body: Body::Generic(
            GenericResponse {
                status: String::from_str("success"),
                message: String::from_str("Build CRUD API with Rust and MongoDB"),
            },
        ),
    }
}

/// Begins a list request: page one and ten notes a page where the request
/// names neither, then the gateway's window. A request that cannot be
/// served is rejected with a pagination error.
pub fn notes_list_handler(opts: &FilterOptions, db: &DB) -> (r: Result<FindMany, Rejection>)
    ensures
        begun_view(r) == rejected(list_request_of(*opts)),
{
    let limit: i64 = match coerce(opts.limit, DEFAULT_LIMIT) {
        Some(l) => l,
        None => { return Err(Rejection::Custom(Error::InvalidPaginationError)); },
    };
    let page: i64 = match coerce(opts.page, DEFAULT_PAGE) {
        Some(p) => p,
        None => { return Err(Rejection::Custom(Error::InvalidPaginationError)); },
    };
    match db.fetch_notes(limit, page) {
        Ok(w) => Ok(w),
        Err(e) => Err(Rejection::Custom(e)),
    }
}

/// Ends a list request: the page under the status code 200, or the
/// gateway's error as a rejection.
pub fn notes_list_reply(db: &DB, outcome: Result<Vec<Document>, StoreFailure>) -> (r: Result<
    HttpReply,
    Rejection,
>)
    ensures
        handled_view(r) == list_reply(list_result(found_many_view(outcome))),
{
    match db.notes_fetched(outcome) {
        Ok(list) => Ok(HttpReply { code: 200, body: Body::List(list) }),
        Err(e) => Err(Rejection::Custom(e)),
    }
}

/// Begins a create request: the gateway's first step.
pub fn create_note_handler(body: &CreateNoteSchema, db: &DB) -> (begun: (
    CreateState,
    CreateCommand,
))
    ensures
        exists|now: i64|
            (begun.0@, begun.1@) == #[trigger] create_start(
                db.index_confirmed(),
                body@,
                now as int,
            ),
{
    db.create_note(body)
}

/// Ends a create request: what the gateway returned, under the status code
/// 201, or its error as a rejection.
pub fn create_note_reply(created: Result<Option<SingleNoteResponse>, Error>) -> (r: Result<
    HttpReply,
    Rejection,
>)
    ensures
        handled_view(r) == created_reply(lookup_view(created)),
{
    match created {
        Ok(note) => Ok(HttpReply { code: 201, body: Body::Note(note) }),
        Err(e) => Err(Rejection::Custom(e)),
    }
}

/// Begins a request for one note: the gateway's filter, or its error as a
/// rejection.
pub fn get_note_handler(id: &str, db: &DB) -> (r: Result<Document, Rejection>)
    ensures
        selected_view(r) == rejected(lookup_request(id@)),
{
    match db.get_note(id) {
        Ok(filter) => Ok(filter),
        Err(e) => Err(Rejection::Custom(e)),
    }
}

/// Ends a request for one note, or an update: the note under the status
/// code 200, and under 404 the message that no note has the identifier.
pub fn get_note_reply(id: &str, db: &DB, outcome: Result<Option<Document>, StoreFailure>) -> (r:
    Result<HttpReply, Rejection>)
    ensures
        handled_view(r) == note_reply(id@, lookup_outcome(found_view(outcome))),
{
    match db.note_found(outcome) {
        Ok(Some(note)) => Ok(HttpReply { code: 200, body: Body::Note(Some(note)) }),
        Ok(None) => Ok(not_found(id)),
        Err(e) => Err(Rejection::Custom(e)),
    }
}

/// Begins an update request: the gateway's filter and update, or its error
/// as a rejection.
pub fn edit_note_handler(id: &str, body: &UpdateNoteSchema, db: &DB) -> (r: Result<
    UpdateOne,
    Rejection,
>)
    ensures
        exists|now: i64|
            changed_view(r) == rejected(#[trigger] update_request(id@, body@, now as int)),
{
    match db.edit_note(id, body) {
        Ok(u) => Ok(u),
        Err(e) => Err(Rejection::Custom(e)),
    }
}

/// Ends an update request, as [`get_note_reply`] ends a lookup.
pub fn edit_note_reply(id: &str, db: &DB, outcome: Result<Option<Document>, StoreFailure>) -> (r:
    Result<HttpReply, Rejection>)
    ensures
        handled_view(r) == note_reply(id@, lookup_outcome(found_view(outcome))),
{
    get_note_reply(id, db, outcome)
}

/// Begins a removal request: the gateway's filter, or its error as a
/// rejection.
pub fn delete_note_handler(id: &str, db: &DB) -> (r: Result<Document, Rejection>)
    ensures
        selected_view(r) == rejected(lookup_request(id@)),
{
    match db.delete_note(id) {
        Ok(filter) => Ok(filter),
        Err(e) => Err(Rejection::Custom(e)),
    }
}

/// Ends a removal request: an empty body under the status code 204, and
/// under 404 the message that no note has the identifier.
pub fn delete_note_reply(id: &str, db: &DB, outcome: Result<u64, StoreFailure>) -> (r: Result<
    HttpReply,
    Rejection,
>)
    ensures
        handled_view(r) == removed_reply(id@, removal_result(removed_view(outcome))),
{
    match db.note_deleted(outcome) {
        Ok(Some(_)) => Ok(HttpReply { code: 204, body: Body::Empty }),
        Ok(None) => Ok(not_found(id)),
        Err(e) => Err(Rejection::Custom(e)),
    }
}

} // verus!
