//! A model of the collection: what the gateway counts on from the store.
//!
//! The store is not part of this crate, and nothing here holds it to the
//! model. The model says how a collection with a uniqueness index on titles
//! answers the gateway's requests, and composes those answers with the
//! gateway's own decisions into whole operations. The laws of the service
//! are stated over these operations.

use crate::db::{
    create_next, create_start, list_result, lookup_outcome, lookup_request, removal_result,
    unexpected_reply, update_request, CreateCommandView, CreateProgressView, CreateReplyView,
};
use crate::document::{Field, Fields};
use crate::errors::{ErrorView, StoreFailureView, DUPLICATE_KEY};
use crate::model::is_note;
use crate::query::list_request;
use crate::response::{NoteListResponseView, SingleNoteResponseView};
use crate::schema::{CreateNoteView, UpdateNoteView};
use vstd::prelude::*;

verus! {

/// The title under which the uniqueness index files a document. A document
/// without a title is filed under null.
pub open spec fn indexed_title(doc: Fields) -> Field {
    if doc.contains_key("title"@) {
        doc["title"@]
    } else {
        Field::Null
    }
}

/// Whether a document is filed under the identifier `id`.
pub open spec fn has_id(doc: Fields, id: Seq<u8>) -> bool {
    doc.contains_key("_id"@) && doc["_id"@] == Field::Id(id)
}

/// Whether some note of the collection is filed under `title`.
pub open spec fn title_taken(notes: Seq<Fields>, title: Field) -> bool {
    exists|i: int| 0 <= i < notes.len() && indexed_title(#[trigger] notes[i]) == title
}

/// Whether some note of the collection has the identifier `id`.
pub open spec fn id_in_use(notes: Seq<Fields>, id: Seq<u8>) -> bool {
    exists|i: int| 0 <= i < notes.len() && has_id(#[trigger] notes[i], id)
}

/// Whether no two notes of the collection are filed under one title.
pub open spec fn titles_unique(notes: Seq<Fields>) -> bool {
    forall|i: int, j: int|
        0 <= i < notes.len() && 0 <= j < notes.len() && i != j ==> indexed_title(
            #[trigger] notes[i],
        ) != indexed_title(#[trigger] notes[j])
}

/// Whether no two notes of the collection have one identifier.
pub open spec fn ids_unique(notes: Seq<Fields>) -> bool {
    forall|i: int, j: int|
        0 <= i < notes.len() && 0 <= j < notes.len() && i != j ==> (#[trigger] notes[i])["_id"@]
            != (#[trigger] notes[j])["_id"@]
}

/// The invariant of the collection: every document is a note, and neither
/// an identifier nor a title occurs twice.
pub open spec fn well_formed(notes: Seq<Fields>) -> bool {
    &&& forall|i: int| 0 <= i < notes.len() ==> is_note(#[trigger] notes[i])
    &&& ids_unique(notes)
    &&& titles_unique(notes)
}

/// Whether a document passes an equality filter: it holds every field of
/// the filter, with the same value.
pub open spec fn matches_filter(doc: Fields, filter: Fields) -> bool {
    forall|k: Seq<char>| #[trigger] filter.contains_key(k) ==> doc.contains_key(k) && doc[k] == filter[k]
}

/// Whether the note at `i` is the first that passes the filter.
pub open spec fn is_first_match(notes: Seq<Fields>, filter: Fields, i: int) -> bool {
    &&& 0 <= i < notes.len()
    &&& matches_filter(notes[i], filter)
    &&& forall|j: int| 0 <= j < i ==> !matches_filter(#[trigger] notes[j], filter)
}

/// Whether some note passes the filter.
pub open spec fn has_match(notes: Seq<Fields>, filter: Fields) -> bool {
    exists|i: int| is_first_match(notes, filter, i)
}

/// The place of the first note that passes the filter.
pub open spec fn first_match(notes: Seq<Fields>, filter: Fields) -> int {
    choose|i: int| is_first_match(notes, filter, i)
}

/// The store's answer to a lookup: the first note that passes the filter.
pub open spec fn find_one(notes: Seq<Fields>, filter: Fields) -> Option<Fields> {
    if has_match(notes, filter) {
        Some(notes[first_match(notes, filter)])
    } else {
        None
    }
}

/// The failure with which the store reports a violated uniqueness
/// constraint, in the store's own words.
pub open spec fn duplicate_key(detail: Seq<char>) -> StoreFailureView {
    StoreFailureView { code: Some(DUPLICATE_KEY), detail }
}

/// The document as the store files it: under the identifier it assigns.
pub open spec fn filed(doc: Fields, id: Seq<u8>) -> Fields {
    doc.insert("_id"@, Field::Id(id))
}

/// The store's answer to a request of a creation, and the collection after
/// it. `id` is the identifier the store assigns to what it inserts, `detail`
/// the words in which it reports a failure.
///
/// The index can be built where no title occurs twice. An insert under a
/// title that is taken violates the index; any other insert files the
/// document at the end of the collection.
pub open spec fn answer(notes: Seq<Fields>, command: CreateCommandView, id: Seq<u8>, detail: Seq<char>) -> (
    Seq<Fields>,
    CreateReplyView,
) {
    match command {
        CreateCommandView::EnsureIndex { keys, unique } => if titles_unique(notes) {
            (notes, CreateReplyView::IndexReady)
        } else {
            (notes, CreateReplyView::Failed(duplicate_key(detail)))
        },
        CreateCommandView::InsertOne(doc) => if title_taken(notes, indexed_title(doc)) {
            (notes, CreateReplyView::Failed(duplicate_key(detail)))
        } else {
            (notes.push(filed(doc, id)), CreateReplyView::Inserted(Some(id)))
        },
        CreateCommandView::FindOne(filter) => (notes, CreateReplyView::Found(find_one(notes, filter))),
    }
}

/// A creation carried to its end: each request answered by the store, each
/// answer handed to the gateway, for `rounds` round trips at most.
pub open spec fn settle(
    notes: Seq<Fields>,
    progress: CreateProgressView,
    id: Seq<u8>,
    detail: Seq<char>,
    rounds: nat,
) -> (Seq<Fields>, Result<Option<SingleNoteResponseView>, ErrorView>)
    decreases rounds,
{
    match progress {
        CreateProgressView::Done(r) => (notes, r),
        CreateProgressView::Next(state, command) => if rounds == 0 {
            (notes, Err(unexpected_reply()))
        } else {
            let (after, reply) = answer(notes, command, id, detail);
            settle(after, create_next(state, reply), id, detail, (rounds - 1) as nat)
        },
    }
}

/// The creation of a note against the collection: the collection after it,
/// and what the caller gets. A creation takes three round trips at most.
pub open spec fn run_create(
    notes: Seq<Fields>,
    confirmed: bool,
    body: CreateNoteView,
    now: int,
    id: Seq<u8>,
    detail: Seq<char>,
) -> (Seq<Fields>, Result<Option<SingleNoteResponseView>, ErrorView>) {
    let (state, command) = create_start(confirmed, body, now);
    settle(notes, CreateProgressView::Next(state, command), id, detail, 3)
}

/// A lookup against the collection.
pub open spec fn run_get(notes: Seq<Fields>, id: Seq<char>) -> Result<
    Option<SingleNoteResponseView>,
    ErrorView,
> {
    match lookup_request(id) {
        Ok(filter) => lookup_outcome(Ok(find_one(notes, filter))),
        Err(e) => Err(e),
    }
}

/// A note after a merge update: the fields under `$set` laid over it.
pub open spec fn merged(doc: Fields, update: Fields) -> Fields {
    if update.contains_key("$set"@) {
        match update["$set"@] {
            Field::Doc(fields) => doc.union_prefer_right(fields),
            _ => doc,
        }
    } else {
        doc
    }
}

/// Whether a note other than the one at `i` is filed under `title`.
pub open spec fn title_taken_elsewhere(notes: Seq<Fields>, i: int, title: Field) -> bool {
    exists|j: int| 0 <= j < notes.len() && j != i && indexed_title(#[trigger] notes[j]) == title
}

/// The store's answer to a find-and-update, and the collection after it:
/// the first note that passes the filter, as it is after the update. An
/// update that would file the note under a title that another note has
/// violates the index and changes nothing.
pub open spec fn answer_update(notes: Seq<Fields>, filter: Fields, update: Fields, detail: Seq<char>) -> (
    Seq<Fields>,
    Result<Option<Fields>, StoreFailureView>,
) {
    if has_match(notes, filter) {
        let i = first_match(notes, filter);
        let changed = merged(notes[i], update);
        if title_taken_elsewhere(notes, i, indexed_title(changed)) {
            (notes, Err(duplicate_key(detail)))
        } else {
            (notes.update(i, changed), Ok(Some(changed)))
        }
    } else {
        (notes, Ok(None))
    }
}

/// An update against the collection at the instant `now`.
pub open spec fn run_update(
    notes: Seq<Fields>,
    id: Seq<char>,
    body: UpdateNoteView,
    now: int,
    detail: Seq<char>,
) -> (Seq<Fields>, Result<Option<SingleNoteResponseView>, ErrorView>) {
    match update_request(id, body, now) {
        Ok(u) => {
            let (after, outcome) = answer_update(notes, u.filter, u.update, detail);
            (after, lookup_outcome(outcome))
        },
        Err(e) => (notes, Err(e)),
    }
}

/// The store's answer to a removal, and the collection after it: the first
/// note that passes the filter is gone, and counted.
pub open spec fn answer_delete(notes: Seq<Fields>, filter: Fields) -> (Seq<Fields>, int) {
    if has_match(notes, filter) {
        (notes.remove(first_match(notes, filter)), 1)
    } else {
        (notes, 0)
    }
}

/// A removal against the collection: the collection after it, and whether a
/// note was removed.
pub open spec fn run_delete(notes: Seq<Fields>, id: Seq<char>) -> (Seq<Fields>, Result<bool, ErrorView>) {
    match lookup_request(id) {
        Ok(filter) => {
            let (after, count) = answer_delete(notes, filter);
            (after, removal_result(Ok(count)))
        },
        Err(e) => (notes, Err(e)),
    }
}

/// How many notes a page holds: what is left of the collection after the
/// skipped notes, but `limit` at most.
pub open spec fn page_len(total: int, skip: int, limit: int) -> int {
    if skip >= total {
        0
    } else if total - skip < limit {
        total - skip
    } else {
        limit
    }
}

/// The store's answer to a find without conditions: the notes in the
/// store's order, `skip` of them passed over, `limit` of them at most.
pub open spec fn answer_find(notes: Seq<Fields>, skip: int, limit: int) -> Seq<Fields> {
    let len = page_len(notes.len() as int, skip, limit);
    Seq::new(len as nat, |k: int| notes[skip + k])
}

/// A list against the collection.
pub open spec fn run_list(notes: Seq<Fields>, page: int, limit: int) -> Result<
    NoteListResponseView,
    ErrorView,
> {
    match list_request(page, limit) {
        Ok(w) => list_result(Ok(answer_find(notes, w.skip, w.limit))),
        Err(e) => Err(e),
    }
}

} // verus!
