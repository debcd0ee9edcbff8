//! Laws of the service, proved over the gateway's decisions and the model
//! of the collection.

use crate::db::{
    all_notes, create_next, create_start, ensure_index, list_result, lookup_result, page_of,
    single_response, stamped_fields, touched_fields, CreateCommandView, CreateProgressView,
    CreateReplyView, CreateStateView,
};
use crate::document::{no_fields, Field, Fields};
use crate::errors::{insert_error, ErrorView, StoreFailureView};
use crate::mapper::{
    category_or_default, published_or_default, response_of, update_fields, with_flag, with_text,
};
use crate::model::{is_note, note_of, NoteModelView};
use crate::oid::{bytes_of_hex, hex_of_bytes, is_object_id_text, lemma_hex_round_trip};
use crate::query::{id_filter, set_update, valid_page};
use crate::response::{NoteListResponseView, SingleNoteResponseView};
use crate::schema::{CreateNoteView, UpdateNoteView};
use crate::store::{
    answer, answer_find, answer_update, duplicate_key, filed, find_one, first_match, has_id,
    has_match, id_in_use, ids_unique, indexed_title, is_first_match, matches_filter, merged,
    page_len, run_create, run_delete, run_get, run_list, run_update, settle, title_taken,
    title_taken_elsewhere, well_formed,
};
use vstd::prelude::*;

verus! {

/// The names of the fields of a note, and the update operator, are pairwise
/// different.
pub proof fn lemma_field_names()
    ensures
        "_id"@ != "title"@,
        "_id"@ != "content"@,
        "_id"@ != "category"@,
        "_id"@ != "published"@,
        "_id"@ != "createdAt"@,
        "_id"@ != "updatedAt"@,
        "title"@ != "content"@,
        "title"@ != "category"@,
        "title"@ != "published"@,
        "title"@ != "createdAt"@,
        "title"@ != "updatedAt"@,
        "content"@ != "category"@,
        "content"@ != "published"@,
        "content"@ != "createdAt"@,
        "content"@ != "updatedAt"@,
        "category"@ != "published"@,
        "category"@ != "createdAt"@,
        "category"@ != "updatedAt"@,
        "published"@ != "createdAt"@,
        "published"@ != "updatedAt"@,
        "createdAt"@ != "updatedAt"@,
{
    reveal_strlit("_id");
    reveal_strlit("title");
    reveal_strlit("content");
    reveal_strlit("category");
    reveal_strlit("published");
    reveal_strlit("createdAt");
    reveal_strlit("updatedAt");
    assert("_id"@.len() == 3);
    assert("title"@.len() == 5);
    assert("content"@.len() == 7);
    assert("category"@.len() == 8);
    assert("published"@.len() == 9);
    assert("createdAt"@.len() == 9);
    assert("updatedAt"@.len() == 9);
    assert("published"@[0] != "createdAt"@[0]);
    assert("published"@[0] != "updatedAt"@[0]);
    assert("createdAt"@[0] != "updatedAt"@[0]);
}

/// A note as the gateway stamps it and the store files it.
pub open spec fn new_note(body: CreateNoteView, now: int, id: Seq<u8>) -> NoteModelView {
    NoteModelView {
        id,
        title: body.title,
        content: body.content,
        category: Some(category_or_default(body.category)),
        published: Some(published_or_default(body.published)),
        createdAt: now,
        updatedAt: now,
    }
}

/// What the gateway inserts is, once filed, a note with the request's
/// fields, the defaults filled in and both timestamps at the instant of the
/// request.
pub proof fn lemma_stamped_note(body: CreateNoteView, now: int, id: Seq<u8>)
    ensures
        is_note(filed(stamped_fields(body, now), id)),
        note_of(filed(stamped_fields(body, now), id)) == new_note(body, now, id),
        indexed_title(stamped_fields(body, now)) == Field::Text(body.title),
        indexed_title(filed(stamped_fields(body, now), id)) == Field::Text(body.title),
        has_id(filed(stamped_fields(body, now), id), id),
{
    lemma_field_names();
}

/// A document passes the filter on an identifier exactly if it is filed
/// under that identifier.
pub proof fn lemma_id_filter(doc: Fields, id: Seq<u8>)
    ensures
        matches_filter(doc, id_filter(id)) <==> has_id(doc, id),
{
    let filter = id_filter(id);
    assert(filter.contains_key("_id"@));
    if has_id(doc, id) {
        assert forall|k: Seq<char>| #[trigger] filter.contains_key(k) implies doc.contains_key(k)
            && doc[k] == filter[k] by {
            assert(k == "_id"@);
        }
    }
}

/// The first match of a filter is the one place that is a first match.
pub proof fn lemma_first_match(notes: Seq<Fields>, filter: Fields, i: int)
    requires
        is_first_match(notes, filter, i),
    ensures
        has_match(notes, filter),
        first_match(notes, filter) == i,
        find_one(notes, filter) == Some(notes[i]),
{
    let c = first_match(notes, filter);
    assert(is_first_match(notes, filter, c));
    if c < i {
        assert(!matches_filter(notes[c], filter));
    }
    if i < c {
        assert(!matches_filter(notes[i], filter));
    }
}

/// Where no note passes a filter, the store finds none.
pub proof fn lemma_no_match(notes: Seq<Fields>, filter: Fields)
    requires
        forall|i: int| 0 <= i < notes.len() ==> !matches_filter(#[trigger] notes[i], filter),
    ensures
        !has_match(notes, filter),
        find_one(notes, filter) is None,
{
    if has_match(notes, filter) {
        let c = first_match(notes, filter);
        assert(is_first_match(notes, filter, c));
        assert(!matches_filter(notes[c], filter));
    }
}

/// In a collection without repeated identifiers, the note with a given
/// identifier is the first match of the filter on it.
pub proof fn lemma_find_by_id(notes: Seq<Fields>, id: Seq<u8>, i: int)
    requires
        ids_unique(notes),
        0 <= i < notes.len(),
        has_id(notes[i], id),
    ensures
        is_first_match(notes, id_filter(id), i),
        first_match(notes, id_filter(id)) == i,
        find_one(notes, id_filter(id)) == Some(notes[i]),
{
    let filter = id_filter(id);
    lemma_id_filter(notes[i], id);
    assert forall|j: int| 0 <= j < i implies !matches_filter(#[trigger] notes[j], filter) by {
        lemma_id_filter(notes[j], id);
        if has_id(notes[j], id) {
            assert(notes[i]["_id"@] == notes[j]["_id"@]);
        }
    }
    lemma_first_match(notes, filter, i);
}

/// Where no note has an identifier, the filter on it finds none.
pub proof fn lemma_find_absent(notes: Seq<Fields>, id: Seq<u8>)
    requires
        !id_in_use(notes, id),
    ensures
        !has_match(notes, id_filter(id)),
        find_one(notes, id_filter(id)) is None,
{
    assert forall|i: int| 0 <= i < notes.len() implies !matches_filter(
        #[trigger] notes[i],
        id_filter(id),
    ) by {
        lemma_id_filter(notes[i], id);
    }
    lemma_no_match(notes, id_filter(id));
}

/// Filing a note under a fresh identifier and a free title keeps the
/// collection well formed.
pub proof fn lemma_push_well_formed(notes: Seq<Fields>, doc: Fields, id: Seq<u8>)
    requires
        well_formed(notes),
        is_note(doc),
        has_id(doc, id),
        !id_in_use(notes, id),
        !title_taken(notes, indexed_title(doc)),
    ensures
        well_formed(notes.push(doc)),
{
    let after = notes.push(doc);
    let n = notes.len() as int;
    assert forall|i: int| 0 <= i < after.len() implies is_note(#[trigger] after[i]) by {
        if i < n {
            assert(after[i] == notes[i]);
        }
    }
    assert forall|i: int, j: int| 0 <= i < after.len() && 0 <= j < after.len() && i != j implies (
    #[trigger] after[i])["_id"@] != (#[trigger] after[j])["_id"@] by {
        if i < n && j < n {
            assert(after[i] == notes[i] && after[j] == notes[j]);
        } else if i < n {
            assert(after[i] == notes[i]);
            assert(is_note(notes[i]));
            assert(!has_id(notes[i], id));
        } else {
            assert(after[j] == notes[j]);
            assert(is_note(notes[j]));
            assert(!has_id(notes[j], id));
        }
    }
    assert forall|i: int, j: int| 0 <= i < after.len() && 0 <= j < after.len() && i != j implies indexed_title(
        #[trigger] after[i],
    ) != indexed_title(#[trigger] after[j]) by {
        if i < n && j < n {
            assert(after[i] == notes[i] && after[j] == notes[j]);
        } else if i < n {
            assert(after[i] == notes[i]);
        } else {
            assert(after[j] == notes[j]);
        }
    }
}

/// What the creation of a note returns where it succeeds.
pub open spec fn created(body: CreateNoteView, now: int, id: Seq<u8>) -> SingleNoteResponseView {
    single_response(response_of(new_note(body, now, id)))
}

/// A create request with a title that no note has succeeds, whether or not
/// the index was confirmed before. The note is filed at the end of the
/// collection, which stays well formed. The note returned has the
/// identifier the store assigned, twenty-four digits long; its creation and
/// update times are the instant of the request; its category is empty and
/// it is unpublished where the request left those out.
pub proof fn law_create_fresh(
    notes: Seq<Fields>,
    confirmed: bool,
    body: CreateNoteView,
    now: int,
    id: Seq<u8>,
    detail: Seq<char>,
)
    requires
        well_formed(notes),
        id.len() == 12,
        !id_in_use(notes, id),
        !title_taken(notes, Field::Text(body.title)),
    ensures
        run_create(notes, confirmed, body, now, id, detail) == (
            notes.push(filed(stamped_fields(body, now), id)),
            Ok::<Option<SingleNoteResponseView>, ErrorView>(Some(created(body, now, id))),
        ),
        well_formed(notes.push(filed(stamped_fields(body, now), id))),
        created(body, now, id).note.id.len() == 24,
        created(body, now, id).note.id == hex_of_bytes(id),
        created(body, now, id).note.title == body.title,
        created(body, now, id).note.content == body.content,
        created(body, now, id).note.createdAt == now,
        created(body, now, id).note.updatedAt == now,
        body.category is None ==> created(body, now, id).note.category == Seq::<char>::empty(),
        body.category matches Some(c) ==> created(body, now, id).note.category == c,
        body.published is None ==> !created(body, now, id).note.published,
        body.published matches Some(p) ==> created(body, now, id).note.published == p,
{
    let doc = stamped_fields(body, now);
    let note = filed(doc, id);
    let after = notes.push(note);
    lemma_stamped_note(body, now, id);
    lemma_push_well_formed(notes, note, id);
    reveal_with_fuel(settle, 4);
    let insert = CreateCommandView::InsertOne(doc);
    assert(answer(notes, ensure_index(), id, detail) == (notes, CreateReplyView::IndexReady));
    assert(answer(notes, insert, id, detail) == (after, CreateReplyView::Inserted(Some(id))));
    assert(after[notes.len() as int] == note);
    lemma_find_by_id(after, id, notes.len() as int);
    let find = CreateCommandView::FindOne(id_filter(id));
    assert(answer(after, find, id, detail) == (after, CreateReplyView::Found(Some(note))));
    assert(lookup_result(Some(note)) == Ok::<Option<SingleNoteResponseView>, ErrorView>(
        Some(created(body, now, id)),
    ));
}

/// Whether exactly one note of the collection is filed under `title`.
pub open spec fn exactly_one_titled(notes: Seq<Fields>, title: Field) -> bool {
    exists|i: int|
        {
            &&& 0 <= i < notes.len()
            &&& indexed_title(#[trigger] notes[i]) == title
            &&& forall|j: int|
                0 <= j < notes.len() && indexed_title(#[trigger] notes[j]) == title ==> j == i
        }
}

/// A create request with a title that a note already has fails as a
/// duplicate, with the store's words, and leaves the collection as it was.
pub proof fn law_create_duplicate(
    notes: Seq<Fields>,
    confirmed: bool,
    body: CreateNoteView,
    now: int,
    id: Seq<u8>,
    detail: Seq<char>,
)
    requires
        well_formed(notes),
        title_taken(notes, Field::Text(body.title)),
    ensures
        run_create(notes, confirmed, body, now, id, detail) == (
            notes,
            Err::<Option<SingleNoteResponseView>, ErrorView>(ErrorView::MongoDuplicateError(detail)),
        ),
{
    let doc = stamped_fields(body, now);
    lemma_stamped_note(body, now, id);
    reveal_with_fuel(settle, 4);
    let insert = CreateCommandView::InsertOne(doc);
    assert(answer(notes, ensure_index(), id, detail) == (notes, CreateReplyView::IndexReady));
    assert(answer(notes, insert, id, detail) == (
        notes,
        CreateReplyView::Failed(duplicate_key(detail)),
    ));
    assert(insert_error(duplicate_key(detail)) == ErrorView::MongoDuplicateError(detail));
}

/// Of two create requests with one title, the first succeeds where the
/// title was free, and the second fails as a duplicate. The collection then
/// holds exactly one note with that title.
pub proof fn law_create_twice(
    notes: Seq<Fields>,
    confirmed: bool,
    first: CreateNoteView,
    second: CreateNoteView,
    now: int,
    later: int,
    id: Seq<u8>,
    other_id: Seq<u8>,
    detail: Seq<char>,
)
    requires
        well_formed(notes),
        id.len() == 12,
        !id_in_use(notes, id),
        !title_taken(notes, Field::Text(first.title)),
        second.title == first.title,
    ensures
        ({
            let (after, outcome) = run_create(notes, confirmed, first, now, id, detail);
            &&& outcome == Ok::<Option<SingleNoteResponseView>, ErrorView>(
                Some(created(first, now, id)),
            )
            &&& forall|again: bool|
                #[trigger] run_create(after, again, second, later, other_id, detail) == (
                    after,
                    Err::<Option<SingleNoteResponseView>, ErrorView>(
                        ErrorView::MongoDuplicateError(detail),
                    ),
                )
            &&& exactly_one_titled(after, Field::Text(first.title))
        }),
{
    law_create_fresh(notes, confirmed, first, now, id, detail);
    lemma_stamped_note(first, now, id);
    let after = notes.push(filed(stamped_fields(first, now), id));
    let last = notes.len() as int;
    assert(indexed_title(after[last]) == Field::Text(first.title));
    assert forall|j: int|
        0 <= j < after.len() && indexed_title(#[trigger] after[j]) == Field::Text(
            first.title,
        ) implies j == last by {
        if j < last {
            assert(after[j] == notes[j]);
        }
    }
    assert forall|again: bool|
        #[trigger] run_create(after, again, second, later, other_id, detail) == (
            after,
            Err::<Option<SingleNoteResponseView>, ErrorView>(ErrorView::MongoDuplicateError(detail)),
        ) by {
        law_create_duplicate(after, again, second, later, other_id, detail);
    }
}

/// A lookup by the identifier that a creation returned gives the note that
/// the creation returned.
pub proof fn law_get_after_create(
    notes: Seq<Fields>,
    confirmed: bool,
    body: CreateNoteView,
    now: int,
    id: Seq<u8>,
    detail: Seq<char>,
)
    requires
        well_formed(notes),
        id.len() == 12,
        !id_in_use(notes, id),
        !title_taken(notes, Field::Text(body.title)),
    ensures
        ({
            let (after, outcome) = run_create(notes, confirmed, body, now, id, detail);
            &&& outcome matches Ok(Some(note))
            &&& run_get(after, note.note.id) == outcome
        }),
{
    law_create_fresh(notes, confirmed, body, now, id, detail);
    lemma_stamped_note(body, now, id);
    lemma_hex_round_trip(id);
    let note = filed(stamped_fields(body, now), id);
    let after = notes.push(note);
    assert(after[notes.len() as int] == note);
    lemma_find_by_id(after, id, notes.len() as int);
}

/// A lookup, an update and a removal under a string that is no identifier
/// fail with that string as an invalid identifier, whatever the collection
/// holds, and leave it as it was.
pub proof fn law_malformed_identifier(
    notes: Seq<Fields>,
    id: Seq<char>,
    body: UpdateNoteView,
    now: int,
    detail: Seq<char>,
)
    requires
        !is_object_id_text(id),
    ensures
        run_get(notes, id) == Err::<Option<SingleNoteResponseView>, ErrorView>(
            ErrorView::InvalidIDError(id),
        ),
        run_update(notes, id, body, now, detail) == (
            notes,
            Err::<Option<SingleNoteResponseView>, ErrorView>(ErrorView::InvalidIDError(id)),
        ),
        run_delete(notes, id) == (notes, Err::<bool, ErrorView>(ErrorView::InvalidIDError(id))),
{
}

/// Where some note passes a filter, there is a first that does.
pub proof fn lemma_match_has_first(notes: Seq<Fields>, filter: Fields, i: int)
    requires
        0 <= i < notes.len(),
        matches_filter(notes[i], filter),
    ensures
        has_match(notes, filter),
    decreases i,
{
    if exists|j: int| 0 <= j < i && matches_filter(#[trigger] notes[j], filter) {
        let j = choose|j: int| 0 <= j < i && matches_filter(#[trigger] notes[j], filter);
        lemma_match_has_first(notes, filter, j);
    } else {
        assert(is_first_match(notes, filter, i));
    }
}

/// A removal under an identifier that no note has removes nothing and says
/// so.
pub proof fn law_delete_absent(notes: Seq<Fields>, id: Seq<char>)
    requires
        is_object_id_text(id),
        !id_in_use(notes, bytes_of_hex(id)),
    ensures
        run_delete(notes, id) == (notes, Ok::<bool, ErrorView>(false)),
{
    lemma_find_absent(notes, bytes_of_hex(id));
}

/// A removal removes one note, the one with the identifier, where there is
/// one. A second removal under the same identifier finds none.
pub proof fn law_delete_twice(notes: Seq<Fields>, id: Seq<char>)
    requires
        ids_unique(notes),
        is_object_id_text(id),
    ensures
        ({
            let (after, outcome) = run_delete(notes, id);
            &&& outcome == Ok::<bool, ErrorView>(id_in_use(notes, bytes_of_hex(id)))
            &&& after.len() == notes.len() - (if id_in_use(notes, bytes_of_hex(id)) {
                1int
            } else {
                0int
            })
            &&& !id_in_use(after, bytes_of_hex(id))
            &&& run_delete(after, id) == (after, Ok::<bool, ErrorView>(false))
        }),
{
    let key = bytes_of_hex(id);
    let filter = id_filter(key);
    if has_match(notes, filter) {
        let i = first_match(notes, filter);
        assert(is_first_match(notes, filter, i));
        lemma_id_filter(notes[i], key);
        assert(has_id(notes[i], key));
        let after = notes.remove(i);
        assert forall|j: int| 0 <= j < after.len() implies !has_id(#[trigger] after[j], key) by {
            let source = if j < i {
                j
            } else {
                j + 1
            };
            assert(after[j] == notes[source]);
            if has_id(notes[source], key) {
                assert(notes[source]["_id"@] == notes[i]["_id"@]);
            }
        }
        lemma_find_absent(after, key);
    } else {
        if id_in_use(notes, key) {
            let j = choose|j: int| 0 <= j < notes.len() && has_id(#[trigger] notes[j], key);
            lemma_id_filter(notes[j], key);
            lemma_match_has_first(notes, filter, j);
        }
    }
}

/// A list of a valid page never fails over well-formed notes. It returns
/// the notes of the window in the store's order: as many as are left after
/// the earlier pages, but no more than the page size, and none, without an
/// error, for a page beyond the end.
pub proof fn law_list_window(notes: Seq<Fields>, page: int, limit: int)
    requires
        all_notes(notes),
        valid_page(page, limit),
    ensures
        run_list(notes, page, limit) matches Ok(list) && {
            &&& list.status == "success"@
            &&& list.results == page_len(notes.len() as int, (page - 1) * limit, limit)
            &&& list.notes.len() == list.results
            &&& list.results <= limit
            &&& (page - 1) * limit >= notes.len() ==> list.results == 0
            &&& forall|k: int|
                0 <= k < list.results ==> #[trigger] list.notes[k] == response_of(
                    note_of(notes[(page - 1) * limit + k]),
                )
        },
{
    let skip = (page - 1) * limit;
    assert(skip >= 0) by (nonlinear_arith)
        requires
            page >= 1,
            limit >= 1,
            skip == (page - 1) * limit,
    ;
    let window = answer_find(notes, skip, limit);
    assert forall|k: int| 0 <= k < window.len() implies is_note(#[trigger] window[k]) by {
        assert(window[k] == notes[skip + k]);
    }
    assert(all_notes(window));
    assert(list_result(Ok(window)) == Ok::<NoteListResponseView, ErrorView>(page_of(window)));
}

/// A note after an update: what the request states replaces what the note
/// held, the update time is the instant of the update, and identifier and
/// creation time stay.
pub open spec fn updated_note(old: NoteModelView, body: UpdateNoteView, now: int) -> NoteModelView {
    NoteModelView {
        id: old.id,
        title: match body.title {
            Some(t) => t,
            None => old.title,
        },
        content: match body.content {
            Some(c) => c,
            None => old.content,
        },
        category: match body.category {
            Some(c) => Some(c),
            None => old.category,
        },
        published: match body.published {
            Some(p) => Some(p),
            None => old.published,
        },
        createdAt: old.createdAt,
        updatedAt: now,
    }
}

/// Laying an update over a note gives a note again: [`updated_note`].
pub proof fn lemma_merged_note(doc: Fields, body: UpdateNoteView, now: int)
    requires
        is_note(doc),
    ensures
        is_note(merged(doc, set_update(touched_fields(body, now)))),
        note_of(merged(doc, set_update(touched_fields(body, now)))) == updated_note(
            note_of(doc),
            body,
            now,
        ),
        merged(doc, set_update(touched_fields(body, now)))["_id"@] == doc["_id"@],
        indexed_title(merged(doc, set_update(touched_fields(body, now)))) == (match body.title {
            Some(t) => Field::Text(t),
            None => indexed_title(doc),
        }),
{
    lemma_field_names();
    reveal_strlit("$set");
    let fields = touched_fields(body, now);
    let update = set_update(fields);
    assert(update.contains_key("$set"@));
    assert(update["$set"@] == Field::Doc(fields));
    let changed = merged(doc, update);
    assert(changed == doc.union_prefer_right(fields));
    let t1 = with_text(no_fields(), "title"@, body.title);
    let t2 = with_text(t1, "content"@, body.content);
    let t3 = with_text(t2, "category"@, body.category);
    let t4 = with_flag(t3, "published"@, body.published);
    assert(update_fields(body) == t4);
    assert(!fields.contains_key("_id"@));
    assert(!fields.contains_key("createdAt"@));
    assert(fields.contains_key("title"@) <==> body.title is Some);
    assert(fields.contains_key("content"@) <==> body.content is Some);
    assert(fields.contains_key("category"@) <==> body.category is Some);
    assert(fields.contains_key("published"@) <==> body.published is Some);
    assert(fields["updatedAt"@] == Field::Time(now));
}

/// An update of a note that exists, under a title that no other note has,
/// succeeds. It returns the note as it then is, and a lookup by the same
/// identifier returns the same: the fields the request states are
/// replaced, the others stay, the identifier and the creation time stay,
/// and the update time is the instant of the update. The collection keeps
/// its size and stays well formed.
pub proof fn law_update(
    notes: Seq<Fields>,
    id: Seq<char>,
    i: int,
    body: UpdateNoteView,
    now: int,
    detail: Seq<char>,
)
    requires
        well_formed(notes),
        is_object_id_text(id),
        0 <= i < notes.len(),
        has_id(notes[i], bytes_of_hex(id)),
        body.title matches Some(t) ==> !title_taken_elsewhere(notes, i, Field::Text(t)),
    ensures
        ({
            let (after, outcome) = run_update(notes, id, body, now, detail);
            let note = updated_note(note_of(notes[i]), body, now);
            &&& outcome == Ok::<Option<SingleNoteResponseView>, ErrorView>(
                Some(single_response(response_of(note))),
            )
            &&& run_get(after, id) == outcome
            &&& after == notes.update(i, merged(notes[i], set_update(touched_fields(body, now))))
            &&& note_of(after[i]) == note
            &&& well_formed(after)
        }),
{
    let key = bytes_of_hex(id);
    let filter = id_filter(key);
    let update = set_update(touched_fields(body, now));
    lemma_find_by_id(notes, key, i);
    lemma_merged_note(notes[i], body, now);
    let changed = merged(notes[i], update);
    assert(is_note(notes[i]));
    if title_taken_elsewhere(notes, i, indexed_title(changed)) {
        let j = choose|j: int|
            0 <= j < notes.len() && j != i && indexed_title(#[trigger] notes[j]) == indexed_title(
                changed,
            );
        assert(indexed_title(notes[j]) != indexed_title(notes[i]));
        assert(false);
    }
    let after = notes.update(i, changed);
    assert(answer_update(notes, filter, update, detail) == (
        after,
        Ok::<Option<Fields>, StoreFailureView>(Some(changed)),
    ));
    assert forall|j: int| 0 <= j < after.len() implies is_note(#[trigger] after[j]) by {
        if j != i {
            assert(after[j] == notes[j]);
        }
    }
    assert forall|j: int, k: int| 0 <= j < after.len() && 0 <= k < after.len() && j != k implies (
    #[trigger] after[j])["_id"@] != (#[trigger] after[k])["_id"@] by {
        assert(after[j]["_id"@] == notes[j]["_id"@]);
        assert(after[k]["_id"@] == notes[k]["_id"@]);
    }
    assert forall|j: int, k: int| 0 <= j < after.len() && 0 <= k < after.len() && j != k implies indexed_title(
        #[trigger] after[j],
    ) != indexed_title(#[trigger] after[k]) by {
        if j != i && k != i {
            assert(after[j] == notes[j] && after[k] == notes[k]);
        } else if j == i {
            assert(after[k] == notes[k]);
            assert(indexed_title(notes[k]) != indexed_title(changed));
        } else {
            assert(after[j] == notes[j]);
            assert(indexed_title(notes[j]) != indexed_title(changed));
        }
    }
    assert(has_id(after[i], key));
    lemma_find_by_id(after, key, i);
}

/// An update can be sent again: with the same request at the same instant
/// it returns the same note and leaves the collection as the first one did.
pub proof fn law_update_again(
    notes: Seq<Fields>,
    id: Seq<char>,
    i: int,
    body: UpdateNoteView,
    now: int,
    detail: Seq<char>,
)
    requires
        well_formed(notes),
        is_object_id_text(id),
        0 <= i < notes.len(),
        has_id(notes[i], bytes_of_hex(id)),
        body.title matches Some(t) ==> !title_taken_elsewhere(notes, i, Field::Text(t)),
    ensures
        ({
            let (after, outcome) = run_update(notes, id, body, now, detail);
            run_update(after, id, body, now, detail) == (after, outcome)
        }),
{
    let update = set_update(touched_fields(body, now));
    law_update(notes, id, i, body, now, detail);
    let after = run_update(notes, id, body, now, detail).0;
    lemma_merged_note(notes[i], body, now);
    assert(has_id(after[i], bytes_of_hex(id)));
    if body.title is Some {
        let title = Field::Text(body.title->0);
        if title_taken_elsewhere(after, i, title) {
            let j = choose|j: int|
                0 <= j < after.len() && j != i && indexed_title(#[trigger] after[j]) == title;
            assert(after[j] == notes[j]);
            assert(false);
        }
    }
    law_update(after, id, i, body, now, detail);
    reveal_strlit("$set");
    assert(merged(after[i], update) =~= after[i]);
    assert(run_update(after, id, body, now, detail).0 =~= after);
}

/// An update that states only a title: afterwards a lookup shows the new
/// title, the content, the category, the publication state and the
/// creation time as they were, and the instant of the update as update
/// time, later than the one before where the clock has moved on since.
pub proof fn law_update_title(
    notes: Seq<Fields>,
    id: Seq<char>,
    i: int,
    title: Seq<char>,
    now: int,
    detail: Seq<char>,
)
    requires
        well_formed(notes),
        is_object_id_text(id),
        0 <= i < notes.len(),
        has_id(notes[i], bytes_of_hex(id)),
        !title_taken_elsewhere(notes, i, Field::Text(title)),
    ensures
        ({
            let body = UpdateNoteView {
                title: Some(title),
                content: None,
                category: None,
                published: None,
            };
            let before = response_of(note_of(notes[i]));
            let (after, outcome) = run_update(notes, id, body, now, detail);
            &&& outcome is Ok
            &&& run_get(after, id) matches Ok(Some(seen)) && {
                &&& seen.note.title == title
                &&& seen.note.id == before.id
                &&& seen.note.content == before.content
                &&& seen.note.category == before.category
                &&& seen.note.published == before.published
                &&& seen.note.createdAt == before.createdAt
                &&& seen.note.updatedAt == now
                &&& now > before.updatedAt ==> seen.note.updatedAt > before.updatedAt
            }
        }),
{
    let body = UpdateNoteView { title: Some(title), content: None, category: None, published: None };
    law_update(notes, id, i, body, now, detail);
}

/// An update that states nothing succeeds on a note that exists. It leaves
/// title, content, category and publication state as they were, and still
/// sets the update time to the instant of the update.
pub proof fn law_empty_update(notes: Seq<Fields>, id: Seq<char>, i: int, now: int, detail: Seq<char>)
    requires
        well_formed(notes),
        is_object_id_text(id),
        0 <= i < notes.len(),
        has_id(notes[i], bytes_of_hex(id)),
    ensures
        ({
            let body = UpdateNoteView { title: None, content: None, category: None, published: None };
            let before = response_of(note_of(notes[i]));
            let (after, outcome) = run_update(notes, id, body, now, detail);
            &&& outcome matches Ok(Some(seen))
            &&& run_get(after, id) == outcome
            &&& seen.note.id == before.id
            &&& seen.note.title == before.title
            &&& seen.note.content == before.content
            &&& seen.note.category == before.category
            &&& seen.note.published == before.published
            &&& seen.note.createdAt == before.createdAt
            &&& seen.note.updatedAt == now
            &&& now > before.updatedAt ==> seen.note.updatedAt > before.updatedAt
        }),
{
    let body = UpdateNoteView { title: None, content: None, category: None, published: None };
    law_update(notes, id, i, body, now, detail);
}

/// An update under an identifier that no note has changes nothing and
/// returns "no such note".
pub proof fn law_update_absent(
    notes: Seq<Fields>,
    id: Seq<char>,
    body: UpdateNoteView,
    now: int,
    detail: Seq<char>,
)
    requires
        is_object_id_text(id),
        !id_in_use(notes, bytes_of_hex(id)),
    ensures
        run_update(notes, id, body, now, detail) == (
            notes,
            Ok::<Option<SingleNoteResponseView>, ErrorView>(None),
        ),
        run_get(notes, id) == Ok::<Option<SingleNoteResponseView>, ErrorView>(None),
{
    lemma_find_absent(notes, bytes_of_hex(id));
}

/// No insert goes out before the index is confirmed: a creation begins with
/// an insert only where the gateway has seen the index confirmed, and goes
/// on to an insert only when the store has just confirmed it.
pub proof fn law_insert_needs_index(
    confirmed: bool,
    body: CreateNoteView,
    now: int,
    state: CreateStateView,
    reply: CreateReplyView,
)
    ensures
        create_start(confirmed, body, now).1 is InsertOne ==> confirmed,
        create_next(state, reply) matches CreateProgressView::Next(_, command) && command is InsertOne
            ==> state is AwaitIndex && reply is IndexReady,
{
}

/// Whether every note of the collection holds a category and a publication
/// state.
pub open spec fn materialized(notes: Seq<Fields>) -> bool {
    forall|i: int|
        0 <= i < notes.len() ==> note_of(#[trigger] notes[i]).category is Some && note_of(
            notes[i],
        ).published is Some
}

/// A stored note never lacks its category or its publication state: a
/// creation files both, with their defaults where the request left them
/// out, and no update takes them away.
pub proof fn law_defaults_materialized(
    notes: Seq<Fields>,
    confirmed: bool,
    created_body: CreateNoteView,
    id: Seq<u8>,
    text: Seq<char>,
    i: int,
    body: UpdateNoteView,
    now: int,
    detail: Seq<char>,
)
    requires
        well_formed(notes),
        materialized(notes),
    ensures
        id.len() == 12 && !id_in_use(notes, id) && !title_taken(
            notes,
            Field::Text(created_body.title),
        ) ==> materialized(run_create(notes, confirmed, created_body, now, id, detail).0),
        ({
            &&& is_object_id_text(text)
            &&& 0 <= i < notes.len()
            &&& has_id(notes[i], bytes_of_hex(text))
            &&& (body.title matches Some(t) ==> !title_taken_elsewhere(notes, i, Field::Text(t)))
        }) ==> materialized(run_update(notes, text, body, now, detail).0),
{
    if id.len() == 12 && !id_in_use(notes, id) && !title_taken(
        notes,
        Field::Text(created_body.title),
    ) {
        law_create_fresh(notes, confirmed, created_body, now, id, detail);
        lemma_stamped_note(created_body, now, id);
        let after = run_create(notes, confirmed, created_body, now, id, detail).0;
        assert forall|j: int| 0 <= j < after.len() implies note_of(
            #[trigger] after[j],
        ).category is Some && note_of(after[j]).published is Some by {
            if j < notes.len() {
                assert(after[j] == notes[j]);
            }
        }
    }
    if is_object_id_text(text) && 0 <= i < notes.len() && has_id(notes[i], bytes_of_hex(text)) && (
    body.title matches Some(t) ==> !title_taken_elsewhere(notes, i, Field::Text(t))) {
        law_update(notes, text, i, body, now, detail);
        let after = run_update(notes, text, body, now, detail).0;
        assert forall|j: int| 0 <= j < after.len() implies note_of(
            #[trigger] after[j],
        ).category is Some && note_of(after[j]).published is Some by {
            if j != i {
                assert(after[j] == notes[j]);
            }
        }
    }
}

/// Whether no note of the collection was updated before it was created.
pub open spec fn chronological(notes: Seq<Fields>) -> bool {
    forall|i: int|
        0 <= i < notes.len() ==> note_of(#[trigger] notes[i]).createdAt <= note_of(
            notes[i],
        ).updatedAt
}

/// Creation times never lie after update times: a creation keeps it so,
/// and so does an update at an instant that is not before the note's
/// creation.
pub proof fn law_timestamps_ordered(
    notes: Seq<Fields>,
    confirmed: bool,
    created_body: CreateNoteView,
    id: Seq<u8>,
    text: Seq<char>,
    i: int,
    body: UpdateNoteView,
    now: int,
    detail: Seq<char>,
)
    requires
        well_formed(notes),
        chronological(notes),
    ensures
        id.len() == 12 && !id_in_use(notes, id) && !title_taken(
            notes,
            Field::Text(created_body.title),
        ) ==> chronological(run_create(notes, confirmed, created_body, now, id, detail).0),
        ({
            &&& is_object_id_text(text)
            &&& 0 <= i < notes.len()
            &&& has_id(notes[i], bytes_of_hex(text))
            &&& (body.title matches Some(t) ==> !title_taken_elsewhere(notes, i, Field::Text(t)))
            &&& note_of(notes[i]).createdAt <= now
        }) ==> chronological(run_update(notes, text, body, now, detail).0),
{
    if id.len() == 12 && !id_in_use(notes, id) && !title_taken(
        notes,
        Field::Text(created_body.title),
    ) {
        law_create_fresh(notes, confirmed, created_body, now, id, detail);
        lemma_stamped_note(created_body, now, id);
        let after = run_create(notes, confirmed, created_body, now, id, detail).0;
        assert forall|j: int| 0 <= j < after.len() implies note_of(#[trigger] after[j]).createdAt
            <= note_of(after[j]).updatedAt by {
            if j < notes.len() {
                assert(after[j] == notes[j]);
            }
        }
    }
    if is_object_id_text(text) && 0 <= i < notes.len() && has_id(notes[i], bytes_of_hex(text)) && (
    body.title matches Some(t) ==> !title_taken_elsewhere(notes, i, Field::Text(t))) && note_of(
        notes[i],
    ).createdAt <= now {
        law_update(notes, text, i, body, now, detail);
        let after = run_update(notes, text, body, now, detail).0;
        assert forall|j: int| 0 <= j < after.len() implies note_of(#[trigger] after[j]).createdAt
            <= note_of(after[j]).updatedAt by {
            if j != i {
                assert(after[j] == notes[j]);
            }
        }
    }
}

} // verus!
