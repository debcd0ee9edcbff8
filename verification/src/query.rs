//! The query builder: pagination windows, identifier filters and merge
//! updates.

use crate::document::{empty_document, entries, no_fields, put, Field, Fields, Value};
use crate::errors::{Error, ErrorView};
use crate::oid::NoteId;
use mongodb::bson::Document;
use vstd::prelude::*;

verus! {

/// A find over the whole collection, restricted to one page.
#[derive(Debug, PartialEq)]
pub struct FindMany {
    /// The filter; it has no fields and so matches every note.
    pub filter: Document,
    /// How many notes to pass over.
    pub skip: u64,
    /// How many notes to return at most.
    pub limit: i64,
}

/// Whether a page number and a page size describe a window the store can
/// serve: both positive, the notes to skip countable in 64 bits.
pub open spec fn valid_page(page: int, limit: int) -> bool {
    page >= 1 && limit >= 1 && (page - 1) * limit <= u64::MAX
}

/// The view of a find over one page.
pub struct FindManyView {
    pub filter: Fields,
    pub skip: int,
    pub limit: int,
}

impl View for FindMany {
    type V = FindManyView;

    open spec fn view(&self) -> FindManyView {
        FindManyView { filter: entries(self.filter), skip: self.skip as int, limit: self.limit as int }
    }
}

/// The view of a request for one page.
pub open spec fn window_view(r: Result<FindMany, Error>) -> Result<FindManyView, ErrorView> {
    match r {
        Ok(w) => Ok(w@),
        Err(e) => Err(e@),
    }
}

/// What a list asks of the store: every note, the `(page - 1) * limit`
/// notes of the earlier pages skipped, `limit` notes at most. A window that
/// is not valid is a pagination error.
pub open spec fn list_request(page: int, limit: int) -> Result<FindManyView, ErrorView> {
    if valid_page(page, limit) {
        Ok(FindManyView { filter: no_fields(), skip: (page - 1) * limit, limit })
    } else {
        Err(ErrorView::InvalidPaginationError)
    }
}

/// The filter that selects the note with the given identifier.
pub open spec fn id_filter(id: Seq<u8>) -> Fields {
    no_fields().insert("_id"@, Field::Id(id))
}

/// The update that sets the given fields and leaves all others alone.
pub open spec fn set_update(partial: Fields) -> Fields {
    no_fields().insert("$set"@, Field::Doc(partial))
}

/// The key pattern of the index on titles, in ascending order.
pub open spec fn title_index_keys() -> Fields {
    no_fields().insert("title"@, Field::Int(1))
}

/// Builds the window for page `page` of size `limit`: no filter, the
/// `(page - 1) * limit` notes of the earlier pages skipped. Pages count from
/// one; a page or a size below one is turned away, and so is a window that
/// starts beyond what 64 bits can count. See [`list_request`].
pub fn list_filter(page: i64, limit: i64) -> (r: Result<FindMany, Error>)
    ensures
        window_view(r) == list_request(page as int, limit as int),
{
    if page < 1 || limit < 1 {
        return Err(Error::InvalidPaginationError);
    }
    let before: u128 = (page - 1) as u128;
    let size: u128 = limit as u128;
    assert(before * size <= 0x7fff_ffff_ffff_ffff * 0x7fff_ffff_ffff_ffff) by (nonlinear_arith)
        requires
            0 <= before <= 0x7fff_ffff_ffff_ffff,
            0 <= size <= 0x7fff_ffff_ffff_ffff,
    ;
    let skip: u128 = before * size;
    if skip > u64::MAX as u128 {
        return Err(Error::InvalidPaginationError);
    }
    Ok(FindMany { filter: empty_document(), skip: skip as u64, limit })
}

/// Builds the equality filter on the identifier.
pub fn by_id(id: &NoteId) -> (filter: Document)
    ensures
        entries(filter) == id_filter(id@),
{
    let mut filter = empty_document();
    put(&mut filter, "_id", Value::Id(id.bytes));
    filter
}

/// Builds the merge update that sets the fields of `partial`. An empty
/// `partial` gives an update that changes nothing.
pub fn set_fields(partial: Document) -> (update: Document)
    ensures
        entries(update) == set_update(entries(partial)),
{
    let mut update = empty_document();
    put(&mut update, "$set", Value::Doc(partial));
    update
}

/// Builds the key pattern of the index that keeps titles unique.
pub fn unique_title_keys() -> (keys: Document)
    ensures
        entries(keys) == title_index_keys(),
{
    let mut keys = empty_document();
    put(&mut keys, "title", Value::Int(1));
    keys
}

} // verus!
