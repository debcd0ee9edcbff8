//! Request schemas as the HTTP layer hands them over.

use vstd::prelude::*;

verus! {

/// The view of an optional string.
pub open spec fn text_view(s: Option<String>) -> Option<Seq<char>> {
    match s {
        Some(t) => Some(t@),
        None => None,
    }
}

/// Pagination parameters of a list request; both are optional.
#[derive(Debug, PartialEq)]
pub struct FilterOptions {
    /// The page number, counted from one.
    pub page: Option<usize>,
    /// The maximum number of notes per page.
    pub limit: Option<usize>,
}

/// The identifier that a path names.
#[derive(Debug, PartialEq)]
pub struct ParamOptions {
    /// The identifier of the note.
    pub id: String,
}

/// What a client submits to create a note.
#[derive(Debug, PartialEq)]
pub struct CreateNoteSchema {
    /// The title of the note.
    pub title: String,
    /// The content of the note.
    pub content: String,
    /// The category of the note, if any.
    pub category: Option<String>,
    /// Whether the note is published, if stated.
    pub published: Option<bool>,
}

pub struct CreateNoteView {
    pub title: Seq<char>,
    pub content: Seq<char>,
    pub category: Option<Seq<char>>,
    pub published: Option<bool>,
}

impl View for CreateNoteSchema {
    type V = CreateNoteView;

    open spec fn view(&self) -> CreateNoteView {
        CreateNoteView {
            title: self.title@,
            content: self.content@,
            category: text_view(self.category),
            published: self.published,
        }
    }
}

/// What a client submits to change a note; only the fields that are present
/// are applied.
#[derive(Debug, PartialEq)]
pub struct UpdateNoteSchema {
    /// The new title, if it is to change.
    pub title: Option<String>,
    /// The new content, if it is to change.
    pub content: Option<String>,
    /// The new category, if it is to change.
    pub category: Option<String>,
    /// The new publication state, if it is to change.
    pub published: Option<bool>,
}

pub struct UpdateNoteView {
    pub title: Option<Seq<char>>,
    pub content: Option<Seq<char>>,
    pub category: Option<Seq<char>>,
    pub published: Option<bool>,
}

impl View for UpdateNoteSchema {
    type V = UpdateNoteView;

    open spec fn view(&self) -> UpdateNoteView {
        UpdateNoteView {
            title: text_view(self.title),
            content: text_view(self.content),
            category: text_view(self.category),
            published: self.published,
        }
    }
}

} // verus!
