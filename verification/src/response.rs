//! Client-facing response shapes.

use vstd::prelude::*;

verus! {

/// A status with a human-readable message.
#[derive(Debug, PartialEq)]
pub struct GenericResponse {
    /// Status of the response.
    pub status: String,
    /// Message in the response.
    pub message: String,
}

pub struct GenericResponseView {
    pub status: Seq<char>,
    pub message: Seq<char>,
}

impl View for GenericResponse {
    type V = GenericResponseView;

    open spec fn view(&self) -> GenericResponseView {
        GenericResponseView { status: self.status@, message: self.message@ }
    }
}

/// A note as clients see it.
#[allow(non_snake_case)]
#[derive(Debug, PartialEq)]
pub struct NoteResponse {
    /// The identifier in its canonical hexadecimal form.
    pub id: String,
    /// Title of the note.
    pub title: String,
    /// Content of the note.
    pub content: String,
    /// Category of the note; empty if the note has none.
    pub category: String,
    /// Whether the note is published.
    pub published: bool,
    /// Creation time, in milliseconds since the Unix epoch.
    pub createdAt: i64,
    /// Time of the last update, in milliseconds since the Unix epoch.
    pub updatedAt: i64,
}

#[allow(non_snake_case)]
pub struct NoteResponseView {
    pub id: Seq<char>,
    pub title: Seq<char>,
    pub content: Seq<char>,
    pub category: Seq<char>,
    pub published: bool,
    pub createdAt: int,
    pub updatedAt: int,
}

impl View for NoteResponse {
    type V = NoteResponseView;

    open spec fn view(&self) -> NoteResponseView {
        NoteResponseView {
            id: self.id@,
            title: self.title@,
            content: self.content@,
            category: self.category@,
            published: self.published,
            createdAt: self.createdAt as int,
            updatedAt: self.updatedAt as int,
        }
    }
}

/// The data part of a single-note response.
#[derive(Debug, PartialEq)]
pub struct NoteData {
    /// The note.
    pub note: NoteResponse,
}

/// A single note together with a status.
#[derive(Debug, PartialEq)]
pub struct SingleNoteResponse {
    /// Status of the response.
    pub status: String,
    /// The note.
    pub data: NoteData,
}

pub struct SingleNoteResponseView {
    pub status: Seq<char>,
    pub note: NoteResponseView,
}

impl View for SingleNoteResponse {
    type V = SingleNoteResponseView;

    open spec fn view(&self) -> SingleNoteResponseView {
        SingleNoteResponseView { status: self.status@, note: self.data.note@ }
    }
}

/// A page of notes together with a status and the number of notes in it.
#[derive(Debug, PartialEq)]
pub struct NoteListResponse {
    /// Status of the response.
    pub status: String,
    /// Number of notes in the response.
    pub results: usize,
    /// The notes, in the order the store returned them.
    pub notes: Vec<NoteResponse>,
}

pub struct NoteListResponseView {
    pub status: Seq<char>,
    pub results: nat,
    pub notes: Seq<NoteResponseView>,
}

/// The views of a sequence of notes, element by element.
pub open spec fn note_views(notes: Seq<NoteResponse>) -> Seq<NoteResponseView> {
    Seq::new(notes.len(), |i: int| notes[i]@)
}

impl View for NoteListResponse {
    type V = NoteListResponseView;

    open spec fn view(&self) -> NoteListResponseView {
        NoteListResponseView {
            status: self.status@,
            results: self.results as nat,
            notes: note_views(self.notes@),
        }
    }
}

/// The body of an HTTP reply.
#[derive(Debug, PartialEq)]
pub enum Body {
    /// A status with a message.
    Generic(GenericResponse),
    /// A single note, or JSON `null` where the gateway found none.
    Note(Option<SingleNoteResponse>),
    /// A page of notes.
    List(NoteListResponse),
    /// The empty JSON string.
    Empty,
}

pub enum BodyView {
    Generic(GenericResponseView),
    Note(Option<SingleNoteResponseView>),
    List(NoteListResponseView),
    Empty,
}

impl View for Body {
    type V = BodyView;

    open spec fn view(&self) -> BodyView {
        match self {
            Body::Generic(g) => BodyView::Generic(g@),
            Body::Note(n) => BodyView::Note(
                match n {
                    Some(s) => Some(s@),
                    None => None,
                },
            ),
            Body::List(l) => BodyView::List(l@),
            Body::Empty => BodyView::Empty,
        }
    }
}

/// An HTTP status code with the JSON body that goes with it.
#[derive(Debug, PartialEq)]
pub struct HttpReply {
    pub code: u16,
    pub body: Body,
}

pub struct HttpReplyView {
    pub code: int,
    pub body: BodyView,
}

impl View for HttpReply {
    type V = HttpReplyView;

    open spec fn view(&self) -> HttpReplyView {
        HttpReplyView { code: self.code as int, body: self.body@ }
    }
}

} // verus!
