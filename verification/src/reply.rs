//! What goes back to the client: a status code and a body.
use crate::models::{book_views, Book, BookView};
use vstd::prelude::*;

verus! {

/// The request succeeded and the body carries the result.
pub const OK: u16 = 200;

/// The request succeeded and there is nothing to send back.
pub const NO_CONTENT: u16 = 204;

/// The payload was refused by validation.
pub const BAD_REQUEST: u16 = 400;

/// No such book, or no such route.
pub const NOT_FOUND: u16 = 404;

/// The path exists but does not answer to this method.
pub const METHOD_NOT_ALLOWED: u16 = 405;

/// The store failed, or something went wrong that has no name of its own.
pub const INTERNAL_SERVER_ERROR: u16 = 500;

/// The body of a response, before it is put on the wire.
#[derive(Debug, Clone, PartialEq, Eq)]
pub enum Body {
    /// Every book in the table, in the order the store listed them.
    Books(Vec<Book>),
    /// One book.
    Book(Book),
    /// A fixed plain-text phrase.
    Text(String),
    /// No body at all.
    Empty,
}

/// A complete response.
#[derive(Debug, Clone, PartialEq, Eq)]
pub struct Response {
    pub status: u16,
    pub body: Body,
}

/// What a [`Body`] holds, as mathematical values.
pub ghost enum BodyView {
    Books(Seq<BookView>),
    Book(BookView),
    Text(Seq<char>),
    Empty,
}

/// What a [`Response`] holds, as mathematical values.
pub ghost struct ResponseView {
    pub status: u16,
    pub body: BodyView,
}

impl View for Body {
    type V = BodyView;

    open spec fn view(&self) -> BodyView {
        match *self {
            Body::Books(books) => BodyView::Books(book_views(books@)),
            Body::Book(book) => BodyView::Book(book@),
            Body::Text(text) => BodyView::Text(text@),
            Body::Empty => BodyView::Empty,
        }
    }
}

impl View for Response {
    type V = ResponseView;

    open spec fn view(&self) -> ResponseView {
        ResponseView { status: self.status, body: self.body@ }
    }
}

} // verus!
