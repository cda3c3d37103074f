//! The book record and the payload a client submits to create or replace one.
use vstd::prelude::*;

verus! {

/// A persisted book. `id` is assigned by the store and absent until then.
#[derive(Debug, Clone, PartialEq, Eq)]
pub struct Book {
    pub id: Option<i32>,
    pub title: String,
    pub author: String,
    pub date_published: String,
    pub cover_image: String,
}

/// The four content fields of a book, as submitted for create and update.
#[derive(Debug, Clone, PartialEq, Eq)]
pub struct NewBook {
    pub title: String,
    pub author: String,
    pub date_published: String,
    pub cover_image: String,
}

/// What a [`Book`] holds, as mathematical values.
pub ghost struct BookView {
    pub id: Option<i32>,
    pub title: Seq<char>,
    pub author: Seq<char>,
    pub date_published: Seq<char>,
    pub cover_image: Seq<char>,
}

/// What a [`NewBook`] holds, as mathematical values.
pub ghost struct NewBookView {
    pub title: Seq<char>,
    pub author: Seq<char>,
    pub date_published: Seq<char>,
    pub cover_image: Seq<char>,
}

impl View for Book {
    type V = BookView;

    open spec fn view(&self) -> BookView {
        BookView {
            id: self.id,
            title: self.title@,
            author: self.author@,
            date_published: self.date_published@,
            cover_image: self.cover_image@,
        }
    }
}

impl View for NewBook {
    type V = NewBookView;

    open spec fn view(&self) -> NewBookView {
        NewBookView {
            title: self.title@,
            author: self.author@,
            date_published: self.date_published@,
            cover_image: self.cover_image@,
        }
    }
}

impl NewBookView {
    /// A payload is acceptable when neither title nor author is the empty
    /// string. Nothing is trimmed, and the other two fields are never looked at.
    pub open spec fn is_valid(self) -> bool {
        self.title.len() > 0 && self.author.len() > 0
    }

    /// The book that results from storing this content under `id`.
    pub open spec fn stored(self, id: i32) -> BookView {
        BookView {
            id: Some(id),
            title: self.title,
            author: self.author,
            date_published: self.date_published,
            cover_image: self.cover_image,
        }
    }
}

impl BookView {
    /// The four content fields, without the identifier.
    pub open spec fn content(self) -> NewBookView {
        NewBookView {
            title: self.title,
            author: self.author,
            date_published: self.date_published,
            cover_image: self.cover_image,
        }
    }
}

/// The views of a run of books, in order.
pub open spec fn book_views(books: Seq<Book>) -> Seq<BookView> {
    books.map_values(|b: Book| b@)
}

/// The view of a book that may be absent.
pub open spec fn optional_book_view(book: Option<Book>) -> Option<BookView> {
    match book {
        Some(b) => Some(b@),
        None => None,
    }
}

/// The view of a payload that may be absent.
pub open spec fn optional_new_book_view(body: Option<NewBook>) -> Option<NewBookView> {
    match body {
        Some(b) => Some(b@),
        None => None,
    }
}

impl NewBook {
    /// Whether title and author are both non-empty.
    pub fn is_valid(&self) -> (ok: bool)
        ensures
            ok == self@.is_valid(),
    {
        !self.title.as_str().is_empty() && !self.author.as_str().is_empty()
    }

}

} // verus!
