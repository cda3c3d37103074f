//! The route table: which handler answers which method on which path.
//!
//! | Method | Path          | Route                |
//! |--------|---------------|----------------------|
//! | GET    | `/books`      | [`Route::ListBooks`] |
//! | POST   | `/books`      | [`Route::CreateBook`]|
//! | GET    | `/books/{id}` | [`Route::GetBook`]   |
//! | PUT    | `/books/{id}` | [`Route::UpdateBook`]|
//! | DELETE | `/books/{id}` | [`Route::DeleteBook`]|
//!
//! A path that no row of the table has is not found. A path that the table
//! has, but not under the method of the request, is a method that is not
//! allowed. A path whose last segment is not an integer is no book's path at
//! all, so it is not found either: it is never a validation error.
use crate::errors::Rejection;
use crate::handlers;
use crate::handlers::{Progress, ProgressView};
use crate::models::{optional_new_book_view, NewBook, NewBookView};
use crate::path::{same_text, Target};
use vstd::prelude::*;

verus! {

/// The method of a request.
#[derive(Debug, Clone, Copy, PartialEq, Eq, Structural)]
pub enum Method {
    Get,
    Post,
    Put,
    Delete,
    /// Any method that no route answers to.
    Other,
}

/// A row of the route table, with the identifier taken from the path.
#[derive(Debug, Clone, Copy, PartialEq, Eq, Structural)]
pub enum Route {
    ListBooks,
    CreateBook,
    GetBook(i32),
    UpdateBook(i32),
    DeleteBook(i32),
}

impl Method {
    /// The method that a name stands for. Names are case-sensitive.
    pub open spec fn of(name: Seq<char>) -> Method {
        if name == "GET"@ {
            Method::Get
        } else if name == "POST"@ {
            Method::Post
        } else if name == "PUT"@ {
            Method::Put
        } else if name == "DELETE"@ {
            Method::Delete
        } else {
            Method::Other
        }
    }

    /// Reads a method from its name.
    pub fn parse(name: &str) -> (method: Method)
        ensures
            method == Method::of(name@),
    {
        if same_text(name, "GET") {
            Method::Get
        } else if same_text(name, "POST") {
            Method::Post
        } else if same_text(name, "PUT") {
            Method::Put
        } else if same_text(name, "DELETE") {
            Method::Delete
        } else {
            Method::Other
        }
    }
}

impl Route {
    /// The method this route answers to.
    pub open spec fn method(self) -> Method {
        match self {
            Route::ListBooks => Method::Get,
            Route::CreateBook => Method::Post,
            Route::GetBook(_) => Method::Get,
            Route::UpdateBook(_) => Method::Put,
            Route::DeleteBook(_) => Method::Delete,
        }
    }

    /// What the path of this route points at.
    pub open spec fn target(self) -> Target {
        match self {
            Route::ListBooks => Target::Collection,
            Route::CreateBook => Target::Collection,
            Route::GetBook(id) => Target::Item(id),
            Route::UpdateBook(id) => Target::Item(id),
            Route::DeleteBook(id) => Target::Item(id),
        }
    }

    /// Whether this route answers to `method` on `target`; if not, why not.
    /// The path is looked at before the method.
    pub open spec fn bind(self, method: Method, target: Target) -> Result<Route, Rejection> {
        if target != self.target() {
            Err(Rejection::NotFound)
        } else if method != self.method() {
            Err(Rejection::MethodNotAllowed)
        } else {
            Ok(self)
        }
    }
}

/// The route for a request, or the reason there is none.
pub open spec fn route_for(method: Method, target: Target) -> Result<Route, Rejection> {
    match target {
        Target::Unknown => Err(Rejection::NotFound),
        Target::Collection => match method {
            Method::Get => Ok(Route::ListBooks),
            Method::Post => Ok(Route::CreateBook),
            _ => Err(Rejection::MethodNotAllowed),
        },
        Target::Item(id) => match method {
            Method::Get => Ok(Route::GetBook(id)),
            Method::Put => Ok(Route::UpdateBook(id)),
            Method::Delete => Ok(Route::DeleteBook(id)),
            _ => Err(Rejection::MethodNotAllowed),
        },
    }
}

/// How a route's handler begins. A write whose body could not be decoded as a
/// payload is turned away without a name for the fault.
pub open spec fn handler_plan(route: Route, body: Option<NewBookView>) -> ProgressView {
    match route {
        Route::ListBooks => handlers::list_books_plan(),
        Route::CreateBook => match body {
            Some(new_book) => handlers::create_book_plan(new_book),
            None => ProgressView::Reply(Err(Rejection::Unclassified)),
        },
        Route::GetBook(id) => handlers::get_book_plan(id),
        Route::UpdateBook(id) => match body {
            Some(updated_book) => handlers::update_book_plan(id, updated_book),
            None => ProgressView::Reply(Err(Rejection::Unclassified)),
        },
        Route::DeleteBook(id) => handlers::delete_book_plan(id),
    }
}

/// How a request begins: parse, pick the route, validate, first statement.
pub open spec fn books_plan(
    method: Method,
    path: Seq<char>,
    body: Option<NewBookView>,
) -> ProgressView {
    match route_for(method, Target::of(path)) {
        Ok(route) => handler_plan(route, body),
        Err(rejection) => ProgressView::Reply(Err(rejection)),
    }
}

/// `GET /books`.
pub fn get_books(method: Method, target: Target) -> (bound: Result<Route, Rejection>)
    ensures
        bound == Route::ListBooks.bind(method, target),
{
    match target {
        Target::Collection => match method {
            Method::Get => Ok(Route::ListBooks),
            _ => Err(Rejection::MethodNotAllowed),
        },
        _ => Err(Rejection::NotFound),
    }
}

/// `POST /books`.
pub fn create_book(method: Method, target: Target) -> (bound: Result<Route, Rejection>)
    ensures
        bound == Route::CreateBook.bind(method, target),
{
    match target {
        Target::Collection => match method {
            Method::Post => Ok(Route::CreateBook),
            _ => Err(Rejection::MethodNotAllowed),
        },
        _ => Err(Rejection::NotFound),
    }
}

/// `GET /books/{id}`.
pub fn get_book(method: Method, target: Target) -> (bound: Result<Route, Rejection>)
    ensures
        bound == match target {
            Target::Item(id) => Route::GetBook(id).bind(method, target),
            _ => Err(Rejection::NotFound),
        },
{
    match target {
        Target::Item(id) => match method {
            Method::Get => Ok(Route::GetBook(id)),
            _ => Err(Rejection::MethodNotAllowed),
        },
        _ => Err(Rejection::NotFound),
    }
}

/// `PUT /books/{id}`.
pub fn update_book(method: Method, target: Target) -> (bound: Result<Route, Rejection>)
    ensures
        bound == match target {
            Target::Item(id) => Route::UpdateBook(id).bind(method, target),
            _ => Err(Rejection::NotFound),
        },
{
    match target {
        Target::Item(id) => match method {
            Method::Put => Ok(Route::UpdateBook(id)),
            _ => Err(Rejection::MethodNotAllowed),
        },
        _ => Err(Rejection::NotFound),
    }
}

/// `DELETE /books/{id}`.
pub fn delete_book(method: Method, target: Target) -> (bound: Result<Route, Rejection>)
    ensures
        bound == match target {
            Target::Item(id) => Route::DeleteBook(id).bind(method, target),
            _ => Err(Rejection::NotFound),
        },
{
    match target {
        Target::Item(id) => match method {
            Method::Delete => Ok(Route::DeleteBook(id)),
            _ => Err(Rejection::MethodNotAllowed),
        },
        _ => Err(Rejection::NotFound),
    }
}

/// Of two reasons why no route was bound, the one to report: a path that
/// exists under another method says more than a path that does not exist.
fn graver(first: Rejection, second: Rejection) -> (reported: Rejection)
    ensures
        reported == if first == Rejection::NotFound {
            second
        } else {
            first
        },
{
    match first {
        Rejection::NotFound => second,
        _ => first,
    }
}

/// Tries the five routes in turn and takes the first that binds.
pub fn route(method: Method, target: Target) -> (bound: Result<Route, Rejection>)
    ensures
        bound == route_for(method, target),
{
    let listed = get_books(method, target);
    let Err(first) = listed else {
        return listed;
    };
    let found = get_book(method, target);
    let Err(second) = found else {
        return found;
    };
    let created = create_book(method, target);
    let Err(third) = created else {
        return created;
    };
    let updated = update_book(method, target);
    let Err(fourth) = updated else {
        return updated;
    };
    let deleted = delete_book(method, target);
    let Err(fifth) = deleted else {
        return deleted;
    };
    Err(graver(graver(graver(graver(first, second), third), fourth), fifth))
}

/// Takes a request in: works out the route from method and path, and starts
/// its handler. `body` is the decoded payload, or `None` where the request
/// carried nothing that decodes as one.
pub fn books(method: Method, path: &str, body: Option<NewBook>) -> (progress: Progress)
    ensures
        progress@ == books_plan(method, path@, optional_new_book_view(body)),
{
    let bound = route(method, Target::parse(path));
    match bound {
        Err(rejection) => Progress::Reply(Err(rejection)),
        Ok(Route::ListBooks) => handlers::list_books(),
        Ok(Route::CreateBook) => match body {
            Some(new_book) => handlers::create_book(new_book),
            None => Progress::Reply(Err(Rejection::Unclassified)),
        },
        Ok(Route::GetBook(id)) => handlers::get_book(id),
        Ok(Route::UpdateBook(id)) => match body {
            Some(updated_book) => handlers::update_book(id, updated_book),
            None => Progress::Reply(Err(Rejection::Unclassified)),
        },
        Ok(Route::DeleteBook(id)) => handlers::delete_book(id),
    }
}

} // verus!
