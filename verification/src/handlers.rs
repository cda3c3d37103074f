//! The five handlers: validate what came in, put the gateway to work, and say
//! what goes back.
//!
//! A handler for a write looks at the payload first. A payload that fails
//! validation is turned away on the spot: the gateway is never started, so no
//! statement ever reaches the store.
use crate::db;
use crate::db::{
    Completion, CompletionView, Exchange, ExchangeView, Outcome, Statement, StatementView, Turn,
    TurnView,
};
use crate::errors::{reply_view, Error, Rejection};
use crate::models::{NewBook, NewBookView};
use crate::reply::{Body, BodyView, Response, ResponseView, NO_CONTENT, OK};
use vstd::prelude::*;

verus! {

/// Where a request stands: waiting for the store, or answered.
#[derive(Debug, PartialEq, Eq)]
pub enum Progress {
    /// Run this statement and come back to [`resume`] with the outcome.
    Ask(Statement, Exchange),
    /// The request is answered: a response, or the reason it was turned away.
    Reply(Result<Response, Rejection>),
}

/// What a [`Progress`] holds, as mathematical values.
pub ghost enum ProgressView {
    Ask(StatementView, ExchangeView),
    Reply(Result<ResponseView, Rejection>),
}

impl View for Progress {
    type V = ProgressView;

    open spec fn view(&self) -> ProgressView {
        match *self {
            Progress::Ask(statement, exchange) => ProgressView::Ask(statement@, exchange@),
            Progress::Reply(reply) => ProgressView::Reply(reply_view(reply)),
        }
    }
}

/// The reply that reports a finished gateway operation: 200 with the book or
/// the books, 204 with no body after a delete, and the gateway's own error
/// otherwise.
pub open spec fn reply_for(result: Result<CompletionView, Error>) -> Result<
    ResponseView,
    Rejection,
> {
    match result {
        Ok(CompletionView::Book(book)) => Ok(
            ResponseView { status: OK, body: BodyView::Book(book) },
        ),
        Ok(CompletionView::Books(books)) => Ok(
            ResponseView { status: OK, body: BodyView::Books(books) },
        ),
        Ok(CompletionView::Deleted) => Ok(
            ResponseView { status: NO_CONTENT, body: BodyView::Empty },
        ),
        Err(error) => Err(Rejection::Custom(error)),
    }
}

/// A gateway move, seen from the handler: a statement is passed on, a result
/// becomes a reply.
pub open spec fn progress_for(turn: TurnView) -> ProgressView {
    match turn {
        TurnView::Ask(statement, exchange) => ProgressView::Ask(statement, exchange),
        TurnView::Done(result) => ProgressView::Reply(reply_for(result)),
    }
}

/// The verdict of validation on a payload.
pub open spec fn validated(new_book: NewBookView) -> Result<(), Error> {
    if new_book.is_valid() {
        Ok(())
    } else {
        Err(Error::InvalidData)
    }
}

/// How a listing begins.
pub open spec fn list_books_plan() -> ProgressView {
    progress_for(db::get_all_books_turn())
}

/// How a create begins: with the insert, unless the payload is invalid.
pub open spec fn create_book_plan(new_book: NewBookView) -> ProgressView {
    if new_book.is_valid() {
        progress_for(db::create_book_turn(new_book))
    } else {
        ProgressView::Reply(Err(Rejection::Custom(Error::InvalidData)))
    }
}

/// How a lookup begins.
pub open spec fn get_book_plan(id: i32) -> ProgressView {
    progress_for(db::get_book_turn(id))
}

/// How an update begins: with the probe, unless the payload is invalid.
pub open spec fn update_book_plan(id: i32, updated_book: NewBookView) -> ProgressView {
    if updated_book.is_valid() {
        progress_for(db::update_book_turn(id, updated_book))
    } else {
        ProgressView::Reply(Err(Rejection::Custom(Error::InvalidData)))
    }
}

/// How a delete begins.
pub open spec fn delete_book_plan(id: i32) -> ProgressView {
    progress_for(db::delete_book_turn(id))
}

impl ProgressView {
    /// How many statements are still to run.
    pub open spec fn statements_left(self) -> nat {
        match self {
            ProgressView::Ask(_, exchange) => exchange.statements_left(),
            ProgressView::Reply(_) => 0,
        }
    }
}

/// Checks a payload: title and author must not be empty. The publication date
/// and the cover image are taken as they come.
pub fn validate(new_book: &NewBook) -> (verdict: Result<(), Error>)
    ensures
        verdict == validated(new_book@),
{
    if new_book.is_valid() {
        Ok(())
    } else {
        Err(Error::InvalidData)
    }
}

/// Reports a finished gateway operation.
fn conclude(result: Result<Completion, Error>) -> (reply: Result<Response, Rejection>)
    ensures
        reply_view(reply) == reply_for(db::result_view(result)),
{
    match result {
        Ok(Completion::Book(book)) => Ok(Response { status: OK, body: Body::Book(book) }),
        Ok(Completion::Books(books)) => Ok(Response { status: OK, body: Body::Books(books) }),
        Ok(Completion::Deleted) => Ok(Response { status: NO_CONTENT, body: Body::Empty }),
        Err(error) => Err(Rejection::Custom(error)),
    }
}

/// Passes a gateway move on as the request's progress.
fn carry(turn: Turn) -> (progress: Progress)
    ensures
        progress@ == progress_for(turn@),
{
    match turn {
        Turn::Ask(statement, exchange) => Progress::Ask(statement, exchange),
        Turn::Done(result) => Progress::Reply(conclude(result)),
    }
}

/// `GET /books`: every book, 200.
pub fn list_books() -> (progress: Progress)
    ensures
        progress@ == list_books_plan(),
{
    carry(db::get_all_books())
}

/// `POST /books`: 400 for an invalid payload, else the stored book, 200.
pub fn create_book(new_book: NewBook) -> (progress: Progress)
    ensures
        progress@ == create_book_plan(new_book@),
{
    match validate(&new_book) {
        Err(error) => Progress::Reply(Err(Rejection::Custom(error))),
        Ok(_) => carry(db::create_book(new_book)),
    }
}

/// `GET /books/{id}`: the book, 200, or 404 if there is none.
pub fn get_book(id: i32) -> (progress: Progress)
    ensures
        progress@ == get_book_plan(id),
{
    carry(db::get_book(id))
}

/// `PUT /books/{id}`: 400 for an invalid payload, 404 if there is no such
/// book, else the book as it now stands, 200.
pub fn update_book(id: i32, updated_book: NewBook) -> (progress: Progress)
    ensures
        progress@ == update_book_plan(id, updated_book@),
{
    match validate(&updated_book) {
        Err(error) => Progress::Reply(Err(Rejection::Custom(error))),
        Ok(_) => carry(db::update_book(id, updated_book)),
    }
}

/// `DELETE /books/{id}`: 204 and no body, or 404 if there is no such book.
pub fn delete_book(id: i32) -> (progress: Progress)
    ensures
        progress@ == delete_book_plan(id),
{
    carry(db::delete_book(id))
}

/// Carries a request on once the store has answered the statement that was
/// out: the next statement, or the reply.
pub fn resume(exchange: Exchange, outcome: Outcome) -> (progress: Progress)
    ensures
        progress@ == progress_for(exchange@.resume(outcome@)),
        progress@.statements_left() < exchange@.statements_left(),
{
    carry(exchange.resume(outcome))
}

} // verus!
