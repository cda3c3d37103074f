//! The persistence gateway: five operations on the book table, each a short
//! exchange of statements and outcomes with the store.
//!
//! The gateway never runs a statement itself. An operation starts by handing
//! out its first [`Statement`] together with an [`Exchange`], the memory of what
//! is under way. Whoever holds the connection runs the statement and resumes
//! the exchange with the [`Outcome`]; that yields the next statement, or the
//! result. The gateway never repairs a fault: whatever the store could not do
//! comes out as [`Error::DatabaseError`] or [`Error::NotFound`].
use crate::errors::Error;
use crate::models::{
    book_views, optional_book_view, Book, BookView, NewBook, NewBookView,
};
use vstd::prelude::*;

verus! {

/// One statement against the book table.
#[derive(Debug, Clone, PartialEq, Eq)]
pub enum Statement {
    /// Insert a row with this content and report the identifier that this very
    /// insert was given, as the connection that ran it knows it.
    Insert(NewBook),
    /// Read every row.
    SelectAll,
    /// Read the row with this identifier, if there is one.
    SelectById(i32),
    /// Overwrite the four content fields of the row with this identifier.
    UpdateById(i32, NewBook),
    /// Remove the row with this identifier.
    DeleteById(i32),
}

/// What the store reported for a statement.
#[derive(Debug, Clone, PartialEq, Eq)]
pub enum Outcome {
    /// The insert went through and generated this identifier.
    Inserted(i32),
    /// All rows, in the store's own order.
    Rows(Vec<Book>),
    /// The row that was asked for, or nothing if no row matched.
    Row(Option<Book>),
    /// The number of rows that an update or a delete touched.
    Affected(usize),
    /// The statement failed.
    Fault,
}

/// What a finished operation hands back when it succeeded.
#[derive(Debug, Clone, PartialEq, Eq)]
pub enum Completion {
    /// The book as the store now holds it.
    Book(Book),
    /// Every book in the table.
    Books(Vec<Book>),
    /// The row is gone.
    Deleted,
}

/// Where an operation stands while it waits for the store.
#[derive(Debug, Clone, PartialEq, Eq)]
pub enum Exchange {
    /// Create: the insert is out.
    Inserting,
    /// Create: the new row is being read back by its generated identifier.
    RereadingCreated,
    /// List: the select is out.
    Listing,
    /// Get: the select is out.
    Getting,
    /// Update: the probe for the row is out; the new content waits here.
    Probing(i32, NewBook),
    /// Update: the write is out.
    Updating(i32),
    /// Update: the row is being read back.
    RereadingUpdated,
    /// Delete: the delete is out.
    Deleting,
}

/// The gateway's move: the next statement to run, or the operation's result.
#[derive(Debug, PartialEq, Eq)]
pub enum Turn {
    /// Run this statement and resume the exchange with the outcome.
    Ask(Statement, Exchange),
    /// The operation is over.
    Done(Result<Completion, Error>),
}

/// What a [`Statement`] holds, as mathematical values.
pub ghost enum StatementView {
    Insert(NewBookView),
    SelectAll,
    SelectById(i32),
    UpdateById(i32, NewBookView),
    DeleteById(i32),
}

/// What an [`Outcome`] holds, as mathematical values.
pub ghost enum OutcomeView {
    Inserted(i32),
    Rows(Seq<BookView>),
    Row(Option<BookView>),
    Affected(nat),
    Fault,
}

/// What a [`Completion`] holds, as mathematical values.
pub ghost enum CompletionView {
    Book(BookView),
    Books(Seq<BookView>),
    Deleted,
}

/// What an [`Exchange`] holds, as mathematical values.
pub ghost enum ExchangeView {
    Inserting,
    RereadingCreated,
    Listing,
    Getting,
    Probing(i32, NewBookView),
    Updating(i32),
    RereadingUpdated,
    Deleting,
}

/// What a [`Turn`] holds, as mathematical values.
pub ghost enum TurnView {
    Ask(StatementView, ExchangeView),
    Done(Result<CompletionView, Error>),
}

impl View for Statement {
    type V = StatementView;

    open spec fn view(&self) -> StatementView {
        match *self {
            Statement::Insert(content) => StatementView::Insert(content@),
            Statement::SelectAll => StatementView::SelectAll,
            Statement::SelectById(id) => StatementView::SelectById(id),
            Statement::UpdateById(id, content) => StatementView::UpdateById(id, content@),
            Statement::DeleteById(id) => StatementView::DeleteById(id),
        }
    }
}

impl View for Outcome {
    type V = OutcomeView;

    open spec fn view(&self) -> OutcomeView {
        match *self {
            Outcome::Inserted(id) => OutcomeView::Inserted(id),
            Outcome::Rows(rows) => OutcomeView::Rows(book_views(rows@)),
            Outcome::Row(row) => OutcomeView::Row(optional_book_view(row)),
            Outcome::Affected(count) => OutcomeView::Affected(count as nat),
            Outcome::Fault => OutcomeView::Fault,
        }
    }
}

impl View for Completion {
    type V = CompletionView;

    open spec fn view(&self) -> CompletionView {
        match *self {
            Completion::Book(book) => CompletionView::Book(book@),
            Completion::Books(books) => CompletionView::Books(book_views(books@)),
            Completion::Deleted => CompletionView::Deleted,
        }
    }
}

impl View for Exchange {
    type V = ExchangeView;

    open spec fn view(&self) -> ExchangeView {
        match *self {
            Exchange::Inserting => ExchangeView::Inserting,
            Exchange::RereadingCreated => ExchangeView::RereadingCreated,
            Exchange::Listing => ExchangeView::Listing,
            Exchange::Getting => ExchangeView::Getting,
            Exchange::Probing(id, content) => ExchangeView::Probing(id, content@),
            Exchange::Updating(id) => ExchangeView::Updating(id),
            Exchange::RereadingUpdated => ExchangeView::RereadingUpdated,
            Exchange::Deleting => ExchangeView::Deleting,
        }
    }
}

impl View for Turn {
    type V = TurnView;

    open spec fn view(&self) -> TurnView {
        match *self {
            Turn::Ask(statement, exchange) => TurnView::Ask(statement@, exchange@),
            Turn::Done(result) => TurnView::Done(result_view(result)),
        }
    }
}

/// The view of an operation's result.
pub open spec fn result_view(result: Result<Completion, Error>) -> Result<
    CompletionView,
    Error,
> {
    match result {
        Ok(completion) => Ok(completion@),
        Err(error) => Err(error),
    }
}

/// Create starts with the insert.
pub open spec fn create_book_turn(new_book: NewBookView) -> TurnView {
    TurnView::Ask(StatementView::Insert(new_book), ExchangeView::Inserting)
}

/// List is a single select.
pub open spec fn get_all_books_turn() -> TurnView {
    TurnView::Ask(StatementView::SelectAll, ExchangeView::Listing)
}

/// Get is a single select by identifier.
pub open spec fn get_book_turn(book_id: i32) -> TurnView {
    TurnView::Ask(StatementView::SelectById(book_id), ExchangeView::Getting)
}

/// Update starts by probing for the row; nothing is written before the row is
/// known to exist.
pub open spec fn update_book_turn(book_id: i32, updated_book: NewBookView) -> TurnView {
    TurnView::Ask(
        StatementView::SelectById(book_id),
        ExchangeView::Probing(book_id, updated_book),
    )
}

/// Delete is a single delete by identifier.
pub open spec fn delete_book_turn(book_id: i32) -> TurnView {
    TurnView::Ask(StatementView::DeleteById(book_id), ExchangeView::Deleting)
}

impl ExchangeView {
    /// The gateway's move once the store has answered.
    ///
    /// An outcome of the wrong kind for the statement that was out counts as a
    /// fault of the store.
    pub open spec fn resume(self, outcome: OutcomeView) -> TurnView {
        match self {
            ExchangeView::Inserting => match outcome {
                OutcomeView::Inserted(id) => TurnView::Ask(
                    StatementView::SelectById(id),
                    ExchangeView::RereadingCreated,
                ),
                _ => TurnView::Done(Err(Error::DatabaseError)),
            },
            ExchangeView::RereadingCreated => match outcome {
                OutcomeView::Row(Some(book)) => TurnView::Done(Ok(CompletionView::Book(book))),
                _ => TurnView::Done(Err(Error::DatabaseError)),
            },
            ExchangeView::Listing => match outcome {
                OutcomeView::Rows(books) => TurnView::Done(Ok(CompletionView::Books(books))),
                _ => TurnView::Done(Err(Error::DatabaseError)),
            },
            ExchangeView::Getting => match outcome {
                OutcomeView::Row(Some(book)) => TurnView::Done(Ok(CompletionView::Book(book))),
                OutcomeView::Row(None) => TurnView::Done(Err(Error::NotFound)),
                _ => TurnView::Done(Err(Error::DatabaseError)),
            },
            ExchangeView::Probing(id, content) => match outcome {
                OutcomeView::Row(Some(_)) => TurnView::Ask(
                    StatementView::UpdateById(id, content),
                    ExchangeView::Updating(id),
                ),
                OutcomeView::Row(None) => TurnView::Done(Err(Error::NotFound)),
                _ => TurnView::Done(Err(Error::DatabaseError)),
            },
            ExchangeView::Updating(id) => match outcome {
                OutcomeView::Affected(count) => if count == 0 {
                    TurnView::Done(Err(Error::NotFound))
                } else {
                    TurnView::Ask(StatementView::SelectById(id), ExchangeView::RereadingUpdated)
                },
                _ => TurnView::Done(Err(Error::DatabaseError)),
            },
            ExchangeView::RereadingUpdated => match outcome {
                OutcomeView::Row(Some(book)) => TurnView::Done(Ok(CompletionView::Book(book))),
                OutcomeView::Row(None) => TurnView::Done(Err(Error::NotFound)),
                _ => TurnView::Done(Err(Error::DatabaseError)),
            },
            ExchangeView::Deleting => match outcome {
                OutcomeView::Affected(count) => if count == 0 {
                    TurnView::Done(Err(Error::NotFound))
                } else {
                    TurnView::Done(Ok(CompletionView::Deleted))
                },
                _ => TurnView::Done(Err(Error::DatabaseError)),
            },
        }
    }

    /// How many statements the operation may still run, the one that is out
    /// included.
    pub open spec fn statements_left(self) -> nat {
        match self {
            ExchangeView::Inserting => 2,
            ExchangeView::RereadingCreated => 1,
            ExchangeView::Listing => 1,
            ExchangeView::Getting => 1,
            ExchangeView::Probing(_, _) => 3,
            ExchangeView::Updating(_) => 2,
            ExchangeView::RereadingUpdated => 1,
            ExchangeView::Deleting => 1,
        }
    }
}

impl TurnView {
    /// How many statements are still to run: none once the result is there.
    pub open spec fn statements_left(self) -> nat {
        match self {
            TurnView::Ask(_, exchange) => exchange.statements_left(),
            TurnView::Done(_) => 0,
        }
    }
}

/// Where the table lives: at the configured target, or in memory where none
/// is configured.
pub open spec fn database_url_for(configured: Option<String>) -> Seq<char> {
    match configured {
        Some(target) => target@,
        None => ":memory:"@,
    }
}

/// Picks the connection target for the store.
pub fn database_url(configured: Option<String>) -> (target: String)
    ensures
        target@ == database_url_for(configured),
{
    match configured {
        Some(target) => target,
        None => ":memory:".to_owned(),
    }
}

/// Starts a create: insert the row, then read it back by the identifier that
/// the insert generated. Reading back by that identifier, and not taking the
/// newest row, keeps the result right when others insert at the same time.
pub fn create_book(new_book: NewBook) -> (turn: Turn)
    ensures
        turn@ == create_book_turn(new_book@),
{
    Turn::Ask(Statement::Insert(new_book), Exchange::Inserting)
}

/// Starts a listing of every book.
pub fn get_all_books() -> (turn: Turn)
    ensures
        turn@ == get_all_books_turn(),
{
    Turn::Ask(Statement::SelectAll, Exchange::Listing)
}

/// Starts the lookup of one book.
pub fn get_book(book_id: i32) -> (turn: Turn)
    ensures
        turn@ == get_book_turn(book_id),
{
    Turn::Ask(Statement::SelectById(book_id), Exchange::Getting)
}

/// Starts an update: probe for the row, overwrite its four content fields,
/// read it back.
pub fn update_book(book_id: i32, updated_book: NewBook) -> (turn: Turn)
    ensures
        turn@ == update_book_turn(book_id, updated_book@),
{
    Turn::Ask(Statement::SelectById(book_id), Exchange::Probing(book_id, updated_book))
}

/// Starts a delete.
pub fn delete_book(book_id: i32) -> (turn: Turn)
    ensures
        turn@ == delete_book_turn(book_id),
{
    Turn::Ask(Statement::DeleteById(book_id), Exchange::Deleting)
}

impl Exchange {
    /// Takes the store's answer to the statement that was out and makes the
    /// gateway's next move.
    pub fn resume(self, outcome: Outcome) -> (turn: Turn)
        ensures
            turn@ == self@.resume(outcome@),
            turn@.statements_left() < self@.statements_left(),
    {
        match self {
            Exchange::Inserting => match outcome {
                Outcome::Inserted(id) => Turn::Ask(
                    Statement::SelectById(id),
                    Exchange::RereadingCreated,
                ),
                _ => Turn::Done(Err(Error::DatabaseError)),
            },
            Exchange::RereadingCreated => match outcome {
                Outcome::Row(Some(book)) => Turn::Done(Ok(Completion::Book(book))),
                _ => Turn::Done(Err(Error::DatabaseError)),
            },
            Exchange::Listing => match outcome {
                Outcome::Rows(books) => Turn::Done(Ok(Completion::Books(books))),
                _ => Turn::Done(Err(Error::DatabaseError)),
            },
            Exchange::Getting => match outcome {
                Outcome::Row(Some(book)) => Turn::Done(Ok(Completion::Book(book))),
                Outcome::Row(None) => Turn::Done(Err(Error::NotFound)),
                _ => Turn::Done(Err(Error::DatabaseError)),
            },
            Exchange::Probing(id, content) => match outcome {
                Outcome::Row(Some(_)) => Turn::Ask(
                    Statement::UpdateById(id, content),
                    Exchange::Updating(id),
                ),
                Outcome::Row(None) => Turn::Done(Err(Error::NotFound)),
                _ => Turn::Done(Err(Error::DatabaseError)),
            },
            Exchange::Updating(id) => match outcome {
                Outcome::Affected(count) => if count == 0 {
                    Turn::Done(Err(Error::NotFound))
                } else {
                    Turn::Ask(Statement::SelectById(id), Exchange::RereadingUpdated)
                },
                _ => Turn::Done(Err(Error::DatabaseError)),
            },
            Exchange::RereadingUpdated => match outcome {
                Outcome::Row(Some(book)) => Turn::Done(Ok(Completion::Book(book))),
                Outcome::Row(None) => Turn::Done(Err(Error::NotFound)),
                _ => Turn::Done(Err(Error::DatabaseError)),
            },
            Exchange::Deleting => match outcome {
                Outcome::Affected(count) => if count == 0 {
                    Turn::Done(Err(Error::NotFound))
                } else {
                    Turn::Done(Ok(Completion::Deleted))
                },
                _ => Turn::Done(Err(Error::DatabaseError)),
            },
        }
    }
}

} // verus!
