//! What holds of the service as a whole, proved of the handlers and the
//! gateway when the store behaves as [`Table`] says.
use crate::db::{ExchangeView, OutcomeView, TurnView};
use crate::errors::{Error, Rejection};
use crate::filters::{books_plan, handler_plan, route_for, Method, Route};
use crate::handlers::{
    create_book_plan, delete_book_plan, get_book_plan, list_books_plan, update_book_plan,
    ProgressView,
};
use crate::models::{BookView, NewBookView};
use crate::path::{book_id, id_text, lemma_id_text, Target};
use crate::reply::{
    BodyView, ResponseView, BAD_REQUEST, INTERNAL_SERVER_ERROR, METHOD_NOT_ALLOWED, NOT_FOUND,
    NO_CONTENT, OK,
};
use crate::store::Table;
use vstd::prelude::*;

verus! {

/// The reply that carries one book.
pub open spec fn book_reply(book: BookView) -> Result<ResponseView, Rejection> {
    Ok(ResponseView { status: OK, body: BodyView::Book(book) })
}

/// The reply that turns a request away with a domain error.
pub open spec fn failure(error: Error) -> Result<ResponseView, Rejection> {
    Err(Rejection::Custom(error))
}

/// A book that was created reads back as created: a create with a valid
/// payload answers with the stored book under a fresh identifier, and a get of
/// that identifier answers with the same book, field for field.
pub proof fn created_book_reads_back(table: Table, new_book: NewBookView)
    requires
        table.well_formed(),
        table.has_room_for(1),
        new_book.is_valid(),
    ensures
        ({
            let id = table.next_id as i32;
            let (created, after) = table.complete(create_book_plan(new_book));
            &&& !table.has(id)
            &&& created == book_reply(new_book.stored(id))
            &&& after.rows == table.rows.insert(id, new_book)
            &&& after.next_id == table.next_id + 1
            &&& after.complete(get_book_plan(id)) == (created, after)
        }),
{
    reveal_with_fuel(Table::complete, 4);
}

/// A payload with an empty title or an empty author is refused as invalid
/// data, by create and by update alike, before any statement is asked for: the
/// table is as it was.
pub proof fn invalid_payload_writes_nothing(table: Table, id: i32, new_book: NewBookView)
    requires
        !new_book.is_valid(),
    ensures
        create_book_plan(new_book) == ProgressView::Reply(failure(Error::InvalidData)),
        update_book_plan(id, new_book) == ProgressView::Reply(failure(Error::InvalidData)),
        table.complete(create_book_plan(new_book)) == (failure(Error::InvalidData), table),
        table.complete(update_book_plan(id, new_book)) == (failure(Error::InvalidData), table),
{
    reveal_with_fuel(Table::complete, 2);
}

/// Where no row has the identifier, get and delete fail with not found, and
/// the table is as it was.
pub proof fn missing_book_is_not_found(table: Table, id: i32)
    requires
        !table.has(id),
    ensures
        table.complete(get_book_plan(id)) == (failure(Error::NotFound), table),
        table.complete(delete_book_plan(id)) == (failure(Error::NotFound), table),
{
    reveal_with_fuel(Table::complete, 2);
}

/// Where no row has the identifier, an update with a valid payload fails with
/// not found after the probe: nothing is written, and the table is as it was.
pub proof fn missing_book_is_not_updated(table: Table, id: i32, updated_book: NewBookView)
    requires
        !table.has(id),
        updated_book.is_valid(),
    ensures
        table.complete(update_book_plan(id, updated_book)) == (failure(Error::NotFound), table),
{
    reveal_with_fuel(Table::complete, 2);
}

/// An update reads back as written: it answers with the four new content
/// fields under the old identifier, a get of that identifier answers the same,
/// and no other row has changed.
pub proof fn updated_book_reads_back(table: Table, id: i32, updated_book: NewBookView)
    requires
        table.has(id),
        updated_book.is_valid(),
    ensures
        ({
            let (updated, after) = table.complete(update_book_plan(id, updated_book));
            &&& updated == book_reply(updated_book.stored(id))
            &&& after.rows == table.rows.insert(id, updated_book)
            &&& after.next_id == table.next_id
            &&& after.complete(get_book_plan(id)) == (updated, after)
        }),
{
    reveal_with_fuel(Table::complete, 5);
}

/// A deleted book is gone: the delete answers 204 with no body and removes
/// that row and no other, and a get of the identifier then fails with not
/// found.
pub proof fn deleted_book_is_gone(table: Table, id: i32)
    requires
        table.has(id),
    ensures
        ({
            let (deleted, after) = table.complete(delete_book_plan(id));
            &&& deleted == Ok::<ResponseView, Rejection>(
                ResponseView { status: NO_CONTENT, body: BodyView::Empty },
            )
            &&& after.rows == table.rows.remove(id)
            &&& after.next_id == table.next_id
            &&& after.complete(get_book_plan(id)) == (failure(Error::NotFound), after)
        }),
{
    reveal_with_fuel(Table::complete, 4);
}

/// A listing holds every row of the table.
proof fn lemma_listing_is_complete(table: Table, bound: int, id: i32)
    requires
        table.has(id),
        1 <= id <= bound,
    ensures
        table.rows_up_to(bound).contains(table.rows[id].stored(id)),
    decreases bound,
{
    let before = table.rows_up_to(bound - 1);
    if id == bound {
        let book = table.rows[id].stored(id);
        assert(before.push(book)[before.len() as int] == book);
    } else {
        lemma_listing_is_complete(table, bound - 1, id);
        let book = table.rows[id].stored(id);
        let at = choose|i: int| 0 <= i < before.len() && before[i] == book;
        match table.find(bound as i32) {
            Some(last) => {
                assert(before.push(last)[at] == book);
            },
            None => {},
        }
    }
}

/// What a run of creates leaves behind: the rows that were there, and one new
/// row per input under consecutive fresh identifiers.
proof fn lemma_create_each(table: Table, inputs: Seq<NewBookView>)
    requires
        table.well_formed(),
        table.has_room_for(inputs.len()),
        forall|i: int| 0 <= i < inputs.len() ==> (#[trigger] inputs[i]).is_valid(),
    ensures
        ({
            let after = table.create_each(inputs);
            &&& after.well_formed()
            &&& after.next_id == table.next_id + inputs.len()
            &&& forall|i: int|
                0 <= i < inputs.len() ==> after.has(#[trigger] ((table.next_id + i) as i32))
                    && after.rows[(table.next_id + i) as i32] == inputs[i]
            &&& forall|id: i32|
                table.has(id) ==> #[trigger] after.has(id) && after.rows[id] == table.rows[id]
        }),
    decreases inputs.len(),
{
    if inputs.len() > 0 {
        let earlier = inputs.drop_last();
        lemma_create_each(table, earlier);
        let before = table.create_each(earlier);
        created_book_reads_back(before, inputs.last());
        let after = table.create_each(inputs);
        assert forall|i: int| 0 <= i < inputs.len() implies after.has(
            #[trigger] ((table.next_id + i) as i32),
        ) && after.rows[(table.next_id + i) as i32] == inputs[i] by {
            if i < earlier.len() {
                assert(earlier[i] == inputs[i]);
            }
        }
        assert forall|id: i32| table.has(id) implies #[trigger] after.has(id) && after.rows[id]
            == table.rows[id] by {
            assert(before.has(id));
        }
    }
}

/// After any number of creates, a listing answers with a sequence that holds
/// each of the books created, under the identifier its create answered with
/// and with the content that was submitted for it.
pub proof fn listing_holds_what_was_created(table: Table, inputs: Seq<NewBookView>)
    requires
        table.well_formed(),
        table.has_room_for(inputs.len()),
        forall|i: int| 0 <= i < inputs.len() ==> (#[trigger] inputs[i]).is_valid(),
    ensures
        ({
            let after = table.create_each(inputs);
            let (listed, end) = after.complete(list_books_plan());
            &&& end == after
            &&& listed == Ok::<ResponseView, Rejection>(
                ResponseView { status: OK, body: BodyView::Books(after.listing()) },
            )
            &&& forall|i: int|
                #![trigger inputs[i]]
                0 <= i < inputs.len() ==> {
                    let book = inputs[i].stored((table.next_id + i) as i32);
                    &&& table.create_each(inputs.take(i)).complete(
                        create_book_plan(inputs[i]),
                    ).0 == book_reply(book)
                    &&& after.listing().contains(book)
                }
        }),
{
    reveal_with_fuel(Table::complete, 2);
    lemma_create_each(table, inputs);
    let after = table.create_each(inputs);
    assert forall|i: int| #![trigger inputs[i]] 0 <= i < inputs.len() implies {
        let book = inputs[i].stored((table.next_id + i) as i32);
        &&& table.create_each(inputs.take(i)).complete(create_book_plan(inputs[i])).0
            == book_reply(book)
        &&& after.listing().contains(book)
    } by {
        let id = (table.next_id + i) as i32;
        let earlier = inputs.take(i);
        assert forall|j: int| 0 <= j < earlier.len() implies (#[trigger] earlier[j]).is_valid() by {
            assert(earlier[j] == inputs[j]);
        }
        lemma_create_each(table, earlier);
        created_book_reads_back(table.create_each(earlier), inputs[i]);
        lemma_listing_is_complete(after, after.next_id - 1, id);
    }
}

/// Serving a request keeps the table in order: identifiers in use stay below
/// the next one to be handed out, which never goes down, and no row is ever
/// left with an empty title or an empty author.
pub proof fn rows_stay_valid(
    table: Table,
    method: Method,
    path: Seq<char>,
    body: Option<NewBookView>,
)
    requires
        table.well_formed(),
        table.all_valid(),
    ensures
        ({
            let (response, after) = table.serve(method, path, body);
            &&& after.well_formed()
            &&& after.all_valid()
            &&& after.next_id >= table.next_id
        }),
{
    reveal_with_fuel(Table::complete, 5);
}

/// Every response carries one of six status codes, and a request that asks
/// for no write leaves the table as it was.
pub proof fn statuses_are_the_documented_ones(
    table: Table,
    method: Method,
    path: Seq<char>,
    body: Option<NewBookView>,
)
    ensures
        ({
            let (response, after) = table.serve(method, path, body);
            &&& response.status == OK || response.status == NO_CONTENT || response.status
                == BAD_REQUEST || response.status == NOT_FOUND || response.status
                == METHOD_NOT_ALLOWED || response.status == INTERNAL_SERVER_ERROR
            &&& method == Method::Get || method == Method::Other ==> after == table
        }),
{
    reveal_with_fuel(Table::complete, 5);
}

/// The route table, row by row: a request is bound to the one route that has
/// its method and its path; where the path has routes but none under this
/// method, the method is not allowed; where the path has none, it is not
/// found.
pub proof fn route_table(method: Method, target: Target)
    ensures
        match route_for(method, target) {
            Ok(route) => route.method() == method && route.target() == target,
            Err(rejection) => {
                &&& forall|route: Route|
                    !(#[trigger] route.method() == method && route.target() == target)
                &&& rejection == if exists|route: Route| #[trigger] route.target() == target {
                    Rejection::MethodNotAllowed
                } else {
                    Rejection::NotFound
                }
            },
        },
        forall|route: Route|
            route_for(#[trigger] route.method(), route.target()) == Ok::<Route, Rejection>(route),
{
    match target {
        Target::Collection => {
            assert(Route::ListBooks.target() == target);
        },
        Target::Item(id) => {
            assert(Route::GetBook(id).target() == target);
        },
        Target::Unknown => {},
    }
}

/// Every target has a path: the usual path of the collection, and of any
/// book, points back at it, with or without a slash at the end.
pub proof fn every_target_has_a_path(target: Target)
    requires
        target != Target::Unknown,
    ensures
        Target::of(target.path()) == target,
        Target::of(target.path().push('/')) == target,
{
    reveal_strlit("/books");
    reveal_strlit("/books/");
    let prefix = "/books/"@;
    match target {
        Target::Item(id) => {
            lemma_id_text(id);
            let path = target.path();
            assert(path.subrange(0, 7) =~= prefix);
            assert(path.skip(7) =~= id_text(id));
            let slashed = path.push('/');
            assert(slashed.subrange(0, 7) =~= prefix);
            assert(slashed.skip(7).drop_last() =~= id_text(id));
        },
        _ => {
            assert(target.path().push('/') =~= prefix);
        },
    }
}

/// Each row of the route table answers where it says: a request with the
/// method of a route, on the usual path of its target, starts that route's
/// handler.
pub proof fn routes_answer_on_their_paths(route: Route, body: Option<NewBookView>)
    ensures
        books_plan(route.method(), route.target().path(), body) == handler_plan(route, body),
{
    every_target_has_a_path(route.target());
}

/// A path under `/books/` whose one segment does not write an integer is not
/// found, whatever the method and whatever the body: it is never reported as
/// invalid data.
pub proof fn non_integer_segment_is_not_found(
    method: Method,
    segment: Seq<char>,
    body: Option<NewBookView>,
)
    requires
        segment.len() > 0,
        !segment.contains('/'),
        book_id(segment) is None,
    ensures
        books_plan(method, "/books/"@ + segment, body) == ProgressView::Reply(
            Err(Rejection::NotFound),
        ),
{
    reveal_strlit("/books");
    reveal_strlit("/books/");
    let prefix = "/books/"@;
    let path = prefix + segment;
    assert(path.skip(7) =~= segment);
}

/// The gateway never repairs a fault of the store: it ends the operation with
/// a database error. It reports a failure as a database error or as not found,
/// never as invalid data; create and list never report not found; and whatever
/// the store says, every move brings the operation closer to its end.
pub proof fn gateway_failures(exchange: ExchangeView, outcome: OutcomeView)
    ensures
        outcome is Fault ==> exchange.resume(outcome) == TurnView::Done(
            Err(Error::DatabaseError),
        ),
        exchange.resume(outcome) != TurnView::Done(Err(Error::InvalidData)),
        exchange is Inserting || exchange is RereadingCreated || exchange is Listing
            ==> exchange.resume(outcome) != TurnView::Done(Err(Error::NotFound)),
        exchange.resume(outcome).statements_left() < exchange.statements_left(),
{
}

} // verus!
