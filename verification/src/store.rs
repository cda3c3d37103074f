//! What the gateway expects of the book table, written down as a model.
//!
//! The table maps identifiers to the four content fields. Identifiers are
//! handed out in increasing order, starting at one, and never handed out
//! twice, not even after the row is gone. The model answers every statement
//! the way a healthy store does; it reports a fault only when it has run out
//! of identifiers. It is a yardstick for the gateway, not a store to run.
use crate::db::{OutcomeView, StatementView};
use crate::errors::{recovered, Rejection};
use crate::filters::{books_plan, Method};
use crate::handlers::{create_book_plan, progress_for, ProgressView};
use crate::models::{BookView, NewBookView};
use crate::reply::ResponseView;
use vstd::prelude::*;

verus! {

/// The book table.
pub ghost struct Table {
    /// The content stored under each identifier in use.
    pub rows: Map<i32, NewBookView>,
    /// The identifier that the next insert will generate.
    pub next_id: int,
}

impl Table {
    /// Identifiers in use are positive and below the next one to be handed
    /// out, which is at most one past the largest `i32`.
    pub open spec fn well_formed(self) -> bool {
        &&& 1 <= self.next_id <= i32::MAX + 1
        &&& forall|id: i32| #[trigger] self.rows.dom().contains(id) ==> 1 <= id < self.next_id
    }

    /// Every row has a title and an author.
    pub open spec fn all_valid(self) -> bool {
        forall|id: i32| #[trigger] self.rows.dom().contains(id) ==> self.rows[id].is_valid()
    }

    /// Whether `count` more identifiers can be handed out.
    pub open spec fn has_room_for(self, count: nat) -> bool {
        self.next_id + count <= i32::MAX + 1
    }

    /// Whether a row has this identifier.
    pub open spec fn has(self, id: i32) -> bool {
        self.rows.dom().contains(id)
    }

    /// The row with this identifier, if there is one.
    pub open spec fn find(self, id: i32) -> Option<BookView> {
        if self.has(id) {
            Some(self.rows[id].stored(id))
        } else {
            None
        }
    }

    /// The rows with identifiers from one up to `bound`, in that order.
    pub open spec fn rows_up_to(self, bound: int) -> Seq<BookView>
        decreases bound,
    {
        if bound <= 0 {
            Seq::empty()
        } else {
            let before = self.rows_up_to(bound - 1);
            match self.find(bound as i32) {
                Some(book) => before.push(book),
                None => before,
            }
        }
    }

    /// All rows, by ascending identifier.
    pub open spec fn listing(self) -> Seq<BookView> {
        self.rows_up_to(self.next_id - 1)
    }

    /// The store's answer to a statement, and the table after it.
    pub open spec fn answer(self, statement: StatementView) -> (OutcomeView, Table) {
        match statement {
            StatementView::Insert(content) => if self.has_room_for(1) {
                (
                    OutcomeView::Inserted(self.next_id as i32),
                    Table {
                        rows: self.rows.insert(self.next_id as i32, content),
                        next_id: self.next_id + 1,
                    },
                )
            } else {
                (OutcomeView::Fault, self)
            },
            StatementView::SelectAll => (OutcomeView::Rows(self.listing()), self),
            StatementView::SelectById(id) => (OutcomeView::Row(self.find(id)), self),
            StatementView::UpdateById(id, content) => if self.has(id) {
                (
                    OutcomeView::Affected(1),
                    Table { rows: self.rows.insert(id, content), next_id: self.next_id },
                )
            } else {
                (OutcomeView::Affected(0), self)
            },
            StatementView::DeleteById(id) => if self.has(id) {
                (
                    OutcomeView::Affected(1),
                    Table { rows: self.rows.remove(id), next_id: self.next_id },
                )
            } else {
                (OutcomeView::Affected(0), self)
            },
        }
    }

    /// Carries a request through to its reply: every statement it asks for is
    /// answered by this table. Yields the reply and the table left behind.
    pub open spec fn complete(self, progress: ProgressView) -> (
        Result<ResponseView, Rejection>,
        Table,
    )
        decreases progress.statements_left(),
    {
        match progress {
            ProgressView::Reply(reply) => (reply, self),
            ProgressView::Ask(statement, exchange) => {
                let (outcome, table) = self.answer(statement);
                table.complete(progress_for(exchange.resume(outcome)))
            },
        }
    }

    /// The table after one create for each input, in order.
    pub open spec fn create_each(self, inputs: Seq<NewBookView>) -> Table
        decreases inputs.len(),
    {
        if inputs.len() == 0 {
            self
        } else {
            self.create_each(inputs.drop_last()).complete(
                create_book_plan(inputs.last()),
            ).1
        }
    }

    /// Serves one request from start to finish: the response that goes out,
    /// and the table left behind.
    pub open spec fn serve(self, method: Method, path: Seq<char>, body: Option<NewBookView>) -> (
        ResponseView,
        Table,
    ) {
        let (reply, table) = self.complete(books_plan(method, path, body));
        (recovered(reply), table)
    }
}

} // verus!
