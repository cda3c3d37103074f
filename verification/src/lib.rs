//! The decision logic of a small book-keeping web service.
//!
//! A request passes through four stages: the route table in [`filters`] picks a
//! handler, the handler in [`handlers`] validates the payload, the persistence
//! gateway in [`db`] talks to the book table, and the responder in [`errors`]
//! turns whatever went wrong into a status and a fixed phrase.
//!
//! Nothing here touches a socket or a database. The gateway is a state machine:
//! it hands out one [`db::Statement`] at a time and is resumed with the
//! [`db::Outcome`] that the store reported for it. The caller owns the
//! connection and runs the statements:
//!
//! ```text
//! let mut progress = filters::books(method, path, body);
//! loop {
//!     match progress {
//!         Progress::Ask(statement, exchange) => {
//!             progress = handlers::resume(exchange, run(statement));
//!         }
//!         Progress::Reply(reply) => return errors::recover(reply),
//!     }
//! }
//! ```
//!
//! [`store`] says what the gateway expects of the book table, and [`laws`]
//! holds what is proved of the service when the table keeps to it.
pub mod models;

pub mod reply;

pub mod errors;

pub mod db;

pub mod path;

pub mod handlers;

pub mod filters;

pub mod store;

pub mod laws;
