//! Why a request failed, and what the client is told about it.
use crate::reply::{
    Body, BodyView, Response, ResponseView, BAD_REQUEST, INTERNAL_SERVER_ERROR,
    METHOD_NOT_ALLOWED, NOT_FOUND,
};
use vstd::prelude::*;

verus! {

/// The three ways an operation on books can fail.
#[derive(Debug, Clone, Copy, PartialEq, Eq, Structural)]
pub enum Error {
    /// The store reported a fault: a broken constraint, a lost connection, an
    /// answer that makes no sense for the statement that was run.
    DatabaseError,
    /// No row has the identifier that was asked for.
    NotFound,
    /// The payload has an empty title or an empty author.
    InvalidData,
}

/// Why a request was turned away. Exactly one of these is reported per failed
/// request; there is no chain of causes behind it.
#[derive(Debug, Clone, Copy, PartialEq, Eq, Structural)]
pub enum Rejection {
    /// A handler failed with one of the three domain errors.
    Custom(Error),
    /// No route has this path.
    NotFound,
    /// A route has this path, but not under this method.
    MethodNotAllowed,
    /// Anything else, such as a body that could not be decoded.
    Unclassified,
}

impl Rejection {
    /// The status code that reports this rejection.
    pub open spec fn status(self) -> u16 {
        match self {
            Rejection::Custom(Error::DatabaseError) => INTERNAL_SERVER_ERROR,
            Rejection::Custom(Error::NotFound) => NOT_FOUND,
            Rejection::Custom(Error::InvalidData) => BAD_REQUEST,
            Rejection::NotFound => NOT_FOUND,
            Rejection::MethodNotAllowed => METHOD_NOT_ALLOWED,
            Rejection::Unclassified => INTERNAL_SERVER_ERROR,
        }
    }

    /// The phrase sent as the body. It depends on the kind of failure alone:
    /// no detail of what the store said ever reaches the client.
    pub open spec fn phrase(self) -> Seq<char> {
        match self {
            Rejection::Custom(Error::DatabaseError) => "Internal Server Error"@,
            Rejection::Custom(Error::NotFound) => "Not Found"@,
            Rejection::Custom(Error::InvalidData) => "Invalid Data"@,
            Rejection::NotFound => "Not Found"@,
            Rejection::MethodNotAllowed => "Method Not Allowed"@,
            Rejection::Unclassified => "Internal Server Error"@,
        }
    }

    /// The response that reports this rejection.
    pub open spec fn response(self) -> ResponseView {
        ResponseView { status: self.status(), body: BodyView::Text(self.phrase()) }
    }
}

/// What the client receives for a reply that may be a rejection.
pub open spec fn recovered(reply: Result<ResponseView, Rejection>) -> ResponseView {
    match reply {
        Ok(response) => response,
        Err(rejection) => rejection.response(),
    }
}

/// Turns a rejection into the response that reports it. This is the only place
/// where a failure becomes a status code.
pub fn handle_rejection(err: Rejection) -> (response: Response)
    ensures
        response@ == err.response(),
{
    let (code, message) = match err {
        Rejection::Custom(error) => match error {
            Error::DatabaseError => (INTERNAL_SERVER_ERROR, "Internal Server Error"),
            Error::NotFound => (NOT_FOUND, "Not Found"),
            Error::InvalidData => (BAD_REQUEST, "Invalid Data"),
        },
        Rejection::NotFound => (NOT_FOUND, "Not Found"),
        Rejection::MethodNotAllowed => (METHOD_NOT_ALLOWED, "Method Not Allowed"),
        Rejection::Unclassified => (INTERNAL_SERVER_ERROR, "Internal Server Error"),
    };
    Response { status: code, body: Body::Text(message.to_owned()) }
}

/// Passes a successful response through and reports a rejection.
pub fn recover(reply: Result<Response, Rejection>) -> (response: Response)
    ensures
        response@ == recovered(reply_view(reply)),
{
    match reply {
        Ok(response) => response,
        Err(rejection) => handle_rejection(rejection),
    }
}

/// The view of a reply that may be a rejection.
pub open spec fn reply_view(reply: Result<Response, Rejection>) -> Result<
    ResponseView,
    Rejection,
> {
    match reply {
        Ok(response) => Ok(response@),
        Err(rejection) => Err(rejection),
    }
}

} // verus!
