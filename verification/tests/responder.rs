//! The responder: one status and one phrase per kind of failure.
use book_api::errors::{handle_rejection, recover, Error, Rejection};
use book_api::models::Book;
use book_api::reply::{
    Body, Response, BAD_REQUEST, INTERNAL_SERVER_ERROR, METHOD_NOT_ALLOWED, NOT_FOUND, NO_CONTENT,
    OK,
};

fn reported(rejection: Rejection, status: u16, phrase: &str) {
    let response = handle_rejection(rejection);
    assert_eq!(response, Response { status, body: Body::Text(phrase.to_string()) });
    assert_eq!(recover(Err(rejection)), response);
}

#[test]
fn database_error_is_500() {
    reported(Rejection::Custom(Error::DatabaseError), 500, "Internal Server Error");
}

#[test]
fn not_found_is_404() {
    reported(Rejection::Custom(Error::NotFound), 404, "Not Found");
}

#[test]
fn invalid_data_is_400() {
    reported(Rejection::Custom(Error::InvalidData), 400, "Invalid Data");
}

#[test]
fn no_route_is_404() {
    reported(Rejection::NotFound, 404, "Not Found");
}

#[test]
fn wrong_method_is_405() {
    reported(Rejection::MethodNotAllowed, 405, "Method Not Allowed");
}

#[test]
fn unclassified_is_500() {
    reported(Rejection::Unclassified, 500, "Internal Server Error");
}

#[test]
fn status_codes_have_their_usual_numbers() {
    assert_eq!(OK, 200);
    assert_eq!(NO_CONTENT, 204);
    assert_eq!(BAD_REQUEST, 400);
    assert_eq!(NOT_FOUND, 404);
    assert_eq!(METHOD_NOT_ALLOWED, 405);
    assert_eq!(INTERNAL_SERVER_ERROR, 500);
}

#[test]
fn a_response_passes_through_recovery() {
    let book = Book {
        id: Some(3),
        title: "T".to_string(),
        author: "A".to_string(),
        date_published: "2024-01-01".to_string(),
        cover_image: "http://x/y.jpg".to_string(),
    };
    let response = Response { status: 200, body: Body::Book(book) };
    assert_eq!(recover(Ok(response.clone())), response);
    let empty = Response { status: 204, body: Body::Empty };
    assert_eq!(recover(Ok(empty.clone())), empty);
}
