//! Paths, methods and the route table.
use book_api::db::{Exchange, Statement};
use book_api::errors::{Error, Rejection};
use book_api::filters::{
    books, create_book, delete_book, get_book, get_books, route, update_book, Method, Route,
};
use book_api::handlers::{validate, Progress};
use book_api::models::NewBook;
use book_api::path::{parse_book_id, Target};

fn content(title: &str, author: &str) -> NewBook {
    NewBook {
        title: title.to_string(),
        author: author.to_string(),
        date_published: "2024-01-01".to_string(),
        cover_image: "http://example.com/cover.jpg".to_string(),
    }
}

#[test]
fn identifiers_are_decimal_integers() {
    assert_eq!(parse_book_id("0"), Some(0));
    assert_eq!(parse_book_id("12"), Some(12));
    assert_eq!(parse_book_id("9999"), Some(9999));
    assert_eq!(parse_book_id("999999"), Some(999999));
    assert_eq!(parse_book_id("0012"), Some(12));
    assert_eq!(parse_book_id("000000000000000000000000000007"), Some(7));
}

#[test]
fn identifiers_may_carry_a_sign() {
    assert_eq!(parse_book_id("+5"), Some(5));
    assert_eq!(parse_book_id("-5"), Some(-5));
    assert_eq!(parse_book_id("-0"), Some(0));
    assert_eq!(parse_book_id("+0"), Some(0));
    assert_eq!(parse_book_id("+"), None);
    assert_eq!(parse_book_id("-"), None);
    assert_eq!(parse_book_id("--5"), None);
    assert_eq!(parse_book_id("+-5"), None);
    assert_eq!(parse_book_id("5-"), None);
}

#[test]
fn identifiers_fit_in_thirty_two_bits() {
    assert_eq!(parse_book_id("2147483647"), Some(i32::MAX));
    assert_eq!(parse_book_id("+2147483647"), Some(i32::MAX));
    assert_eq!(parse_book_id("2147483648"), None);
    assert_eq!(parse_book_id("-2147483648"), Some(i32::MIN));
    assert_eq!(parse_book_id("-2147483649"), None);
    assert_eq!(parse_book_id("21474836470"), None);
    assert_eq!(parse_book_id("99999999999999999999999999"), None);
    assert_eq!(parse_book_id("-99999999999999999999999999"), None);
}

#[test]
fn identifiers_agree_with_the_standard_parser() {
    let mut segments: Vec<String> = Vec::new();
    for n in [-2147483648i64, -2147483649, -1000, -1, 0, 1, 9, 10, 2147483646, 2147483647, 2147483648, 4294967296] {
        segments.push(format!("{}", n));
        segments.push(format!("+{}", n));
        segments.push(format!("00{}", n));
    }
    for odd in ["", " ", "1 ", " 1", "1_000", "0x10", "1e3", "1.0", "١٢", "１２", "12\u{0}", "a"] {
        segments.push(odd.to_string());
    }
    for segment in segments {
        assert_eq!(parse_book_id(&segment), segment.parse::<i32>().ok(), "{:?}", segment);
    }
}

#[test]
fn anything_else_is_no_identifier() {
    for segment in ["", "abc", "1a", "a1", "1 ", " 1", "1.0", "1/2", "٣", "½", "１"] {
        assert_eq!(parse_book_id(segment), None, "{:?}", segment);
    }
}

#[test]
fn the_collection_has_one_path() {
    assert_eq!(Target::parse("/books"), Target::Collection);
    assert_eq!(Target::parse("/books/"), Target::Collection);
}

#[test]
fn a_book_has_its_identifier_in_the_path() {
    assert_eq!(Target::parse("/books/1"), Target::Item(1));
    assert_eq!(Target::parse("/books/9999"), Target::Item(9999));
    assert_eq!(Target::parse("/books/1/"), Target::Item(1));
    assert_eq!(Target::parse("/books/-3"), Target::Item(-3));
    assert_eq!(Target::parse("/books/+3"), Target::Item(3));
    assert_eq!(Target::parse("/books/007"), Target::Item(7));
    assert_eq!(Target::parse("/books/2147483647"), Target::Item(i32::MAX));
}

#[test]
fn other_paths_point_at_nothing() {
    for path in [
        "",
        "/",
        "books",
        "/book",
        "/books1",
        "/booksx/1",
        "/Books",
        "/BOOKS/1",
        "//books",
        "/books//",
        "/books//1",
        "/books/1//",
        "/books/1/2",
        "/books/abc",
        "/books/1a",
        "/books/ 1",
        "/books/1.5",
        "/books/2147483648",
        "/books/-2147483649",
        "/books/+",
        "/books/é",
        "/bøoks",
        "/books/١",
        "/api/books",
        "/books?x=1",
    ] {
        assert_eq!(Target::parse(path), Target::Unknown, "{:?}", path);
    }
}

#[test]
fn method_names_are_case_sensitive() {
    assert_eq!(Method::parse("GET"), Method::Get);
    assert_eq!(Method::parse("POST"), Method::Post);
    assert_eq!(Method::parse("PUT"), Method::Put);
    assert_eq!(Method::parse("DELETE"), Method::Delete);
    for name in ["get", "Get", "PATCH", "HEAD", "OPTIONS", "", "GET ", "DELETE\n", "PÜT"] {
        assert_eq!(Method::parse(name), Method::Other, "{:?}", name);
    }
}

#[test]
fn each_route_binds_its_own_method_and_path() {
    assert_eq!(get_books(Method::Get, Target::Collection), Ok(Route::ListBooks));
    assert_eq!(create_book(Method::Post, Target::Collection), Ok(Route::CreateBook));
    assert_eq!(get_book(Method::Get, Target::Item(4)), Ok(Route::GetBook(4)));
    assert_eq!(update_book(Method::Put, Target::Item(4)), Ok(Route::UpdateBook(4)));
    assert_eq!(delete_book(Method::Delete, Target::Item(4)), Ok(Route::DeleteBook(4)));
}

#[test]
fn a_route_looks_at_the_path_before_the_method() {
    let bindings = [get_books, create_book, get_book, update_book, delete_book];
    let methods = [Method::Get, Method::Post, Method::Put, Method::Delete, Method::Other];
    for binding in bindings {
        for method in methods {
            assert_eq!(binding(method, Target::Unknown), Err(Rejection::NotFound));
        }
    }
    for method in methods {
        assert_eq!(get_books(method, Target::Item(1)), Err(Rejection::NotFound));
        assert_eq!(create_book(method, Target::Item(1)), Err(Rejection::NotFound));
        assert_eq!(get_book(method, Target::Collection), Err(Rejection::NotFound));
        assert_eq!(update_book(method, Target::Collection), Err(Rejection::NotFound));
        assert_eq!(delete_book(method, Target::Collection), Err(Rejection::NotFound));
    }
    assert_eq!(get_books(Method::Post, Target::Collection), Err(Rejection::MethodNotAllowed));
    assert_eq!(create_book(Method::Get, Target::Collection), Err(Rejection::MethodNotAllowed));
    assert_eq!(get_book(Method::Put, Target::Item(1)), Err(Rejection::MethodNotAllowed));
    assert_eq!(update_book(Method::Delete, Target::Item(1)), Err(Rejection::MethodNotAllowed));
    assert_eq!(delete_book(Method::Other, Target::Item(1)), Err(Rejection::MethodNotAllowed));
}

#[test]
fn the_route_table_has_five_rows() {
    assert_eq!(route(Method::Get, Target::Collection), Ok(Route::ListBooks));
    assert_eq!(route(Method::Post, Target::Collection), Ok(Route::CreateBook));
    assert_eq!(route(Method::Put, Target::Collection), Err(Rejection::MethodNotAllowed));
    assert_eq!(route(Method::Delete, Target::Collection), Err(Rejection::MethodNotAllowed));
    assert_eq!(route(Method::Other, Target::Collection), Err(Rejection::MethodNotAllowed));
    assert_eq!(route(Method::Get, Target::Item(8)), Ok(Route::GetBook(8)));
    assert_eq!(route(Method::Put, Target::Item(8)), Ok(Route::UpdateBook(8)));
    assert_eq!(route(Method::Delete, Target::Item(8)), Ok(Route::DeleteBook(8)));
    assert_eq!(route(Method::Post, Target::Item(8)), Err(Rejection::MethodNotAllowed));
    assert_eq!(route(Method::Other, Target::Item(8)), Err(Rejection::MethodNotAllowed));
    for method in [Method::Get, Method::Post, Method::Put, Method::Delete, Method::Other] {
        assert_eq!(route(method, Target::Unknown), Err(Rejection::NotFound));
    }
}

#[test]
fn validation_looks_at_title_and_author_only() {
    assert_eq!(validate(&content("T", "A")), Ok(()));
    assert_eq!(validate(&content("", "A")), Err(Error::InvalidData));
    assert_eq!(validate(&content("T", "")), Err(Error::InvalidData));
    assert_eq!(validate(&content("", "")), Err(Error::InvalidData));
    assert_eq!(validate(&content(" ", "\t")), Ok(()));
    let bare = NewBook {
        title: "T".to_string(),
        author: "A".to_string(),
        date_published: String::new(),
        cover_image: String::new(),
    };
    assert_eq!(validate(&bare), Ok(()));
    assert!(bare.is_valid());
    assert!(!content("", "A").is_valid());
}

#[test]
fn a_request_starts_with_its_first_statement() {
    assert_eq!(
        books(Method::Get, "/books", None),
        Progress::Ask(Statement::SelectAll, Exchange::Listing)
    );
    assert_eq!(
        books(Method::Post, "/books", Some(content("T", "A"))),
        Progress::Ask(Statement::Insert(content("T", "A")), Exchange::Inserting)
    );
    assert_eq!(
        books(Method::Get, "/books/12", None),
        Progress::Ask(Statement::SelectById(12), Exchange::Getting)
    );
    assert_eq!(
        books(Method::Put, "/books/12", Some(content("T", "A"))),
        Progress::Ask(Statement::SelectById(12), Exchange::Probing(12, content("T", "A")))
    );
    assert_eq!(
        books(Method::Delete, "/books/12", None),
        Progress::Ask(Statement::DeleteById(12), Exchange::Deleting)
    );
}

#[test]
fn a_request_can_be_turned_away_at_once() {
    assert_eq!(
        books(Method::Post, "/books", Some(content("", "A"))),
        Progress::Reply(Err(Rejection::Custom(Error::InvalidData)))
    );
    assert_eq!(
        books(Method::Put, "/books/12", Some(content("T", ""))),
        Progress::Reply(Err(Rejection::Custom(Error::InvalidData)))
    );
    assert_eq!(
        books(Method::Post, "/books", None),
        Progress::Reply(Err(Rejection::Unclassified))
    );
    assert_eq!(
        books(Method::Put, "/books/12", None),
        Progress::Reply(Err(Rejection::Unclassified))
    );
    assert_eq!(
        books(Method::Put, "/books/twelve", Some(content("", ""))),
        Progress::Reply(Err(Rejection::NotFound))
    );
    assert_eq!(
        books(Method::Delete, "/books", Some(content("", ""))),
        Progress::Reply(Err(Rejection::MethodNotAllowed))
    );
    assert_eq!(
        books(Method::Other, "/nothing", None),
        Progress::Reply(Err(Rejection::NotFound))
    );
}
