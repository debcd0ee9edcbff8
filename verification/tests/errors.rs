use notes_crud::errors::{handle_rejection, Error, Rejection, StoreFailure, DUPLICATE_KEY};
use notes_crud::response::{Body, GenericResponse, HttpReply};

fn generic(code: u16, status: &str, message: &str) -> HttpReply {
    HttpReply {
        code,
        body: Body::Generic(GenericResponse {
            status: status.to_string(),
            message: message.to_string(),
        }),
    }
}

#[test]
fn unknown_route_is_not_found() {
    assert_eq!(
        handle_rejection(&Rejection::NotFound),
        generic(404, "failed", "Route does not exist on the server")
    );
}

#[test]
fn unreadable_body_is_a_bad_request() {
    assert_eq!(
        handle_rejection(&Rejection::InvalidBody),
        generic(400, "failed", "Invalid Body")
    );
}

#[test]
fn wrong_method_is_not_allowed() {
    assert_eq!(
        handle_rejection(&Rejection::MethodNotAllowed),
        generic(405, "failed", "Method Not Allowed")
    );
}

#[test]
fn anything_else_is_an_internal_error() {
    assert_eq!(
        handle_rejection(&Rejection::Unhandled),
        generic(500, "error", "Internal Server Error")
    );
}

#[test]
fn gateway_errors_map_to_their_status_codes() {
    let detail = "boom".to_string();
    assert_eq!(
        handle_rejection(&Rejection::Custom(Error::MongoError(detail.clone()))),
        generic(500, "fail", "MongoDB error")
    );
    assert_eq!(
        handle_rejection(&Rejection::Custom(Error::MongoDuplicateError(detail.clone()))),
        generic(409, "fail", "Duplicate key error")
    );
    assert_eq!(
        handle_rejection(&Rejection::Custom(Error::MongoQueryError(detail.clone()))),
        generic(500, "fail", "Error during mongodb query")
    );
    assert_eq!(
        handle_rejection(&Rejection::Custom(Error::MongoSerializeBsonError(detail.clone()))),
        generic(500, "fail", "Error serializing BSON")
    );
    assert_eq!(
        handle_rejection(&Rejection::Custom(Error::MongoDataError(detail))),
        generic(400, "fail", "validation error")
    );
    assert_eq!(
        handle_rejection(&Rejection::Custom(Error::InvalidIDError("not-an-id".to_string()))),
        generic(400, "fail", "not-an-id")
    );
    assert_eq!(
        handle_rejection(&Rejection::Custom(Error::InvalidPaginationError)),
        generic(400, "fail", "Invalid pagination")
    );
}

#[test]
fn status_codes_of_errors() {
    assert_eq!(Error::MongoError(String::new()).status_code(), 500);
    assert_eq!(Error::MongoQueryError(String::new()).status_code(), 500);
    assert_eq!(Error::MongoDuplicateError(String::new()).status_code(), 409);
    assert_eq!(Error::MongoSerializeBsonError(String::new()).status_code(), 500);
    assert_eq!(Error::MongoDataError(String::new()).status_code(), 400);
    assert_eq!(Error::InvalidIDError(String::new()).status_code(), 400);
    assert_eq!(Error::InvalidPaginationError.status_code(), 400);
}

#[test]
fn errors_describe_themselves() {
    assert_eq!(Error::MongoError("a".to_string()).to_string(), "mongodb error: a");
    assert_eq!(
        Error::MongoQueryError("b".to_string()).to_string(),
        "error during mongodb query: b"
    );
    assert_eq!(
        Error::MongoDuplicateError("c".to_string()).to_string(),
        "duplicate key error occurred: c"
    );
    assert_eq!(
        Error::MongoSerializeBsonError("d".to_string()).to_string(),
        "could not serialize data: d"
    );
    assert_eq!(
        Error::MongoDataError("title".to_string()).to_string(),
        "could not access field in document: title"
    );
    assert_eq!(
        Error::InvalidIDError("not-an-id".to_string()).to_string(),
        "invalid id used: not-an-id"
    );
    assert_eq!(Error::InvalidPaginationError.to_string(), "invalid pagination");
}

#[test]
fn insert_failures_are_told_apart_by_code() {
    assert_eq!(DUPLICATE_KEY, 11000);
    let duplicate = StoreFailure { code: Some(11000), detail: "E11000".to_string() };
    assert_eq!(
        Error::from_insert_failure(duplicate),
        Error::MongoDuplicateError("E11000".to_string())
    );
    let other = StoreFailure { code: Some(121), detail: "validation".to_string() };
    assert_eq!(
        Error::from_insert_failure(other),
        Error::MongoQueryError("validation".to_string())
    );
    let network = StoreFailure {
        code: None,
        detail: "E11000 duplicate key error collection".to_string(),
    };
    assert_eq!(
        Error::from_insert_failure(network),
        Error::MongoQueryError("E11000 duplicate key error collection".to_string())
    );
}

#[test]
fn other_failures_are_query_failures() {
    let failure = StoreFailure { code: Some(11000), detail: "late".to_string() };
    assert_eq!(Error::from_query_failure(failure), Error::MongoQueryError("late".to_string()));
}
