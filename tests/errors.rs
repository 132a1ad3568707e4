use poke_api::errors::{Error, ErrorStatus, MyError, TransportFailure};

fn failure(decode: bool, request: bool, timeout: bool, status: Option<Option<u16>>) -> TransportFailure {
    TransportFailure {
        is_decode: decode,
        is_request: request,
        is_timeout: timeout,
        is_status: status.is_some(),
        status: status.flatten(),
        message: "upstream failed".to_string(),
    }
}

#[test]
fn error_new_keeps_fields() {
    let e = Error::new(ErrorStatus::TooManyRequests, "slow down".to_string());
    assert_eq!(e.status, ErrorStatus::TooManyRequests);
    assert_eq!(e.message, "slow down");
}

#[test]
fn classification_of_each_failure() {
    let k = |f| Error::from_transport(f).status;
    assert_eq!(k(failure(true, true, false, None)), ErrorStatus::DecodingError);
    assert_eq!(k(failure(false, true, false, None)), ErrorStatus::BadRequest);
    assert_eq!(k(failure(false, false, true, None)), ErrorStatus::BadRequest);
    assert_eq!(k(failure(false, false, false, Some(Some(429)))), ErrorStatus::TooManyRequests);
    assert_eq!(k(failure(false, false, false, Some(Some(500)))), ErrorStatus::BadRequest);
    assert_eq!(k(failure(false, false, false, Some(None))), ErrorStatus::InternalServerError);
    assert_eq!(k(failure(false, false, false, None)), ErrorStatus::InternalServerError);
    assert_eq!(Error::from_transport(failure(true, false, false, None)).message, "upstream failed");
}

#[test]
fn middleware_failure_is_internal() {
    let e = Error::from_middleware("cache broke".to_string());
    assert_eq!(e.status, ErrorStatus::InternalServerError);
    assert_eq!(e.message, "cache broke");
}

#[test]
fn get_pokemon_wrong_name() {
    let e = Error::from_transport(failure(false, false, false, Some(Some(404))));
    let answer = MyError::from(e);
    assert!(matches!(answer, MyError::BadRequest(ref m) if m == "Pokemon not found!"));
    assert_eq!(answer.status_code(), 400);
}

#[test]
fn endpoint_status_of_each_kind() {
    let code = |s| MyError::from(Error::new(s, String::new())).status_code();
    assert_eq!(code(ErrorStatus::BadRequest), 400);
    assert_eq!(code(ErrorStatus::DecodingError), 500);
    assert_eq!(code(ErrorStatus::RequestTimeout), 500);
    assert_eq!(code(ErrorStatus::TooManyRequests), 429);
    assert_eq!(code(ErrorStatus::InternalServerError), 500);
}

#[test]
fn endpoint_messages() {
    assert_eq!(MyError::BadRequest("x".to_string()).message(), "Bad Request: x");
    assert_eq!(MyError::InternalServerError.message(), "Internal server error");
    assert_eq!(MyError::DecodingError.message(), "Failed to decode body");
    assert_eq!(MyError::TooManyRequests.message(), "Too many requests!");
}
