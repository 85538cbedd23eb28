use boticordrs::errors::{check_status, finish_response};
use boticordrs::BoticordError;

#[test]
fn forbidden_is_reported_with_its_code() {
    let r = check_status(403);
    assert_eq!(r, Err(BoticordError::Status(403)));
    assert_eq!(r.unwrap_err().status(), Some(403));
}

#[test]
fn success_statuses_pass() {
    assert_eq!(check_status(200), Ok(()));
    assert_eq!(check_status(204), Ok(()));
    assert_eq!(check_status(299), Ok(()));
}

#[test]
fn other_statuses_fail() {
    for code in [0u16, 100, 199, 300, 301, 404, 429, 500, 503, u16::MAX] {
        let e = check_status(code).unwrap_err();
        assert_eq!(e, BoticordError::Status(code));
        assert_eq!(e.status(), Some(code));
    }
}

#[test]
fn status_error_wins_over_body() {
    let r: Result<u64, BoticordError> = finish_response(403, Ok(5));
    assert_eq!(r, Err(BoticordError::Status(403)));
    let r: Result<u64, BoticordError> = finish_response(500, Err("missing field `id`".to_string()));
    assert_eq!(r, Err(BoticordError::Status(500)));
}

#[test]
fn decoded_body_is_returned() {
    let r: Result<u64, BoticordError> = finish_response(200, Ok(5));
    assert_eq!(r, Ok(5));
}

#[test]
fn undecodable_body_is_a_decode_error() {
    let r: Result<u64, BoticordError> = finish_response(200, Err("missing field `id`".to_string()));
    let e = r.unwrap_err();
    assert_eq!(e, BoticordError::Decode("missing field `id`".to_string()));
    assert_eq!(e.status(), None);
}

#[test]
fn messages() {
    assert_eq!(BoticordError::Status(403).message(), "HTTP status 403");
    assert_eq!(BoticordError::Transport("connection refused".to_string()).message(), "connection refused");
    assert_eq!(BoticordError::Decode("bad".to_string()).message(), "bad");
    assert_eq!(BoticordError::Url(url::ParseError::EmptyHost).message(), "empty host");
    assert_eq!(BoticordError::Url(url::ParseError::EmptyHost).status(), None);
    assert_eq!(BoticordError::Transport("x".to_string()).status(), None);
}
