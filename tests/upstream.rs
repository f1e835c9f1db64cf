use six_degrees_backend::upstream::{check_lookup_reply, check_search_reply, finish, status_for, UpstreamError};

fn transport_error() -> reqwest::Error {
    reqwest::Client::new().get("not a url").build().unwrap_err()
}

#[test]
fn lookup_success_parses_body() {
    let checked = check_lookup_reply(Ok(200));
    assert!(checked.is_ok());
    assert_eq!(finish(checked, Ok(Some(2227))).unwrap(), 2227);
}

#[test]
fn lookup_404_is_not_found() {
    let checked = check_lookup_reply(Ok(404));
    assert!(matches!(checked, Err(UpstreamError::NotFound)));
    let outcome: Result<i32, UpstreamError> = finish(checked, Ok(None));
    assert!(matches!(outcome, Err(UpstreamError::NotFound)));
    assert_eq!(status_for(&UpstreamError::NotFound), 404);
}

#[test]
fn lookup_other_failures_are_gateway_errors() {
    assert!(matches!(check_lookup_reply(Ok(500)), Err(UpstreamError::Status(500))));
    assert!(matches!(check_lookup_reply(Ok(401)), Err(UpstreamError::Status(401))));
    assert!(matches!(check_lookup_reply(Err(transport_error())), Err(UpstreamError::Transport(_))));
    assert_eq!(status_for(&UpstreamError::Status(500)), 502);
    assert_eq!(status_for(&UpstreamError::Transport(transport_error())), 502);
    assert_eq!(status_for(&UpstreamError::Parse), 502);
}

#[test]
fn transport_error_keeps_its_cause() {
    match check_search_reply(Err(transport_error())) {
        Err(UpstreamError::Transport(e)) => assert!(e.is_builder()),
        _ => panic!("expected a transport error"),
    }
}

#[test]
fn malformed_body_is_parse_error() {
    let outcome: Result<i32, UpstreamError> = finish(check_lookup_reply(Ok(200)), Ok(None));
    assert!(matches!(outcome, Err(UpstreamError::Parse)));
}

#[test]
fn unreadable_body_is_transport_error() {
    let outcome: Result<i32, UpstreamError> = finish(check_lookup_reply(Ok(200)), Err(transport_error()));
    assert!(matches!(outcome, Err(UpstreamError::Transport(_))));
}

#[test]
fn search_has_no_not_found() {
    assert!(check_search_reply(Ok(200)).is_ok());
    assert!(check_search_reply(Ok(299)).is_ok());
    assert!(matches!(check_search_reply(Ok(404)), Err(UpstreamError::Status(404))));
    assert!(matches!(check_search_reply(Ok(300)), Err(UpstreamError::Status(300))));
    assert!(matches!(check_search_reply(Err(transport_error())), Err(UpstreamError::Transport(_))));
    assert_eq!(status_for(&UpstreamError::Status(404)), 502);
}

#[test]
fn search_success_keeps_parsed_result() {
    let outcome = finish(check_search_reply(Ok(200)), Ok(Some((1, 1, 1))));
    assert_eq!(outcome.unwrap(), (1, 1, 1));
}

#[test]
fn repeated_lookup_gives_equal_results() {
    let first = finish(check_lookup_reply(Ok(200)), Ok(Some(2227))).unwrap();
    let second = finish(check_lookup_reply(Ok(200)), Ok(Some(2227))).unwrap();
    assert_eq!(first, second);
}
