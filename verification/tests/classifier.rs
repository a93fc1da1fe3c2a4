use notion_api_client::api::failure::classify;
use notion_api_client::api::failure::parse_retry_after_millis;
use notion_api_client::api::interpret_outcome;
use notion_api_client::http::Header;
use notion_api_client::http::HttpResponse;
use notion_api_client::http::TransportOutcome;

fn response(status: u16, headers: Vec<(&str, &str)>, body: &str) -> HttpResponse {
    HttpResponse {
        status,
        headers: headers
            .into_iter()
            .map(|(n, v)| Header {
                name: n.to_string(),
                value: v.to_string(),
            })
            .collect(),
        body: body.to_string(),
    }
}

#[test]
fn classifies_connection_failure_as_communication() {
    let outcome = TransportOutcome::Failure("Cannot resolve the target name.".to_string());
    let err = classify(&outcome);
    assert!(err.is_communication());
    assert!(!err.is_rate_limit());
    assert_eq!(err.retry_after(), None);
    assert_eq!(err.detail(), "Cannot resolve the target name.");
}

#[test]
fn classifies_400_as_bad_request_regardless_of_body() {
    let outcome = TransportOutcome::Response(response(400, vec![], "anything at all"));
    let err = classify(&outcome);
    assert!(err.is_bad_request());
    assert!(!err.is_authorization());
    assert_eq!(err.retry_after(), None);
}

#[test]
fn classifies_401_as_authorization_regardless_of_body() {
    let outcome = TransportOutcome::Response(response(401, vec![("X-Extra", "1")], "denied"));
    let err = classify(&outcome);
    assert!(err.is_authorization());
    assert!(!err.is_bad_request());
}

#[test]
fn classifies_other_statuses_as_unexpected() {
    for status in [404u16, 500, 503, 302] {
        let outcome = TransportOutcome::Response(response(status, vec![], ""));
        let err = classify(&outcome);
        assert!(err.is_unexptected_status());
        assert_eq!(err.retry_after(), None);
    }
}

#[test]
fn classifies_429_with_valid_header_as_exact_wait() {
    let outcome = TransportOutcome::Response(response(429, vec![("Retry-After", "2")], ""));
    let err = classify(&outcome);
    assert!(err.is_rate_limit());
    assert_eq!(err.retry_after(), Some(2000));

    let outcome = TransportOutcome::Response(response(429, vec![("Retry-After", "0.23")], ""));
    assert_eq!(classify(&outcome).retry_after(), Some(230));
}

#[test]
fn rate_limit_header_lookup_ignores_ascii_case() {
    let outcome = TransportOutcome::Response(response(429, vec![("retry-after", "3")], ""));
    assert_eq!(classify(&outcome).retry_after(), Some(3000));
}

#[test]
fn rate_limit_first_matching_header_wins() {
    let outcome = TransportOutcome::Response(response(
        429,
        vec![("Retry-After", "4"), ("Retry-After", "9")],
        "",
    ));
    assert_eq!(classify(&outcome).retry_after(), Some(4000));
}

#[test]
fn classifies_429_without_header_with_default_wait() {
    let outcome = TransportOutcome::Response(response(429, vec![], ""));
    let err = classify(&outcome);
    assert!(err.is_rate_limit());
    assert_eq!(err.retry_after(), Some(1000));
}

#[test]
fn classifies_429_with_unparseable_header_with_default_wait() {
    for bad in ["soon", "", "1e3", "1.2.3", "one", "inf", "+", "-", "."] {
        let outcome = TransportOutcome::Response(response(429, vec![("Retry-After", bad)], ""));
        assert_eq!(classify(&outcome).retry_after(), Some(1000), "input {:?}", bad);
    }
}

#[test]
fn parses_plain_decimal_seconds() {
    assert_eq!(parse_retry_after_millis("0"), Some(0));
    assert_eq!(parse_retry_after_millis("1"), Some(1000));
    assert_eq!(parse_retry_after_millis("1.0"), Some(1000));
    assert_eq!(parse_retry_after_millis("0.23"), Some(230));
    assert_eq!(parse_retry_after_millis("5."), Some(5000));
    assert_eq!(parse_retry_after_millis(".5"), Some(500));
    assert_eq!(parse_retry_after_millis("+1.5"), Some(1500));
    assert_eq!(parse_retry_after_millis("12.3456"), Some(12345));
    assert_eq!(parse_retry_after_millis("007"), Some(7000));
}

#[test]
fn clamps_negative_waits_to_zero() {
    assert_eq!(parse_retry_after_millis("-1"), Some(0));
    assert_eq!(parse_retry_after_millis("-0.5"), Some(0));
}

#[test]
fn saturates_oversized_waits() {
    assert_eq!(
        parse_retry_after_millis("18446744073709551616"),
        Some(u64::MAX)
    );
    assert_eq!(parse_retry_after_millis("18446744073709551.616"), Some(u64::MAX));
}

#[test]
fn rejects_text_that_is_not_a_decimal_number() {
    assert_eq!(parse_retry_after_millis(""), None);
    assert_eq!(parse_retry_after_millis("."), None);
    assert_eq!(parse_retry_after_millis("+."), None);
    assert_eq!(parse_retry_after_millis("1 "), None);
    assert_eq!(parse_retry_after_millis(" 1"), None);
    assert_eq!(parse_retry_after_millis("1,5"), None);
}

#[test]
fn success_outcome_is_returned_unchanged() {
    for status in [200u16, 201, 204, 299] {
        let outcome = TransportOutcome::Response(response(
            status,
            vec![("X-Request-Id", "abc")],
            "payload",
        ));
        match interpret_outcome(outcome) {
            Ok(resp) => {
                assert_eq!(resp.status, status);
                assert_eq!(resp.body, "payload");
                assert_eq!(resp.headers.len(), 1);
                assert_eq!(resp.headers[0].name, "X-Request-Id");
                assert_eq!(resp.headers[0].value, "abc");
            }
            Err(_) => panic!("a success outcome must not be classified"),
        }
    }
}

#[test]
fn failed_outcome_is_classified() {
    let outcome = TransportOutcome::Response(response(429, vec![("Retry-After", "1.5")], ""));
    match interpret_outcome(outcome) {
        Ok(_) => panic!("a rate-limited outcome must be classified"),
        Err(err) => {
            assert!(err.is_rate_limit());
            assert_eq!(err.retry_after(), Some(1500));
        }
    }

    let outcome = TransportOutcome::Failure("timed out".to_string());
    match interpret_outcome(outcome) {
        Ok(_) => panic!("a connection failure must be classified"),
        Err(err) => assert!(err.is_communication()),
    }
}
