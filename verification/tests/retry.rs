use notion_api_client::api::failure::Error;
use notion_api_client::api::failure::ErrorKind;
use notion_api_client::api::retry_decision;
use notion_api_client::api::send_with_retries;
use notion_api_client::api::RetryDecision;
use notion_api_client::RetryParameters;
use std::cell::Cell;

fn rate_limit(ms: u64) -> Error {
    Error::new(ErrorKind::RateLimit(ms), String::new())
}

#[test]
fn returns_success_after_two_rate_limited_attempts() {
    let calls = Cell::new(0u32);
    let waits = Cell::new(0u32);
    let waited_for = Cell::new(0u64);

    let result = send_with_retries(
        || {
            calls.set(calls.get() + 1);
            if calls.get() <= 2 {
                Err(rate_limit(5))
            } else {
                Ok(42u32)
            }
        },
        |ms| {
            waits.set(waits.get() + 1);
            waited_for.set(waited_for.get() + ms);
        },
    );

    assert_eq!(result.ok(), Some(42));
    assert_eq!(calls.get(), 3);
    assert_eq!(waits.get(), 2);
    assert_eq!(waited_for.get(), 10);
}

#[test]
fn exhausts_retries_on_a_persistent_rate_limit() {
    let calls = Cell::new(0u32);
    let waits = Cell::new(0u32);

    let result = send_with_retries(
        || {
            calls.set(calls.get() + 1);
            Err::<u32, Error>(rate_limit(7))
        },
        |_ms| waits.set(waits.get() + 1),
    );

    let err = result.unwrap_err();
    assert!(err.is_rate_limit());
    assert_eq!(err.retry_after(), Some(7));
    assert_eq!(calls.get(), 4);
    assert_eq!(waits.get(), 3);
}

#[test]
fn returns_a_non_retryable_failure_at_once() {
    let calls = Cell::new(0u32);
    let waits = Cell::new(0u32);

    let result = send_with_retries(
        || {
            calls.set(calls.get() + 1);
            Err::<u32, Error>(Error::new(ErrorKind::BadRequest, "bad".to_string()))
        },
        |_ms| waits.set(waits.get() + 1),
    );

    let err = result.unwrap_err();
    assert!(err.is_bad_request());
    assert_eq!(err.detail(), "bad");
    assert_eq!(calls.get(), 1);
    assert_eq!(waits.get(), 0);
}

#[test]
fn returns_authorization_and_communication_failures_at_once() {
    for kind in [ErrorKind::Authorization, ErrorKind::Communication, ErrorKind::Unexpected(500)] {
        let waits = Cell::new(0u32);
        let result = send_with_retries(
            || Err::<u32, Error>(Error::new(kind, String::new())),
            |_ms| waits.set(waits.get() + 1),
        );
        assert!(result.is_err());
        assert_eq!(waits.get(), 0);
    }
}

#[test]
fn test_send_with_reries_returns_status_200() {
    let sleep_count = Cell::new(0u8);

    let result = send_with_retries(
        || Ok::<u16, Error>(200),
        |_ms| sleep_count.set(sleep_count.get() + 1),
    );

    assert_eq!(result.ok(), Some(200));
    assert_eq!(sleep_count.get(), 0);
}

#[test]
fn retries_only_rate_limits_and_only_while_attempts_remain() {
    let limited = rate_limit(9);
    assert_eq!(retry_decision(&limited, 0), RetryDecision::Wait(9));
    assert_eq!(retry_decision(&limited, 2), RetryDecision::Wait(9));
    assert_eq!(retry_decision(&limited, 3), RetryDecision::Stop);
    let bad = Error::new(ErrorKind::BadRequest, String::new());
    assert_eq!(retry_decision(&bad, 0), RetryDecision::Stop);
    let lost = Error::new(ErrorKind::Communication, String::new());
    assert_eq!(retry_decision(&lost, 1), RetryDecision::Stop);
}

#[test]
fn retry_parameters_default_to_no_custom_sleep() {
    let parameters: RetryParameters<fn(u64)> = RetryParameters::default();
    assert!(parameters.custom_sleep.is_none());
}
