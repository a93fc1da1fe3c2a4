use notion_api_client::failure::Error;

#[test]
fn test_rate_limit_error_message() {
    let err = Error::RateLimit(230);

    assert_eq!(
        err.message(),
        "Notion API request failure. Please retry in 230ms"
    )
}

#[test]
fn test_status_code_error_message() {
    let err = Error::Status(404);

    assert_eq!(
        err.message(),
        "Notion API request failed with status code 404"
    )
}

#[test]
fn test_transport_error_message() {
    let err = Error::Transport("Cannot resolve the target name.".to_string());

    assert_eq!(
        err.message(),
        "Notion API request failure: Cannot resolve the target name."
    );
}

#[test]
fn test_rate_limit_message_whole_seconds() {
    assert_eq!(
        Error::RateLimit(2000).message(),
        "Notion API request failure. Please retry in 2s"
    );
}

#[test]
fn test_rate_limit_message_mixed_seconds() {
    assert_eq!(
        Error::RateLimit(1500).message(),
        "Notion API request failure. Please retry in 1.5s"
    );
    assert_eq!(
        Error::RateLimit(1050).message(),
        "Notion API request failure. Please retry in 1.05s"
    );
    assert_eq!(
        Error::RateLimit(1005).message(),
        "Notion API request failure. Please retry in 1.005s"
    );
}

#[test]
fn test_rate_limit_message_zero_wait() {
    assert_eq!(
        Error::RateLimit(0).message(),
        "Notion API request failure. Please retry in 0ns"
    );
}
