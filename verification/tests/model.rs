use github_events::config::Config;
use github_events::error::AppError;
use github_events::record::{GithubEvent, RawFrame};
use github_events::status::{decimal_text, is_accepted, refusal_text};

#[test]
fn default_endpoint_is_the_firehose() {
    assert_eq!(Config::default().api_url, "http://github-firehose.libraries.io/events");
    assert_eq!(Config::default().url(), "http://github-firehose.libraries.io/events");
}

#[test]
fn endpoint_override_replaces_the_default() {
    let config = Config::resolve(Some("http://localhost:7020/events".to_string()));
    assert_eq!(config.url(), "http://localhost:7020/events");
    assert_eq!(Config::resolve(None), Config::default());
}

#[test]
fn record_constructors_keep_their_arguments() {
    let event = GithubEvent::new("1".to_string(), "PushEvent".to_string(), "alice".to_string());
    assert_eq!(event.id, "1");
    assert_eq!(event.event_type, "PushEvent");
    assert_eq!(event.actor.display_login, "alice");
    let frame = RawFrame::new("message".to_string(), "{}".to_string());
    assert_eq!(frame.event_type, "message");
    assert_eq!(frame.payload, "{}");
}

#[test]
fn rendering_puts_each_field_on_its_line() {
    let event =
        GithubEvent::new("2489".to_string(), "IssuesEvent".to_string(), "octo-cat".to_string());
    assert_eq!(event.render(), "id: 2489\ntype: IssuesEvent\ndisplay login: octo-cat");
    let empty = GithubEvent::new(String::new(), String::new(), String::new());
    assert_eq!(empty.render(), "id: \ntype: \ndisplay login: ");
}

#[test]
fn message_names_the_kind_and_the_cause() {
    assert_eq!(
        AppError::RequestError("connection refused".to_string()).message(),
        "HTTP request failed: connection refused"
    );
    assert_eq!(
        AppError::EventStreamError("Parse error".to_string()).message(),
        "Event stream error: Parse error"
    );
    assert_eq!(
        AppError::JsonError {
            payload: "{".to_string(),
            reason: "EOF while parsing an object at line 1 column 1".to_string(),
        }
        .message(),
        "JSON parsing error: EOF while parsing an object at line 1 column 1"
    );
    assert_eq!(
        AppError::ConfigError("no endpoint".to_string()).message(),
        "Configuration error: no endpoint"
    );
    assert_eq!(AppError::SinkError("broken pipe".to_string()).message(), "Output error: broken pipe");
}

#[test]
fn diagnostic_line_says_where_the_error_was_met() {
    assert_eq!(
        AppError::RequestError("timed out".to_string()).diagnostic(),
        "Application error: HTTP request failed: timed out"
    );
    assert_eq!(
        AppError::ConfigError("no endpoint".to_string()).diagnostic(),
        "Application error: Configuration error: no endpoint"
    );
    assert_eq!(
        AppError::EventStreamError("UTF8 error".to_string()).diagnostic(),
        "Event stream error: UTF8 error"
    );
    assert_eq!(
        AppError::JsonError { payload: "x".to_string(), reason: "expected value".to_string() }
            .diagnostic(),
        "Event stream error: JSON parsing error: expected value"
    );
    assert_eq!(
        AppError::SinkError("broken pipe".to_string()).diagnostic(),
        "Output error: broken pipe"
    );
}

#[test]
fn only_a_failed_start_is_fatal() {
    assert!(AppError::RequestError(String::new()).fatal());
    assert!(AppError::ConfigError(String::new()).fatal());
    assert!(!AppError::EventStreamError(String::new()).fatal());
    assert!(!AppError::JsonError { payload: String::new(), reason: String::new() }.fatal());
    assert!(!AppError::SinkError(String::new()).fatal());
}

#[test]
fn statuses_from_200_to_299_are_accepted() {
    assert!(!is_accepted(0));
    assert!(!is_accepted(100));
    assert!(!is_accepted(199));
    assert!(is_accepted(200));
    assert!(is_accepted(204));
    assert!(is_accepted(299));
    assert!(!is_accepted(300));
    assert!(!is_accepted(404));
    assert!(!is_accepted(500));
    assert!(!is_accepted(u16::MAX));
}

#[test]
fn numbers_are_written_in_decimal() {
    assert_eq!(decimal_text(0), "0");
    assert_eq!(decimal_text(7), "7");
    assert_eq!(decimal_text(10), "10");
    assert_eq!(decimal_text(404), "404");
    assert_eq!(decimal_text(1000), "1000");
    assert_eq!(decimal_text(65535), "65535");
    for n in [1u16, 9, 99, 100, 101, 250, 12345] {
        assert_eq!(decimal_text(n), n.to_string());
    }
}

#[test]
fn refusal_names_the_status() {
    assert_eq!(refusal_text(503), "unexpected HTTP status 503");
    assert_eq!(refusal_text(301), "unexpected HTTP status 301");
}
