use storm_services::config::value_or_default;
use storm_services::core_api;
use storm_services::errors::{AppError, ErrorResponse};
use storm_services::models::ResponseInfo;

#[test]
fn error_response_new_keeps_both_parts() {
    let r = ErrorResponse::new("BadRequest", "Invalid request body: eof");
    assert_eq!(r.error, "BadRequest");
    assert_eq!(r.message, "Invalid request body: eof");
}

#[test]
fn app_error_messages() {
    assert_eq!(AppError::NotFound(String::from("event 7")).message(), "Resource not found: event 7");
    assert_eq!(AppError::InvalidInput(String::from("limit")).message(), "Invalid input: limit");
    assert_eq!(AppError::Internal(String::from("db")).message(), "Internal error: db");
}

#[test]
fn value_or_default_cases() {
    assert_eq!(value_or_default(Some(String::from("v")), "d"), "v");
    assert_eq!(value_or_default(None, "d"), "d");
    assert_eq!(value_or_default(Some(String::new()), "d"), "");
}

#[test]
fn first_page_request_asks_for_ten() {
    let r = core_api::ListEventsRequest::first_page();
    assert_eq!(r.limit, 10);
    assert_eq!(r.start_date, None);
    assert_eq!(r.end_date, None);
}

#[test]
fn event_saved_info() {
    let info = ResponseInfo::event_saved();
    assert_eq!(info.status, 200);
    assert_eq!(info.message, "Event saved successfully");
}
