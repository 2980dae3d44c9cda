//! Decisions of the public API's handlers: which answer a request gets.
use vstd::prelude::*;
use crate::auth::{is_authorized, is_header_text, unauthorized_response};
use crate::client::InvocationError;
use crate::config::Config;
use crate::errors::ErrorResponse;
use crate::events::opt_text;
use crate::models::ListEventsRequest;
use crate::text::{decimal_i32, parse_i32};
use vstd::utf8::encode_utf8;

verus! {

/// An error answer: HTTP status and JSON body.
pub struct ErrorReply {
    pub status: u16,
    pub body: ErrorResponse,
}

/// Whether `r` is the answer with this status, error kind and message.
pub open spec fn is_reply(r: ErrorReply, status: u16, error: Seq<char>, message: Seq<char>) -> bool {
    r.status == status && r.body.error@ == error && r.body.message@ == message
}

/// The answer to a request that the service is not configured for.
pub fn config_error_reply(message: &str) -> (r: ErrorReply)
    ensures
        is_reply(r, 500, "ConfigError"@, message@),
{
    ErrorReply { status: 500, body: ErrorResponse::new("ConfigError", message) }
}

/// The events function to invoke, or the answer when none is configured.
pub fn events_lambda_or_reply(config: &Config) -> (r: Result<String, ErrorReply>)
    ensures
        config.events_lambda_arn matches Some(arn) ==> (r matches Ok(a) && a@ == arn@),
        config.events_lambda_arn is None ==> (r matches Err(e) && is_reply(
            e,
            500,
            "ConfigError"@,
            "EVENTS_LAMBDA_ARN not set"@,
        )),
{
    match &config.events_lambda_arn {
        Some(arn) => Ok(arn.clone()),
        None => Err(config_error_reply("EVENTS_LAMBDA_ARN not set")),
    }
}

/// Whether a save may go ahead, checked in the handler's order: the token
/// must be configured, the request must carry it, and the events function
/// must be configured. On success, the events function to invoke.
pub fn check_save_access(config: &Config, token_header: Option<&[u8]>) -> (r: Result<
    String,
    ErrorReply,
>)
    ensures
        config.api_token is None ==> (r matches Err(e) && is_reply(
            e,
            500,
            "ConfigError"@,
            "API_TOKEN not set"@,
        )),
        config.api_token matches Some(t) ==> (!(token_header matches Some(h) && is_header_text(
            h@,
        ) && h@ == encode_utf8(t@)) ==> (r matches Err(e) && is_reply(
            e,
            401,
            "Unauthorized"@,
            "Missing or invalid API token"@,
        ))),
        config.api_token matches Some(t) ==> ((token_header matches Some(h) && is_header_text(h@)
            && h@ == encode_utf8(t@)) ==> (match config.events_lambda_arn {
            Some(arn) => r matches Ok(a) && a@ == arn@,
            None => r matches Err(e) && is_reply(
                e,
                500,
                "ConfigError"@,
                "EVENTS_LAMBDA_ARN not set"@,
            ),
        })),
{
    let token = match &config.api_token {
        Some(t) => t,
        None => {
            return Err(config_error_reply("API_TOKEN not set"));
        },
    };
    if !is_authorized(token_header, token.as_str()) {
        return Err(unauthorized_response());
    }
    events_lambda_or_reply(config)
}

/// The answer to a save whose body does not decode.
pub fn bad_request_reply(detail: &str) -> (r: ErrorReply)
    ensures
        is_reply(r, 400, "BadRequest"@, "Invalid request body: "@ + detail@),
{
    let mut message = String::from_str("Invalid request body: ");
    message.append(detail);
    ErrorReply { status: 400, body: ErrorResponse::new("BadRequest", message.as_str()) }
}

/// The answer when the events service replies with the wrong kind of answer.
pub fn unexpected_response_reply() -> (r: ErrorReply)
    ensures
        is_reply(r, 500, "InternalError"@, "Unexpected response from events service"@),
{
    ErrorReply {
        status: 500,
        body: ErrorResponse::new("InternalError", "Unexpected response from events service"),
    }
}

/// The answer when invoking the events service fails.
pub fn invocation_failure_reply(err: &InvocationError) -> (r: ErrorReply)
    ensures
        is_reply(r, 500, "InternalError"@, err.text()),
{
    let message = err.message();
    ErrorReply { status: 500, body: ErrorResponse::new("InternalError", message.as_str()) }
}

/// The page size a list request asks for: the `limit` query parameter when
/// it is a decimal `i32`, else 50.
pub fn limit_from_query(param: Option<&str>) -> (r: i32)
    ensures
        r == (match param {
            Some(s) => match decimal_i32(s@) {
                Some(v) => v,
                None => 50,
            },
            None => 50,
        }),
{
    match param {
        Some(s) => match parse_i32(s) {
            Some(v) => v,
            None => 50,
        },
        None => 50,
    }
}

/// The request a list call sends to the events service: type and country
/// from the path, dates and page size from the query string.
pub fn list_events_request(
    event_type: String,
    country_code: String,
    start_date: Option<String>,
    end_date: Option<String>,
    limit_param: Option<&str>,
) -> (r: ListEventsRequest)
    ensures
        r.event_type@ == event_type@,
        r.country_code@ == country_code@,
        opt_text(r.start_date) == opt_text(start_date),
        opt_text(r.end_date) == opt_text(end_date),
        r.limit == (match limit_param {
            Some(s) => match decimal_i32(s@) {
                Some(v) => v,
                None => 50,
            },
            None => 50,
        }),
{
    let limit = limit_from_query(limit_param);
    ListEventsRequest { event_type, country_code, start_date, end_date, limit }
}

} // verus!
