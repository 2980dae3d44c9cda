//! Request and response shapes of the events API whose fields are plain
//! values.
use vstd::prelude::*;

verus! {

/// Status and message that accompany a saved event.
pub struct ResponseInfo {
    pub status: u16,
    pub message: String,
}

impl ResponseInfo {
    /// The answer given once an event has been stored.
    pub fn event_saved() -> (r: ResponseInfo)
        ensures
            r.status == 200,
            r.message@ == "Event saved successfully"@,
    {
        ResponseInfo { status: 200, message: String::from_str("Event saved successfully") }
    }
}

/// A query for the events of one type in one country.
pub struct ListEventsRequest {
    pub event_type: String,
    pub country_code: String,
    pub start_date: Option<String>,
    pub end_date: Option<String>,
    pub limit: i32,
}

} // verus!
