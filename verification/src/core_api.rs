//! The first, reduced shape of the events query, still used by the first
//! list handler.
use vstd::prelude::*;

verus! {

/// A query for events by date range and page size.
pub struct ListEventsRequest {
    pub start_date: Option<String>,
    pub end_date: Option<String>,
    pub limit: i32,
}

impl ListEventsRequest {
    /// The query the first list handler sends: no date bounds, ten events.
    pub fn first_page() -> (r: ListEventsRequest)
        ensures
            r.start_date is None,
            r.end_date is None,
            r.limit == 10,
    {
        ListEventsRequest { start_date: None, end_date: None, limit: 10 }
    }
}

} // verus!
