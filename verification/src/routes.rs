//! The routing table of the public API.
use vstd::prelude::*;
use crate::auth::constant_time_eq;

verus! {

/// The handler a request goes to.
pub enum Route {
    /// `GET /health`
    Health,
    /// `GET /events/{eventType}/{countryCode}`
    ListEvents { event_type: String, country_code: String },
    /// `POST /events`
    SaveEvent,
    /// Anything else.
    NotFound,
}

/// A non-empty path segment: no `/` in it.
pub open spec fn is_path_segment(s: Seq<char>) -> bool {
    s.len() > 0 && forall|i: int| 0 <= i < s.len() ==> s[i] != '/'
}

/// `path` is `/events/{event_type}/{country_code}`.
pub open spec fn is_list_events_path(
    path: Seq<char>,
    event_type: Seq<char>,
    country_code: Seq<char>,
) -> bool {
    &&& path == "/events/"@ + event_type + seq!['/'] + country_code
    &&& is_path_segment(event_type)
    &&& is_path_segment(country_code)
}

/// Any two non-empty texts without `/` form a list path, as event type and
/// country code: hyphens, dots, digits and all other characters are allowed.
pub proof fn lemma_any_segments_form_a_list_path(event_type: Seq<char>, country_code: Seq<char>)
    requires
        event_type.len() > 0,
        country_code.len() > 0,
        !event_type.contains('/'),
        !country_code.contains('/'),
    ensures
        is_list_events_path("/events/"@ + event_type + seq!['/'] + country_code, event_type, country_code),
{
    assert forall|i: int| 0 <= i < event_type.len() implies event_type[i] != '/' by {
        if event_type[i] == '/' {
            assert(event_type.contains('/'));
        }
    }
    assert forall|i: int| 0 <= i < country_code.len() implies country_code[i] != '/' by {
        if country_code[i] == '/' {
            assert(country_code.contains('/'));
        }
    }
}

/// A list path names one event type and one country code: two ways of
/// reading the same path agree.
pub proof fn lemma_list_path_parts_unique(
    path: Seq<char>,
    t1: Seq<char>,
    c1: Seq<char>,
    t2: Seq<char>,
    c2: Seq<char>,
)
    requires
        is_list_events_path(path, t1, c1),
        is_list_events_path(path, t2, c2),
    ensures
        t1 == t2,
        c1 == c2,
{
    reveal_strlit("/events/");
    assert("/events/"@.len() == 8);
    let p1 = "/events/"@ + t1 + seq!['/'];
    let p2 = "/events/"@ + t2 + seq!['/'];
    assert(path.len() == p1.len() + c1.len());
    assert(path.len() == p2.len() + c2.len());
    let k1: int = 8 + t1.len() as int;
    let k2: int = 8 + t2.len() as int;
    if t1.len() < t2.len() {
        assert(path[k1] == p1[k1]);
        assert(path[k1] == t2[t1.len() as int]);
    } else if t2.len() < t1.len() {
        assert(path[k2] == p2[k2]);
        assert(path[k2] == t1[t2.len() as int]);
    }
    assert(t1.len() == t2.len());
    assert forall|i: int| 0 <= i < t1.len() implies t1[i] == t2[i] by {
        assert(path[8 + i] == t1[i]);
        assert(path[8 + i] == t2[i]);
    }
    assert(t1 =~= t2);
    assert(k1 == k2);
    assert(c1.len() == c2.len());
    assert forall|i: int| 0 <= i < c1.len() implies c1[i] == c2[i] by {
        assert(path[k1 + 1 + i] == (p1 + c1)[k1 + 1 + i]);
        assert(path[k2 + 1 + i] == (p2 + c2)[k2 + 1 + i]);
    }
    assert(c1 =~= c2);
}

/// Where a request with this method and path goes.
pub fn route(method: &str, path: &str) -> (r: Route)
    ensures
        r is Health <==> (method@ == "GET"@ && path@ == "/health"@),
        r is SaveEvent <==> (method@ == "POST"@ && path@ == "/events"@),
        r matches Route::ListEvents { event_type, country_code } ==> (method@ == "GET"@
            && is_list_events_path(path@, event_type@, country_code@)),
        (method@ == "GET"@ && exists|t: Seq<char>, c: Seq<char>|
            is_list_events_path(path@, t, c)) ==> r is ListEvents,
{
    proof {
        reveal_strlit("/health");
        reveal_strlit("/events");
        reveal_strlit("/events/");
        reveal_strlit("GET");
        reveal_strlit("POST");
        assert("GET"@.len() != "POST"@.len());
        assert("/health"@.len() != "/events"@.len() || "/health"@[1] != "/events"@[1]);
    }
    let is_get = constant_time_eq(method, "GET");
    if is_get && constant_time_eq(path, "/health") {
        proof {
            assert forall|t: Seq<char>, c: Seq<char>| !is_list_events_path(path@, t, c) by {
                if is_list_events_path(path@, t, c) {
                    assert(path@.len() >= 8);
                }
            }
        }
        return Route::Health;
    }
    if constant_time_eq(method, "POST") && constant_time_eq(path, "/events") {
        return Route::SaveEvent;
    }
    if !is_get {
        return Route::NotFound;
    }
    let n = path.unicode_len();
    if n < 8 {
        proof {
            assert forall|t: Seq<char>, c: Seq<char>| !is_list_events_path(path@, t, c) by {
                if is_list_events_path(path@, t, c) {
                    assert(path@.len() >= 8);
                }
            }
        }
        return Route::NotFound;
    }
    let head = path.substring_char(0, 8);
    if !constant_time_eq(head, "/events/") {
        proof {
            assert forall|t: Seq<char>, c: Seq<char>| !is_list_events_path(path@, t, c) by {
                if is_list_events_path(path@, t, c) {
                    assert(path@.subrange(0, 8) =~= "/events/"@);
                }
            }
        }
        return Route::NotFound;
    }
    // Count the slashes after the prefix, remembering the first one.
    let mut count: usize = 0;
    let mut first: usize = 0;
    let mut i: usize = 8;
    while i < n
        invariant
            n == path@.len(),
            8 <= i <= n,
            count <= i - 8,
            count == 0 ==> forall|j: int| 8 <= j < i ==> path@[j] != '/',
            count >= 1 ==> 8 <= first < i && path@[first as int] == '/' && forall|j: int|
                8 <= j < first ==> path@[j] != '/',
            count == 1 ==> forall|j: int| 8 <= j < i && j != first ==> path@[j] != '/',
            count >= 2 ==> exists|j: int| first < j < i && path@[j] == '/',
        decreases n - i,
    {
        let c = path.get_char(i);
        if c == '/' {
            if count == 0 {
                first = i;
            }
            count = count + 1;
        }
        i = i + 1;
    }
    if count == 1 && first > 8 && first + 1 < n {
        let event_type = path.substring_char(8, first);
        let country_code = path.substring_char(first + 1, n);
        proof {
            assert(path@.subrange(0, 8) =~= "/events/"@);
            assert(path@ =~= "/events/"@ + event_type@ + seq!['/'] + country_code@);
        }
        Route::ListEvents {
            event_type: String::from_str(event_type),
            country_code: String::from_str(country_code),
        }
    } else {
        proof {
            assert forall|t: Seq<char>, c: Seq<char>| !is_list_events_path(path@, t, c) by {
                if is_list_events_path(path@, t, c) {
                    let k: int = 8 + t.len() as int;
                    assert(path@[k] == '/');
                    assert forall|j: int| 8 <= j < n && j != k implies path@[j] != '/' by {
                        if j < k {
                            assert(path@[j] == t[j - 8]);
                        } else {
                            assert(path@[j] == c[j - k - 1]);
                        }
                    }
                }
            }
        }
        Route::NotFound
    }
}

} // verus!
