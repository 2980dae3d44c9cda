use storm_services::routes::{route, Route};

fn list_parts(method: &str, path: &str) -> Option<(String, String)> {
    match route(method, path) {
        Route::ListEvents { event_type, country_code } => Some((event_type, country_code)),
        _ => None,
    }
}

#[test]
fn health_route() {
    assert!(matches!(route("GET", "/health"), Route::Health));
    assert!(matches!(route("POST", "/health"), Route::NotFound));
}

#[test]
fn save_route() {
    assert!(matches!(route("POST", "/events"), Route::SaveEvent));
    assert!(matches!(route("GET", "/events"), Route::NotFound));
}

#[test]
fn list_route_captures_type_and_country() {
    assert_eq!(list_parts("GET", "/events/trail/US"), Some((String::from("trail"), String::from("US"))));
    assert_eq!(list_parts("GET", "/events/a/b"), Some((String::from("a"), String::from("b"))));
}

#[test]
fn list_route_needs_two_non_empty_segments() {
    assert!(matches!(route("GET", "/events/trail"), Route::NotFound));
    assert!(matches!(route("GET", "/events/trail/"), Route::NotFound));
    assert!(matches!(route("GET", "/events//US"), Route::NotFound));
    assert!(matches!(route("GET", "/events/a/b/c"), Route::NotFound));
    assert!(matches!(route("POST", "/events/a/b"), Route::NotFound));
    assert!(matches!(route("GET", "/event/a/b"), Route::NotFound));
}

#[test]
fn other_paths_are_not_found() {
    assert!(matches!(route("GET", "/"), Route::NotFound));
    assert!(matches!(route("DELETE", "/events"), Route::NotFound));
}
