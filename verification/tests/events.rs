use storm_services::events::{
    admin_area_key, assign_keys, from_stored, normalize, partition_key, plan_event_query,
    prepare_for_save, strip_white_space, to_stored, EventKeys,
};
use storm_services::models::ListEventsRequest;

fn keys(id: Option<&str>, event_type: Option<&str>, country: &str, area: &str) -> EventKeys {
    EventKeys {
        id: id.map(String::from),
        ns: None,
        event_type: event_type.map(String::from),
        country_code: String::from(country),
        administrative_area: String::from(area),
        address_administrative_area_idx: None,
    }
}

fn request(event_type: &str, country: &str, limit: i32) -> ListEventsRequest {
    ListEventsRequest {
        event_type: String::from(event_type),
        country_code: String::from(country),
        start_date: None,
        end_date: None,
        limit,
    }
}

#[test]
fn normalize_removes_white_space_and_lowercases() {
    assert_eq!(normalize(" Trail Running~~U S\t"), "trailrunning~~us");
    assert_eq!(normalize(""), "");
    assert_eq!(normalize("\u{00A0}A\u{3000}B\n"), "ab");
}

#[test]
fn normalize_uses_unicode_lowercase() {
    assert_eq!(normalize("ÉVÉNEMENT"), "événement");
    assert_eq!(normalize("\u{039F}\u{0394}\u{039F}\u{03A3}"), "\u{03BF}\u{03B4}\u{03BF}\u{03C2}");
}

#[test]
fn strip_white_space_keeps_other_characters_in_order() {
    assert_eq!(strip_white_space(" a b\u{2003}c "), "abc");
    assert_eq!(strip_white_space("x~~y"), "x~~y");
}

#[test]
fn partition_key_joins_type_and_country() {
    assert_eq!(partition_key("Trail Running", "US"), "trailrunning~~us");
    assert_eq!(partition_key("", "NZ"), "~~nz");
}

#[test]
fn admin_area_key_joins_three_parts() {
    assert_eq!(admin_area_key("Road Race", "US", "New York"), "roadrace~~us~~newyork");
}

#[test]
fn partition_key_ignores_white_space() {
    assert_eq!(partition_key("Trail Running", "US"), partition_key("TrailRunning ", " U S"));
}

#[test]
fn assign_keys_keeps_an_existing_id() {
    let saved = assign_keys(keys(Some("abc"), Some("Ultra"), "AU", "NSW"), String::from("fresh"));
    assert_eq!(saved.id.as_deref(), Some("abc"));
    assert_eq!(saved.ns.as_deref(), Some("ultra~~au"));
    assert_eq!(saved.address_administrative_area_idx.as_deref(), Some("ultra~~au~~nsw"));
    assert_eq!(saved.event_type.as_deref(), Some("Ultra"));
    assert_eq!(saved.country_code, "AU");
    assert_eq!(saved.administrative_area, "NSW");
}

#[test]
fn assign_keys_uses_the_fresh_id_when_there_is_none() {
    let saved = assign_keys(keys(None, None, "US", "CA"), String::from("fresh"));
    assert_eq!(saved.id.as_deref(), Some("fresh"));
    assert_eq!(saved.ns.as_deref(), Some("~~us"));
    assert_eq!(saved.address_administrative_area_idx.as_deref(), Some("~~us~~ca"));
}

#[test]
fn prepare_for_save_draws_a_cuid_when_needed() {
    let saved = prepare_for_save(keys(None, Some("Trail"), "US", "CA"));
    let id = saved.id.clone().unwrap();
    assert!(!id.is_empty() && id.len() <= 24);
    assert!(id.chars().next().unwrap().is_ascii_lowercase());
    assert!(id.chars().all(|c| c.is_ascii_lowercase() || c.is_ascii_digit()));
    assert_eq!(saved.ns.as_deref(), Some("trail~~us"));
}

#[test]
fn prepare_for_save_keeps_an_existing_id() {
    let saved = prepare_for_save(keys(Some("evt-1"), Some("Trail"), "US", "CA"));
    assert_eq!(saved.id.as_deref(), Some("evt-1"));
    assert_eq!(saved.address_administrative_area_idx.as_deref(), Some("trail~~us~~ca"));
}

#[test]
fn saving_twice_keeps_id_and_keys() {
    let once = assign_keys(keys(None, Some("Swim"), "FR", "Paris"), String::from("first"));
    let twice = assign_keys(
        EventKeys {
            id: once.id.clone(),
            ns: once.ns.clone(),
            event_type: once.event_type.clone(),
            country_code: once.country_code.clone(),
            administrative_area: once.administrative_area.clone(),
            address_administrative_area_idx: once.address_administrative_area_idx.clone(),
        },
        String::from("second"),
    );
    assert_eq!(twice.id, once.id);
    assert_eq!(twice.ns, once.ns);
    assert_eq!(twice.address_administrative_area_idx, once.address_administrative_area_idx);
}

#[test]
fn stored_keys_read_back_unchanged() {
    let saved = assign_keys(keys(Some("id9"), Some("Bike"), "DE", "Berlin"), String::new());
    let stored = to_stored(&saved);
    assert_eq!(stored.id, "id9");
    assert_eq!(stored.ns, "bike~~de");
    assert_eq!(stored.address_administrative_area_idx, "bike~~de~~berlin");
    let back = from_stored(stored);
    assert_eq!(back.id, saved.id);
    assert_eq!(back.ns, saved.ns);
    assert_eq!(back.event_type, saved.event_type);
    assert_eq!(back.country_code, saved.country_code);
    assert_eq!(back.administrative_area, saved.administrative_area);
    assert_eq!(back.address_administrative_area_idx, saved.address_administrative_area_idx);
}

#[test]
fn to_stored_writes_absent_keys_as_empty() {
    let stored = to_stored(&keys(Some("x"), None, "US", "TX"));
    assert_eq!(stored.ns, "");
    assert_eq!(stored.address_administrative_area_idx, "");
    assert_eq!(stored.event_type, None);
}

#[test]
fn saved_event_is_found_by_its_list_query() {
    let saved = prepare_for_save(keys(None, Some("Trail Running"), "US", "CA"));
    let query = plan_event_query(&request("trail running", "us", 10));
    assert_eq!(saved.ns.as_deref(), Some(query.ns.as_str()));
}

#[test]
fn plan_event_query_limits_only_positive_page_sizes() {
    assert_eq!(plan_event_query(&request("A", "B", 25)).limit, Some(25));
    assert_eq!(plan_event_query(&request("A", "B", 0)).limit, None);
    assert_eq!(plan_event_query(&request("A", "B", -4)).limit, None);
    assert_eq!(plan_event_query(&request("A", "B", 1)).ns, "a~~b");
}

#[test]
fn normalizing_ascii_twice_is_normalizing_once() {
    for s in [" Trail Running~~U S\t", "ABC def", "", "x~~Y~~z", "  MiXeD\n\r CaSe 42 "] {
        let once = normalize(s);
        assert_eq!(normalize(&once), once);
    }
    assert_eq!(normalize("Road Race~~NZ"), "roadrace~~nz");
}

#[test]
fn every_unicode_white_space_character_is_removed() {
    let spaces = [
        '\u{09}', '\u{0A}', '\u{0B}', '\u{0C}', '\u{0D}', '\u{20}', '\u{85}', '\u{A0}', '\u{1680}',
        '\u{2000}', '\u{2005}', '\u{200A}', '\u{2028}', '\u{2029}', '\u{202F}', '\u{205F}',
        '\u{3000}',
    ];
    for c in spaces {
        let s = format!("a{}b", c);
        assert_eq!(strip_white_space(&s), "ab");
    }
    for c in ['\u{200B}', '\u{1F}', '\u{2060}', '\u{FEFF}', '_'] {
        let s = format!("a{}b", c);
        assert_eq!(strip_white_space(&s), s);
    }
}

#[test]
fn normalized_keys_hold_no_white_space() {
    for s in ["\u{039F} \u{0394}\u{3000}x", "A\u{2028}B\u{00A0}", "  \t "] {
        assert!(!normalize(s).chars().any(|c| c.is_whitespace()));
    }
}
