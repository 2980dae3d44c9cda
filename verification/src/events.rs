//! Storage keys of events: the normalised partition key that both saving and
//! listing use, and the administrative-area index key.
use vstd::prelude::*;
use crate::ids::{is_drawn_id, new_event_id};
use crate::models::ListEventsRequest;
use crate::text::{
    lemma_ascii_white_space, ascii_lower_char, ascii_lowercase, char_is_whitespace, is_white_space, lowercase_of, push_char,
    str_to_lowercase,
};
use vstd::utf8::is_ascii_chars;

verus! {

/// The characters of `s` that are not Unicode white space, in order.
pub open spec fn without_white_space(s: Seq<char>) -> Seq<char> {
    s.filter(|c: char| !is_white_space(c))
}

/// A key in its stored form: white space removed, then lowercased.
pub open spec fn normalized(s: Seq<char>) -> Seq<char> {
    lowercase_of(without_white_space(s))
}

/// The stored form of an ASCII key: white space removed, then `A`-`Z`
/// folded to `a`-`z`.
pub open spec fn ascii_normalized(s: Seq<char>) -> Seq<char> {
    ascii_lowercase(without_white_space(s))
}

/// Removing white space keeps only characters of `s`, and leaves none.
pub proof fn lemma_without_white_space_members(s: Seq<char>)
    ensures
        forall|i: int|
            0 <= i < without_white_space(s).len() ==> !is_white_space(
                #[trigger] without_white_space(s)[i],
            ) && s.contains(without_white_space(s)[i]),
    decreases s.len(),
{
    reveal_with_fuel(Seq::<_>::filter, 1);
    if s.len() > 0 {
        lemma_without_white_space_members(s.drop_last());
        let rest = without_white_space(s.drop_last());
        assert forall|i: int| 0 <= i < without_white_space(s).len() implies !is_white_space(
            #[trigger] without_white_space(s)[i],
        ) && s.contains(without_white_space(s)[i]) by {
            if i < rest.len() {
                let j = choose|j: int| 0 <= j < s.drop_last().len() && s.drop_last()[j] == rest[i];
                assert(s[j] == rest[i]);
            } else {
                assert(s[s.len() - 1] == without_white_space(s)[i]);
            }
        }
    }
}

/// Removing white space from a sequence that holds none changes nothing.
pub proof fn lemma_without_white_space_of_clean(s: Seq<char>)
    requires
        forall|i: int| 0 <= i < s.len() ==> !is_white_space(#[trigger] s[i]),
    ensures
        without_white_space(s) == s,
    decreases s.len(),
{
    reveal_with_fuel(Seq::<_>::filter, 1);
    if s.len() > 0 {
        lemma_without_white_space_of_clean(s.drop_last());
        assert(s.drop_last().push(s.last()) =~= s);
    }
}

/// Key normalisation removes from ASCII text only spaces, tabs, line and
/// page breaks and carriage returns: text free of these loses nothing, and
/// its key is its ASCII lowercase.
pub proof fn lemma_ascii_text_keeps_its_characters(s: Seq<char>)
    requires
        is_ascii_chars(s),
        forall|i: int|
            0 <= i < s.len() ==> !(#[trigger] s[i] == ' ' || s[i] == '\t' || s[i] == '\n' || s[i]
                == '\u{0b}' || s[i] == '\u{0c}' || s[i] == '\r'),
    ensures
        without_white_space(s) == s,
        ascii_normalized(s) == ascii_lowercase(s),
{
    assert forall|i: int| 0 <= i < s.len() implies !is_white_space(#[trigger] s[i]) by {
        lemma_ascii_white_space(s[i]);
    }
    lemma_without_white_space_of_clean(s);
}

/// Normalising ASCII text twice is normalising it once: the stored form of
/// an ASCII key is ASCII and is its own stored form.
pub proof fn lemma_ascii_normalized_idempotent(s: Seq<char>)
    requires
        is_ascii_chars(s),
    ensures
        is_ascii_chars(ascii_normalized(s)),
        ascii_normalized(ascii_normalized(s)) == ascii_normalized(s),
{
    let t = without_white_space(s);
    let n = ascii_normalized(s);
    lemma_without_white_space_members(s);
    assert forall|i: int| 0 <= i < t.len() implies '\0' <= #[trigger] t[i] <= '\u{7f}'
        && !is_white_space(t[i]) by {
        let j = choose|j: int| 0 <= j < s.len() && s[j] == t[i];
        assert(s[j] == t[i]);
    }
    assert forall|i: int| 0 <= i < n.len() implies '\0' <= #[trigger] n[i] <= '\u{7f}'
        && !is_white_space(n[i]) && ascii_lower_char(n[i]) == n[i] by {
        assert(n[i] == ascii_lower_char(t[i]));
    }
    lemma_without_white_space_of_clean(n);
    assert(ascii_lowercase(n) =~= n);
}

/// Removes every white-space character from `s`.
pub fn strip_white_space(s: &str) -> (r: String)
    ensures
        r@ == without_white_space(s@),
{
    broadcast use vstd::string::group_string_axioms;
    let mut out = String::new();
    for c in it: s.chars()
        invariant
            it.seq() == s@,
            out@ == without_white_space(s@.take(it.index() as int)),
    {
        let ws = char_is_whitespace(c);
        proof {
            assert(s@.take(it.index() + 1).drop_last() =~= s@.take(it.index() as int));
            reveal_with_fuel(Seq::<_>::filter, 1);
        }
        if !ws {
            push_char(&mut out, c);
        }
    }
    proof {
        assert(s@.take(s@.len() as int) =~= s@);
    }
    out
}

/// The stored form of a key: white space removed, then lowercased.
pub fn normalize(s: &str) -> (r: String)
    ensures
        r@ == normalized(s@),
        is_ascii_chars(s@) ==> r@ == ascii_normalized(s@),
        forall|i: int| 0 <= i < r@.len() ==> !is_white_space(#[trigger] r@[i]),
{
    let stripped = strip_white_space(s);
    proof {
        lemma_without_white_space_members(s@);
        if is_ascii_chars(s@) {
            lemma_ascii_normalized_idempotent(s@);
            lemma_without_white_space_members(s@);
            assert forall|i: int| 0 <= i < stripped@.len() implies '\0' <= #[trigger] stripped@[i]
                <= '\u{7f}' by {
                let j = choose|j: int| 0 <= j < s@.len() && s@[j] == stripped@[i];
                assert(s@[j] == stripped@[i]);
            }
        }
    }
    str_to_lowercase(stripped.as_str())
}


/// The separator between the parts of a composite key.
pub open spec fn key_separator() -> Seq<char> {
    seq!['~', '~']
}

/// The partition key text before normalisation: `{event_type}~~{country_code}`.
pub open spec fn partition_key_text(event_type: Seq<char>, country_code: Seq<char>) -> Seq<char> {
    event_type + key_separator() + country_code
}

/// The index key text before normalisation:
/// `{event_type}~~{country_code}~~{administrative_area}`.
pub open spec fn admin_area_key_text(
    event_type: Seq<char>,
    country_code: Seq<char>,
    administrative_area: Seq<char>,
) -> Seq<char> {
    event_type + key_separator() + country_code + key_separator() + administrative_area
}

/// The partition key (`Ns`) under which events of one type in one country
/// are stored and queried.
pub fn partition_key(event_type: &str, country_code: &str) -> (r: String)
    ensures
        r@ == normalized(partition_key_text(event_type@, country_code@)),
{
    let mut text = String::from_str(event_type);
    text.append("~~");
    text.append(country_code);
    proof {
        reveal_strlit("~~");
        assert(text@ =~= partition_key_text(event_type@, country_code@));
    }
    normalize(text.as_str())
}

/// The administrative-area index key of an event.
pub fn admin_area_key(event_type: &str, country_code: &str, administrative_area: &str) -> (r:
    String)
    ensures
        r@ == normalized(admin_area_key_text(event_type@, country_code@, administrative_area@)),
{
    let mut text = String::from_str(event_type);
    text.append("~~");
    text.append(country_code);
    text.append("~~");
    text.append(administrative_area);
    proof {
        reveal_strlit("~~");
        assert(text@ =~= admin_area_key_text(event_type@, country_code@, administrative_area@));
    }
    normalize(text.as_str())
}


/// What an event's keys are, as text.
pub struct EventKeysView {
    pub id: Option<Seq<char>>,
    pub ns: Option<Seq<char>>,
    pub event_type: Option<Seq<char>>,
    pub country_code: Seq<char>,
    pub administrative_area: Seq<char>,
    pub address_administrative_area_idx: Option<Seq<char>>,
}

/// The fields of an event that identify it and place it in storage.
pub struct EventKeys {
    pub id: Option<String>,
    pub ns: Option<String>,
    pub event_type: Option<String>,
    pub country_code: String,
    pub administrative_area: String,
    pub address_administrative_area_idx: Option<String>,
}

pub open spec fn opt_text(o: Option<String>) -> Option<Seq<char>> {
    match o {
        Some(s) => Some(s@),
        None => None,
    }
}

pub open spec fn text_or_empty(o: Option<Seq<char>>) -> Seq<char> {
    match o {
        Some(s) => s,
        None => Seq::empty(),
    }
}

impl View for EventKeys {
    type V = EventKeysView;

    open spec fn view(&self) -> EventKeysView {
        EventKeysView {
            id: opt_text(self.id),
            ns: opt_text(self.ns),
            event_type: opt_text(self.event_type),
            country_code: self.country_code@,
            administrative_area: self.administrative_area@,
            address_administrative_area_idx: opt_text(self.address_administrative_area_idx),
        }
    }
}

/// The keys of an event as it is saved under the id `id`: the partition key
/// and the index key are derived from its type (empty when absent), country
/// and administrative area.
pub open spec fn saved_keys(k: EventKeysView, id: Seq<char>) -> EventKeysView {
    EventKeysView {
        id: Some(id),
        ns: Some(normalized(partition_key_text(text_or_empty(k.event_type), k.country_code))),
        event_type: k.event_type,
        country_code: k.country_code,
        administrative_area: k.administrative_area,
        address_administrative_area_idx: Some(
            normalized(
                admin_area_key_text(
                    text_or_empty(k.event_type),
                    k.country_code,
                    k.administrative_area,
                ),
            ),
        ),
    }
}

/// The id under which an event is saved: its own, or else `fresh`.
pub open spec fn id_for_save(k: EventKeysView, fresh: Seq<char>) -> Seq<char> {
    match k.id {
        Some(id) => id,
        None => fresh,
    }
}

/// A copy of an optional text.
pub fn clone_text(o: &Option<String>) -> (r: Option<String>)
    ensures
        opt_text(r) == opt_text(*o),
{
    match o {
        Some(s) => Some(s.clone()),
        None => None,
    }
}

/// The text of an optional string, or the empty string.
pub fn text_or_default(o: &Option<String>) -> (r: String)
    ensures
        r@ == text_or_empty(opt_text(*o)),
{
    match o {
        Some(s) => s.clone(),
        None => String::new(),
    }
}

/// Fills in the keys of an event about to be saved: its id (kept when it
/// has one, `fresh_id` otherwise), its partition key and its index key.
pub fn assign_keys(keys: EventKeys, fresh_id: String) -> (r: EventKeys)
    ensures
        r@ == saved_keys(keys@, id_for_save(keys@, fresh_id@)),
{
    let event_type = text_or_default(&keys.event_type);
    let ns = partition_key(event_type.as_str(), keys.country_code.as_str());
    let idx = admin_area_key(
        event_type.as_str(),
        keys.country_code.as_str(),
        keys.administrative_area.as_str(),
    );
    let id = match keys.id {
        Some(id) => id,
        None => fresh_id,
    };
    EventKeys {
        id: Some(id),
        ns: Some(ns),
        event_type: keys.event_type,
        country_code: keys.country_code,
        administrative_area: keys.administrative_area,
        address_administrative_area_idx: Some(idx),
    }
}

/// The keys of a query for events: the partition key, and the page size
/// when the request asks for a positive one.
pub struct EventQuery {
    pub ns: String,
    pub limit: Option<i32>,
}

/// The query that lists the events of a request's type and country.
pub fn plan_event_query(req: &ListEventsRequest) -> (r: EventQuery)
    ensures
        r.ns@ == normalized(partition_key_text(req.event_type@, req.country_code@)),
        r.limit == (if req.limit > 0 { Some(req.limit) } else { None::<i32> }),
{
    let ns = partition_key(req.event_type.as_str(), req.country_code.as_str());
    let limit = if req.limit > 0 { Some(req.limit) } else { None };
    EventQuery { ns, limit }
}


/// Whether `s` has the shape of a CUID2 of the default length: a lowercase
/// ASCII letter, then lowercase ASCII letters and digits, 2 to 24 in all.
pub open spec fn is_cuid_text(s: Seq<char>) -> bool {
    &&& 2 <= s.len() <= 24
    &&& 'a' <= s[0] <= 'z'
    &&& forall|i: int| 0 <= i < s.len() ==> ('a' <= #[trigger] s[i] <= 'z' || '0' <= s[i] <= '9')
}

/// Fills in the keys of an event about to be saved, drawing a fresh id
/// only when the event has none.
pub fn prepare_for_save(keys: EventKeys) -> (r: EventKeys)
    ensures
        r@.id is Some,
        r@ == saved_keys(keys@, r@.id->0),
        keys@.id is Some ==> r@.id == keys@.id,
        keys@.id is None ==> is_cuid_text(r@.id->0),
        keys@.id is None ==> is_drawn_id(r@.id->0),
{
    if keys.id.is_some() {
        assign_keys(keys, String::new())
    } else {
        let fresh = new_event_id();
        assign_keys(keys, fresh)
    }
}

/// What the stored form of an event's keys is, as text.
pub struct StoredKeysView {
    pub id: Seq<char>,
    pub ns: Seq<char>,
    pub event_type: Option<Seq<char>>,
    pub country_code: Seq<char>,
    pub administrative_area: Seq<char>,
    pub address_administrative_area_idx: Seq<char>,
}

/// The keys of an event in its stored (table item) form, where id,
/// partition key and index key are always present.
pub struct StoredKeys {
    pub id: String,
    pub ns: String,
    pub event_type: Option<String>,
    pub country_code: String,
    pub administrative_area: String,
    pub address_administrative_area_idx: String,
}

impl View for StoredKeys {
    type V = StoredKeysView;

    open spec fn view(&self) -> StoredKeysView {
        StoredKeysView {
            id: self.id@,
            ns: self.ns@,
            event_type: opt_text(self.event_type),
            country_code: self.country_code@,
            administrative_area: self.administrative_area@,
            address_administrative_area_idx: self.address_administrative_area_idx@,
        }
    }
}

/// The stored form of an event's keys; absent keys are stored empty.
pub open spec fn stored_form(k: EventKeysView) -> StoredKeysView {
    StoredKeysView {
        id: k.id->0,
        ns: text_or_empty(k.ns),
        event_type: k.event_type,
        country_code: k.country_code,
        administrative_area: k.administrative_area,
        address_administrative_area_idx: text_or_empty(k.address_administrative_area_idx),
    }
}

/// An event's keys as read back from their stored form.
pub open spec fn keys_of_stored(d: StoredKeysView) -> EventKeysView {
    EventKeysView {
        id: Some(d.id),
        ns: Some(d.ns),
        event_type: d.event_type,
        country_code: d.country_code,
        administrative_area: d.administrative_area,
        address_administrative_area_idx: Some(d.address_administrative_area_idx),
    }
}

/// The stored form of an event's keys. An event is stored only once it has
/// an id.
pub fn to_stored(keys: &EventKeys) -> (r: StoredKeys)
    requires
        keys.id is Some,
    ensures
        r@ == stored_form(keys@),
{
    let id = match &keys.id {
        Some(id) => id.clone(),
        None => String::new(),
    };
    StoredKeys {
        id,
        ns: text_or_default(&keys.ns),
        event_type: clone_text(&keys.event_type),
        country_code: keys.country_code.clone(),
        administrative_area: keys.administrative_area.clone(),
        address_administrative_area_idx: text_or_default(&keys.address_administrative_area_idx),
    }
}

/// An event's keys as read back from storage.
pub fn from_stored(stored: StoredKeys) -> (r: EventKeys)
    ensures
        r@ == keys_of_stored(stored@),
{
    EventKeys {
        id: Some(stored.id),
        ns: Some(stored.ns),
        event_type: stored.event_type,
        country_code: stored.country_code,
        administrative_area: stored.administrative_area,
        address_administrative_area_idx: Some(stored.address_administrative_area_idx),
    }
}

/// An event saved with some type and country is found by the query for
/// that type and country: the partition key written on save is the one
/// that listing asks for.
pub proof fn lemma_saved_event_is_listed(
    k: EventKeysView,
    id: Seq<char>,
    event_type: Seq<char>,
    country_code: Seq<char>,
)
    requires
        event_type == text_or_empty(k.event_type),
        country_code == k.country_code,
    ensures
        saved_keys(k, id).ns == Some(normalized(partition_key_text(event_type, country_code))),
{
}

/// Keys survive storage: reading back the stored form of a saved event's
/// keys gives the same keys.
pub proof fn lemma_saved_keys_round_trip(k: EventKeysView, id: Seq<char>)
    ensures
        keys_of_stored(stored_form(saved_keys(k, id))) == saved_keys(k, id),
{
}

/// Saving again changes nothing: an event that was saved keeps its id and
/// its keys when it is saved once more, whatever fresh id is offered.
pub proof fn lemma_save_is_idempotent(k: EventKeysView, fresh: Seq<char>, fresh2: Seq<char>)
    ensures
        ({
            let once = saved_keys(k, id_for_save(k, fresh));
            saved_keys(once, id_for_save(once, fresh2)) == once
        }),
{
}


/// Keys do not depend on white space: two key parts that differ only in
/// white space give the same partition key.
pub proof fn lemma_partition_key_ignores_white_space(
    event_type1: Seq<char>,
    country_code1: Seq<char>,
    event_type2: Seq<char>,
    country_code2: Seq<char>,
)
    requires
        without_white_space(event_type1) == without_white_space(event_type2),
        without_white_space(country_code1) == without_white_space(country_code2),
    ensures
        normalized(partition_key_text(event_type1, country_code1)) == normalized(
            partition_key_text(event_type2, country_code2),
        ),
{
    broadcast use Seq::filter_distributes_over_add;
    assert(without_white_space(partition_key_text(event_type1, country_code1))
        =~= without_white_space(event_type1) + without_white_space(key_separator())
        + without_white_space(country_code1));
    assert(without_white_space(partition_key_text(event_type2, country_code2))
        =~= without_white_space(event_type2) + without_white_space(key_separator())
        + without_white_space(country_code2));
}

} // verus!
