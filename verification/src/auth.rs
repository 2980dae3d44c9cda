//! Shared-secret authorisation of requests: a header carries a token that is
//! compared, in constant time, with the configured one.
use vstd::prelude::*;
use vstd::utf8::{
    decode_utf8, decode_utf8_encode_utf8, encode_utf8, encode_utf8_decode_utf8,
    is_ascii_chars, is_ascii_chars_encode_utf8, is_leading_byte_width_1, partial_valid_utf8,
    partial_valid_utf8_extend_ascii_block, valid_utf8,
};
use crate::controllers::ErrorReply;
use crate::errors::ErrorResponse;

verus! {

/// Header carrying the shared-secret token checked by `is_authorized`.
pub const API_TOKEN_HEADER: &'static str = "x-api-token";

/// A byte that a header value may hold if it is to be read as text:
/// visible ASCII, space or horizontal tab.
pub open spec fn is_visible_ascii(b: u8) -> bool {
    (32 <= b && b < 127) || b == 9
}

/// A header value that reads as text (`HeaderValue::to_str` succeeds).
pub open spec fn is_header_text(bytes: Seq<u8>) -> bool {
    forall|i: int| 0 <= i < bytes.len() ==> is_visible_ascii(#[trigger] bytes[i])
}

/// Whether a header value reads as text.
pub fn header_is_text(bytes: &[u8]) -> (r: bool)
    ensures
        r == is_header_text(bytes@),
{
    let mut bad = false;
    let mut i: usize = 0;
    while i < bytes.len()
        invariant
            i <= bytes@.len(),
            bad == !(forall|j: int| 0 <= j < i ==> is_visible_ascii(#[trigger] bytes@[j])),
        decreases bytes@.len() - i,
    {
        let b = bytes[i];
        let visible = (b >= 32 && b < 127) || b == 9;
        bad = bad || !visible;
        i = i + 1;
    }
    !bad
}

/// Compares two byte strings in time that depends on their lengths only.
pub fn constant_time_eq_bytes(a: &[u8], b: &[u8]) -> (r: bool)
    ensures
        r == (a@ == b@),
{
    if a.len() != b.len() {
        return false;
    }
    let n = a.len();
    let mut acc: u8 = 0;
    let mut i: usize = 0;
    while i < n
        invariant
            n == a@.len(),
            n == b@.len(),
            i <= n,
            (acc == 0) == (forall|j: int| 0 <= j < i ==> a@[j] == b@[j]),
        decreases n - i,
    {
        let x = a[i];
        let y = b[i];
        let next = acc | (x ^ y);
        assert((next == 0) == (acc == 0 && x == y)) by (bit_vector)
            requires
                next == acc | (x ^ y),
        ;
        acc = next;
        i = i + 1;
    }
    proof {
        if acc == 0 {
            assert(a@ =~= b@);
        }
    }
    acc == 0
}

/// Time-attack resistant string comparison: compares the UTF-8 bytes of the
/// two strings without stopping at the first difference.
pub fn constant_time_eq(a: &str, b: &str) -> (r: bool)
    ensures
        r == (a@ == b@),
{
    let r = constant_time_eq_bytes(a.as_bytes(), b.as_bytes());
    proof {
        encode_utf8_decode_utf8(a@);
        encode_utf8_decode_utf8(b@);
    }
    r
}

/// Whether a request whose token header holds `token_header` (absent when
/// the header is missing) is authorised: the header reads as text and is
/// exactly the expected token.
pub fn is_authorized(token_header: Option<&[u8]>, expected_token: &str) -> (r: bool)
    ensures
        r == (token_header matches Some(h) && is_header_text(h@) && h@ == encode_utf8(
            expected_token@,
        )),
{
    match token_header {
        Some(h) => {
            if header_is_text(h) {
                constant_time_eq_bytes(h, expected_token.as_bytes())
            } else {
                false
            }
        },
        None => false,
    }
}

/// A header value that reads as text is valid UTF-8, and it carries a token
/// exactly when, read as text, it is that token: comparing bytes, as
/// `is_authorized` does, is comparing the header's text with the token.
pub proof fn lemma_header_bytes_match_iff_text_matches(h: Seq<u8>, token: Seq<char>)
    requires
        is_header_text(h),
    ensures
        valid_utf8(h),
        (h == encode_utf8(token)) <==> (decode_utf8(h) == token),
{
    assert forall|i: int| 0 <= i < h.len() implies #[trigger] is_leading_byte_width_1(
        h[i],
    ) by {
        assert(is_visible_ascii(h[i]));
    }
    assert(h.subrange(0, 0) =~= Seq::<u8>::empty());
    assert(partial_valid_utf8(h, 0));
    partial_valid_utf8_extend_ascii_block(h, 0, h.len() as int);
    assert(h.subrange(0, h.len() as int) =~= h);
    encode_utf8_decode_utf8(token);
    decode_utf8_encode_utf8(h);
}

/// Which ASCII tokens can be presented in the header: the encoding of an
/// ASCII token reads as header text exactly when every character of the
/// token is printable ASCII (space to `~`) or a tab. So every printable
/// token, hyphens and all, is accepted when presented exactly, and a token
/// holding a control character can never be presented.
pub proof fn lemma_ascii_token_reads_as_header_text(token: Seq<char>)
    requires
        is_ascii_chars(token),
    ensures
        is_header_text(encode_utf8(token)) <==> (forall|i: int|
            0 <= i < token.len() ==> (' ' <= #[trigger] token[i] <= '~' || token[i] == '\t')),
{
    is_ascii_chars_encode_utf8(token);
    let h = encode_utf8(token);
    if is_header_text(h) {
        assert forall|i: int| 0 <= i < token.len() implies (' ' <= #[trigger] token[i] <= '~'
            || token[i] == '\t') by {
            assert(token[i] as u8 == h[i]);
            assert(is_visible_ascii(h[i]));
        }
    }
    if forall|i: int| 0 <= i < token.len() ==> (' ' <= #[trigger] token[i] <= '~' || token[i]
        == '\t') {
        assert forall|i: int| 0 <= i < h.len() implies is_visible_ascii(#[trigger] h[i]) by {
            assert(token[i] as u8 == h[i]);
            assert(' ' <= token[i] <= '~' || token[i] == '\t');
        }
    }
}

/// A printable ASCII token is authorised when it is presented exactly.
pub proof fn lemma_printable_token_is_authorized(token: Seq<char>)
    requires
        forall|i: int| 0 <= i < token.len() ==> (' ' <= #[trigger] token[i] <= '~' || token[i] == '\t'),
    ensures
        is_header_text(encode_utf8(token)),
{
    assert(is_ascii_chars(token));
    lemma_ascii_token_reads_as_header_text(token);
}

/// The standard answer to a request that `is_authorized` refuses.
pub fn unauthorized_response() -> (r: ErrorReply)
    ensures
        r.status == 401,
        r.body.error@ == "Unauthorized"@,
        r.body.message@ == "Missing or invalid API token"@,
{
    ErrorReply {
        status: 401,
        body: ErrorResponse::new("Unauthorized", "Missing or invalid API token"),
    }
}

} // verus!
