//! Character and string primitives of std that the key and request logic
//! rests on, with what their documentation promises.
use vstd::prelude::*;
use vstd::utf8::{decode_utf8, is_ascii_chars, valid_utf8};

verus! {

/// The Unicode `White_Space` property (PropList.txt): the characters that
/// `char::is_whitespace` accepts.
pub open spec fn is_white_space(c: char) -> bool {
    let u = c as u32;
    ||| 0x09 <= u <= 0x0D
    ||| u == 0x20
    ||| u == 0x85
    ||| u == 0xA0
    ||| u == 0x1680
    ||| 0x2000 <= u <= 0x200A
    ||| u == 0x2028
    ||| u == 0x2029
    ||| u == 0x202F
    ||| u == 0x205F
    ||| u == 0x3000
}

/// The white-space characters that are ASCII are exactly tab, line feed,
/// vertical tab, form feed, carriage return and space: every ASCII letter,
/// digit and punctuation mark is kept by key normalisation.
pub proof fn lemma_ascii_white_space(c: char)
    requires
        '\0' <= c <= '\u{7f}',
    ensures
        is_white_space(c) <==> (c == ' ' || c == '\t' || c == '\n' || c == '\u{0b}' || c
            == '\u{0c}' || c == '\r'),
{
}

/// The white-space characters: exactly these 25 code points, and no other.
pub open spec fn white_space_chars() -> Set<char> {
    set![
        '\u{09}', '\u{0A}', '\u{0B}', '\u{0C}', '\u{0D}', '\u{20}', '\u{85}', '\u{A0}',
        '\u{1680}', '\u{2000}', '\u{2001}', '\u{2002}', '\u{2003}', '\u{2004}', '\u{2005}',
        '\u{2006}', '\u{2007}', '\u{2008}', '\u{2009}', '\u{200A}', '\u{2028}', '\u{2029}',
        '\u{202F}', '\u{205F}', '\u{3000}',
    ]
}

/// A character is white space exactly when it is one of the 25 listed code
/// points; in particular white space is a finite set of 25 characters.
pub proof fn lemma_white_space_is_the_listed_set()
    ensures
        Set::new(|c: char| is_white_space(c)) == white_space_chars(),
        white_space_chars().len() == 25,
{
    assert forall|c: char| is_white_space(c) <==> white_space_chars().contains(c) by {
        vstd::utf8::char_u32_cast(c, c as u32);
    }
    assert(Set::new(|c: char| is_white_space(c)) =~= white_space_chars());
}

/// Whether `c` has the Unicode `White_Space` property: what
/// `char::is_whitespace` decides.
pub fn char_is_whitespace(c: char) -> (r: bool)
    ensures
        r == is_white_space(c),
{
    let u = c as u32;
    (0x09 <= u && u <= 0x0D) || u == 0x20 || u == 0x85 || u == 0xA0 || u == 0x1680 || (0x2000
        <= u && u <= 0x200A) || u == 0x2028 || u == 0x2029 || u == 0x202F || u == 0x205F || u
        == 0x3000
}

/// The ASCII lowercase of a character: `A`-`Z` become `a`-`z`, every other
/// character stays.
pub open spec fn ascii_lower_char(c: char) -> char {
    if 'A' <= c <= 'Z' {
        ((c as u32) + 32) as char
    } else {
        c
    }
}

/// The ASCII lowercase of a character sequence, character by character.
pub open spec fn ascii_lowercase(s: Seq<char>) -> Seq<char> {
    s.map_values(|c: char| ascii_lower_char(c))
}

/// The lowercase mapping of `str::to_lowercase` (Unicode `Lowercase`
/// mapping, with its context rules for final sigma). Its value is a function
/// of the characters alone; this crate claims nothing more of it.
pub uninterp spec fn lowercase_of(s: Seq<char>) -> Seq<char>;

/// `str::to_lowercase`: the result's characters are `lowercase_of` the
/// input's. On ASCII text the Unicode lowercase mapping is ASCII case
/// folding (`A`-`Z` to `a`-`z`, all else unchanged), and that is stated too.
/// No Unicode lowercase mapping produces a white-space character (white-space
/// characters have no case, and none is the lowercase of another), so text
/// free of white space stays free of it.
#[verifier::external_body]
pub(crate) fn str_to_lowercase(s: &str) -> (r: String)
    ensures
        r@ == lowercase_of(s@),
        is_ascii_chars(s@) ==> r@ == ascii_lowercase(s@),
        (forall|i: int| 0 <= i < s@.len() ==> !is_white_space(#[trigger] s@[i])) ==> (forall|i: int|
            0 <= i < r@.len() ==> !is_white_space(#[trigger] r@[i])),
{
    s.to_lowercase()
}

/// `String::push`: appends one character.
#[verifier::external_body]
pub(crate) fn push_char(s: &mut String, c: char)
    ensures
        final(s)@ == old(s)@.push(c),
{
    s.push(c)
}

/// The text that `String::from_utf8_lossy` gives for a byte sequence (invalid
/// sequences replaced by U+FFFD). Its value is a function of the bytes alone.
pub uninterp spec fn utf8_lossy_text(bytes: Seq<u8>) -> Seq<char>;

/// `String::from_utf8_lossy`, taken as an owned `String`. Its documentation
/// states that valid UTF-8 comes back unchanged; of other input only the
/// name `utf8_lossy_text` is claimed.
#[verifier::external_body]
pub(crate) fn bytes_to_text_lossy(bytes: &[u8]) -> (r: String)
    ensures
        r@ == utf8_lossy_text(bytes@),
        valid_utf8(bytes@) ==> r@ == decode_utf8(bytes@),
{
    String::from_utf8_lossy(bytes).into_owned()
}

pub open spec fn is_ascii_digit(c: char) -> bool {
    '0' <= c <= '9'
}

/// The value of a sequence of decimal digits, most significant first.
pub open spec fn digits_value(s: Seq<char>) -> int
    decreases s.len(),
{
    if s.len() == 0 {
        0
    } else {
        digits_value(s.drop_last()) * 10 + (s.last() as int - '0' as int)
    }
}

pub open spec fn all_ascii_digits(s: Seq<char>) -> bool {
    forall|i: int| 0 <= i < s.len() ==> is_ascii_digit(#[trigger] s[i])
}

/// What `i32::from_str` accepts: an optional `+` or `-`, then one or more
/// ASCII digits, whose value fits in an `i32`; anything else is an error.
pub open spec fn decimal_i32(s: Seq<char>) -> Option<i32> {
    let negative = s.len() > 0 && s[0] == '-';
    let signed = s.len() > 0 && (s[0] == '-' || s[0] == '+');
    let digits = if signed { s.drop_first() } else { s };
    let value = if negative { -digits_value(digits) } else { digits_value(digits) };
    if digits.len() > 0 && all_ascii_digits(digits) && i32::MIN <= value <= i32::MAX {
        Some(value as i32)
    } else {
        None
    }
}

/// The decimal digit character of `d` (for `0 <= d <= 9`).
pub open spec fn digit_char(d: nat) -> char {
    ((48 + d) as u32) as char
}

/// The decimal text of a natural number: its digits, most significant
/// first, without leading zeros.
pub open spec fn decimal_text(n: nat) -> Seq<char>
    decreases n,
{
    if n < 10 {
        seq![digit_char(n)]
    } else {
        decimal_text(n / 10).push(digit_char(n % 10))
    }
}

/// The decimal text of `n` is a non-empty run of digits worth `n`.
pub proof fn lemma_decimal_text_digits(n: nat)
    ensures
        decimal_text(n).len() > 0,
        all_ascii_digits(decimal_text(n)),
        digits_value(decimal_text(n)) == n,
    decreases n,
{
    let d = (n % 10) as nat;
    assert(digit_char(d) as u32 == 48 + d);
    assert(digit_char(d) as int - '0' as int == d);
    assert(n == (n / 10) * 10 + n % 10) by (nonlinear_arith);
    if n < 10 {
        assert(decimal_text(n).drop_last() =~= Seq::<char>::empty());
        assert(digits_value(Seq::<char>::empty()) == 0);
    } else {
        lemma_decimal_text_digits(n / 10);
        let t = decimal_text(n / 10);
        assert(decimal_text(n).drop_last() =~= t);
        assert(decimal_text(n).last() == digit_char(d));
        assert forall|i: int| 0 <= i < decimal_text(n).len() implies is_ascii_digit(
            #[trigger] decimal_text(n)[i],
        ) by {
            if i < t.len() {
                assert(decimal_text(n)[i] == t[i]);
            }
        }
    }
}

/// Every `i32` written in decimal parses back to itself: the text of a
/// non-negative value, and `-` followed by the text of a negative one's
/// magnitude.
pub proof fn lemma_decimal_text_parses(n: nat)
    ensures
        n <= i32::MAX ==> decimal_i32(decimal_text(n)) == Some(n as i32),
        n <= 2147483648 ==> decimal_i32(seq!['-'] + decimal_text(n)) == Some((-n) as i32),
{
    lemma_decimal_text_digits(n);
    let t = decimal_text(n);
    assert(is_ascii_digit(t[0]));
    let m = seq!['-'] + t;
    assert(m.drop_first() =~= t);
    assert(m[0] == '-');
}

/// Only a sign and the digits `0`-`9` are read: text that parses is
/// non-empty, may start with `+` or `-`, and holds nothing but ASCII digits
/// after that.
pub proof fn lemma_parsed_text_is_decimal(s: Seq<char>)
    requires
        decimal_i32(s) is Some,
    ensures
        s.len() > 0,
        forall|i: int|
            0 <= i < s.len() ==> ('0' <= #[trigger] s[i] <= '9' || (i == 0 && (s[0] == '+' || s[0]
                == '-'))),
{
    let signed = s.len() > 0 && (s[0] == '-' || s[0] == '+');
    let digits = if signed { s.drop_first() } else { s };
    assert forall|i: int| 0 <= i < s.len() implies ('0' <= #[trigger] s[i] <= '9' || (i == 0 && (
    s[0] == '+' || s[0] == '-'))) by {
        if signed && i > 0 {
            assert(s[i] == digits[i - 1]);
            assert(is_ascii_digit(digits[i - 1]));
        } else if !signed {
            assert(is_ascii_digit(digits[i]));
        }
    }
}

/// A longer run of digits is worth at least as much as any of its prefixes.
pub proof fn lemma_digits_value_grows(x: Seq<char>, k: int)
    requires
        all_ascii_digits(x),
        0 <= k <= x.len(),
    ensures
        0 <= digits_value(x.take(k)) <= digits_value(x),
    decreases x.len(),
{
    if k == x.len() {
        assert(x.take(k) =~= x);
        if x.len() > 0 {
            lemma_digits_value_grows(x.drop_last(), k - 1);
        }
    } else {
        let y = x.drop_last();
        assert(all_ascii_digits(y)) by {
            assert forall|i: int| 0 <= i < y.len() implies is_ascii_digit(#[trigger] y[i]) by {
                assert(y[i] == x[i]);
            }
        }
        lemma_digits_value_grows(y, k);
        lemma_digits_value_grows(y, y.len() as int);
        assert(y.take(k) =~= x.take(k));
        assert(y.take(y.len() as int) =~= y);
        assert(is_ascii_digit(x[x.len() - 1]));
    }
}

/// `str::parse::<i32>` with the error dropped: `Some` exactly when the text
/// is a decimal integer in range, the grammar `i32::from_str` documents.
pub fn parse_i32(s: &str) -> (r: Option<i32>)
    ensures
        r == decimal_i32(s@),
{
    broadcast use vstd::string::group_string_axioms;
    let n = s.unicode_len();
    if n == 0 {
        return None;
    }
    let first = s.get_char(0);
    let negative = first == '-';
    let signed = first == '-' || first == '+';
    let start: usize = if signed { 1 } else { 0 };
    let ghost digits = if signed { s@.drop_first() } else { s@ };
    proof {
        assert(digits =~= s@.subrange(start as int, n as int));
    }
    if start == n {
        return None;
    }
    let mut v: i64 = 0;
    let mut i: usize = 0;
    for c in it: s.chars()
        invariant
            it.seq() == s@,
            n == s@.len(),
            start <= n,
            digits == s@.subrange(start as int, n as int),
            n > 0,
            first == s@[0],
            negative == (first == '-'),
            signed == (first == '-' || first == '+'),
            start == (if signed { 1usize } else { 0usize }),
            digits == (if signed { s@.drop_first() } else { s@ }),
            digits.len() > 0,
            i == it.index(),
            i <= start ==> v == 0,
            i >= start ==> v == digits_value(s@.subrange(start as int, i as int)) && all_ascii_digits(
                s@.subrange(start as int, i as int),
            ),
            0 <= v <= 2147483648,
    {
        if i >= start {
            let ghost prefix = s@.subrange(start as int, i as int);
            let ghost next = s@.subrange(start as int, i + 1);
            proof {
                assert(next.drop_last() =~= prefix);
                assert(next.last() == c);
                assert(digits[i - start] == c);
            }
            if !('0' <= c && c <= '9') {
                proof {
                    assert(!is_ascii_digit(digits[i - start]));
                }
                return None;
            }
            let d = ((c as u32) - ('0' as u32)) as i64;
            v = v * 10 + d;
            proof {
                assert(all_ascii_digits(next)) by {
                    assert forall|j: int| 0 <= j < next.len() implies is_ascii_digit(
                        #[trigger] next[j],
                    ) by {
                        if j < prefix.len() {
                            assert(next[j] == prefix[j]);
                        }
                    }
                }
            }
            if v > 2147483648 {
                proof {
                    if all_ascii_digits(digits) {
                        lemma_digits_value_grows(digits, i + 1 - start);
                        assert(digits.take(i + 1 - start) =~= next);
                    }
                }
                return None;
            }
        }
        i = i + 1;
    }
    proof {
        assert(s@.subrange(start as int, n as int) =~= digits);
    }
    if negative {
        Some((-v) as i32)
    } else if v <= 2147483647 {
        Some(v as i32)
    } else {
        None
    }
}

} // verus!
