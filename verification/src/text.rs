//! Bytes read as text: UTF-8, header names, header values and decimal numbers.

use vstd::prelude::*;
use vstd::utf8::*;

verus! {

/// A header line, as bytes.
#[derive(Debug)]
pub struct Header {
    pub name: Vec<u8>,
    pub value: Vec<u8>,
}

/// The name and the value of a header line.
pub type HeaderView = (Seq<u8>, Seq<u8>);

impl View for Header {
    type V = HeaderView;

    open spec fn view(&self) -> HeaderView {
        (self.name@, self.value@)
    }
}

/// The names and the values of header lines.
pub open spec fn header_views(headers: Seq<Header>) -> Seq<HeaderView> {
    Seq::new(headers.len(), |i: int| headers[i]@)
}

/// What `String::from_utf8_lossy` makes of bytes.
pub uninterp spec fn lossy(bytes: Seq<u8>) -> Seq<char>;

/// The text of bytes: what they encode in UTF-8, or, where they are not UTF-8, what is
/// left of them with the faults replaced.
pub open spec fn text_of(bytes: Seq<u8>) -> Seq<char> {
    match utf8(bytes) {
        Some(text) => text,
        None => lossy(bytes),
    }
}

/// Calls `String::from_utf8_lossy`. Trusted: the text depends on the bytes alone, and is
/// what they encode wherever they are UTF-8. Where the replacement characters stand in the
/// text of other bytes is not stated.
#[verifier::external_body]
pub(crate) fn lossy_text(bytes: &[u8]) -> (r: String)
    ensures
        r@ == lossy(bytes@),
        utf8(bytes@) matches Some(text) ==> r@ == text,
{
    String::from_utf8_lossy(bytes).into_owned()
}

/// The text that bytes encode in UTF-8.
pub open spec fn utf8(bytes: Seq<u8>) -> Option<Seq<char>> {
    if valid_utf8(bytes) {
        Some(decode_utf8(bytes))
    } else {
        None
    }
}

/// Calls `String::from_utf8`. Trusted: it succeeds on exactly the bytes that are UTF-8,
/// with the text that they encode.
#[verifier::external_body]
pub(crate) fn utf8_text(bytes: Vec<u8>) -> (r: Option<String>)
    ensures
        r is Some <==> utf8(bytes@) is Some,
        r matches Some(text) ==> text@ == utf8(bytes@)->0,
{
    String::from_utf8(bytes).ok()
}

/// Copies bytes.
pub(crate) fn copy_bytes(bytes: &[u8]) -> (r: Vec<u8>)
    ensures
        r@ == bytes@,
{
    let mut r: Vec<u8> = Vec::new();
    r.extend_from_slice(bytes);
    assert(r@ =~= bytes@);
    r
}

/// Whether a byte may stand in a header value that is read as text: a tab, or a printable
/// ASCII character.
pub open spec fn is_visible(b: u8) -> bool {
    b == 9 || 32 <= b <= 126
}

/// A header value as text, one character for each byte, where all its bytes are visible.
pub open spec fn visible(value: Seq<u8>) -> Option<Seq<char>> {
    if forall|i: int| 0 <= i < value.len() ==> is_visible(#[trigger] value[i]) {
        Some(Seq::new(value.len(), |i: int| value[i] as char))
    } else {
        None
    }
}

/// ASCII bytes are the UTF-8 of the characters with their numbers.
proof fn lemma_ascii_is_utf8(bytes: Seq<u8>)
    requires
        forall|i: int| 0 <= i < bytes.len() ==> #[trigger] bytes[i] < 128,
    ensures
        utf8(bytes) == Some(Seq::new(bytes.len(), |i: int| bytes[i] as char)),
{
    let chars = Seq::new(bytes.len(), |i: int| bytes[i] as char);
    assert(is_ascii_chars(chars));
    is_ascii_chars_encode_utf8(chars);
    assert(encode_utf8(chars) =~= bytes) by {
        assert forall|i: int| 0 <= i < bytes.len() implies encode_utf8(chars)[i] == bytes[i] by {
            assert(chars[i] as u8 == encode_utf8(chars)[i]);
        }
    }
    encode_utf8_valid_utf8(chars);
    encode_utf8_decode_utf8(chars);
}

/// Reads a header value as text.
pub fn visible_text(value: &[u8]) -> (r: Option<String>)
    ensures
        r is Some <==> visible(value@) is Some,
        r matches Some(text) ==> text@ == visible(value@)->0,
{
    let mut i: usize = 0;
    while i < value.len()
        invariant
            i <= value@.len(),
            forall|k: int| 0 <= k < i ==> is_visible(#[trigger] value@[k]),
        decreases value@.len() - i,
    {
        let b: u8 = value[i];
        if !(b == 9 || (32 <= b && b <= 126)) {
            assert(!is_visible(value@[i as int]));
            return None;
        }
        i = i + 1;
    }
    proof {
        lemma_ascii_is_utf8(value@);
    }
    utf8_text(copy_bytes(value))
}

/// An ASCII letter in lower case; any other byte as it is.
pub open spec fn lower(b: u8) -> u8 {
    if 65 <= b <= 90 {
        (b + 32) as u8
    } else {
        b
    }
}

/// Whether a header name is this one, in whatever case its letters stand.
pub open spec fn is_named(name: Seq<u8>, wanted: Seq<char>) -> bool {
    &&& name.len() == wanted.len()
    &&& forall|i: int| 0 <= i < name.len() ==> lower(#[trigger] name[i]) == lower(wanted[i] as u8)
}

fn to_lower(b: u8) -> (r: u8)
    ensures
        r == lower(b),
{
    if 65 <= b && b <= 90 {
        b + 32
    } else {
        b
    }
}

/// Compares a header name with a wanted one.
pub fn name_is(name: &[u8], wanted: &str) -> (r: bool)
    requires
        is_ascii_chars(wanted@),
    ensures
        r == is_named(name@, wanted@),
{
    let target = wanted.as_bytes();
    proof {
        is_ascii_chars_encode_utf8(wanted@);
        assert(target@.len() == wanted@.len());
        assert forall|k: int| 0 <= k < wanted@.len() implies #[trigger] target@[k]
            == wanted@[k] as u8 by {
            assert(wanted@[k] as u8 == encode_utf8(wanted@)[k]);
        }
    }
    if name.len() != target.len() {
        return false;
    }
    let mut i: usize = 0;
    while i < name.len()
        invariant
            i <= name@.len(),
            name@.len() == target@.len(),
            name@.len() == wanted@.len(),
            forall|k: int| 0 <= k < wanted@.len() ==> #[trigger] target@[k] == wanted@[k] as u8,
            forall|k: int| 0 <= k < i ==> lower(#[trigger] name@[k]) == lower(wanted@[k] as u8),
        decreases name@.len() - i,
    {
        if to_lower(name[i]) != to_lower(target[i]) {
            assert(lower(name@[i as int]) != lower(wanted@[i as int] as u8));
            return false;
        }
        i = i + 1;
    }
    true
}

/// Whether all bytes are decimal digits.
pub open spec fn all_digits(digits: Seq<u8>) -> bool {
    forall|i: int| 0 <= i < digits.len() ==> 48 <= #[trigger] digits[i] <= 57
}

/// The number that decimal digits write.
pub open spec fn decimal_value(digits: Seq<u8>) -> int
    decreases digits.len(),
{
    if digits.len() == 0 {
        0
    } else {
        decimal_value(digits.drop_last()) * 10 + (digits.last() - 48)
    }
}

/// The digits of a number: what follows the plus sign, where there is one.
pub open spec fn unsigned_digits(text: Seq<u8>) -> Seq<u8> {
    if text.len() > 0 && text[0] == 43 {
        text.skip(1)
    } else {
        text
    }
}

/// The length that a header value writes: at least one decimal digit and nothing else but
/// a leading plus sign, for a number that a `usize` holds.
pub open spec fn length_of(text: Seq<u8>) -> Option<usize> {
    let digits = unsigned_digits(text);
    if digits.len() > 0 && all_digits(digits) && decimal_value(digits) <= usize::MAX {
        Some(decimal_value(digits) as usize)
    } else {
        None
    }
}

/// A number is at least what its leading digits write.
pub(crate) proof fn lemma_leading_digits(digits: Seq<u8>, n: int)
    requires
        all_digits(digits),
        0 <= n <= digits.len(),
    ensures
        0 <= decimal_value(digits.take(n)) <= decimal_value(digits),
    decreases digits.len(),
{
    if digits.len() == 0 {
        assert(digits.take(n) =~= digits);
    } else if n == digits.len() {
        assert(digits.take(n) =~= digits);
        lemma_leading_digits(digits.drop_last(), n - 1);
    } else {
        lemma_leading_digits(digits.drop_last(), n);
        assert(digits.drop_last().take(n) =~= digits.take(n));
    }
}

/// Reads the length that a header value writes.
pub fn parse_length(text: &[u8]) -> (r: Option<usize>)
    ensures
        r == length_of(text@),
{
    let start: usize = if text.len() > 0 && text[0] == 43 {
        1
    } else {
        0
    };
    let ghost digits = unsigned_digits(text@);
    assert(digits =~= text@.skip(start as int));
    if text.len() == start {
        return None;
    }
    let mut value: usize = 0;
    let mut i: usize = start;
    assert(digits.take(0) =~= Seq::<u8>::empty());
    while i < text.len()
        invariant
            start <= i <= text@.len(),
            start < text@.len(),
            digits == unsigned_digits(text@),
            digits == text@.skip(start as int),
            forall|k: int| 0 <= k < i - start ==> 48 <= #[trigger] digits[k] <= 57,
            value == decimal_value(digits.take(i - start)),
        decreases text@.len() - i,
    {
        let b: u8 = text[i];
        let ghost k = i - start;
        assert(digits[k] == b);
        if !(48 <= b && b <= 57) {
            return None;
        }
        let digit: usize = (b - 48) as usize;
        assert(digits.take(k + 1).drop_last() =~= digits.take(k));
        proof {
            if all_digits(digits) {
                lemma_leading_digits(digits, k + 1);
            }
        }
        if value > (usize::MAX - digit) / 10 {
            assert(value * 10 + digit > usize::MAX);
            return None;
        }
        value = value * 10 + digit;
        i = i + 1;
    }
    assert(digits.take(i - start) =~= digits);
    Some(value)
}

} // verus!
