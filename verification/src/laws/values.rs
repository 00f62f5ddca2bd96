//! What holds of single values: peers, header lines, lengths, texts and messages.

use vstd::prelude::*;

use crate::jsonrpc::{param_text, refusal_text, RpcParam};
use crate::message::{reply_param, reply_text, sync_reply, RpcMessage, SyncError, SyncOutcome};
use crate::peer::{real_peer, PeerId};
use crate::text::{name_is, parse_length, visible_text, Header};
use tdn_types::rpc::RpcError;
#[allow(unused_imports)]
use crate::jsonrpc::{error_object, json_text};
#[allow(unused_imports)]
use crate::peer::{no_peer, peer_of_hex, peer_of_hex_or_none};
#[allow(unused_imports)]
use crate::text::{
    all_digits, decimal_value, header_views, is_named, length_of, lossy, lower, text_of,
    unsigned_digits, utf8, visible,
};

verus! {

// ---- Peers ----

/// A request is made under the peer that it names as soon as one byte of that peer is not
/// zero, and under the peer of its connection where all of them are.
pub proof fn law_named_peer_goes_first(named: PeerId, carried: PeerId, r: PeerId)
    requires
        call_ensures(real_peer, (named, carried), r),
    ensures
        (exists|i: int| 0 <= i < 20 && #[trigger] named.0@[i] != 0) ==> r.0@ == named.0@,
        (forall|i: int| 0 <= i < 20 ==> #[trigger] named.0@[i] == 0) ==> r.0@ == carried.0@,
{
    if forall|i: int| 0 <= i < 20 ==> #[trigger] named.0@[i] == 0 {
        assert(named@ =~= no_peer());
    }
}

/// The peer that stands for no peer is made of twenty zero bytes.
pub proof fn law_no_peer_is_zero(r: PeerId)
    requires
        call_ensures(<PeerId as Default>::default, (), r),
    ensures
        forall|i: int| 0 <= i < 20 ==> #[trigger] r.0@[i] == 0,
        no_peer().len() == 20,
        forall|i: int| 0 <= i < 20 ==> #[trigger] no_peer()[i] == 0,
{
}

/// Two peers are the same if and only if all their bytes are.
pub proof fn law_same_peer(a: PeerId, b: PeerId, r: bool)
    requires
        call_ensures(<PeerId as PartialEq>::eq, (&a, &b), r),
    ensures
        r <==> forall|i: int| 0 <= i < 20 ==> #[trigger] a.0@[i] == b.0@[i],
{
    if forall|i: int| 0 <= i < 20 ==> #[trigger] a.0@[i] == b.0@[i] {
        assert(a.0 =~= b.0);
    }
}

/// Whether a character is the hexadecimal digit of a number below sixteen.
pub open spec fn writes(c: char, n: int) -> bool {
    if n < 10 {
        c as int == 48 + n
    } else {
        c as int == 87 + n || c as int == 55 + n
    }
}

/// Whether a text holds the two digits of each of twenty bytes from `start` on, and
/// nothing else.
pub open spec fn spells(text: Seq<char>, start: int, bytes: Seq<u8>) -> bool {
    &&& bytes.len() == 20
    &&& text.len() == start + 40
    &&& forall|i: int|
        0 <= i < 20 ==> {
            &&& writes(text[start + 2 * i], #[trigger] bytes[i] as int / 16)
            &&& writes(text[start + 2 * i + 1], bytes[i] as int % 16)
        }
}

/// Writing the bytes of a peer in hexadecimal, with or without `0x` before them, and reading
/// the text gives the peer.
pub proof fn law_hex_is_read_back(text: Seq<char>, start: int, bytes: Seq<u8>)
    requires
        start == 0 || (start == 2 && text[0] == '0' && text[1] == 'x'),
        spells(text, start, bytes),
    ensures
        peer_of_hex(text) == Some(bytes),
        peer_of_hex_or_none(text) == bytes,
{
    let digits = crate::peer::hex_digits(text);
    if start == 0 {
        assert(writes(text[1], bytes[0] as int % 16));
    }
    assert(digits =~= text.skip(start));
    assert forall|k: int| 0 <= k < 40 implies crate::peer::hex_value(#[trigger] digits[k])
        is Some by {
        let i = k / 2;
        assert(writes(text[start + 2 * i], bytes[i] as int / 16));
        assert(writes(text[start + 2 * i + 1], bytes[i] as int % 16));
        assert(k == 2 * i || k == 2 * i + 1);
    }
    assert(peer_of_hex(text)->0 =~= bytes) by {
        assert forall|i: int| 0 <= i < 20 implies (#[trigger] peer_of_hex(text)->0[i])
            == bytes[i] by {
            assert(writes(text[start + 2 * i], bytes[i] as int / 16));
            assert(digits[2 * i] == text[start + 2 * i]);
            assert(digits[2 * i + 1] == text[start + 2 * i + 1]);
        }
    }
}

/// A text that is read as a peer is its writing in hexadecimal, with or without `0x` before
/// it; every other text is read as no peer.
pub proof fn law_only_hex_is_read(text: Seq<char>)
    ensures
        peer_of_hex(text) matches Some(bytes) ==> spells(text, 0, bytes) || (text[0] == '0'
            && text[1] == 'x' && spells(text, 2, bytes)),
        peer_of_hex(text) is None ==> forall|i: int|
            0 <= i < 20 ==> #[trigger] peer_of_hex_or_none(text)[i] == 0,
{
    if let Some(bytes) = peer_of_hex(text) {
        let digits = crate::peer::hex_digits(text);
        let start: int = if digits.len() == text.len() {
            0
        } else {
            2
        };
        assert forall|i: int| 0 <= i < 20 implies {
            &&& writes(text[start + 2 * i], #[trigger] bytes[i] as int / 16)
            &&& writes(text[start + 2 * i + 1], bytes[i] as int % 16)
        } by {
            assert(digits[2 * i] == text[start + 2 * i]);
            assert(digits[2 * i + 1] == text[start + 2 * i + 1]);
            assert(crate::peer::hex_value(digits[2 * i]) is Some);
            assert(crate::peer::hex_value(digits[2 * i + 1]) is Some);
        }
    }
}

// ---- Header lines ----

/// The lines that a contract speaks of are the lines that were handed over: as many, in the
/// same order, each with its name and its value.
pub proof fn law_lines_are_kept(headers: Seq<Header>)
    ensures
        header_views(headers).len() == headers.len(),
        forall|i: int|
            0 <= i < headers.len() ==> (#[trigger] header_views(headers)[i]).0
                == headers[i].name@ && header_views(headers)[i].1 == headers[i].value@,
{
}

/// Two header names agree if and only if they are as long, and each byte of one is that of
/// the other or the same letter in the other case.
pub proof fn law_names_agree_but_for_case(name: Seq<u8>, wanted: Seq<char>)
    ensures
        is_named(name, wanted) <==> name.len() == wanted.len() && forall|i: int|
            0 <= i < name.len() ==> {
                ||| #[trigger] name[i] == wanted[i] as u8
                ||| 97 <= name[i] <= 122 && name[i] == (wanted[i] as u8) + 32
                ||| 65 <= name[i] <= 90 && name[i] + 32 == wanted[i] as u8
            },
{
    if is_named(name, wanted) {
        assert forall|i: int| 0 <= i < name.len() implies {
            ||| #[trigger] name[i] == wanted[i] as u8
            ||| 97 <= name[i] <= 122 && name[i] == (wanted[i] as u8) + 32
            ||| 65 <= name[i] <= 90 && name[i] + 32 == wanted[i] as u8
        } by {
            assert(lower(name[i]) == lower(wanted[i] as u8));
        }
    }
}

/// The comparison of header names answers just that.
pub proof fn law_name_comparison(name: &[u8], wanted: &str, r: bool)
    requires
        call_ensures(name_is, (name, wanted), r),
    ensures
        r <==> name@.len() == wanted@.len() && forall|i: int|
            0 <= i < name@.len() ==> {
                ||| #[trigger] name@[i] == wanted@[i] as u8
                ||| 97 <= name@[i] <= 122 && name@[i] == (wanted@[i] as u8) + 32
                ||| 65 <= name@[i] <= 90 && name@[i] + 32 == wanted@[i] as u8
            },
{
    law_names_agree_but_for_case(name@, wanted@);
}

// ---- Lengths ----

/// One digit is the length that it says; no other single byte, and no empty text, is a length.
pub proof fn law_length_of_a_digit(c: u8)
    ensures
        48 <= c <= 57 ==> length_of(seq![c]) == Some((c - 48) as usize),
        !(48 <= c <= 57) ==> length_of(seq![c]) is None,
        length_of(Seq::empty()) is None,
{
    reveal_with_fuel(decimal_value, 2);
    let text = seq![c];
    if c != 43 {
        assert(unsigned_digits(text) == text);
        assert(text.drop_last() =~= Seq::empty());
        if !(48 <= c <= 57) {
            assert(text[0] == c);
        }
    }
}

/// A byte behind a length makes it ten times as long and longer by the digit, as far as a
/// `usize` goes; a byte that is no digit makes it no length.
pub proof fn law_length_grows_by_a_digit(text: Seq<u8>, c: u8)
    requires
        text.len() > 0,
        text != seq![43u8],
    ensures
        length_of(text.push(c)) == (if 48 <= c <= 57 && length_of(text) is Some
            && length_of(text)->0 * 10 + (c - 48) <= usize::MAX {
            Some((length_of(text)->0 * 10 + (c - 48)) as usize)
        } else {
            None
        }),
{
    let digits = unsigned_digits(text);
    let more = unsigned_digits(text.push(c));
    assert(more =~= digits.push(c));
    assert(more.drop_last() =~= digits);
    if text[0] == 43 && text.len() == 1 {
        assert(text =~= seq![43u8]);
    }
    assert(digits.len() > 0);
    assert(more[more.len() - 1] == c);
    if all_digits(digits) {
        crate::text::lemma_leading_digits(digits, 0);
        if 48 <= c <= 57 {
            assert(all_digits(more));
        } else {
            assert(!all_digits(more));
        }
    } else {
        let k = choose|k: int| 0 <= k < digits.len() && !(48 <= #[trigger] digits[k] <= 57);
        assert(more[k] == digits[k]);
        assert(!all_digits(more));
    }
}

/// One plus sign before a length changes nothing; a second one makes it no length.
pub proof fn law_length_with_a_plus(text: Seq<u8>)
    ensures
        text.len() > 0 && text[0] != 43 ==> length_of(seq![43u8] + text) == length_of(text),
        text.len() > 0 && text[0] == 43 ==> length_of(seq![43u8] + text) is None,
{
    let signed = seq![43u8] + text;
    assert(signed.skip(1) =~= text);
    if text.len() > 0 && text[0] == 43 {
        assert(!all_digits(text));
    }
}

/// Header values are read as the lengths that they are; a digit more makes the length ten
/// times as long and longer by the digit.
pub proof fn law_lengths_are_read(a: &[u8], b: &[u8], c: u8, ra: Option<usize>, rb: Option<usize>)
    requires
        call_ensures(parse_length, (a,), ra),
        call_ensures(parse_length, (b,), rb),
        b@ == a@.push(c),
    ensures
        ra == length_of(a@),
        a@.len() == 0 ==> ra is None,
        a@.len() == 0 && 48 <= c <= 57 ==> rb == Some((c - 48) as usize),
        ra matches Some(n) ==> rb == (if 48 <= c <= 57 && n * 10 + (c - 48) <= usize::MAX {
            Some((n * 10 + (c - 48)) as usize)
        } else {
            None
        }),
        a@.len() > 0 && a@ != seq![43u8] && ra is None ==> rb is None,
{
    law_length_of_a_digit(c);
    law_length_of_a_digit(43);
    if a@.len() == 0 {
        assert(a@ =~= Seq::empty());
        assert(b@ =~= seq![c]);
    } else if a@ != seq![43u8] {
        law_length_grows_by_a_digit(a@, c);
    }
}

// ---- Texts ----

/// A header value is read as text if and only if each of its bytes is a tab or printable, and
/// then character by character.
pub proof fn law_visible_value(value: &[u8], r: Option<String>)
    requires
        call_ensures(visible_text, (value,), r),
    ensures
        r is Some <==> forall|i: int|
            0 <= i < value@.len() ==> #[trigger] value@[i] == 9 || 32 <= value@[i] <= 126,
        r matches Some(text) ==> text@.len() == value@.len() && forall|i: int|
            0 <= i < value@.len() ==> #[trigger] text@[i] as int == value@[i],
{
    law_visible(value@);
}

/// The same of the values that contracts speak of.
pub proof fn law_visible(value: Seq<u8>)
    ensures
        visible(value) is Some <==> forall|i: int|
            0 <= i < value.len() ==> #[trigger] value[i] == 9 || 32 <= value[i] <= 126,
        visible(value) matches Some(text) ==> text.len() == value.len() && forall|i: int|
            0 <= i < value.len() ==> #[trigger] text[i] as int == value[i],
{
    if visible(value) is Some {
        assert forall|i: int| 0 <= i < value.len() implies #[trigger] value[i] == 9 || 32
            <= value[i] <= 126 by {
            assert(crate::text::is_visible(value[i]));
        }
    }
}

/// Bytes are a text in UTF-8 if and only if they are its encoding, and are then read as that
/// text; bytes that encode no text are read with their faults replaced.
pub proof fn law_utf8_is_undone(bytes: Seq<u8>, text: Seq<char>)
    ensures
        utf8(bytes) == Some(text) <==> bytes == vstd::utf8::encode_utf8(text),
        bytes == vstd::utf8::encode_utf8(text) ==> text_of(bytes) == text,
        (forall|other: Seq<char>| bytes != #[trigger] vstd::utf8::encode_utf8(other)) ==> text_of(
            bytes,
        ) == lossy(bytes),
{
    vstd::utf8::encode_utf8_valid_utf8(text);
    vstd::utf8::encode_utf8_decode_utf8(text);
    if vstd::utf8::valid_utf8(bytes) {
        vstd::utf8::decode_utf8_encode_utf8(bytes);
    }
}

// ---- Messages ----

/// A request made from within the process and answered with a value returns that value, each
/// and every one.
pub proof fn law_answer_is_returned<W, S>(value: RpcParam, r: Result<RpcParam, SyncError>)
    requires
        call_ensures(
            sync_reply::<W, S>,
            (SyncOutcome::Answered(RpcMessage::Response(value)),),
            r,
        ),
    ensures
        r == Ok::<RpcParam, SyncError>(value),
{
}

/// A request made from within the process that another message ends returns null; one that
/// nothing answers fails, with the reason.
pub proof fn law_no_answer_is_told<W, S>(
    message: RpcMessage<W, S>,
    other: Result<RpcParam, SyncError>,
    late: Result<RpcParam, SyncError>,
    dropped: Result<RpcParam, SyncError>,
)
    requires
        !(message is Response),
        call_ensures(sync_reply::<W, S>, (SyncOutcome::Answered(message),), other),
        call_ensures(sync_reply::<W, S>, (SyncOutcome::TimedOut,), late),
        call_ensures(sync_reply::<W, S>, (SyncOutcome::Dropped,), dropped),
    ensures
        other is Ok && json_text(other->Ok_0) == "null"@,
        late == Err::<RpcParam, SyncError>(SyncError::Timeout),
        dropped == Err::<RpcParam, SyncError>(SyncError::Closed),
{
}

/// A response carries its value back, and is written as the JSON text of that value.
pub proof fn law_response_is_carried<W, S>(value: RpcParam, param: RpcParam, text: String)
    requires
        call_ensures(reply_param::<W, S>, (RpcMessage::Response(value),), param),
        call_ensures(reply_text::<W, S>, (RpcMessage::Response(value),), text),
    ensures
        param == value,
        text@ == json_text(value),
{
}

/// Any other message carries null back.
pub proof fn law_other_messages_carry_null<W, S>(
    message: RpcMessage<W, S>,
    param: RpcParam,
    text: String,
)
    requires
        !(message is Response),
        call_ensures(reply_param::<W, S>, (message,), param),
        call_ensures(reply_text::<W, S>, (message,), text),
    ensures
        json_text(param) == "null"@,
        text@ == "null"@,
{
}

/// A value is written as its JSON text, and a refusal as the JSON text of its error object.
pub proof fn law_values_are_written(
    param: RpcParam,
    error: RpcError,
    id: u64,
    text: String,
    refused: String,
)
    requires
        call_ensures(param_text, (&param,), text),
        call_ensures(refusal_text, (&error, id), refused),
    ensures
        text@ == json_text(param),
        refused@ == json_text(error_object(error, id)),
{
}

} // verus!
