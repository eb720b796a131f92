//! Finding the terminal id in a message from an ECR machine.

use vstd::prelude::*;
use vstd::string::*;
use vstd::utf8::*;
use bytes::BytesMut;
use crate::buf::{bytes_of, buffer_len, buffer_bytes, str_from_utf8};

verus! {

broadcast use vstd::utf8::group_utf8_lib;

/// A message carries a terminal id when it is longer than 17 bytes and is
/// valid UTF-8.
pub open spec fn has_tid(data: Seq<u8>) -> bool {
    data.len() > 17 && valid_utf8(data)
}

/// The terminal id is the text of bytes 9 to 16 (17 excluded).
pub open spec fn tid_bytes(data: Seq<u8>) -> Seq<u8> {
    data.subrange(9, 17)
}

/// The terminal id of a message as characters, where it has one.
pub open spec fn spec_tid(data: Seq<u8>) -> Option<Seq<char>> {
    if has_tid(data) {
        Some(decode_utf8(tid_bytes(data)))
    } else {
        None
    }
}

/// Messages on which cutting out bytes 9..17 would split a character:
/// the id cannot be taken out as text there.
pub open spec fn tid_splits_char(data: Seq<u8>) -> bool {
    has_tid(data) && !(is_char_boundary(data, 9) && is_char_boundary(data, 17))
}

proof fn lemma_tid_boundaries(data: Seq<u8>)
    requires
        has_tid(data),
        is_char_boundary(data, 9),
        is_char_boundary(data, 17),
    ensures
        valid_utf8(data.subrange(9, data.len() as int)),
        is_char_boundary(data.subrange(9, data.len() as int), 8),
        data.subrange(9, data.len() as int).subrange(0, 8) == tid_bytes(data),
{
    let rest = data.subrange(9, data.len() as int);
    vstd::utf8::valid_utf8_split(data, 9);
    vstd::utf8::is_char_boundary_iff_not_is_continuation_byte(data, 17);
    vstd::utf8::is_char_boundary_iff_not_is_continuation_byte(rest, 8);
    assert(rest[8] == data[17]);
    assert(rest.subrange(0, 8) =~= tid_bytes(data));
}

/// Takes the terminal id out of a message: `None` when the message is 17
/// bytes long or shorter, or is not valid UTF-8; otherwise the text of bytes
/// 9..17.
pub fn extract_tid(data: &BytesMut) -> (res: Option<&str>)
    requires
        !tid_splits_char(bytes_of(*data)),
    ensures
        res is Some <==> has_tid(bytes_of(*data)),
        res is Some <==> (bytes_of(*data).len() > 17 && valid_utf8(bytes_of(*data))),
        res matches Some(s) ==> s.spec_bytes() == tid_bytes(bytes_of(*data)),
        res matches Some(s) ==> s.spec_bytes() == bytes_of(*data).subrange(9, 17),
        res matches Some(s) ==> spec_tid(bytes_of(*data)) == Some(s@),
{
    if buffer_len(data) <= 17 {
        return None;
    }
    let bytes = buffer_bytes(data);
    match str_from_utf8(bytes) {
        Some(text) => {
            proof {
                lemma_tid_boundaries(bytes@);
            }
            let (_, rest) = text.split_at(9);
            let (tid, _) = rest.split_at(8);
            proof {
                vstd::utf8::encode_utf8_decode_utf8(tid@);
            }
            Some(tid)
        },
        None => None,
    }
}

/// Whether `extract_tid` may be called on the message: false exactly where
/// taking out bytes 9..17 would split a character.
pub fn tid_on_char_boundaries(data: &BytesMut) -> (ok: bool)
    ensures
        ok == !tid_splits_char(bytes_of(*data)),
        ok == !(bytes_of(*data).len() > 17 && valid_utf8(bytes_of(*data)) && (is_continuation_byte(
            bytes_of(*data)[9],
        ) || is_continuation_byte(bytes_of(*data)[17]))),
{
    proof {
        lemma_split_exactly_at_continuation(bytes_of(*data));
    }
    if buffer_len(data) <= 17 {
        return true;
    }
    match str_from_utf8(buffer_bytes(data)) {
        Some(text) => text.is_char_boundary(9) && text.is_char_boundary(17),
        None => true,
    }
}

/// Why no terminal id could be taken out of a message.
pub enum TidError {
    /// Cutting the message at bytes 9 and 17 would split a character.
    SplitsCharacter,
}

/// Takes the terminal id out of any message: an error where cutting out
/// bytes 9..17 would split a character (where `extract_tid` cannot be
/// called), otherwise what `extract_tid` gives.
pub fn try_extract_tid(data: &BytesMut) -> (res: Result<Option<&str>, TidError>)
    ensures
        res is Err <==> tid_splits_char(bytes_of(*data)),
        res is Err <==> (bytes_of(*data).len() > 17 && valid_utf8(bytes_of(*data)) && (
        is_continuation_byte(bytes_of(*data)[9]) || is_continuation_byte(bytes_of(*data)[17]))),
        res matches Ok(o) ==> (o is Some <==> (bytes_of(*data).len() > 17 && valid_utf8(
            bytes_of(*data),
        ))),
        res matches Ok(Some(s)) ==> s.spec_bytes() == bytes_of(*data).subrange(9, 17),
        res matches Ok(o) ==> (o is Some <==> has_tid(bytes_of(*data))),
        res matches Ok(Some(s)) ==> s.spec_bytes() == tid_bytes(bytes_of(*data)),
        res matches Ok(Some(s)) ==> spec_tid(bytes_of(*data)) == Some(s@),
{
    proof {
        lemma_split_exactly_at_continuation(bytes_of(*data));
    }
    if tid_on_char_boundaries(data) {
        Ok(extract_tid(data))
    } else {
        Err(TidError::SplitsCharacter)
    }
}

/// Whether a message carries a terminal id depends on its length and its
/// UTF-8 validity alone: every valid UTF-8 message longer than 17 bytes,
/// of any length and whatever its other bytes, carries one, and no other
/// message does. Where bytes 9 and 17 start characters, the id is the text
/// whose UTF-8 encoding is exactly bytes 9..17.
pub proof fn lemma_tid_found_exactly(data: Seq<u8>)
    ensures
        spec_tid(data) is Some <==> (data.len() > 17 && valid_utf8(data)),
        (spec_tid(data) is Some && is_char_boundary(data, 9) && is_char_boundary(data, 17)) ==> (
        valid_utf8(data.subrange(9, 17)) && encode_utf8(spec_tid(data)->Some_0) == data.subrange(
            9,
            17,
        )),
{
    if data.len() > 17 && valid_utf8(data) && is_char_boundary(data, 9) && is_char_boundary(
        data,
        17,
    ) {
        lemma_tid_boundaries(data);
        let rest = data.subrange(9, data.len() as int);
        vstd::utf8::valid_utf8_split(rest, 8);
        assert(rest.subrange(0, 8) == data.subrange(9, 17));
        vstd::utf8::decode_utf8_encode_utf8(data.subrange(9, 17));
    }
}

/// The bytes before position 9 and after position 16 never decide the id:
/// two valid UTF-8 messages longer than 17 bytes that agree on bytes 9..17
/// both carry an id, and the same one.
pub proof fn lemma_tid_depends_only_on_its_bytes(a: Seq<u8>, b: Seq<u8>)
    requires
        a.len() > 17,
        b.len() > 17,
        valid_utf8(a),
        valid_utf8(b),
        a.subrange(9, 17) == b.subrange(9, 17),
    ensures
        spec_tid(a) is Some,
        spec_tid(a) == spec_tid(b),
{
}

/// The id cuts a character exactly when the message carries an id and byte
/// 9 or byte 17 is a UTF-8 continuation byte.
pub proof fn lemma_split_exactly_at_continuation(data: Seq<u8>)
    ensures
        tid_splits_char(data) <==> (data.len() > 17 && valid_utf8(data) && (is_continuation_byte(
            data[9],
        ) || is_continuation_byte(data[17]))),
{
    if data.len() > 17 && valid_utf8(data) {
        vstd::utf8::is_char_boundary_iff_not_is_continuation_byte(data, 9);
        vstd::utf8::is_char_boundary_iff_not_is_continuation_byte(data, 17);
    }
}

/// A message made of ASCII bytes never has its id cut through a character.
pub proof fn lemma_ascii_never_splits(data: Seq<u8>)
    requires
        forall|i: int| 0 <= i < data.len() ==> #[trigger] data[i] < 128,
    ensures
        !tid_splits_char(data),
{
    lemma_split_exactly_at_continuation(data);
    if data.len() > 17 {
        assert(data[9] < 128);
        assert(data[17] < 128);
    }
}

} // verus!
