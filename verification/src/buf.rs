//! The `bytes::BytesMut` buffer as the rest of the crate sees it: a sequence
//! of bytes, read and changed only through the items below.

use vstd::prelude::*;
use vstd::string::*;
use vstd::utf8::*;
use bytes::BytesMut;

verus! {

#[verifier::external_type_specification]
#[verifier::external_body]
pub struct ExBytesMut(BytesMut);

/// The bytes that a `BytesMut` holds, in order (its `len` bytes, not its
/// spare capacity).
pub uninterp spec fn bytes_of(b: BytesMut) -> Seq<u8>;

/// The bytes of an optional buffer.
pub open spec fn opt_bytes_of(o: Option<BytesMut>) -> Option<Seq<u8>> {
    match o {
        Some(b) => Some(bytes_of(b)),
        None => None,
    }
}

/// Calls `BytesMut::with_capacity`, which gives a buffer that holds no bytes
/// (only room for `capacity` of them). The vector it allocates panics above
/// `isize::MAX` bytes, which `requires` rules out.
#[verifier::external_body]
pub(crate) fn buffer_with_capacity(capacity: usize) -> (b: BytesMut)
    requires
        capacity <= isize::MAX,
    ensures
        bytes_of(b) == Seq::<u8>::empty(),
{
    BytesMut::with_capacity(capacity)
}

/// Calls `BytesMut::len`, the number of bytes held.
#[verifier::external_body]
pub(crate) fn buffer_len(b: &BytesMut) -> (n: usize)
    ensures
        n == bytes_of(*b).len(),
{
    b.len()
}

/// Calls `BytesMut::is_empty`, which is true when no byte is held.
#[verifier::external_body]
pub(crate) fn buffer_is_empty(b: &BytesMut) -> (e: bool)
    ensures
        e == (bytes_of(*b).len() == 0),
{
    b.is_empty()
}

/// Calls `BytesMut::split_to(at)`: the buffer keeps the bytes from `at` on,
/// and the bytes before `at` are handed back in a buffer of their own. The
/// crate panics where `at` exceeds the length, which `requires` rules out.
#[verifier::external_body]
pub(crate) fn buffer_split_to(b: &mut BytesMut, at: usize) -> (front: BytesMut)
    requires
        at <= bytes_of(*old(b)).len(),
    ensures
        bytes_of(front) == bytes_of(*old(b)).take(at as int),
        bytes_of(*final(b)) == bytes_of(*old(b)).skip(at as int),
{
    b.split_to(at)
}

/// Calls `BytesMut::extend_from_slice`, which appends the slice's bytes.
/// It grows the allocation as needed and panics where the new size cannot be
/// allocated; `requires` keeps the total within `isize::MAX` bytes. That an
/// allocation within that bound may still fail (and abort) is left unsaid.
#[verifier::external_body]
pub(crate) fn buffer_extend(b: &mut BytesMut, extra: &[u8])
    requires
        bytes_of(*old(b)).len() + extra@.len() <= isize::MAX,
    ensures
        bytes_of(*final(b)) == bytes_of(*old(b)) + extra@,
{
    b.extend_from_slice(extra)
}

/// Reads the buffer as a slice (`&b[..]`, through `Deref`): the same bytes.
#[verifier::external_body]
pub(crate) fn buffer_bytes(b: &BytesMut) -> (s: &[u8])
    ensures
        s@ == bytes_of(*b),
{
    &b[..]
}

/// Calls `std::str::from_utf8`, which accepts exactly the valid UTF-8 byte
/// sequences and then gives a string slice made of those bytes.
#[verifier::external_body]
pub(crate) fn str_from_utf8(v: &[u8]) -> (res: Option<&str>)
    ensures
        res is Some <==> valid_utf8(v@),
        res matches Some(s) ==> s.spec_bytes() == v@,
{
    std::str::from_utf8(v).ok()
}

} // verus!
