//! Zero-filled payload buffers of the `bytes` crate, and the move of a frozen
//! buffer into a fresh writable one.

use vstd::prelude::*;

verus! {

#[verifier::external_type_specification]
#[verifier::external_body]
pub struct ExBytes(bytes::Bytes);

#[verifier::external_type_specification]
#[verifier::external_body]
pub struct ExBytesMut(bytes::BytesMut);

/// The bytes that a `Bytes` holds.
pub uninterp spec fn bytes_content(b: bytes::Bytes) -> Seq<u8>;

/// The bytes that a `BytesMut` holds (its length, not its capacity).
pub uninterp spec fn bytes_mut_content(b: bytes::BytesMut) -> Seq<u8>;

/// `n` zero bytes.
pub open spec fn zeros(n: nat) -> Seq<u8> {
    Seq::new(n, |i: int| 0u8)
}

/// Calls `BytesMut::with_capacity`: an empty buffer. A capacity above
/// `isize::MAX` is left out, where the allocation panics.
#[verifier::external_body]
fn bytes_mut_with_capacity(capacity: usize) -> (r: bytes::BytesMut)
    requires
        capacity <= isize::MAX,
    ensures
        bytes_mut_content(r) == Seq::<u8>::empty(),
{
    bytes::BytesMut::with_capacity(capacity)
}

/// Calls `BytesMut::resize`: the buffer is cut to `new_len` bytes, or
/// extended to `new_len` bytes with copies of `value`. A length above
/// `isize::MAX` is left out, where the reservation panics.
#[verifier::external_body]
fn bytes_mut_resize(buf: &mut bytes::BytesMut, new_len: usize, value: u8)
    requires
        new_len <= isize::MAX,
    ensures
        new_len <= bytes_mut_content(*old(buf)).len() ==> bytes_mut_content(*final(buf))
            == bytes_mut_content(*old(buf)).take(new_len as int),
        new_len > bytes_mut_content(*old(buf)).len() ==> bytes_mut_content(*final(buf))
            == bytes_mut_content(*old(buf)) + Seq::new(
            (new_len - bytes_mut_content(*old(buf)).len()) as nat,
            |i: int| value,
        ),
{
    buf.resize(new_len, value)
}

/// Calls `BytesMut::freeze`: an immutable buffer with the same bytes.
#[verifier::external_body]
fn bytes_mut_freeze(buf: bytes::BytesMut) -> (r: bytes::Bytes)
    ensures
        bytes_content(r) == bytes_mut_content(buf),
{
    buf.freeze()
}

/// Calls `BufMut::put` on a `BytesMut` with a `Bytes` source: the source's
/// bytes are appended (reusing the source's storage where the buffer has no
/// capacity of its own). A total above `isize::MAX` is left out, where the
/// reservation panics.
#[verifier::external_body]
fn bytes_mut_put(buf: &mut bytes::BytesMut, src: bytes::Bytes)
    requires
        bytes_mut_content(*old(buf)).len() + bytes_content(src).len() <= isize::MAX,
    ensures
        bytes_mut_content(*final(buf)) == bytes_mut_content(*old(buf)) + bytes_content(src),
{
    bytes::BufMut::put(buf, src)
}

/// Calls `Bytes::len`: the number of bytes held. Like every Rust object, a
/// buffer holds at most `isize::MAX` bytes.
#[verifier::external_body]
fn bytes_len(b: &bytes::Bytes) -> (r: usize)
    ensures
        r == bytes_content(*b).len(),
        r <= isize::MAX,
{
    b.len()
}

/// Calls `Bytes::from::<Vec<u8>>`: a buffer holding the vector's bytes.
#[verifier::external_body]
fn bytes_from_vec(v: Vec<u8>) -> (r: bytes::Bytes)
    ensures
        bytes_content(r) == v@,
{
    bytes::Bytes::from(v)
}

/// A frozen buffer of `size` zero bytes, made by resizing an empty writable
/// buffer of that capacity.
pub fn zeroed_bytes(size: usize) -> (r: bytes::Bytes)
    requires
        size <= isize::MAX,
    ensures
        bytes_content(r) == zeros(size as nat),
{
    let mut buffer = bytes_mut_with_capacity(size);
    bytes_mut_resize(&mut buffer, size, 0);
    assert(bytes_mut_content(buffer) =~= zeros(size as nat));
    bytes_mut_freeze(buffer)
}

/// A frozen buffer of one gibibyte (2^30 bytes) of zeros.
pub fn create_1gb_bytes() -> (r: bytes::Bytes)
    ensures
        bytes_content(r) == zeros(0x4000_0000),
{
    zeroed_bytes(0x4000_0000)
}

/// A payload of `size` zero bytes, made from a zero-filled vector.
pub fn zero_payload(size: usize) -> (r: bytes::Bytes)
    ensures
        bytes_content(r) == zeros(size as nat),
{
    let v: Vec<u8> = vec![0u8; size];
    assert(v@ =~= zeros(size as nat));
    bytes_from_vec(v)
}

/// Puts `bytes` into a fresh writable buffer of `capacity` bytes and freezes
/// it again: the result holds the same bytes. The source's storage is taken
/// over only when `capacity` is zero; otherwise the bytes are copied into the
/// new buffer.
pub fn transfer_into_new_buffer(bytes: bytes::Bytes, capacity: usize) -> (r: bytes::Bytes)
    requires
        capacity <= isize::MAX,
    ensures
        bytes_content(r) == bytes_content(bytes),
{
    let _len = bytes_len(&bytes);
    let mut target = bytes_mut_with_capacity(capacity);
    bytes_mut_put(&mut target, bytes);
    assert(bytes_mut_content(target) =~= bytes_content(bytes));
    bytes_mut_freeze(target)
}

/// The number of bytes in `bytes`.
pub fn payload_len(bytes: &bytes::Bytes) -> (r: usize)
    ensures
        r == bytes_content(*bytes).len(),
{
    bytes_len(bytes)
}

} // verus!
