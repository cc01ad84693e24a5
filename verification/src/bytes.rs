//! Byte buffers that stay on the stack while they are short.

use vstd::prelude::*;

verus! {

/// A buffer for the short byte strings of a handshake: host names, user names
/// and passwords. Up to 32 bytes are held in place, longer contents on the heap.
#[verifier::external_body]
#[derive(Debug, PartialEq, Eq)]
pub struct ByteBuf {
    inner: smallvec::SmallVec<[u8; 32]>,
}

/// The bytes that a buffer holds, first to last.
pub uninterp spec fn contents(buf: ByteBuf) -> Seq<u8>;

impl View for ByteBuf {
    type V = Seq<u8>;

    open spec fn view(&self) -> Seq<u8> {
        contents(*self)
    }
}

/// `SmallVec::from_vec`: the buffer holds the elements of the vector, in their
/// order, whether they were moved in place or left on the heap.
#[verifier::external_body]
fn smallvec_from_vec(bytes: Vec<u8>) -> (buf: ByteBuf)
    ensures
        contents(buf) == bytes@,
{
    ByteBuf { inner: smallvec::SmallVec::from_vec(bytes) }
}

/// `SmallVec::as_slice`: the slice is the whole content of the buffer.
#[verifier::external_body]
fn smallvec_as_slice(buf: &ByteBuf) -> (bytes: &[u8])
    ensures
        bytes@ == contents(*buf),
{
    buf.inner.as_slice()
}

impl ByteBuf {
    /// Takes over the bytes of a vector.
    pub fn from_vec(bytes: Vec<u8>) -> (buf: Self)
        ensures
            buf@ == bytes@,
    {
        smallvec_from_vec(bytes)
    }

    /// The bytes in the buffer.
    pub fn as_slice(&self) -> (bytes: &[u8])
        ensures
            bytes@ == self@,
    {
        smallvec_as_slice(self)
    }

    /// The number of bytes in the buffer.
    pub fn len(&self) -> (n: usize)
        ensures
            n == self@.len(),
    {
        smallvec_as_slice(self).len()
    }
}

/// Tells whether a byte occurs among others.
pub fn contains(bytes: &[u8], byte: u8) -> (found: bool)
    ensures
        found == bytes@.contains(byte),
{
    let mut i: usize = 0;
    while i < bytes.len()
        invariant
            i <= bytes@.len(),
            forall|j: int| 0 <= j < i ==> bytes@[j] != byte,
        decreases bytes@.len() - i,
    {
        if bytes[i] == byte {
            return true;
        }
        i += 1;
    }
    false
}

/// The 16-bit number that two bytes spell in network order.
pub open spec fn spec_be16(bytes: Seq<u8>) -> u16
    recommends
        bytes.len() == 2,
{
    (bytes[0] * 256 + bytes[1]) as u16
}

/// The two bytes that spell a 16-bit number in network order.
pub open spec fn spec_be16_bytes(value: u16) -> Seq<u8> {
    seq![(value / 256) as u8, (value % 256) as u8]
}

/// Reads a 16-bit number in network order, if given exactly two bytes.
pub fn be16(bytes: &[u8]) -> (value: Option<u16>)
    ensures
        value is Some <==> bytes@.len() == 2,
        value matches Some(v) ==> v == spec_be16(bytes@),
{
    if bytes.len() == 2 {
        Some((bytes[0] as u16) * 256 + (bytes[1] as u16))
    } else {
        None
    }
}

/// Spelling a number in network order and reading it back gives the number.
pub proof fn law_be16_round_trip(value: u16)
    ensures
        spec_be16_bytes(value).len() == 2,
        spec_be16(spec_be16_bytes(value)) == value,
{
}

/// Reading two bytes as a number and spelling it again gives the two bytes.
pub proof fn law_be16_bytes_round_trip(bytes: Seq<u8>)
    requires
        bytes.len() == 2,
    ensures
        spec_be16_bytes(spec_be16(bytes)) == bytes,
{
    assert(spec_be16_bytes(spec_be16(bytes)) =~= bytes);
}

} // verus!
