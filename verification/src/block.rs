//! The unit of transfer: an owned byte buffer backed by `bytes::BytesMut`,
//! exactly as the stages hand it over the channel.
//!
//! An empty block (length 0) is the reserved end-of-stream sentinel.
//! Ownership of a block moves from the reader to the writer on send; a block
//! never has two owners.

use vstd::prelude::*;

verus! {

#[verifier::external_type_specification]
#[verifier::external_body]
pub struct ExBytesMut(bytes::BytesMut);

/// The bytes a `bytes::BytesMut` buffer holds, in order.
pub uninterp spec fn bytes_contents(b: bytes::BytesMut) -> Seq<u8>;

/// Relies on `bytes::BytesMut::with_capacity`: the fresh buffer contains no
/// data, whatever its capacity.
#[verifier::external_body]
fn bytes_mut_with_capacity(capacity: usize) -> (r: bytes::BytesMut)
    ensures
        bytes_contents(r) == Seq::<u8>::empty(),
{
    bytes::BytesMut::with_capacity(capacity)
}

/// Relies on `bytes::BytesMut::len`: the number of bytes contained.
#[verifier::external_body]
fn bytes_mut_len(b: &bytes::BytesMut) -> (r: usize)
    ensures
        r == bytes_contents(*b).len(),
{
    b.len()
}

/// Relies on `bytes::BytesMut::extend_from_slice`: appends the given bytes
/// after the bytes already contained.
#[verifier::external_body]
fn bytes_mut_extend_from_slice(b: &mut bytes::BytesMut, extend: &[u8])
    ensures
        bytes_contents(*final(b)) == bytes_contents(*old(b)) + extend@,
{
    b.extend_from_slice(extend)
}

/// Relies on `<bytes::BytesMut as AsRef<[u8]>>::as_ref`: a borrow of all
/// contained bytes, in order.
#[verifier::external_body]
fn bytes_mut_as_slice(b: &bytes::BytesMut) -> (r: &[u8])
    ensures
        r@ == bytes_contents(*b),
{
    b.as_ref()
}

/// One block of payload bytes.  Its view is the byte sequence it carries.
#[derive(Debug)]
pub struct Block {
    buf: bytes::BytesMut,
}

impl View for Block {
    type V = Seq<u8>;

    closed spec fn view(&self) -> Seq<u8> {
        bytes_contents(self.buf)
    }
}

impl Block {
    /// The end-of-stream sentinel: a block with no payload.
    pub fn sentinel() -> (b: Block)
        ensures
            b@ == Seq::<u8>::empty(),
            b@.len() == 0,
    {
        Block { buf: bytes_mut_with_capacity(0) }
    }

    /// A block carrying a copy of `data`.
    pub fn from_slice(data: &[u8]) -> (b: Block)
        ensures
            b@ == data@,
    {
        let mut buf = bytes_mut_with_capacity(data.len());
        bytes_mut_extend_from_slice(&mut buf, data);
        proof {
            assert(Seq::<u8>::empty() + data@ =~= data@);
        }
        Block { buf }
    }

    /// The payload length in bytes.
    pub fn len(&self) -> (n: usize)
        ensures
            n == self@.len(),
    {
        bytes_mut_len(&self.buf)
    }

    /// Whether this block is the end-of-stream sentinel.
    pub fn is_empty(&self) -> (r: bool)
        ensures
            r == (self@.len() == 0),
    {
        self.len() == 0
    }

    /// A borrow of the payload bytes.
    pub fn payload(&self) -> (s: &[u8])
        ensures
            s@ == self@,
    {
        bytes_mut_as_slice(&self.buf)
    }
}

} // verus!
