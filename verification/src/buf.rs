//! Byte buffers: what the library needs of `bytes` and `smallvec`.
//!
//! A [`Bytes`] is a shared, immutable run of bytes; contracts speak of it
//! through [`bytes_content`]. [`RelayContents`] is the batch of packets that is
//! handed to the relay.

use bytes::{Buf, Bytes};
use smallvec::SmallVec;
use vstd::prelude::*;

verus! {

/// `bytes::Bytes`, opaque but for its content.
#[verifier::external_type_specification]
#[verifier::external_body]
pub struct ExBytes(Bytes);

/// The bytes that a buffer holds, first to last.
pub uninterp spec fn bytes_content(b: Bytes) -> Seq<u8>;

/// `Bytes::len`: the number of bytes in the buffer.
#[verifier::external_body]
pub(crate) fn bytes_len(b: &Bytes) -> (n: usize)
    ensures
        n == bytes_content(*b).len(),
{
    b.len()
}

/// `Bytes::clone`: a second handle on the same bytes.
#[verifier::external_body]
pub(crate) fn bytes_clone(b: &Bytes) -> (r: Bytes)
    ensures
        bytes_content(r) == bytes_content(*b),
{
    b.clone()
}

/// `Bytes::slice_ref` on the sub-slice from `start` to `end`: a handle on just
/// those bytes. Taking the sub-slice panics outside the buffer.
#[verifier::external_body]
pub(crate) fn bytes_slice(b: &Bytes, start: usize, end: usize) -> (r: Bytes)
    requires
        start <= end <= bytes_content(*b).len(),
    ensures
        bytes_content(r) == bytes_content(*b).subrange(start as int, end as int),
{
    b.slice_ref(&b[start..end])
}

/// `Bytes::split_to`: the first `at` bytes leave the buffer and are returned.
/// It panics when the buffer is shorter.
#[verifier::external_body]
pub(crate) fn bytes_split_to(b: &mut Bytes, at: usize) -> (r: Bytes)
    requires
        at <= bytes_content(*old(b)).len(),
    ensures
        bytes_content(r) == bytes_content(*old(b)).subrange(0, at as int),
        bytes_content(*final(b)) == bytes_content(*old(b)).subrange(
            at as int,
            bytes_content(*old(b)).len() as int,
        ),
{
    b.split_to(at)
}

/// `Buf::get_u16_le` of `Bytes`: reads two bytes, the low one first, and moves
/// past them. It panics when fewer are left.
#[verifier::external_body]
pub(crate) fn bytes_get_u16_le(b: &mut Bytes) -> (r: u16)
    requires
        bytes_content(*old(b)).len() >= 2,
    ensures
        r == bytes_content(*old(b))[0] + 256 * bytes_content(*old(b))[1],
        bytes_content(*final(b)) == bytes_content(*old(b)).subrange(
            2,
            bytes_content(*old(b)).len() as int,
        ),
{
    b.get_u16_le()
}

/// `Bytes::clear`: nothing is left in the buffer.
#[verifier::external_body]
pub(crate) fn bytes_clear(b: &mut Bytes)
    ensures
        bytes_content(*final(b)) == Seq::<u8>::empty(),
{
    b.clear()
}

/// `Bytes::from(Vec<u8>)`: a buffer that holds the bytes of the vector.
#[verifier::external_body]
pub(crate) fn bytes_from_vec(v: Vec<u8>) -> (r: Bytes)
    ensures
        bytes_content(r) == v@,
{
    Bytes::from(v)
}

/// `Bytes::to_vec`: the bytes of the buffer in a vector of their own.
#[verifier::external_body]
pub(crate) fn bytes_to_vec(b: &Bytes) -> (r: Vec<u8>)
    ensures
        r@ == bytes_content(*b),
{
    b.to_vec()
}

/// The packets that go to the relay in one message, in a
/// `smallvec::SmallVec` that keeps a single packet inline.
#[verifier::external_body]
pub struct RelayContents {
    items: SmallVec<[Bytes; 1]>,
}

/// The content of each packet of the batch, in order.
pub uninterp spec fn relay_contents(b: RelayContents) -> Seq<Seq<u8>>;

impl View for RelayContents {
    type V = Seq<Seq<u8>>;

    open spec fn view(&self) -> Seq<Seq<u8>> {
        relay_contents(*self)
    }
}

impl RelayContents {
    /// `SmallVec::new`: an empty batch.
    #[verifier::external_body]
    pub(crate) fn empty() -> (r: Self)
        ensures
            relay_contents(r) == Seq::<Seq<u8>>::empty(),
    {
        RelayContents { items: SmallVec::new() }
    }

    /// `SmallVec::push`: one more packet at the end.
    #[verifier::external_body]
    pub(crate) fn push(&mut self, b: Bytes)
        ensures
            relay_contents(*final(self)) == relay_contents(*old(self)).push(bytes_content(b)),
    {
        self.items.push(b);
    }

    /// `SmallVec::into_vec`: the packets in a vector, in the same order.
    #[verifier::external_body]
    pub(crate) fn take_vec(self) -> (r: Vec<Bytes>)
        ensures
            r@.len() == relay_contents(self).len(),
            forall|i: int| 0 <= i < r@.len() ==> bytes_content(#[trigger] r@[i])
                == relay_contents(self)[i],
    {
        self.items.into_vec()
    }

    /// The packets of the batch, in order.
    pub fn into_vec(self) -> (r: Vec<Bytes>)
        ensures
            r@.len() == self@.len(),
            forall|i: int| 0 <= i < r@.len() ==> bytes_content(#[trigger] r@[i]) == self@[i],
    {
        self.take_vec()
    }
}

} // verus!
