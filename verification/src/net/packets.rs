//! Packets: what the QUIC layer hands over to be sent, how it is cut into
//! packets for the relay, and how a relay message falls into packets again.

use crate::buf::{
    bytes_clear, bytes_clone, bytes_content, bytes_get_u16_le, bytes_len, bytes_slice,
    bytes_split_to, RelayContents,
};
use crate::net::addr::{IpAddr, SocketAddr};
use bytes::Bytes;
use vstd::prelude::*;

verus! {

/// Data to be sent to one destination.
#[derive(Debug)]
pub struct Transmit {
    /// The socket that the data goes to.
    pub destination: SocketAddr,
    /// The explicit congestion notification bits to set.
    pub ecn: Option<u8>,
    /// One packet, or several of the same size one after the other.
    pub contents: Bytes,
    /// The size of the packets, if there are several. The last may be shorter.
    pub segment_size: Option<usize>,
    /// The address to send from.
    pub src_ip: Option<IpAddr>,
}

impl Transmit {
    /// The bytes to be sent.
    pub open spec fn content(self) -> Seq<u8> {
        bytes_content(self.contents)
    }

    /// `other` differs in its destination at most.
    pub open spec fn same_payload(self, other: Transmit) -> bool {
        &&& self.ecn == other.ecn
        &&& self.content() == other.content()
        &&& self.segment_size == other.segment_size
        &&& self.src_ip == other.src_ip
    }

    /// The segment size, if there is one, can be cut by.
    pub open spec fn wf(self) -> bool {
        self.segment_size != Some(0usize)
    }

    /// A copy of the transmit.
    pub fn copy(&self) -> (r: Transmit)
        ensures
            r.destination == self.destination,
            r.same_payload(*self),
    {
        Transmit {
            destination: self.destination,
            ecn: self.ecn,
            contents: bytes_clone(&self.contents),
            segment_size: self.segment_size,
            src_ip: self.src_ip,
        }
    }
}

/// `s` cut into pieces of `size`, the last one as long as is left.
pub open spec fn chunks(s: Seq<u8>, size: nat) -> Seq<Seq<u8>>
    decreases s.len(),
{
    if s.len() == 0 || size == 0 {
        Seq::empty()
    } else if s.len() <= size {
        seq![s]
    } else {
        seq![s.subrange(0, size as int)] + chunks(s.subrange(size as int, s.len() as int), size)
    }
}

/// The packets of one transmit.
pub open spec fn transmit_packets(t: Transmit) -> Seq<Seq<u8>> {
    match t.segment_size {
        Some(size) => chunks(t.content(), size as nat),
        None => seq![t.content()],
    }
}

/// The packets of a list of transmits, in order.
pub open spec fn all_packets(ts: Seq<Transmit>) -> Seq<Seq<u8>>
    decreases ts.len(),
{
    if ts.len() == 0 {
        Seq::empty()
    } else {
        all_packets(ts.drop_last()) + transmit_packets(ts.last())
    }
}

/// Split a number of transmits into individual packets.
///
/// For each transmit, if it has a segment size, it will be split into
/// multiple packets according to that segment size. If it does not have a
/// segment size, the contents will be sent as a single packet.
pub fn split_packets(transmits: &[Transmit]) -> (r: RelayContents)
    requires
        forall|i: int| 0 <= i < transmits@.len() ==> (#[trigger] transmits@[i]).wf(),
    ensures
        r@ == all_packets(transmits@),
{
    let mut res = RelayContents::empty();
    let mut i: usize = 0;
    assert(transmits@.take(0) =~= Seq::empty());
    while i < transmits.len()
        invariant
            i <= transmits@.len(),
            forall|i: int| 0 <= i < transmits@.len() ==> (#[trigger] transmits@[i]).wf(),
            res@ == all_packets(transmits@.take(i as int)),
        decreases transmits@.len() - i,
    {
        let transmit = &transmits[i];
        let ghost before = res@;
        let ghost content = transmit.content();
        match transmit.segment_size {
            Some(segment_size) => {
                let len = bytes_len(&transmit.contents);
                let mut start: usize = 0;
                assert(content.subrange(0, content.len() as int) =~= content);
                assert(before + chunks(content, segment_size as nat) =~= res@ + chunks(
                    content.subrange(0, content.len() as int),
                    segment_size as nat,
                ));
                while start < len
                    invariant
                        transmit.wf(),
                        transmit.segment_size == Some(segment_size),
                        content == transmit.content(),
                        len == content.len(),
                        start <= len,
                        before + chunks(content, segment_size as nat) == res@ + chunks(
                            content.subrange(start as int, content.len() as int),
                            segment_size as nat,
                        ),
                    decreases len - start,
                {
                    let end: usize = if len - start <= segment_size {
                        len
                    } else {
                        start + segment_size
                    };
                    let ghost rest = content.subrange(start as int, content.len() as int);
                    let ghost pushed = res@;
                    res.push(bytes_slice(&transmit.contents, start, end));
                    proof {
                        let piece = content.subrange(start as int, end as int);
                        let tail = content.subrange(end as int, content.len() as int);
                        if len - start <= segment_size {
                            assert(piece =~= rest);
                            assert(tail =~= Seq::empty());
                            assert(chunks(rest, segment_size as nat) =~= seq![rest]);
                            assert(chunks(tail, segment_size as nat) =~= Seq::empty());
                        } else {
                            assert(piece =~= rest.subrange(0, segment_size as int));
                            assert(tail =~= rest.subrange(segment_size as int, rest.len() as int));
                        }
                        assert(pushed + chunks(rest, segment_size as nat) =~= res@ + chunks(
                            tail,
                            segment_size as nat,
                        ));
                    }
                    start = end;
                }
                assert(content.subrange(start as int, content.len() as int) =~= Seq::empty());
                assert(chunks(
                    content.subrange(start as int, content.len() as int),
                    segment_size as nat,
                ) =~= Seq::empty());
                assert(res@ =~= before + transmit_packets(*transmit));
            },
            None => {
                res.push(bytes_clone(&transmit.contents));
                assert(res@ =~= before + transmit_packets(*transmit));
            },
        }
        assert(transmits@.take(i + 1).drop_last() =~= transmits@.take(i as int));
        i += 1;
    }
    assert(transmits@.take(i as int) =~= transmits@);
    res
}

/// All pieces one after the other.
pub open spec fn joined(parts: Seq<Seq<u8>>) -> Seq<u8>
    decreases parts.len(),
{
    if parts.len() == 0 {
        Seq::empty()
    } else {
        parts[0] + joined(parts.subrange(1, parts.len() as int))
    }
}

/// Cutting loses nothing: the pieces one after the other are the content again,
/// no piece is empty, and every piece but the last has the full size.
pub proof fn chunks_rejoin(s: Seq<u8>, size: nat)
    requires
        size > 0,
    ensures
        joined(chunks(s, size)) == s,
        forall|i: int|
            0 <= i < chunks(s, size).len() ==> 0 < (#[trigger] chunks(s, size)[i]).len() <= size,
        forall|i: int|
            0 <= i < chunks(s, size).len() - 1 ==> (#[trigger] chunks(s, size)[i]).len() == size,
    decreases s.len(),
{
    let c = chunks(s, size);
    if s.len() == 0 {
    } else if s.len() <= size {
        assert(c.subrange(1, 1) =~= Seq::empty());
        assert(joined(c.subrange(1, 1)) =~= Seq::empty());
        assert(c[0] + joined(c.subrange(1, 1)) =~= s);
    } else {
        let head = s.subrange(0, size as int);
        let tail = s.subrange(size as int, s.len() as int);
        chunks_rejoin(tail, size);
        let rest = chunks(tail, size);
        assert(c.subrange(1, c.len() as int) =~= rest);
        assert(head + tail =~= s);
        assert forall|i: int| 0 <= i < c.len() implies 0 < (#[trigger] c[i]).len() <= size by {
            if i > 0 {
                assert(c[i] == rest[i - 1]);
            }
        }
        assert forall|i: int| 0 <= i < c.len() - 1 implies (#[trigger] c[i]).len() == size by {
            if i > 0 {
                assert(c[i] == rest[i - 1]);
            }
        }
    }
}

/// A relay message broke off inside a packet or its length.
#[derive(Clone, Copy, Debug, PartialEq, Eq, Structural)]
pub struct UnexpectedEof;

/// A relay message is larger than one may be.
#[derive(Clone, Copy, Debug, PartialEq, Eq, Structural)]
pub struct PacketTooBig {
    /// The size of the message.
    pub len: usize,
}

/// Splits a packet into its component items.
///
/// Each item is preceded by its length in two bytes, the low one first.
#[derive(Debug)]
pub struct PacketSplitIter {
    bytes: Bytes,
}

/// The number that two bytes give, the low one first.
pub open spec fn u16_le(s: Seq<u8>) -> int {
    s[0] + 256 * s[1]
}

/// A whole item stands at the start of `s`.
pub open spec fn has_item(s: Seq<u8>) -> bool {
    s.len() >= 2 && s.len() - 2 >= u16_le(s)
}

/// The item at the start of `s`.
pub open spec fn first_item(s: Seq<u8>) -> Seq<u8> {
    s.subrange(2, 2 + u16_le(s))
}

/// What follows the item at the start of `s`.
pub open spec fn after_item(s: Seq<u8>) -> Seq<u8> {
    s.subrange(2 + u16_le(s), s.len() as int)
}

/// The items of a message. Where it breaks off, an error is the last one.
pub open spec fn items(s: Seq<u8>) -> Seq<Result<Seq<u8>, UnexpectedEof>>
    decreases s.len(),
{
    if s.len() == 0 {
        Seq::empty()
    } else if has_item(s) {
        seq![Ok::<Seq<u8>, UnexpectedEof>(first_item(s))] + items(after_item(s))
    } else {
        seq![Err::<Seq<u8>, UnexpectedEof>(UnexpectedEof)]
    }
}

/// An item with its bytes in place of the buffer that holds them.
pub open spec fn item_view(r: Result<Bytes, UnexpectedEof>) -> Result<Seq<u8>, UnexpectedEof> {
    match r {
        Ok(b) => Ok(bytes_content(b)),
        Err(e) => Err(e),
    }
}

impl View for PacketSplitIter {
    type V = Seq<u8>;

    closed spec fn view(&self) -> Seq<u8> {
        bytes_content(self.bytes)
    }
}

impl PacketSplitIter {
    /// Create a new PacketSplitIter from a packet.
    ///
    /// Returns an error if the packet is too big: if it has more than
    /// `max_packet_size` bytes.
    pub fn new(max_packet_size: usize, bytes: Bytes) -> (r: Result<Self, PacketTooBig>)
        ensures
            bytes_content(bytes).len() > max_packet_size ==> r == Err::<Self, _>(
                PacketTooBig { len: bytes_content(bytes).len() as usize },
            ),
            bytes_content(bytes).len() <= max_packet_size ==> {
                &&& r is Ok
                &&& r->Ok_0@ == bytes_content(bytes)
            },
    {
        let len: usize = bytes_len(&bytes);
        if len > max_packet_size {
            return Err(PacketTooBig { len });
        }
        Ok(PacketSplitIter { bytes })
    }

    /// Gives up: nothing is left to be split.
    fn fail(&mut self) -> (r: Option<Result<Bytes, UnexpectedEof>>)
        ensures
            final(self)@ == Seq::<u8>::empty(),
            r == Some(Err::<Bytes, UnexpectedEof>(UnexpectedEof)),
    {
        bytes_clear(&mut self.bytes);
        Some(Err(UnexpectedEof))
    }

    /// The next item, or an error where the message breaks off. After an error
    /// there is nothing more.
    pub fn next(&mut self) -> (r: Option<Result<Bytes, UnexpectedEof>>)
        ensures
            r is None <==> old(self)@.len() == 0,
            r is None ==> final(self)@ == old(self)@,
            r matches Some(item) ==> {
                &&& items(old(self)@) == seq![item_view(item)] + items(final(self)@)
                &&& final(self)@.len() < old(self)@.len()
                &&& item is Ok <==> has_item(old(self)@)
                &&& item is Ok ==> final(self)@ == after_item(old(self)@)
                &&& item is Err ==> final(self)@.len() == 0
            },
    {
        let ghost before = self@;
        let remaining: usize = bytes_len(&self.bytes);
        if remaining > 0 {
            if remaining < 2 {
                let r = self.fail();
                assert(items(before) =~= seq![item_view(r->0)] + items(self@));
                return r;
            }
            let len: usize = bytes_get_u16_le(&mut self.bytes) as usize;
            if bytes_len(&self.bytes) < len {
                let r = self.fail();
                assert(items(before) =~= seq![item_view(r->0)] + items(self@));
                return r;
            }
            let item = bytes_split_to(&mut self.bytes, len);
            proof {
                assert(bytes_content(item) =~= first_item(before));
                assert(self@ =~= after_item(before));
            }
            Some(Ok(item))
        } else {
            None
        }
    }

    /// All items that are left, in order.
    pub fn collect(self) -> (r: Vec<Result<Bytes, UnexpectedEof>>)
        ensures
            r@.map_values(|item: Result<Bytes, UnexpectedEof>| item_view(item)) == items(self@),
    {
        let ghost all = items(self@);
        let mut iter = self;
        let mut out: Vec<Result<Bytes, UnexpectedEof>> = Vec::new();
        let ghost views = |v: Seq<Result<Bytes, UnexpectedEof>>|
            v.map_values(|item: Result<Bytes, UnexpectedEof>| item_view(item));
        assert(all =~= views(out@) + items(iter@));
        loop
            invariant
                all == items(self@),
                views == (|v: Seq<Result<Bytes, UnexpectedEof>>|
                    v.map_values(|item: Result<Bytes, UnexpectedEof>| item_view(item))),
                all == views(out@) + items(iter@),
            ensures
                all == views(out@),
            decreases iter@.len(),
        {
            let ghost before = iter@;
            let ghost done = out@;
            match iter.next() {
                Some(item) => {
                    out.push(item);
                    proof {
                        assert(views(out@) =~= views(done).push(item_view(item)));
                        assert(views(done) + items(before) =~= views(out@) + items(iter@));
                    }
                },
                None => {
                    assert(items(before) =~= Seq::empty());
                    assert(all =~= views(out@));
                    break;
                },
            }
        }
        out
    }
}

/// A message that carries the given items.
pub open spec fn framed(parts: Seq<Seq<u8>>) -> Seq<u8>
    decreases parts.len(),
{
    if parts.len() == 0 {
        Seq::empty()
    } else {
        seq![(parts[0].len() % 256) as u8, (parts[0].len() / 256) as u8] + parts[0] + framed(
            parts.subrange(1, parts.len() as int),
        )
    }
}

/// A message made of items splits into exactly these items.
pub proof fn framed_items_come_back(parts: Seq<Seq<u8>>)
    requires
        forall|i: int| 0 <= i < parts.len() ==> (#[trigger] parts[i]).len() <= 0xffff,
    ensures
        items(framed(parts)) == parts.map_values(|p: Seq<u8>| Ok::<Seq<u8>, UnexpectedEof>(p)),
    decreases parts.len(),
{
    if parts.len() == 0 {
        assert(items(framed(parts)) =~= parts.map_values(
            |p: Seq<u8>| Ok::<Seq<u8>, UnexpectedEof>(p),
        ));
    } else {
        let p = parts[0];
        let rest = parts.subrange(1, parts.len() as int);
        assert forall|i: int| 0 <= i < rest.len() implies (#[trigger] rest[i]).len() <= 0xffff by {
            assert(rest[i] == parts[i + 1]);
        }
        framed_items_come_back(rest);
        let s = framed(parts);
        let n = p.len() as int;
        assert(s[0] == (n % 256) as u8 && s[1] == (n / 256) as u8);
        assert(u16_le(s) == n);
        assert(first_item(s) =~= p);
        assert(after_item(s) =~= framed(rest));
        assert(items(s) =~= parts.map_values(|p: Seq<u8>| Ok::<Seq<u8>, UnexpectedEof>(p)));
    }
}

/// Only the last item of a message can be an error.
pub proof fn only_the_last_item_fails(s: Seq<u8>, i: int)
    requires
        0 <= i < items(s).len() - 1,
    ensures
        items(s)[i] is Ok,
    decreases s.len(),
{
    if has_item(s) && i > 0 {
        only_the_last_item_fails(after_item(s), i - 1);
    }
}

/// Splitting loses nothing and mixes nothing up: a transmit without a segment
/// size is one packet, one with a segment size is cut into packets that make up
/// its content, and the packets of two lists of transmits are those of the first
/// followed by those of the second.
pub proof fn split_packets_keep_every_byte(t: Transmit, a: Seq<Transmit>, b: Seq<Transmit>)
    requires
        t.wf(),
    ensures
        t.segment_size is None ==> all_packets(seq![t]) == seq![bytes_content(t.contents)],
        joined(all_packets(seq![t])) == bytes_content(t.contents),
        t.segment_size matches Some(size) ==> forall|i: int|
            0 <= i < all_packets(seq![t]).len() ==> 0 < (#[trigger] all_packets(seq![t])[i]).len()
                <= size && (i < all_packets(seq![t]).len() - 1 ==> all_packets(seq![t])[i].len()
                == size),
        all_packets(a + b) == all_packets(a) + all_packets(b),
    decreases b.len(),
{
    let one = seq![t];
    assert(one.drop_last() =~= Seq::empty());
    assert(all_packets(one.drop_last()) =~= Seq::empty());
    assert(one.last() == t);
    assert(all_packets(one) =~= transmit_packets(t));
    match t.segment_size {
        Some(size) => {
            chunks_rejoin(t.content(), size as nat);
        },
        None => {
            let p = transmit_packets(t);
            assert(p.subrange(1, 1) =~= Seq::empty());
            assert(joined(p.subrange(1, 1)) =~= Seq::empty());
            assert(joined(p) =~= t.content());
        },
    }
    if b.len() == 0 {
        assert(a + b =~= a);
        assert(all_packets(a) + all_packets(b) =~= all_packets(a));
    } else {
        split_packets_keep_every_byte(t, a, b.drop_last());
        assert((a + b).drop_last() =~= a + b.drop_last());
        assert(all_packets(a + b) =~= all_packets(a) + all_packets(b));
    }
}

/// A message is read item by item: two bytes give the length of the next one,
/// the low byte first, and what follows the item is read in the same way. What
/// is too short for a whole item is one error.
pub proof fn an_item_follows_its_length(lo: u8, hi: u8, item: Seq<u8>, rest: Seq<u8>)
    requires
        item.len() == lo + 256 * hi,
    ensures
        items(seq![lo, hi] + item + rest) == seq![Ok::<Seq<u8>, UnexpectedEof>(item)] + items(rest),
        items(Seq::empty()) == Seq::<Result<Seq<u8>, UnexpectedEof>>::empty(),
        items(seq![lo]) == seq![Err::<Seq<u8>, UnexpectedEof>(UnexpectedEof)],
        forall|k: int|
            0 <= k < item.len() ==> items(seq![lo, hi] + (#[trigger] item.take(k))) == seq![
                Err::<Seq<u8>, UnexpectedEof>(UnexpectedEof),
            ],
{
    let s = seq![lo, hi] + item + rest;
    assert(s[0] == lo && s[1] == hi);
    assert(first_item(s) =~= item);
    assert(after_item(s) =~= rest);
    assert forall|k: int| 0 <= k < item.len() implies items(
        seq![lo, hi] + (#[trigger] item.take(k)),
    ) == seq![Err::<Seq<u8>, UnexpectedEof>(UnexpectedEof)] by {
        let short = seq![lo, hi] + item.take(k);
        assert(short[0] == lo && short[1] == hi);
        assert(short.len() == 2 + k);
    }
}

} // verus!
