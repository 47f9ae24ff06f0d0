//! Receiving: in which order the sockets are tried, which packets the QUIC layer
//! gets to see, and how relay messages become packets.

use crate::buf::{bytes_clone, bytes_content, bytes_len};
use crate::key::PublicKey;
use crate::net::addr::{DiscoMessageSource, IpAddr, QuicMappedAddr, RelayUrl, SocketAddr};
use crate::net::packets::{item_view, items, PacketSplitIter, PacketTooBig, UnexpectedEof};
use crate::net::poll::{Poll, SockError};
use crate::net::sock::MagicSock;
use bytes::Bytes;
use vstd::prelude::*;

verus! {

/// What is known of the data in a buffer.
#[derive(Debug, Clone, Copy, PartialEq, Eq, Structural)]
pub struct RecvMeta {
    /// Where the data came from.
    pub addr: SocketAddr,
    /// How many bytes there are.
    pub len: usize,
    /// The size of the packets in the buffer. The last one may be shorter.
    pub stride: usize,
    /// The explicit congestion notification bits.
    pub ecn: Option<u8>,
    /// The address at which the data was received.
    pub dst_ip: Option<IpAddr>,
}

/// What a call to receive did last.
#[derive(Debug)]
pub enum RecvEvent {
    /// Nothing yet.
    Start,
    /// The IPv4 socket was tried.
    UdpV4(Poll<Result<usize, SockError>>),
    /// The IPv6 socket was tried.
    UdpV6(Poll<Result<usize, SockError>>),
}

/// What a call to receive does next.
#[derive(Debug)]
pub enum RecvStep {
    /// It is done with this result.
    Done(Poll<Result<usize, SockError>>),
    /// Try the IPv4 socket.
    TryUdpV4,
    /// Try the IPv6 socket.
    TryUdpV6,
    /// Look for messages from the relays.
    TryRelay,
    /// So many buffers were filled by a UDP socket.
    Received { msgs: usize, from_ipv4: bool },
}

/// Something was received.
pub open spec fn got_some(p: Poll<Result<usize, SockError>>) -> bool {
    p matches Poll::Ready(Ok(n)) && n > 0
}

/// What a call to receive does next.
pub open spec fn recv_step(is_closed: bool, has_conn6: bool, event: RecvEvent) -> RecvStep {
    match event {
        RecvEvent::Start => if is_closed {
            RecvStep::Done(Poll::Pending)
        } else {
            RecvStep::TryUdpV4
        },
        RecvEvent::UdpV4(Poll::Ready(Err(e))) => RecvStep::Done(Poll::Ready(Err(e))),
        RecvEvent::UdpV6(Poll::Ready(Err(e))) => RecvStep::Done(Poll::Ready(Err(e))),
        RecvEvent::UdpV4(p) => if got_some(p) {
            RecvStep::Received { msgs: p->Ready_0->Ok_0, from_ipv4: true }
        } else if has_conn6 {
            RecvStep::TryUdpV6
        } else {
            RecvStep::TryRelay
        },
        RecvEvent::UdpV6(p) => if got_some(p) {
            RecvStep::Received { msgs: p->Ready_0->Ok_0, from_ipv4: false }
        } else {
            RecvStep::TryRelay
        },
    }
}

/// The order of polling is: UDPv4, UDPv6, relay. The first that has something
/// ends it, and so does an error. A closed socket receives nothing.
///
/// Receiving on a closed socket will return [`Poll::Pending`] indefinitely.
pub fn poll_recv(is_closed: bool, has_conn6: bool, event: RecvEvent) -> (r: RecvStep)
    ensures
        r == recv_step(is_closed, has_conn6, event),
{
    match event {
        RecvEvent::Start => {
            if is_closed {
                RecvStep::Done(Poll::Pending)
            } else {
                RecvStep::TryUdpV4
            }
        },
        RecvEvent::UdpV4(Poll::Ready(Err(e))) => RecvStep::Done(Poll::Ready(Err(e))),
        RecvEvent::UdpV6(Poll::Ready(Err(e))) => RecvStep::Done(Poll::Ready(Err(e))),
        RecvEvent::UdpV4(Poll::Pending) | RecvEvent::UdpV4(Poll::Ready(Ok(0))) => {
            if has_conn6 {
                RecvStep::TryUdpV6
            } else {
                RecvStep::TryRelay
            }
        },
        RecvEvent::UdpV4(Poll::Ready(Ok(n))) => RecvStep::Received { msgs: n, from_ipv4: true },
        RecvEvent::UdpV6(Poll::Pending) | RecvEvent::UdpV6(
            Poll::Ready(Ok(0)),
        ) => RecvStep::TryRelay,
        RecvEvent::UdpV6(Poll::Ready(Ok(n))) => RecvStep::Received { msgs: n, from_ipv4: false },
    }
}

/// Receiving on a closed socket waits for ever: it never gets as far as asking a
/// socket or a relay, and nothing that closes a socket once more opens it again.
pub proof fn closed_socket_never_receives(sock: MagicSock, sent: bool)
    requires
        sock.closed,
    ensures
        recv_step(sock.closed, sock.has_conn6, RecvEvent::Start) == RecvStep::Done(Poll::Pending),
        sock.spec_close().1.closed,
        sock.spec_shutdown(sent).closed,
{
}

/// The start and the end of each whole packet of a buffer with `len` bytes, in
/// order.
pub open spec fn bounds_of(len: int, stride: int, r: Seq<(usize, usize)>) -> bool {
    &&& r.len() == len / stride
    &&& forall|k: int|
        0 <= k < r.len() ==> (#[trigger] r[k]).0 == k * stride && r[k].1 == (k + 1) * stride
            && r[k].1 <= len
}

/// Where the packets of a buffer are: the start and the end of each whole one,
/// in order. What is left at the end is no packet.
pub fn packet_bounds(meta: &RecvMeta) -> (r: Vec<(usize, usize)>)
    requires
        meta.stride > 0,
    ensures
        bounds_of(meta.len as int, meta.stride as int, r@),
{
    let mut out: Vec<(usize, usize)> = Vec::new();
    let mut start: usize = 0;
    proof {
        vstd::arithmetic::mul::lemma_mul_basics(meta.stride as int);
    }
    while meta.len - start >= meta.stride
        invariant
            meta.stride > 0,
            start <= meta.len,
            start == out@.len() * meta.stride,
            forall|k: int|
                0 <= k < out@.len() ==> (#[trigger] out@[k]).0 == k * meta.stride && out@[k].1 == (k
                    + 1) * meta.stride && out@[k].1 <= meta.len,
        decreases meta.len - start,
    {
        let end: usize = start + meta.stride;
        let ghost n = out@.len() as int;
        out.push((start, end));
        proof {
            assert((n + 1) * meta.stride == n * meta.stride + meta.stride) by (nonlinear_arith);
        }
        start = end;
    }
    proof {
        let q = out@.len() as int;
        let r = meta.len - start;
        assert(meta.len == q * meta.stride + r);
        vstd::arithmetic::div_mod::lemma_fundamental_div_mod_converse(
            meta.len as int,
            meta.stride as int,
            q,
            r,
        );
    }
    out
}

/// Byte `j` starts a packet that is not for the QUIC layer.
pub open spec fn is_masked(j: int, stride: int, is_quic: Seq<bool>) -> bool {
    j % stride == 0 && j / stride < is_quic.len() && !is_quic[j / stride]
}

/// `after` is the buffer `before` with the packets hidden that are not for the
/// QUIC layer: the first byte of each is zero, and nothing else has changed.
pub open spec fn masked(
    before: Seq<u8>,
    stride: int,
    is_quic: Seq<bool>,
    after: Seq<u8>,
) -> bool {
    &&& after.len() == before.len()
    &&& forall|j: int|
        0 <= j < before.len() ==> #[trigger] after[j] == (if is_masked(j, stride, is_quic) {
            0
        } else {
            before[j]
        })
}

/// How many of the packets are for the QUIC layer.
pub open spec fn quic_count(is_quic: Seq<bool>) -> nat
    decreases is_quic.len(),
{
    if is_quic.len() == 0 {
        0
    } else {
        quic_count(is_quic.drop_last()) + if is_quic.last() {
            1nat
        } else {
            0nat
        }
    }
}

/// Hides from the QUIC layer the packets that are not for it, and counts those
/// that are.
///
/// The first byte of a packet is overwritten with zero, which makes the QUIC
/// layer reliably and quickly ignore it. Nothing else changes.
pub fn mask_packets(buf: &mut [u8], meta: &RecvMeta, is_quic: &[bool]) -> (r: usize)
    requires
        meta.stride > 0,
        meta.len <= old(buf)@.len(),
        is_quic@.len() == meta.len / meta.stride,
    ensures
        r == quic_count(is_quic@),
        masked(old(buf)@, meta.stride as int, is_quic@, final(buf)@),
{
    let ghost before = buf@;
    let ghost stride = meta.stride as int;
    let mut count: usize = 0;
    let mut k: usize = 0;
    let mut start: usize = 0;
    proof {
        vstd::arithmetic::mul::lemma_mul_basics(stride);
        assert(is_quic@.take(0) =~= Seq::empty());
        assert forall|j: int| 0 <= j < before.len() implies !is_masked(j, stride, is_quic@.take(0)) by {
            vstd::arithmetic::div_mod::lemma_div_pos_is_pos(j, stride);
        }
    }
    while k < is_quic.len()
        invariant
            meta.stride > 0,
            stride == meta.stride,
            meta.len <= before.len(),
            is_quic@.len() == meta.len / meta.stride,
            k <= is_quic@.len(),
            start == k * meta.stride,
            start <= meta.len,
            count == quic_count(is_quic@.take(k as int)),
            count <= k,
            masked(before, stride, is_quic@.take(k as int), buf@),
        decreases is_quic@.len() - k,
    {
        let ghost prev = buf@;
        proof {
            vstd::arithmetic::div_mod::lemma_fundamental_div_mod(meta.len as int, stride);
            vstd::arithmetic::div_mod::lemma_mod_bound(meta.len as int, stride);
            assert(k * stride + stride <= (meta.len as int / stride) * stride) by (nonlinear_arith)
                requires
                    k + 1 <= meta.len as int / stride,
                    stride > 0,
            ;
            assert((meta.len as int / stride) * stride == stride * (meta.len as int / stride))
                by (nonlinear_arith);
            assert((k + 1) * stride == k * stride + stride) by (nonlinear_arith);
            assert(is_quic@.take(k + 1).drop_last() =~= is_quic@.take(k as int));
        }
        if is_quic[k] {
            count += 1;
        } else {
            buf[start] = 0u8;
        }
        proof {
            assert forall|j: int| 0 <= j < before.len() implies #[trigger] buf@[j] == (if is_masked(
                j,
                stride,
                is_quic@.take(k + 1),
            ) {
                0
            } else {
                before[j]
            }) by {
                vstd::arithmetic::div_mod::lemma_div_pos_is_pos(j, stride);
                vstd::arithmetic::div_mod::lemma_fundamental_div_mod(j, stride);
                assert(prev[j] == (if is_masked(j, stride, is_quic@.take(k as int)) {
                    0
                } else {
                    before[j]
                }));
                if j == start {
                    vstd::arithmetic::div_mod::lemma_fundamental_div_mod_converse(
                        j,
                        stride,
                        k as int,
                        0,
                    );
                }
                if j % stride == 0 && j / stride == k {
                    assert(stride * (j / stride) == (j / stride) * stride) by (nonlinear_arith);
                    assert(j == start);
                }
            }
        }
        start += meta.stride;
        k += 1;
    }
    assert(is_quic@.take(k as int) =~= is_quic@);
    count
}

/// The QUIC layer sees its own packets exactly as they came in, and sees a zero
/// at the start of every other one.
pub proof fn quic_packets_are_untouched(
    before: Seq<u8>,
    stride: int,
    is_quic: Seq<bool>,
    after: Seq<u8>,
    k: int,
)
    requires
        stride > 0,
        masked(before, stride, is_quic, after),
        0 <= k < is_quic.len(),
        (k + 1) * stride <= before.len(),
    ensures
        is_quic[k] ==> after.subrange(k * stride, (k + 1) * stride) == before.subrange(
            k * stride,
            (k + 1) * stride,
        ),
        !is_quic[k] ==> after[k * stride] == 0,
{
    assert((k + 1) * stride == k * stride + stride) by (nonlinear_arith);
    assert(k * stride >= 0) by (nonlinear_arith)
        requires
            k >= 0,
            stride > 0,
    ;
    vstd::arithmetic::div_mod::lemma_fundamental_div_mod_converse(k * stride, stride, k, 0);
    if is_quic[k] {
        assert forall|j: int| k * stride <= j < (k + 1) * stride implies after[j] == before[j] by {
            vstd::arithmetic::div_mod::lemma_fundamental_div_mod_converse(
                j,
                stride,
                k,
                j - k * stride,
            );
        }
        assert(after.subrange(k * stride, (k + 1) * stride) =~= before.subrange(
            k * stride,
            (k + 1) * stride,
        ));
    }
}

/// What the QUIC layer is told about a buffer.
pub open spec fn remapped(
    meta: RecvMeta,
    quic_packets: usize,
    mapped: Option<QuicMappedAddr>,
    dst_ip: Option<IpAddr>,
) -> RecvMeta {
    match mapped {
        Some(a) if quic_packets > 0 => RecvMeta { addr: a.0, dst_ip, ..meta },
        _ => RecvMeta { len: 0, dst_ip, ..meta },
    }
}

/// Tells the QUIC layer about a buffer.
///
/// The sender is the node whose mapped address is given. A buffer without QUIC
/// packets, or from a node that nothing is known of, is skipped as if it were
/// empty.
pub fn remap_meta(
    meta: &mut RecvMeta,
    quic_packets: usize,
    mapped: Option<QuicMappedAddr>,
    dst_ip: Option<IpAddr>,
)
    ensures
        *final(meta) == remapped(*old(meta), quic_packets, mapped, dst_ip),
{
    if quic_packets > 0 {
        match mapped {
            None => {
                // if we have no node state for the from addr, set len to 0 to make quinn skip the buf completely.
                meta.len = 0;
            },
            Some(a) => {
                meta.addr = a.0;
            },
        }
    } else {
        // if there is no non-stun,non-disco packet in the chunk, set len to zero to make
        // quinn skip the buf completely.
        meta.len = 0;
    }
    // Normalize local_ip
    meta.dst_ip = dst_ip;
}

/// A call that looks for messages from the relays.
#[derive(Debug)]
pub struct RelayRecv {
    /// The number of buffers that can be filled.
    pub slots: usize,
    /// The number of buffers that are filled.
    pub num_msgs: usize,
}

/// What looking for messages did last.
#[derive(Debug)]
pub enum RelayRecvEvent {
    /// Nothing yet.
    Start,
    /// A message was put into the next buffer.
    Stored,
    /// There is no message now.
    Empty,
    /// There will be no more messages.
    Disconnected,
    /// An error came in place of a message.
    Failed(SockError),
}

/// What looking for messages does next.
#[derive(Debug)]
pub enum RelayRecvStep {
    /// It is done with this result.
    Done(Poll<Result<usize, SockError>>),
    /// Put the next message, if there is one, into this buffer.
    TryRecv { slot: usize },
}

/// The result of a call that filled `n` buffers.
pub open spec fn relay_recv_result(n: usize) -> Poll<Result<usize, SockError>> {
    if n > 0 {
        Poll::Ready(Ok(n))
    } else {
        Poll::Pending
    }
}

/// What looking for messages does next, with `n` of the buffers filled.
pub open spec fn relay_recv_step(
    is_closed: bool,
    slots: usize,
    n: usize,
    event: RelayRecvEvent,
) -> RelayRecvStep {
    match event {
        RelayRecvEvent::Start | RelayRecvEvent::Stored => if is_closed || n == slots {
            RelayRecvStep::Done(relay_recv_result(n))
        } else {
            RelayRecvStep::TryRecv { slot: n }
        },
        RelayRecvEvent::Empty => RelayRecvStep::Done(relay_recv_result(n)),
        RelayRecvEvent::Disconnected => RelayRecvStep::Done(
            Poll::Ready(Err(SockError::ConnectionClosed)),
        ),
        RelayRecvEvent::Failed(e) => RelayRecvStep::Done(Poll::Ready(Err(e))),
    }
}

impl RelayRecv {
    /// No more buffers are filled than there are.
    pub open spec fn wf(&self) -> bool {
        self.num_msgs <= self.slots
    }

    /// A call that can fill so many buffers.
    pub fn new(slots: usize) -> (r: Self)
        ensures
            r.wf(),
            r.slots == slots,
            r.num_msgs == 0,
    {
        RelayRecv { slots, num_msgs: 0 }
    }

    /// Fills one buffer after the other as long as there are messages, and then
    /// reports how many were filled. The end of the messages, or an error among
    /// them, is reported in place of that.
    pub fn poll_recv_relay(&mut self, is_closed: bool, event: RelayRecvEvent) -> (r: RelayRecvStep)
        requires
            old(self).wf(),
            event is Stored ==> old(self).num_msgs < old(self).slots,
        ensures
            final(self).wf(),
            final(self).slots == old(self).slots,
            final(self).num_msgs == old(self).num_msgs + if event is Stored {
                1int
            } else {
                0int
            },
            r == relay_recv_step(is_closed, old(self).slots, final(self).num_msgs, event),
    {
        match event {
            RelayRecvEvent::Start => {},
            RelayRecvEvent::Stored => {
                self.num_msgs += 1;
            },
            RelayRecvEvent::Empty => {
                return RelayRecvStep::Done(self.result());
            },
            RelayRecvEvent::Disconnected => {
                return RelayRecvStep::Done(Poll::Ready(Err(SockError::ConnectionClosed)));
            },
            RelayRecvEvent::Failed(e) => {
                return RelayRecvStep::Done(Poll::Ready(Err(e)));
            },
        }
        if is_closed || self.num_msgs == self.slots {
            RelayRecvStep::Done(self.result())
        } else {
            RelayRecvStep::TryRecv { slot: self.num_msgs }
        }
    }

    /// If we have any msgs to report, they are in the first `num_msgs` slots
    fn result(&self) -> (r: Poll<Result<usize, SockError>>)
        ensures
            r == relay_recv_result(self.num_msgs),
    {
        if self.num_msgs > 0 {
            Poll::Ready(Ok(self.num_msgs))
        } else {
            Poll::Pending
        }
    }
}

/// A packet that came through a relay.
#[derive(Debug)]
pub struct RelayPacket {
    pub node_id: PublicKey,
    pub meta: RecvMeta,
    pub bytes: Bytes,
}

/// A packet that came through a relay, or why there is none.
pub type RelayRecvResult = Result<RelayPacket, SockError>;

/// The parts of a result, with the bytes in place of the buffer.
pub open spec fn relay_result_view(r: RelayRecvResult) -> Result<
    (PublicKey, RecvMeta, Seq<u8>),
    SockError,
> {
    match r {
        Ok(p) => Ok((p.node_id, p.meta, bytes_content(p.bytes))),
        Err(e) => Err(e),
    }
}

/// The parts of a relay message with this content, unless it is too large.
pub open spec fn message_parts(
    max_packet_size: usize,
    content: Seq<u8>,
    r: Result<Vec<Result<Bytes, UnexpectedEof>>, PacketTooBig>,
) -> bool {
    if content.len() > max_packet_size {
        r == Err::<Vec<Result<Bytes, UnexpectedEof>>, _>(
            PacketTooBig { len: content.len() as usize },
        )
    } else {
        &&& r is Ok
        &&& r->Ok_0@.map_values(|item: Result<Bytes, UnexpectedEof>| item_view(item)) == items(
            content,
        )
    }
}

/// What a relay message holds: the packets that are prefixed by their lengths. A
/// message of more than `max_packet_size` bytes is refused.
pub fn relay_parts(max_packet_size: usize, buf: Bytes) -> (r: Result<
    Vec<Result<Bytes, UnexpectedEof>>,
    PacketTooBig,
>)
    ensures
        message_parts(max_packet_size, bytes_content(buf), r),
{
    match PacketSplitIter::new(max_packet_size, buf) {
        Ok(iter) => Ok(iter.collect()),
        Err(e) => Err(e),
    }
}

/// What the QUIC layer gets of the parts of a relay message: every part that is
/// not internal becomes a packet of its own from the mapped address of the
/// sender, and an error stays an error.
pub open spec fn relay_results(
    parts: Seq<Result<Seq<u8>, UnexpectedEof>>,
    internal: Seq<bool>,
    src: PublicKey,
    addr: QuicMappedAddr,
    dst_ip: Option<IpAddr>,
) -> Seq<Result<(PublicKey, RecvMeta, Seq<u8>), SockError>>
    decreases parts.len(),
{
    if parts.len() == 0 {
        Seq::empty()
    } else {
        let n = parts.len() - 1;
        let before = relay_results(parts.drop_last(), internal, src, addr, dst_ip);
        match parts.last() {
            Ok(part) => if internal[n] {
                before
            } else {
                let len = part.len() as usize;
                let meta = RecvMeta { addr: addr.0, len, stride: len, ecn: None, dst_ip };
                before.push(Ok((src, meta, part)))
            },
            Err(_) => before.push(Err(SockError::UnexpectedEof)),
        }
    }
}

/// Turns the parts of a relay message into packets for the QUIC layer.
///
/// `internal` says of each part whether it was a discovery message, which is
/// handled already and does not bubble up.
pub fn process_relay_read_result(
    parts: &Vec<Result<Bytes, UnexpectedEof>>,
    internal: &Vec<bool>,
    src: PublicKey,
    quic_mapped_addr: QuicMappedAddr,
    dst_ip: Option<IpAddr>,
) -> (r: Vec<RelayRecvResult>)
    requires
        internal@.len() == parts@.len(),
    ensures
        r@.map_values(|p: RelayRecvResult| relay_result_view(p)) == relay_results(
            parts@.map_values(|item: Result<Bytes, UnexpectedEof>| item_view(item)),
            internal@,
            src,
            quic_mapped_addr,
            dst_ip,
        ),
{
    let ghost views = parts@.map_values(|item: Result<Bytes, UnexpectedEof>| item_view(item));
    let ghost shown = |v: Seq<RelayRecvResult>|
        v.map_values(|p: RelayRecvResult| relay_result_view(p));
    let mut out: Vec<RelayRecvResult> = Vec::new();
    let mut i: usize = 0;
    assert(views.take(0) =~= Seq::empty());
    assert(shown(out@) =~= Seq::empty());
    while i < parts.len()
        invariant
            internal@.len() == parts@.len(),
            views == parts@.map_values(|item: Result<Bytes, UnexpectedEof>| item_view(item)),
            shown == (|v: Seq<RelayRecvResult>|
                v.map_values(|p: RelayRecvResult| relay_result_view(p))),
            i <= parts@.len(),
            shown(out@) == relay_results(
                views.take(i as int),
                internal@,
                src,
                quic_mapped_addr,
                dst_ip,
            ),
        decreases parts@.len() - i,
    {
        let ghost before = out@;
        assert(views.take(i + 1).drop_last() =~= views.take(i as int));
        match &parts[i] {
            Ok(part) => {
                if !internal[i] {
                    let len: usize = bytes_len(part);
                    let meta = RecvMeta {
                        len,
                        stride: len,
                        addr: quic_mapped_addr.0,
                        dst_ip,
                        ecn: None,
                    };
                    let packet = RelayPacket { node_id: src, meta, bytes: bytes_clone(part) };
                    out.push(Ok(packet));
                    assert(shown(out@) =~= shown(before).push(relay_result_view(Ok(packet))));
                }
            },
            Err(_) => {
                out.push(Err(SockError::UnexpectedEof));
                assert(shown(out@) =~= shown(before).push(
                    relay_result_view(Err(SockError::UnexpectedEof)),
                ));
            },
        }
        i += 1;
    }
    assert(views.take(i as int) =~= views);
    out
}

/// The sender of a discovery message that came through a relay, and its way.
pub open spec fn relay_disco_source(
    source: Option<PublicKey>,
    url: RelayUrl,
    relay_node_src: PublicKey,
) -> Option<(PublicKey, DiscoMessageSource)> {
    match source {
        Some(sender) => Some((sender, DiscoMessageSource::Relay { url, key: relay_node_src })),
        None => None,
    }
}

/// A part of a relay message that is a discovery message, and the way it came.
///
/// `source` is the sender that the message names, if it is one. It may be
/// another node than the one that the relay says it came from.
pub fn handle_relay_disco_message(
    source: Option<PublicKey>,
    url: &RelayUrl,
    relay_node_src: PublicKey,
) -> (r: Option<(PublicKey, DiscoMessageSource)>)
    ensures
        r == relay_disco_source(source, *url, relay_node_src),
{
    match source {
        Some(sender) => Some(
            (sender, DiscoMessageSource::Relay { url: url.clone(), key: relay_node_src }),
        ),
        None => None,
    }
}

/// A relay message that carries packets, none of which is internal, gives the
/// QUIC layer exactly these packets, in order, unless it is refused for its size.
pub proof fn relayed_packets_come_out(
    packets: Seq<Seq<u8>>,
    internal: Seq<bool>,
    src: PublicKey,
    addr: QuicMappedAddr,
    dst_ip: Option<IpAddr>,
)
    requires
        internal.len() == packets.len(),
        forall|i: int| 0 <= i < internal.len() ==> !(#[trigger] internal[i]),
        forall|i: int| 0 <= i < packets.len() ==> (#[trigger] packets[i]).len() <= 0xffff,
    ensures
        ({
            let out = relay_results(
                items(crate::net::packets::framed(packets)),
                internal,
                src,
                addr,
                dst_ip,
            );
            &&& out.len() == packets.len()
            &&& forall|i: int|
                0 <= i < packets.len() ==> {
                    &&& #[trigger] out[i] is Ok
                    &&& out[i]->Ok_0.0 == src
                    &&& out[i]->Ok_0.1.addr == addr.0
                    &&& out[i]->Ok_0.1.len == packets[i].len()
                    &&& out[i]->Ok_0.1.stride == packets[i].len()
                    &&& out[i]->Ok_0.1.ecn is None
                    &&& out[i]->Ok_0.1.dst_ip == dst_ip
                    &&& out[i]->Ok_0.2 == packets[i]
                }
        }),
{
    crate::net::packets::framed_items_come_back(packets);
    let parts = packets.map_values(|p: Seq<u8>| Ok::<Seq<u8>, UnexpectedEof>(p));
    lemma_relay_results_of_packets(packets, parts, internal, src, addr, dst_ip);
}

proof fn lemma_relay_results_of_packets(
    packets: Seq<Seq<u8>>,
    parts: Seq<Result<Seq<u8>, UnexpectedEof>>,
    internal: Seq<bool>,
    src: PublicKey,
    addr: QuicMappedAddr,
    dst_ip: Option<IpAddr>,
)
    requires
        internal.len() >= packets.len(),
        parts.len() == packets.len(),
        forall|i: int| 0 <= i < internal.len() ==> !(#[trigger] internal[i]),
        forall|i: int|
            0 <= i < packets.len() ==> (#[trigger] packets[i]).len() <= 0xffff && parts[i] == Ok::<
                Seq<u8>,
                UnexpectedEof,
            >(packets[i]),
    ensures
        ({
            let out = relay_results(parts, internal, src, addr, dst_ip);
            &&& out.len() == packets.len()
            &&& forall|i: int|
                0 <= i < packets.len() ==> {
                    &&& #[trigger] out[i] is Ok
                    &&& out[i]->Ok_0.0 == src
                    &&& out[i]->Ok_0.1.addr == addr.0
                    &&& out[i]->Ok_0.1.len == packets[i].len()
                    &&& out[i]->Ok_0.1.stride == packets[i].len()
                    &&& out[i]->Ok_0.1.ecn is None
                    &&& out[i]->Ok_0.1.dst_ip == dst_ip
                    &&& out[i]->Ok_0.2 == packets[i]
                }
        }),
    decreases packets.len(),
{
    if packets.len() > 0 {
        let ps = packets.drop_last();
        assert forall|i: int| 0 <= i < ps.len() implies (#[trigger] ps[i]).len() <= 0xffff
            && parts.drop_last()[i] == Ok::<Seq<u8>, UnexpectedEof>(ps[i]) by {
            assert(ps[i] == packets[i]);
        }
        lemma_relay_results_of_packets(ps, parts.drop_last(), internal, src, addr, dst_ip);
        assert(packets.last() == packets[packets.len() - 1]);
        assert(packets.last().len() <= 0xffff);
    }
}

/// An open socket is never told to wait before the relays were asked: a call asks
/// the IPv4 socket first, the IPv6 one, if there is one, as soon as that has
/// nothing, and the relays as soon as no UDP socket has anything.
pub proof fn relays_are_asked_before_waiting(
    has_conn6: bool,
    v4: Poll<Result<usize, SockError>>,
    v6: Poll<Result<usize, SockError>>,
)
    requires
        v4 is Pending || v4 == Poll::Ready(Ok::<usize, SockError>(0)),
        v6 is Pending || v6 == Poll::Ready(Ok::<usize, SockError>(0)),
    ensures
        recv_step(false, has_conn6, RecvEvent::Start) == RecvStep::TryUdpV4,
        has_conn6 ==> recv_step(false, has_conn6, RecvEvent::UdpV4(v4)) == RecvStep::TryUdpV6,
        has_conn6 ==> recv_step(false, has_conn6, RecvEvent::UdpV6(v6)) == RecvStep::TryRelay,
        !has_conn6 ==> recv_step(false, has_conn6, RecvEvent::UdpV4(v4)) == RecvStep::TryRelay,
{
}

/// The first UDP socket that has something ends the call: what it received is
/// handed on with the family of the socket, and its error with nothing changed.
/// On an open socket no step ends the call in any other way.
pub proof fn udp_results_are_handed_on(
    has_conn6: bool,
    n: usize,
    e: SockError,
    event: RecvEvent,
)
    requires
        n > 0,
    ensures
        recv_step(false, has_conn6, RecvEvent::UdpV4(Poll::Ready(Ok(n)))) == (RecvStep::Received {
            msgs: n,
            from_ipv4: true,
        }),
        recv_step(false, has_conn6, RecvEvent::UdpV6(Poll::Ready(Ok(n)))) == (RecvStep::Received {
            msgs: n,
            from_ipv4: false,
        }),
        recv_step(false, has_conn6, RecvEvent::UdpV4(Poll::Ready(Err(e)))) == RecvStep::Done(
            Poll::Ready(Err(e)),
        ),
        recv_step(false, has_conn6, RecvEvent::UdpV6(Poll::Ready(Err(e)))) == RecvStep::Done(
            Poll::Ready(Err(e)),
        ),
        recv_step(false, has_conn6, event) matches RecvStep::Done(p) ==> p matches Poll::Ready(
            Err(_),
        ),
{
}

/// Hiding packets changes nothing but the first bytes of those that are hidden.
pub proof fn only_first_bytes_are_hidden(
    before: Seq<u8>,
    stride: int,
    is_quic: Seq<bool>,
    after: Seq<u8>,
    j: int,
)
    requires
        stride > 0,
        masked(before, stride, is_quic, after),
        0 <= j < before.len(),
        forall|k: int| 0 <= k < is_quic.len() && j == #[trigger] (k * stride) ==> is_quic[k],
    ensures
        after.len() == before.len(),
        after[j] == before[j],
{
    vstd::arithmetic::div_mod::lemma_div_pos_is_pos(j, stride);
    vstd::arithmetic::div_mod::lemma_fundamental_div_mod(j, stride);
    let k = j / stride;
    assert(stride * k == k * stride) by (nonlinear_arith);
    if is_masked(j, stride, is_quic) {
        assert(j == k * stride);
    }
}

/// Every packet for the QUIC layer is counted once, and no other: the count of
/// two buffers together is the sum of their counts, and it is zero only if no
/// packet is for the QUIC layer.
pub proof fn quic_packets_are_counted(a: Seq<bool>, b: Seq<bool>)
    ensures
        quic_count(a + b) == quic_count(a) + quic_count(b),
        quic_count(seq![true]) == 1,
        quic_count(seq![false]) == 0,
        quic_count(b) == 0 <==> !b.contains(true),
    decreases b.len(),
{
    assert(seq![true].drop_last() =~= Seq::empty());
    assert(seq![false].drop_last() =~= Seq::empty());
    assert(quic_count(Seq::empty()) == 0);
    if b.len() == 0 {
        assert(a + b =~= a);
    } else {
        quic_packets_are_counted(a, b.drop_last());
        assert((a + b).drop_last() =~= a + b.drop_last());
        assert(b =~= b.drop_last().push(b.last()));
        if b.last() {
            assert(b[b.len() - 1]);
        }
        if b.contains(true) && !b.last() {
            let i = choose|i: int| 0 <= i < b.len() && b[i];
            assert(b.drop_last()[i]);
        }
        if b.drop_last().contains(true) {
            let i = choose|i: int| 0 <= i < b.len() - 1 && b.drop_last()[i];
            assert(b[i]);
        }
    }
}

/// The QUIC layer skips a buffer exactly if it holds none of its packets or comes
/// from a node that nothing is known of. Otherwise it gets all of it, from the
/// mapped address of the node. Either way it learns the local address.
pub proof fn known_senders_are_shown_by_their_mapped_address(
    meta: RecvMeta,
    quic_packets: usize,
    mapped: Option<QuicMappedAddr>,
    dst_ip: Option<IpAddr>,
)
    ensures
        ({
            let r = remapped(meta, quic_packets, mapped, dst_ip);
            &&& r.dst_ip == dst_ip
            &&& r.stride == meta.stride && r.ecn == meta.ecn
            &&& quic_packets > 0 ==> (mapped matches Some(a) ==> r.len == meta.len && r.addr == a.0)
            &&& quic_packets == 0 || mapped is None ==> r.len == 0
        }),
{
}

/// Looking for relay messages goes on while there is room, buffer after buffer,
/// and then reports every buffer that was filled. It is told to wait only if none
/// was, and an error or the end of the messages is never held back.
pub proof fn filled_buffers_are_reported(
    slots: usize,
    n: usize,
    is_closed: bool,
    e: SockError,
    event: RelayRecvEvent,
)
    requires
        n <= slots,
    ensures
        n < slots && (event is Start || event is Stored) ==> relay_recv_step(
            false,
            slots,
            n,
            event,
        ) == (RelayRecvStep::TryRecv { slot: n }),
        n > 0 && n == slots && (event is Start || event is Stored) ==> relay_recv_step(
            is_closed,
            slots,
            n,
            event,
        ) == RelayRecvStep::Done(Poll::Ready(Ok(n))),
        n > 0 ==> relay_recv_step(is_closed, slots, n, RelayRecvEvent::Empty)
            == RelayRecvStep::Done(Poll::Ready(Ok(n))),
        relay_recv_step(is_closed, slots, 0, RelayRecvEvent::Empty) == RelayRecvStep::Done(
            Poll::Pending,
        ),
        relay_recv_step(is_closed, slots, n, event) == RelayRecvStep::Done(Poll::Pending) ==> n
            == 0,
        relay_recv_step(is_closed, slots, n, RelayRecvEvent::Failed(e)) == RelayRecvStep::Done(
            Poll::Ready(Err(e)),
        ),
        relay_recv_step(is_closed, slots, n, RelayRecvEvent::Disconnected) == RelayRecvStep::Done(
            Poll::Ready(Err(SockError::ConnectionClosed)),
        ),
        n > 0 ==> relay_recv_step(true, slots, n, event) !is TryRecv,
{
}

/// Each part of a relay message is judged by itself: one that is internal adds
/// nothing to what the QUIC layer gets, any other one adds itself at the end, as
/// one packet from the mapped address of the sender, and a part that broke off
/// adds an error.
pub proof fn each_part_adds_at_most_one_result(
    parts: Seq<Result<Seq<u8>, UnexpectedEof>>,
    part: Seq<u8>,
    internal: Seq<bool>,
    src: PublicKey,
    addr: QuicMappedAddr,
    dst_ip: Option<IpAddr>,
)
    requires
        internal.len() == parts.len() + 1,
        part.len() <= usize::MAX,
    ensures
        ({
            let before = relay_results(parts, internal.drop_last(), src, addr, dst_ip);
            let with_part = relay_results(parts.push(Ok(part)), internal, src, addr, dst_ip);
            let cut_off = relay_results(parts.push(Err(UnexpectedEof)), internal, src, addr, dst_ip);
            &&& parts.len() == 0 ==> before.len() == 0
            &&& internal.last() ==> with_part == before
            &&& !internal.last() ==> {
                &&& with_part.len() == before.len() + 1
                &&& with_part.drop_last() == before
                &&& with_part.last() matches Ok((s, meta, bytes)) && s == src && bytes == part
                    && meta.addr == addr.0 && meta.len == part.len() && meta.stride == part.len()
                    && meta.ecn is None && meta.dst_ip == dst_ip
            }
            &&& cut_off == before.push(Err(SockError::UnexpectedEof))
        }),
{
    lemma_relay_results_by_prefix(parts, internal, internal.drop_last(), src, addr, dst_ip);
    assert(parts.push(Ok(part)).drop_last() =~= parts);
    assert(parts.push(Err(UnexpectedEof)).drop_last() =~= parts);
    let before = relay_results(parts, internal, src, addr, dst_ip);
    let with_part = relay_results(parts.push(Ok(part)), internal, src, addr, dst_ip);
    if !internal.last() {
        assert(with_part.drop_last() =~= before);
    }
}

/// Only the judgements on the parts themselves count.
proof fn lemma_relay_results_by_prefix(
    parts: Seq<Result<Seq<u8>, UnexpectedEof>>,
    a: Seq<bool>,
    b: Seq<bool>,
    src: PublicKey,
    addr: QuicMappedAddr,
    dst_ip: Option<IpAddr>,
)
    requires
        parts.len() <= a.len(),
        parts.len() <= b.len(),
        forall|i: int| 0 <= i < parts.len() ==> #[trigger] a[i] == b[i],
    ensures
        relay_results(parts, a, src, addr, dst_ip) == relay_results(parts, b, src, addr, dst_ip),
    decreases parts.len(),
{
    if parts.len() > 0 {
        lemma_relay_results_by_prefix(parts.drop_last(), a, b, src, addr, dst_ip);
        assert(a[parts.len() - 1] == b[parts.len() - 1]);
    }
}

/// The packets of a buffer stand one after the other from its start, each of full
/// size, and what is left behind the last one is too short for another.
pub proof fn packets_fill_the_buffer(len: int, stride: int, r: Seq<(usize, usize)>)
    requires
        len >= 0,
        stride > 0,
        bounds_of(len, stride, r),
    ensures
        r.len() > 0 ==> r[0].0 == 0 && len - r.last().1 < stride,
        r.len() == 0 ==> len < stride,
        forall|k: int| 0 <= k < r.len() ==> (#[trigger] r[k]).1 - r[k].0 == stride && r[k].1 <= len,
        forall|k: int, j: int|
            0 <= k < r.len() && j == k + 1 && j < r.len() ==> (#[trigger] r[k]).1 == (
            #[trigger] r[j]).0,
{
    vstd::arithmetic::div_mod::lemma_fundamental_div_mod(len, stride);
    vstd::arithmetic::div_mod::lemma_mod_bound(len, stride);
    let n = len / stride;
    assert(stride * n == n * stride) by (nonlinear_arith);
    assert forall|k: int| 0 <= k < r.len() implies (#[trigger] r[k]).1 - r[k].0 == stride by {
        assert((k + 1) * stride == k * stride + stride) by (nonlinear_arith);
    }
    if r.len() > 0 {
        assert(0 * stride == 0);
        assert(r.last() == r[n - 1]);
    } else {
        assert(n == 0);
    }
}

/// A discovery message that came through a relay counts as sent by the node that it
/// names, and as come from the node that the relay names.
pub proof fn relayed_messages_name_their_sender(
    sender: PublicKey,
    url: RelayUrl,
    relay_node_src: PublicKey,
)
    ensures
        relay_disco_source(None, url, relay_node_src) is None,
        relay_disco_source(Some(sender), url, relay_node_src) matches Some((s, way)) && s == sender
            && way == (DiscoMessageSource::Relay { url, key: relay_node_src }),
{
}

/// A relay message within the limit falls into the packets that were put into it,
/// and a larger one is refused with its size.
pub proof fn messages_within_the_limit_are_split(
    max_packet_size: usize,
    packets: Seq<Seq<u8>>,
    r: Result<Vec<Result<Bytes, UnexpectedEof>>, PacketTooBig>,
)
    requires
        message_parts(max_packet_size, crate::net::packets::framed(packets), r),
        forall|i: int| 0 <= i < packets.len() ==> (#[trigger] packets[i]).len() <= 0xffff,
        crate::net::packets::framed(packets).len() <= usize::MAX,
    ensures
        r is Err <==> crate::net::packets::framed(packets).len() > max_packet_size,
        r matches Err(e) ==> e.len == crate::net::packets::framed(packets).len(),
        r matches Ok(parts) ==> parts@.len() == packets.len() && forall|i: int|
            0 <= i < packets.len() ==> ((#[trigger] parts@[i]) matches Ok(b) && bytes_content(b)
                == packets[i]),
{
    if r is Ok {
        crate::net::packets::framed_items_come_back(packets);
        let parts = r->Ok_0@;
        let views = parts.map_values(|item: Result<Bytes, UnexpectedEof>| item_view(item));
        assert(views.len() == parts.len());
        assert forall|i: int| 0 <= i < packets.len() implies ((#[trigger] parts[i]) matches Ok(b)
            && bytes_content(b) == packets[i]) by {
            assert(views[i] == item_view(parts[i]));
            assert(views[i] == Ok::<Seq<u8>, UnexpectedEof>(packets[i]));
        }
    }
}

} // verus!
