//! Sending: which packets go where, and what the QUIC layer is told.
//!
//! A call to send runs through these steps. [`poll_send`] takes the packets for
//! the first destination. [`SendBatch::begin`] learns where that node can be
//! reached. Pings that are due are sent first ([`SendRun::after_pings`]). Then the
//! batch goes out over UDP ([`SendRun::udp_transmits`], [`SendRun::on_udp`]) and to
//! the relay ([`SendRun::relay_packets`]), and [`SendRun::finish`] says what came of
//! it.

use crate::buf::{bytes_content, RelayContents};
use crate::key::PublicKey;
use crate::net::addr::{RelayUrl, SocketAddr};
use crate::net::disco::PingAction;
use crate::net::packets::{all_packets, split_packets, Transmit};
use crate::net::poll::{Poll, SockError};
use vstd::prelude::*;

verus! {

/// Consecutive transmits for one destination.
#[derive(Debug)]
pub struct SendBatch {
    /// The mapped address of the node.
    pub dest: SocketAddr,
    /// The transmits.
    pub transmits: Vec<Transmit>,
}

/// What a call to send starts with.
#[derive(Debug)]
pub enum SendStart {
    /// It is done with this result.
    Done(Result<usize, SockError>),
    /// These transmits are to be sent.
    Batch(SendBatch),
}

/// Where a node can be reached, and what is to be sent to it first.
#[derive(Debug)]
pub struct SendAddrs {
    pub public_key: PublicKey,
    pub udp_addr: Option<SocketAddr>,
    pub relay_url: Option<RelayUrl>,
    pub msgs: Vec<PingAction>,
}

/// The first `n` transmits go to the destination of the first one, and the next
/// one, if there is one, does not.
pub open spec fn leading_run(ts: Seq<Transmit>, n: int) -> bool {
    &&& 0 < n <= ts.len()
    &&& forall|i: int| 0 <= i < n ==> (#[trigger] ts[i]).destination == ts[0].destination
    &&& n < ts.len() ==> ts[n].destination != ts[0].destination
}

/// The two lists of transmits differ in their destinations at most.
pub open spec fn same_payloads(a: Seq<Transmit>, b: Seq<Transmit>) -> bool {
    &&& a.len() == b.len()
    &&& forall|i: int| 0 <= i < a.len() ==> (#[trigger] a[i]).same_payload(b[i])
}

/// What a call to send starts with.
pub open spec fn send_started(is_closed: bool, transmits: Seq<Transmit>, r: SendStart) -> bool {
    if transmits.len() == 0 {
        r == SendStart::Done(Ok(0))
    } else if is_closed {
        r == SendStart::Done(Err(SockError::ConnectionClosed))
    } else {
        r matches SendStart::Batch(b) && {
            let n = b.transmits@.len() as int;
            &&& leading_run(transmits, n)
            &&& b.dest == transmits[0].destination
            &&& same_payloads(b.transmits@, transmits.take(n))
            &&& forall|i: int| 0 <= i < n ==> (#[trigger] b.transmits@[i]).destination == b.dest
        }
    }
}

/// Starts to send `transmits`: the leading ones that have the same destination
/// are taken. A closed socket sends nothing.
pub fn poll_send(is_closed: bool, transmits: &[Transmit]) -> (r: SendStart)
    ensures
        send_started(is_closed, transmits@, r),
{
    if transmits.len() == 0 {
        return SendStart::Done(Ok(0));
    }
    if is_closed {
        return SendStart::Done(Err(SockError::ConnectionClosed));
    }
    let dest = transmits[0].destination;
    let mut out: Vec<Transmit> = Vec::new();
    let mut n: usize = 0;
    while n < transmits.len()
        invariant
            0 < transmits@.len(),
            dest == transmits@[0].destination,
            n <= transmits@.len(),
            out@.len() == n,
            forall|i: int|
                0 <= i < n ==> (#[trigger] out@[i]).destination == dest && out@[i].same_payload(
                    transmits@[i],
                ),
            forall|i: int| 0 <= i < n ==> (#[trigger] transmits@[i]).destination == dest,
        ensures
            n < transmits@.len() ==> transmits@[n as int].destination != dest,
        decreases transmits@.len() - n,
    {
        if transmits[n].destination != dest {
            break;
        }
        out.push(transmits[n].copy());
        n += 1;
    }
    SendStart::Batch(SendBatch { dest, transmits: out })
}

/// A batch on its way.
#[derive(Debug)]
pub struct SendRun {
    /// The node that it goes to.
    pub public_key: PublicKey,
    /// The socket at which the node can be reached.
    pub udp_addr: Option<SocketAddr>,
    /// The relay at which the node can be reached.
    pub relay_url: Option<RelayUrl>,
    /// The transmits that are still to be sent.
    pub transmits: Vec<Transmit>,
    /// The number of transmits in the batch.
    pub n: usize,
    /// Whether pings went out first.
    pub pings_sent: bool,
    /// What came of sending over UDP.
    pub udp: Option<Poll<Result<usize, SockError>>>,
}

/// What a batch starts with.
#[derive(Debug)]
pub enum SendBegin {
    /// Nothing is known of the node: the batch is dropped, and the QUIC layer is
    /// told that so many transmits were sent.
    ///
    /// An error would lock up the entire endpoint, and with no progress it would
    /// try the same transmits for ever. The connection will time out instead.
    Dropped(usize),
    /// The batch is on its way. These are to be sent first; if they cannot be
    /// sent yet, neither can the batch.
    Run(SendRun, Vec<PingAction>),
}

impl SendBatch {
    /// What a batch starts with, by where the node can be reached.
    pub open spec fn begun(self, addrs: Option<SendAddrs>, r: SendBegin) -> bool {
        match addrs {
            None => r == SendBegin::Dropped(self.transmits@.len() as usize),
            Some(a) => r matches SendBegin::Run(run, msgs) && {
                &&& run.public_key == a.public_key
                &&& run.udp_addr == a.udp_addr
                &&& run.relay_url == a.relay_url
                &&& run.transmits@ == self.transmits@
                &&& run.n == self.transmits@.len()
                &&& run.pings_sent == (a.msgs@.len() > 0)
                &&& run.udp is None
                &&& msgs@ == a.msgs@
                &&& run.wf()
            },
        }
    }

    /// Learns where the node can be reached.
    pub fn begin(self, addrs: Option<SendAddrs>) -> (r: SendBegin)
        ensures
            self.begun(addrs, r),
    {
        let n: usize = self.transmits.len();
        match addrs {
            None => SendBegin::Dropped(n),
            Some(a) => {
                let pings_sent = !a.msgs.is_empty();
                SendBegin::Run(
                    SendRun {
                        public_key: a.public_key,
                        udp_addr: a.udp_addr,
                        relay_url: a.relay_url,
                        transmits: self.transmits,
                        n,
                        pings_sent,
                        udp: None,
                    },
                    a.msgs,
                )
            },
        }
    }
}

/// How many of `n` transmits went out over UDP.
pub open spec fn udp_count(udp: Option<Poll<Result<usize, SockError>>>, n: int) -> int {
    match udp {
        Some(Poll::Ready(Ok(k))) => if k <= n {
            k as int
        } else {
            n
        },
        _ => 0,
    }
}

/// The batch went out over UDP, in full or in part.
pub open spec fn udp_ok(udp: Option<Poll<Result<usize, SockError>>>) -> bool {
    udp matches Some(Poll::Ready(Ok(_)))
}

/// What the QUIC layer is told of a batch of `n` transmits.
///
/// With no way to reach the node the batch is dropped. It is told to wait if
/// every way there is has to wait, and if nothing at all went out. Otherwise it
/// is told what went out: what UDP took, if the batch was tried there with
/// success, and else all of it if the relay could be tried.
pub open spec fn send_outcome(
    n: int,
    udp_addr: Option<SocketAddr>,
    relay_url: Option<RelayUrl>,
    pings_sent: bool,
    udp: Option<Poll<Result<usize, SockError>>>,
    relay: Option<Poll<bool>>,
) -> Poll<int> {
    let udp_waits = udp_addr is None || udp == Some(Poll::<Result<usize, SockError>>::Pending);
    let relay_waits = relay_url is None || relay == Some(Poll::<bool>::Pending);
    if udp_addr is None && relay_url is None {
        Poll::Ready(n)
    } else if udp_waits && relay_waits {
        Poll::Pending
    } else if !udp_ok(udp) && relay != Some(Poll::Ready(true)) && !pings_sent {
        Poll::Pending
    } else if udp_ok(udp) {
        Poll::Ready(udp_count(udp, n))
    } else if relay matches Some(Poll::Ready(_)) {
        Poll::Ready(n)
    } else {
        Poll::Ready(0)
    }
}

impl SendRun {
    /// What is still to be sent is what UDP took, once it was tried with
    /// success, and the whole batch otherwise.
    pub open spec fn wf(&self) -> bool {
        &&& self.transmits@.len() == if udp_ok(self.udp) {
            udp_count(self.udp, self.n as int)
        } else {
            self.n as int
        }
        &&& self.udp is Some ==> self.udp_addr is Some
    }

    /// The batch after the pings were tried, if it goes on.
    pub open spec fn pinged(self, pings: Poll<Result<(), SockError>>) -> Option<SendRun> {
        if pings is Pending {
            None
        } else {
            Some(self)
        }
    }

    /// Goes on after the pings were tried, which have to go out first: if they
    /// cannot be sent yet the batch has to wait too, and if they failed it goes
    /// on without them.
    pub fn after_pings(self, pings: Poll<Result<(), SockError>>) -> (r: Option<SendRun>)
        ensures
            r == self.pinged(pings),
    {
        match pings {
            Poll::Pending => None,
            Poll::Ready(_) => Some(self),
        }
    }

    /// The batch after its transmits were addressed to the socket of the node, if
    /// one is known, which is `r`.
    pub open spec fn readdressed(self, r: Option<SocketAddr>, after: SendRun) -> bool {
        &&& r == self.udp_addr
        &&& same_payloads(after.transmits@, self.transmits@)
        &&& r matches Some(addr) ==> forall|i: int|
            0 <= i < after.transmits@.len() ==> (#[trigger] after.transmits@[i]).destination == addr
        &&& r is None ==> after == self
        &&& after == (SendRun { transmits: after.transmits, ..self })
    }

    /// Addresses the transmits to the socket of the node, if one is known.
    pub fn udp_transmits(&mut self) -> (r: Option<SocketAddr>)
        requires
            old(self).wf(),
            old(self).udp is None,
        ensures
            final(self).wf(),
            old(self).readdressed(r, *final(self)),
    {
        match self.udp_addr {
            Some(addr) => {
                let mut out: Vec<Transmit> = Vec::new();
                let mut i: usize = 0;
                while i < self.transmits.len()
                    invariant
                        *self == *old(self),
                        i <= self.transmits@.len(),
                        out@.len() == i,
                        forall|j: int|
                            0 <= j < i ==> (#[trigger] out@[j]).destination == addr
                                && out@[j].same_payload(self.transmits@[j]),
                    decreases self.transmits@.len() - i,
                {
                    let mut t = self.transmits[i].copy();
                    t.destination = addr;
                    out.push(t);
                    i += 1;
                }
                self.transmits = out;
                Some(addr)
            },
            None => None,
        }
    }

    /// The batch after it was tried over UDP: what UDP took of it, once that went
    /// well, and all of it otherwise.
    pub open spec fn tried_udp(self, udp: Poll<Result<usize, SockError>>, after: SendRun) -> bool {
        &&& after == (SendRun { transmits: after.transmits, udp: Some(udp), ..self })
        &&& after.transmits@ == (if udp_ok(Some(udp)) {
            self.transmits@.take(udp_count(Some(udp), self.n as int))
        } else {
            self.transmits@
        })
    }

    /// Takes what came of sending over UDP.
    ///
    /// If only some transmits were sent, only those go to the relay: the others
    /// come again on the next call.
    pub fn on_udp(&mut self, udp: Poll<Result<usize, SockError>>)
        requires
            old(self).wf(),
            old(self).udp is None,
            old(self).udp_addr is Some,
        ensures
            final(self).wf(),
            old(self).tried_udp(udp, *final(self)),
    {
        if let Poll::Ready(Ok(n)) = &udp {
            let n: usize = *n;
            let ghost before = self.transmits@;
            self.transmits.truncate(n);
            proof {
                if n <= before.len() {
                    assert(self.transmits@ =~= before.take(n as int));
                } else {
                    assert(before.take(before.len() as int) =~= before);
                }
            }
        }
        self.udp = Some(udp);
    }

    /// What goes to the relay, if one is known: every packet of the transmits.
    pub open spec fn for_relay(self, r: Option<(RelayUrl, PublicKey, RelayContents)>) -> bool {
        &&& r is Some <==> self.relay_url is Some
        &&& r matches Some((url, key, contents)) ==> {
            &&& Some(url) == self.relay_url
            &&& key == self.public_key
            &&& contents@ == all_packets(self.transmits@)
        }
    }

    /// What goes to the relay, if one is known: every packet of the transmits.
    pub fn relay_packets(&self) -> (r: Option<(RelayUrl, PublicKey, RelayContents)>)
        requires
            forall|i: int| 0 <= i < self.transmits@.len() ==> (#[trigger] self.transmits@[i]).wf(),
        ensures
            self.for_relay(r),
    {
        match &self.relay_url {
            Some(url) => Some(
                (url.clone(), self.public_key, split_packets(self.transmits.as_slice())),
            ),
            None => None,
        }
    }

    /// What the QUIC layer is told, with what came of sending to the relay.
    pub fn finish(self, relay: Option<Poll<bool>>) -> (r: Poll<usize>)
        requires
            self.wf(),
            self.udp is Some <==> self.udp_addr is Some,
            relay is Some <==> self.relay_url is Some,
        ensures
            (match r {
                Poll::Ready(k) => Poll::Ready(k as int),
                Poll::Pending => Poll::Pending,
            }) == send_outcome(
                self.n as int,
                self.udp_addr,
                self.relay_url,
                self.pings_sent,
                self.udp,
                relay,
            ),
    {
        let mut transmits_sent: usize = 0;
        let mut udp_sent = false;
        let mut udp_pending = false;
        match &self.udp {
            Some(Poll::Ready(Ok(_))) => {
                transmits_sent = self.transmits.len();
                udp_sent = true;
            },
            Some(Poll::Pending) => {
                udp_pending = true;
            },
            _ => {},
        }
        let mut relay_sent = false;
        let mut relay_pending = false;
        match relay {
            Some(Poll::Ready(sent)) => {
                relay_sent = sent;
                transmits_sent = self.transmits.len();
            },
            Some(Poll::Pending) => {
                relay_pending = true;
            },
            None => {},
        }
        if self.udp_addr.is_none() && self.relay_url.is_none() {
            return Poll::Ready(self.n);
        }
        if (self.udp_addr.is_none() || udp_pending) && (self.relay_url.is_none() || relay_pending) {
            // Handle backpressure
            // The explicit choice here is to only return pending, iff all available paths returned
            // pending.
            return Poll::Pending;
        }
        if !relay_sent && !udp_sent && !self.pings_sent {
            // Returning an error here would lock up the entire endpoint.
            return Poll::Pending;
        }
        Poll::Ready(transmits_sent)
    }
}

/// Sending waits for backpressure only if every way to the node is backed up:
/// where one of them was not, and took the batch, it goes on.
pub proof fn one_free_path_is_enough(
    n: int,
    udp_addr: Option<SocketAddr>,
    relay_url: Option<RelayUrl>,
    pings_sent: bool,
    udp: Option<Poll<Result<usize, SockError>>>,
    relay: Option<Poll<bool>>,
)
    requires
        n >= 0,
        udp is Some <==> udp_addr is Some,
        relay is Some <==> relay_url is Some,
        udp_ok(udp) || relay == Some(Poll::Ready(true)),
    ensures
        send_outcome(n, udp_addr, relay_url, pings_sent, udp, relay) is Ready,
{
}

/// The QUIC layer is never told that more was sent than it handed over, and
/// where nothing can be reached it is told that everything was sent.
pub proof fn never_more_than_the_batch(
    n: int,
    udp_addr: Option<SocketAddr>,
    relay_url: Option<RelayUrl>,
    pings_sent: bool,
    udp: Option<Poll<Result<usize, SockError>>>,
    relay: Option<Poll<bool>>,
)
    requires
        n >= 0,
    ensures
        send_outcome(n, udp_addr, relay_url, pings_sent, udp, relay) matches Poll::Ready(k) ==> 0
            <= k <= n,
        udp_addr is None && relay_url is None ==> send_outcome(
            n,
            udp_addr,
            relay_url,
            pings_sent,
            udp,
            relay,
        ) == Poll::Ready(n),
{
}

/// Where UDP did not take the batch and the relay did, the QUIC layer is told
/// that every transmit of the batch went out, whether or not a socket of the node
/// is known.
pub proof fn relay_takes_the_whole_batch(
    n: int,
    udp_addr: Option<SocketAddr>,
    relay_url: Option<RelayUrl>,
    pings_sent: bool,
    udp: Option<Poll<Result<usize, SockError>>>,
    relay: Option<Poll<bool>>,
)
    requires
        udp is Some <==> udp_addr is Some,
        relay_url is Some,
        relay == Some(Poll::Ready(true)),
        !(udp matches Some(Poll::Ready(Ok(_)))),
    ensures
        send_outcome(n, udp_addr, relay_url, pings_sent, udp, relay) == Poll::Ready(n),
{
}

/// Where UDP took `k` transmits, the QUIC layer is told of just these, or of the
/// whole batch if it is smaller, whatever the relay did: the others come again.
pub proof fn udp_progress_is_what_counts(
    n: int,
    udp_addr: SocketAddr,
    relay_url: Option<RelayUrl>,
    pings_sent: bool,
    k: usize,
    relay: Option<Poll<bool>>,
)
    requires
        relay is Some <==> relay_url is Some,
    ensures
        k <= n ==> send_outcome(
            n,
            Some(udp_addr),
            relay_url,
            pings_sent,
            Some(Poll::Ready(Ok(k))),
            relay,
        ) == Poll::Ready(k as int),
        k > n ==> send_outcome(
            n,
            Some(udp_addr),
            relay_url,
            pings_sent,
            Some(Poll::Ready(Ok(k))),
            relay,
        ) == Poll::Ready(n),
{
}

/// A batch that no path took waits for the next call if every path that is known
/// is backed up, and also if no pings went out either. Otherwise the QUIC layer
/// is told to go on: with all of it if the relay refused it, and with none of it
/// if just UDP failed.
pub proof fn a_batch_that_nothing_took_waits(
    n: int,
    udp_addr: Option<SocketAddr>,
    relay_url: Option<RelayUrl>,
    pings_sent: bool,
    udp: Option<Poll<Result<usize, SockError>>>,
    relay: Option<Poll<bool>>,
)
    requires
        udp is Some <==> udp_addr is Some,
        relay is Some <==> relay_url is Some,
        udp is Some || relay is Some,
        !(udp matches Some(Poll::Ready(Ok(_)))),
        relay != Some(Poll::Ready(true)),
    ensures
        send_outcome(n, udp_addr, relay_url, pings_sent, udp, relay) == (if !pings_sent || !(
        (udp matches Some(Poll::Ready(_))) || (relay matches Some(Poll::Ready(_)))) {
            Poll::Pending
        } else if relay == Some(Poll::Ready(false)) {
            Poll::Ready(n)
        } else {
            Poll::Ready(0)
        }),
{
    match udp {
        Some(Poll::Pending) => {
            assert(udp == Some(Poll::<Result<usize, SockError>>::Pending));
        },
        _ => {},
    }
    match relay {
        Some(Poll::Ready(sent)) => {
            assert(relay == Some(Poll::Ready(sent)));
        },
        Some(Poll::Pending) => {
            assert(relay == Some(Poll::<bool>::Pending));
        },
        None => {},
    }
}

/// One call takes the transmits for the first destination and stops before the
/// first that goes elsewhere.
pub proof fn one_destination_at_a_time(first: Seq<Transmit>, rest: Seq<Transmit>, n: int)
    requires
        first.len() > 0,
        forall|i: int|
            0 <= i < first.len() ==> (#[trigger] first[i]).destination == first[0].destination,
        rest.len() > 0 ==> rest[0].destination != first[0].destination,
        leading_run(first + rest, n),
    ensures
        n == first.len(),
{
    let ts = first + rest;
    assert(ts[0] == first[0]);
    if n < first.len() {
        assert(ts[n] == first[n]);
    }
    if n > first.len() {
        assert(ts[first.len() as int] == rest[0]);
    }
}

/// Transmits that are sent on under another address carry the same bytes, cut the
/// same way, and so give the relay the same packets.
pub proof fn readdressed_transmits_carry_the_same(a: Seq<Transmit>, b: Seq<Transmit>)
    requires
        same_payloads(a, b),
    ensures
        a.len() == b.len(),
        forall|i: int|
            0 <= i < a.len() ==> bytes_content((#[trigger] a[i]).contents) == bytes_content(b[i].contents) && a[i].ecn == b[i].ecn
                && a[i].segment_size == b[i].segment_size && a[i].src_ip == b[i].src_ip,
        all_packets(a) == all_packets(b),
    decreases a.len(),
{
    assert forall|i: int| 0 <= i < a.len() implies (#[trigger] a[i]).same_payload(b[i]) by {}
    if a.len() > 0 {
        assert(a.last().same_payload(b.last()));
        assert(same_payloads(a.drop_last(), b.drop_last())) by {
            assert forall|i: int| 0 <= i < a.len() - 1 implies (#[trigger] a.drop_last()[i]).same_payload(
                b.drop_last()[i],
            ) by {
                assert(a[i].same_payload(b[i]));
            }
        }
        readdressed_transmits_carry_the_same(a.drop_last(), b.drop_last());
    }
}

/// A closed socket sends nothing and says so, and an open one takes at least one of
/// the transmits that it is given. What it takes are the first ones, unchanged.
pub proof fn an_open_socket_takes_transmits(
    is_closed: bool,
    transmits: Seq<Transmit>,
    r: SendStart,
)
    requires
        send_started(is_closed, transmits, r),
    ensures
        transmits.len() == 0 ==> r == SendStart::Done(Ok(0)),
        transmits.len() > 0 && is_closed ==> r == SendStart::Done(Err(SockError::ConnectionClosed)),
        transmits.len() > 0 && !is_closed ==> (r matches SendStart::Batch(b) && {
            &&& 0 < b.transmits@.len() <= transmits.len()
            &&& all_packets(b.transmits@) == all_packets(transmits.take(b.transmits@.len() as int))
            &&& forall|i: int|
                0 <= i < b.transmits@.len() ==> (#[trigger] b.transmits@[i]).destination
                    == transmits[i].destination && bytes_content(b.transmits@[i].contents)
                    == bytes_content(transmits[i].contents)
        }),
{
    if transmits.len() > 0 && !is_closed {
        let b = r->Batch_0;
        let n = b.transmits@.len() as int;
        readdressed_transmits_carry_the_same(b.transmits@, transmits.take(n));
        assert forall|i: int| 0 <= i < n implies (#[trigger] b.transmits@[i]).destination
            == transmits[i].destination && bytes_content(b.transmits@[i].contents) == bytes_content(
            transmits[i].contents,
        ) by {
            assert(transmits.take(n)[i] == transmits[i]);
        }
    }
}

/// A batch for a node of which nothing is known counts as sent. For any other one
/// the pings that are due go first, and the whole batch goes on to every address
/// that the node has.
pub proof fn batches_go_to_the_addresses_of_the_node(
    batch: SendBatch,
    addrs: Option<SendAddrs>,
    r: SendBegin,
)
    requires
        batch.begun(addrs, r),
        batch.transmits@.len() <= usize::MAX,
    ensures
        addrs is None ==> (r matches SendBegin::Dropped(k) && k == batch.transmits@.len()),
        addrs matches Some(a) ==> (r matches SendBegin::Run(run, msgs) && {
            &&& run.udp_addr == a.udp_addr
            &&& run.relay_url == a.relay_url
            &&& run.public_key == a.public_key
            &&& run.transmits@ == batch.transmits@
            &&& run.n == batch.transmits@.len()
            &&& msgs@ == a.msgs@
            &&& run.pings_sent <==> a.msgs@.len() > 0
        }),
{
}

/// The relay of the node gets, under the key of the node, the packets of just the
/// transmits that UDP took, so that what is left can be sent again, and the packets
/// of the whole batch where UDP was not tried or took nothing.
pub proof fn the_relay_gets_what_udp_took(
    run: SendRun,
    udp: Poll<Result<usize, SockError>>,
    after: SendRun,
    r: Option<(RelayUrl, PublicKey, RelayContents)>,
    untried: Option<(RelayUrl, PublicKey, RelayContents)>,
)
    requires
        run.transmits@.len() == run.n,
        run.tried_udp(udp, after),
        after.for_relay(r),
        run.for_relay(untried),
    ensures
        run.relay_url is Some <==> r is Some,
        run.relay_url is Some <==> untried is Some,
        r matches Some((url, key, contents)) ==> {
            &&& run.relay_url == Some(url)
            &&& run.public_key == key
            &&& udp matches Poll::Ready(Ok(k)) ==> contents@ == all_packets(
                run.transmits@.take(
                    if k <= run.n {
                        k as int
                    } else {
                        run.n as int
                    },
                ),
            )
            &&& !(udp matches Poll::Ready(Ok(_))) ==> contents@ == all_packets(run.transmits@)
        },
        untried matches Some((url, key, contents)) ==> run.relay_url == Some(url) && run.public_key
            == key && contents@ == all_packets(run.transmits@),
        after.n == run.n,
        after.udp == Some(udp),
{
}

/// Pings that cannot be sent yet hold the batch back, and pings that failed do not.
/// Then every transmit goes to the socket of the node, if one is known, with its
/// bytes unchanged, and nothing else of the batch changes.
pub proof fn every_transmit_goes_to_the_socket(
    run: SendRun,
    pings: Poll<Result<(), SockError>>,
    addr: Option<SocketAddr>,
    after: SendRun,
)
    requires
        run.readdressed(addr, after),
    ensures
        pings is Ready ==> run.pinged(pings) == Some(run),
        pings is Pending ==> run.pinged(pings) is None,
        addr == run.udp_addr,
        after.transmits@.len() == run.transmits@.len(),
        all_packets(after.transmits@) == all_packets(run.transmits@),
        run.udp_addr is Some ==> forall|i: int|
            0 <= i < after.transmits@.len() ==> (#[trigger] after.transmits@[i]).destination
                == run.udp_addr->0,
        after.relay_url == run.relay_url && after.public_key == run.public_key && after.n == run.n
            && after.pings_sent == run.pings_sent,
{
    readdressed_transmits_carry_the_same(after.transmits@, run.transmits@);
}

} // verus!
