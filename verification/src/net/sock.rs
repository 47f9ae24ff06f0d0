//! The state of the socket, and what it decides on its own.

use crate::key::{NodeId, PublicKey};
use crate::keymap::{unique_keys, KeyMap};
use crate::net::addr::{
    clone_url, same_url, url_text, IpAddr, QuicMappedAddr, RelayUrl, SocketAddr,
};
use crate::net::disco::{CallMeMaybe, Message};
use crate::net::endpoints::{addrs_of, same_endpoints, DirectAddr, DiscoveredEndpoints};
use crate::net::poll::SockError;
use crate::net::update_state::{finalized, scheduled, EndpointUpdateState, Finalize};
use rand::rngs::StdRng;
use rand::seq::SliceRandom;
use rand::{Rng, SeedableRng};
use std::time::Duration;
use vstd::prelude::*;

verus! {

/// The addresses of a node.
#[derive(Debug)]
pub struct AddrInfo {
    /// The relay at which the node can always be reached.
    pub relay_url: Option<RelayUrl>,
    /// The sockets on which the node may be reached: a set, of which each one
    /// counts once.
    pub direct_addresses: Vec<SocketAddr>,
}

impl AddrInfo {
    /// No socket stands there twice.
    pub open spec fn wf(self) -> bool {
        self.direct_addresses@.no_duplicates()
    }

    /// Nothing is known.
    pub open spec fn spec_is_empty(self) -> bool {
        self.relay_url is None && self.direct_addresses@.len() == 0
    }

    /// Whether nothing is known.
    pub fn is_empty(&self) -> (r: bool)
        ensures
            r == self.spec_is_empty(),
    {
        self.relay_url.is_none() && self.direct_addresses.is_empty()
    }
}

/// A node and its addresses.
#[derive(Debug)]
pub struct NodeAddr {
    pub node_id: NodeId,
    pub info: AddrInfo,
}

/// Why addresses of a node are not taken.
#[derive(Debug, Clone, Copy, PartialEq, Eq, Structural)]
pub enum AddNodeAddrError {
    /// Empty addressing info.
    Empty,
    /// Empty addressing info, after this many direct addresses were pruned.
    EmptyAfterPruning { pruned: usize },
}

/// Iroh connectivity layer.
///
/// This is responsible for routing packets to nodes based on node IDs, it will initially
/// route packets via a relay and transparently try and establish a node-to-node
/// connection and upgrade to it.  It will also keep looking for better connections as the
/// network details of both nodes change.
#[derive(Debug)]
pub struct MagicSock {
    /// The identity of this node.
    pub public_key: PublicKey,
    /// Cached version of the Ipv4 and Ipv6 addrs of the current connection.
    pub local_addrs: (SocketAddr, Option<SocketAddr>),
    /// Whether there is a UDP IPv6 socket.
    pub has_conn6: bool,
    /// Preferred port; 0 means auto.
    pub port: u16,
    /// Close is in progress (or done)
    pub closing: bool,
    /// Close was called.
    pub closed: bool,
    /// If the last netcheck report, reports IPv6 to be available.
    pub ipv6_reported: bool,
    /// The relays that may be used. None means relay is disabled.
    pub relay_urls: Vec<RelayUrl>,
    /// Nearest relay node; `None` means none/unknown.
    pub my_relay: Option<RelayUrl>,
    /// Whether there is a discovery service to publish to.
    pub has_discovery: bool,
    /// Our discovered endpoints
    pub endpoints: DiscoveredEndpoints,
    /// List of CallMeMaybe disco messages that should be sent out after the next endpoint update
    /// completes
    pub pending_call_me_maybes: KeyMap<PublicKey, RelayUrl>,
    /// Indicates the update endpoint state.
    pub endpoints_update_state: EndpointUpdateState,
}

/// What a new socket starts from.
#[derive(Debug)]
pub struct SockOptions {
    pub public_key: PublicKey,
    /// What the IPv4 socket is bound to.
    pub local_addr_v4: SocketAddr,
    /// What the IPv6 socket is bound to, if it is known.
    pub local_addr_v6: Option<SocketAddr>,
    /// Whether there is a UDP IPv6 socket.
    pub has_conn6: bool,
    /// The relays that may be used.
    pub relay_urls: Vec<RelayUrl>,
    /// Whether there is a discovery service.
    pub has_discovery: bool,
}

/// Which UDP socket.
#[derive(Debug, Clone, Copy, PartialEq, Eq, Structural)]
pub enum UdpSocket {
    V4,
    V6,
}

/// A discovery message for a relay.
#[derive(Debug)]
pub struct RelayDisco {
    pub url: RelayUrl,
    pub dst_key: PublicKey,
    pub msg: Message,
}

/// What is to be done about a node that should ping us.
#[derive(Debug)]
pub enum CallMeMaybeStep {
    /// Send the message now.
    Send(RelayDisco),
    /// The endpoints are stale: it is queued until the next update is done. If a
    /// reason is given, an update starts now.
    Queued { start_update: Option<&'static str> },
}

/// What follows from new direct addresses.
#[derive(Debug)]
pub struct AddrUpdate {
    /// The node map is told of these.
    pub discovered: Vec<SocketAddr>,
    /// This is published to the discovery service.
    pub publish: Option<AddrInfo>,
}

/// What a call to close does.
#[derive(Debug, Clone, Copy, PartialEq, Eq, Structural)]
pub enum CloseStep {
    /// The socket is closed already: nothing.
    AlreadyClosed,
    /// The actor is told to shut down.
    SendShutdown,
}

/// What follows from a new home relay.
#[derive(Debug)]
pub struct HomeRelayChange {
    /// This is published to the discovery service.
    pub publish: Option<AddrInfo>,
    /// The relay clients are told of the new home.
    pub set_home: RelayUrl,
}

/// The addresses that occur in a list, each where it occurs first.
pub open spec fn distinct_addrs(addrs: Seq<SocketAddr>) -> Seq<SocketAddr>
    decreases addrs.len(),
{
    if addrs.len() == 0 {
        Seq::empty()
    } else {
        let rest = distinct_addrs(addrs.drop_last());
        if rest.contains(addrs.last()) {
            rest
        } else {
            rest.push(addrs.last())
        }
    }
}

/// What is left of a list is a set of the same addresses, and a list that is a
/// set stays as it is.
pub proof fn distinct_addrs_are_a_set(addrs: Seq<SocketAddr>)
    ensures
        distinct_addrs(addrs).no_duplicates(),
        forall|a: SocketAddr| #[trigger] distinct_addrs(addrs).contains(a) <==> addrs.contains(a),
        distinct_addrs(addrs).len() <= addrs.len(),
        addrs.no_duplicates() ==> distinct_addrs(addrs) == addrs,
    decreases addrs.len(),
{
    if addrs.len() > 0 {
        let front = addrs.drop_last();
        let last = addrs.last();
        let rest = distinct_addrs(front);
        distinct_addrs_are_a_set(front);
        assert forall|a: SocketAddr| addrs.contains(a) <==> front.contains(a) || a == last by {
            if addrs.contains(a) && a != last {
                let i = choose|i: int| 0 <= i < addrs.len() && addrs[i] == a;
                assert(front[i] == a);
            }
            if front.contains(a) {
                let i = choose|i: int| 0 <= i < front.len() && front[i] == a;
                assert(addrs[i] == a);
            }
            assert(addrs[addrs.len() - 1] == last);
        }
        assert forall|a: SocketAddr| #[trigger] distinct_addrs(addrs).contains(a) <==> addrs.contains(
            a,
        ) by {
            assert(rest.contains(a) <==> front.contains(a));
            if !rest.contains(last) {
                if rest.contains(a) {
                    let i = choose|i: int| 0 <= i < rest.len() && rest[i] == a;
                    assert(rest.push(last)[i] == a);
                }
                assert(rest.push(last)[rest.len() as int] == last);
                if rest.push(last).contains(a) && a != last {
                    let i = choose|i: int| 0 <= i < rest.push(last).len() && rest.push(last)[i] == a;
                    assert(rest[i] == a);
                }
            }
        }
        if addrs.no_duplicates() {
            assert forall|i: int, j: int| 0 <= i < front.len() && 0 <= j < front.len() && i
                != j implies front[i] != front[j] by {
                assert(addrs[i] != addrs[j]);
            }
            assert(!front.contains(last)) by {
                if front.contains(last) {
                    let i = choose|i: int| 0 <= i < front.len() && front[i] == last;
                    assert(addrs[i] == addrs[addrs.len() - 1]);
                }
            }
            assert(front.push(last) =~= addrs);
        }
    }
}

/// The addresses that occur in a list, each where it occurs first.
fn distinct(addrs: &Vec<SocketAddr>) -> (r: Vec<SocketAddr>)
    ensures
        r@ == distinct_addrs(addrs@),
{
    let ghost all = addrs@;
    let mut out: Vec<SocketAddr> = Vec::new();
    let mut i: usize = 0;
    assert(all.take(0) =~= Seq::empty());
    while i < addrs.len()
        invariant
            all == addrs@,
            i <= all.len(),
            out@ == distinct_addrs(all.take(i as int)),
        decreases all.len() - i,
    {
        assert(all.take(i + 1).drop_last() =~= all.take(i as int));
        if !has_socket(&out, addrs[i]) {
            out.push(addrs[i]);
        }
        i += 1;
    }
    assert(all.take(i as int) =~= all);
    out
}

/// Whether an address is in a list.
fn has_socket(addrs: &Vec<SocketAddr>, addr: SocketAddr) -> (r: bool)
    ensures
        r == addrs@.contains(addr),
{
    let mut i: usize = 0;
    while i < addrs.len()
        invariant
            i <= addrs@.len(),
            forall|j: int| 0 <= j < i ==> addrs@[j] != addr,
        decreases addrs@.len() - i,
    {
        if addrs[i] == addr {
            return true;
        }
        i += 1;
    }
    false
}

/// `addrs` without those that are in `mine`.
pub open spec fn without(addrs: Seq<SocketAddr>, mine: Seq<SocketAddr>) -> Seq<SocketAddr>
    decreases addrs.len(),
{
    if addrs.len() == 0 {
        Seq::empty()
    } else {
        let rest = without(addrs.drop_last(), mine);
        if mine.contains(addrs.last()) {
            rest
        } else {
            rest.push(addrs.last())
        }
    }
}

/// What is left is what was there and is not in `mine`, each as often and in the
/// same order as before.
pub proof fn pruning_removes_exactly_our_addresses(addrs: Seq<SocketAddr>, mine: Seq<SocketAddr>)
    ensures
        without(addrs, mine) == addrs.filter(|a: SocketAddr| !mine.contains(a)),
        forall|a: SocketAddr| #[trigger]
            without(addrs, mine).contains(a) <==> addrs.contains(a) && !mine.contains(a),
        without(addrs, mine).len() <= addrs.len(),
    decreases addrs.len(),
{
    reveal(Seq::filter);
    if addrs.len() > 0 {
        let rest = addrs.drop_last();
        let last = addrs.last();
        pruning_removes_exactly_our_addresses(rest, mine);
        assert forall|a: SocketAddr| #[trigger]
            without(addrs, mine).contains(a) <==> addrs.contains(a) && !mine.contains(a) by {
            let w = without(rest, mine);
            assert(w.contains(a) <==> rest.contains(a) && !mine.contains(a));
            if addrs.contains(a) && a != last {
                let i = choose|i: int| 0 <= i < addrs.len() && addrs[i] == a;
                assert(rest[i] == a);
            }
            if rest.contains(a) {
                let i = choose|i: int| 0 <= i < rest.len() && rest[i] == a;
                assert(addrs[i] == a);
            }
            assert(addrs[addrs.len() - 1] == last);
            if !mine.contains(last) {
                assert(without(addrs, mine) == w.push(last));
                if w.contains(a) {
                    let i = choose|i: int| 0 <= i < w.len() && w[i] == a;
                    assert(w.push(last)[i] == a);
                }
                assert(w.push(last)[w.len() as int] == last);
                if w.push(last).contains(a) && a != last {
                    let i = choose|i: int| 0 <= i < w.push(last).len() && w.push(last)[i] == a;
                    assert(w[i] == a);
                }
            }
        }
    }
}

/// Pruning leaves a set a set.
proof fn lemma_without_distinct(addrs: Seq<SocketAddr>, mine: Seq<SocketAddr>)
    requires
        addrs.no_duplicates(),
    ensures
        without(addrs, mine).no_duplicates(),
    decreases addrs.len(),
{
    if addrs.len() > 0 {
        let front = addrs.drop_last();
        let last = addrs.last();
        assert forall|i: int, j: int| 0 <= i < front.len() && 0 <= j < front.len() && i
            != j implies front[i] != front[j] by {
            assert(addrs[i] != addrs[j]);
        }
        lemma_without_distinct(front, mine);
        pruning_removes_exactly_our_addresses(front, mine);
        assert(!without(front, mine).contains(last)) by {
            if front.contains(last) {
                let i = choose|i: int| 0 <= i < front.len() && front[i] == last;
                assert(addrs[i] == addrs[addrs.len() - 1]);
            }
        }
    }
}

/// Whether one of the endpoints has this address.
fn is_mine(eps: &Vec<DirectAddr>, addr: SocketAddr) -> (r: bool)
    ensures
        r == addrs_of(eps@).contains(addr),
{
    let mut i: usize = 0;
    while i < eps.len()
        invariant
            i <= eps@.len(),
            forall|j: int| 0 <= j < i ==> (#[trigger] eps@[j]).addr != addr,
        decreases eps@.len() - i,
    {
        if eps[i].addr == addr {
            assert(addrs_of(eps@)[i as int] == addr);
            return true;
        }
        i += 1;
    }
    assert forall|j: int| 0 <= j < addrs_of(eps@).len() implies addrs_of(eps@)[j] != addr by {
        assert(eps@[j].addr != addr);
    }
    false
}

/// Which one of `n` items a choice falls on, made by a generator that starts from
/// `seed`.
pub uninterp spec fn seeded_choice(seed: u64, n: nat) -> int;

/// `SliceRandom::choose` of `rand`, with a new `StdRng` for the given seed: one of
/// the URLs, or none of an empty list. Which one it is depends on nothing but the
/// seed and their number.
#[verifier::external_body]
fn choose_url(urls: &Vec<RelayUrl>, seed: u64) -> (r: Option<&RelayUrl>)
    ensures
        r is None <==> urls@.len() == 0,
        r matches Some(url) ==> 0 <= seeded_choice(seed, urls@.len()) < urls@.len() && *url
            == urls@[seeded_choice(seed, urls@.len())],
{
    urls.choose(&mut StdRng::seed_from_u64(seed))
}

/// The seed of the choice of a fallback relay: always the same, so that the choice
/// is too.
pub const FALLBACK_SEED: u64 = 0;

/// The index of the fallback among `n` relays.
pub open spec fn fallback_choice(n: nat) -> int {
    seeded_choice(FALLBACK_SEED, n)
}

/// The message that tells another node our addresses.
pub open spec fn call_me_maybe_addrs(msg: Message) -> Option<Seq<SocketAddr>> {
    match msg {
        Message::CallMeMaybe(m) => Some(m.my_numbers@),
        _ => None,
    }
}

/// One message for each queued node, to its relay, with the given addresses.
pub open spec fn answers_queue(
    out: Seq<RelayDisco>,
    queued: Map<PublicKey, RelayUrl>,
    addrs: Seq<SocketAddr>,
) -> bool {
    &&& forall|i: int, j: int|
        0 <= i < j < out.len() ==> (#[trigger] out[i]).dst_key != (#[trigger] out[j]).dst_key
    &&& forall|i: int|
        0 <= i < out.len() ==> {
            &&& queued.dom().contains((#[trigger] out[i]).dst_key)
            &&& out[i].url == queued[out[i].dst_key]
            &&& call_me_maybe_addrs(out[i].msg) == Some(addrs)
        }
    &&& forall|k: PublicKey| #[trigger]
        queued.dom().contains(k) ==> exists|i: int|
            0 <= i < out.len() && (#[trigger] out[i]).dst_key == k
}

impl MagicSock {
    /// The parts of the state that have an invariant keep it.
    pub open spec fn wf(&self) -> bool {
        &&& self.pending_call_me_maybes.wf()
        &&& self.endpoints_update_state.wf()
    }

    /// A new socket: open, with nothing known about the network.
    ///
    /// The port is the one that the IPv4 socket is bound to.
    pub fn new(opts: SockOptions) -> (r: Self)
        ensures
            r.wf(),
            r.public_key == opts.public_key,
            r.local_addrs == (opts.local_addr_v4, opts.local_addr_v6),
            r.has_conn6 == opts.has_conn6,
            r.port == opts.local_addr_v4.spec_port(),
            !r.closing && !r.closed && !r.ipv6_reported,
            r.relay_urls == opts.relay_urls,
            r.my_relay is None,
            r.has_discovery == opts.has_discovery,
            r.endpoints.last_endpoints@.len() == 0,
            r.endpoints.last_endpoints_time is None,
            r.pending_call_me_maybes@ == Map::<PublicKey, RelayUrl>::empty(),
            r.endpoints_update_state.running() is None,
            r.endpoints_update_state.wanted() is None,
    {
        MagicSock {
            public_key: opts.public_key,
            local_addrs: (opts.local_addr_v4, opts.local_addr_v6),
            has_conn6: opts.has_conn6,
            port: opts.local_addr_v4.port(),
            closing: false,
            closed: false,
            ipv6_reported: false,
            relay_urls: opts.relay_urls,
            my_relay: None,
            has_discovery: opts.has_discovery,
            endpoints: DiscoveredEndpoints { last_endpoints: Vec::new(), last_endpoints_time: None },
            pending_call_me_maybes: KeyMap::new(),
            endpoints_update_state: EndpointUpdateState::new(),
        }
    }

    /// The local port that the router is asked to map.
    pub open spec fn spec_port_to_map(self) -> Option<u16> {
        if self.port != 0 {
            Some(self.port)
        } else {
            None
        }
    }

    /// The local port that the router is asked to map. A port of zero means that
    /// it is not known, and then there is nothing to map.
    pub fn port_to_map(&self) -> (r: Option<u16>)
        ensures
            r == self.spec_port_to_map(),
    {
        if self.port != 0 {
            Some(self.port)
        } else {
            None
        }
    }

    /// Returns the relay node we are connected to, that has the best latency.
    ///
    /// If `None`, then we are not connected to any relay nodes.
    pub fn my_relay(&self) -> (r: Option<RelayUrl>)
        ensures
            r == self.my_relay,
    {
        clone_url(&self.my_relay)
    }

    /// What setting the relay does to the socket, and what it returns.
    pub open spec fn relay_set(
        self,
        my_relay: Option<RelayUrl>,
        r: Option<RelayUrl>,
        after: MagicSock,
    ) -> bool {
        &&& url_text(after.my_relay) == url_text(my_relay)
        &&& after == (MagicSock { my_relay: after.my_relay, ..self })
        &&& r == (if url_text(self.my_relay) == url_text(my_relay) {
            None
        } else {
            self.my_relay
        })
    }

    /// Sets the relay node with the best latency.
    ///
    /// If we are not connected to any relay nodes, set this to `None`. Returns
    /// the relay that was set before, if there was one and it is another.
    pub fn set_my_relay(&mut self, my_relay: Option<RelayUrl>) -> (r: Option<RelayUrl>)
        ensures
            old(self).relay_set(my_relay, r, *final(self)),
    {
        if same_url(&self.my_relay, &my_relay) {
            return None;
        }
        let old_relay = self.my_relay.take();
        self.my_relay = my_relay;
        old_relay
    }

    /// Close is in progress (or done)
    pub fn is_closing(&self) -> (r: bool)
        ensures
            r == self.closing,
    {
        self.closing
    }

    /// Close was called.
    pub fn is_closed(&self) -> (r: bool)
        ensures
            r == self.closed,
    {
        self.closed
    }

    /// Get the cached version of the Ipv4 and Ipv6 addrs of the current connection.
    pub fn local_addr(&self) -> (r: (SocketAddr, Option<SocketAddr>))
        ensures
            r == self.local_addrs,
    {
        self.local_addrs
    }

    /// The IPv6 address of the current connection, or else the IPv4 one.
    pub open spec fn spec_normalized_local_addr(self) -> SocketAddr {
        match self.local_addrs.1 {
            Some(v6) => v6,
            None => self.local_addrs.0,
        }
    }

    /// The IPv6 address of the current connection, or else the IPv4 one.
    pub fn normalized_local_addr(&self) -> (r: SocketAddr)
        ensures
            r == self.spec_normalized_local_addr(),
    {
        let (v4, v6) = self.local_addr();
        if let Some(v6) = v6 {
            v6
        } else {
            v4
        }
    }

    /// The local address that the QUIC layer is told of, which is always an IPv6
    /// one.
    pub open spec fn spec_quic_local_addr(self) -> SocketAddr {
        match self.local_addrs.1 {
            Some(v6) => v6,
            None => SocketAddr::spec_new(
                match self.local_addrs.0.spec_ip() {
                    IpAddr::V4(ip) => IpAddr::V6((0xffff_0000_0000 + ip) as u128),
                    IpAddr::V6(ip) => IpAddr::V6(ip),
                },
                self.local_addrs.0.spec_port(),
            ),
        }
    }

    /// The local address that the QUIC layer is told of.
    ///
    /// Without an IPv6 address the socket pretends to have one, because the
    /// mapped addresses are IPv6: the IPv4 address in the low 32 bits, below
    /// `::ffff:0:0`.
    pub fn quic_local_addr(&self) -> (r: SocketAddr)
        ensures
            r == self.spec_quic_local_addr(),
    {
        match self.local_addrs.1 {
            Some(v6) => v6,
            None => {
                let ip = match self.local_addrs.0.ip() {
                    IpAddr::V4(ip) => IpAddr::V6(0xffff_0000_0000u128 + ip as u128),
                    IpAddr::V6(ip) => IpAddr::V6(ip),
                };
                SocketAddr::new(ip, self.local_addrs.0.port())
            },
        }
    }

    /// What came of telling the actor to shut down.
    pub open spec fn shutdown_result(sent: bool) -> Result<(), SockError> {
        if sent {
            Ok(())
        } else {
            Err(SockError::ConnectionClosed)
        }
    }

    /// Returns `true` if we have at least one candidate address where we can send packets to.
    ///
    /// `info` is what the node map knows: `None` for an unknown node, else
    /// whether there is an address.
    pub fn has_send_address(&self, info: Option<bool>) -> (r: bool)
        ensures
            r == (info == Some(true)),
    {
        match info {
            Some(has) => has,
            None => false,
        }
    }

    /// Returns the [`SocketAddr`] which can be used by the QUIC layer to dial this node.
    ///
    /// Note this is a user-facing API and does not wrap the [`SocketAddr`] in a
    /// [`QuicMappedAddr`] as we do internally.
    pub fn get_mapping_addr(&self, mapped: Option<QuicMappedAddr>) -> (r: Option<SocketAddr>)
        ensures
            r == (match mapped {
                Some(a) => Some(a.0),
                None => None,
            }),
    {
        match mapped {
            Some(a) => Some(a.0),
            None => None,
        }
    }

    /// What becomes of the addresses of a node: our own are pruned, and what is
    /// left is taken, unless nothing is.
    pub open spec fn takes_addr(
        self,
        addr: NodeAddr,
        r: Result<NodeAddr, AddNodeAddrError>,
    ) -> bool {
        let given = distinct_addrs(addr.info.direct_addresses@);
        let kept = without(given, addrs_of(self.endpoints.last_endpoints@));
        let pruned = given.len() - kept.len();
        if addr.info.relay_url is Some || kept.len() > 0 {
            &&& r is Ok
            &&& r->Ok_0.node_id == addr.node_id
            &&& r->Ok_0.info.relay_url == addr.info.relay_url
            &&& r->Ok_0.info.direct_addresses@ == kept
            &&& r->Ok_0.info.wf()
        } else if pruned != 0 {
            r == Err::<NodeAddr, _>(
                AddNodeAddrError::EmptyAfterPruning { pruned: pruned as usize },
            )
        } else {
            r == Err::<NodeAddr, _>(AddNodeAddrError::Empty)
        }
    }

    /// Add addresses for a node to the magic socket's addresbook.
    ///
    /// Our own addresses are pruned first. What is left goes to the node map,
    /// unless nothing is.
    pub fn add_node_addr(&self, addr: NodeAddr) -> (r: Result<NodeAddr, AddNodeAddrError>)
        ensures
            self.takes_addr(addr, r),
    {
        let given = distinct(&addr.info.direct_addresses);
        let ghost all = given@;
        let ghost mine = addrs_of(self.endpoints.last_endpoints@);
        let mut kept: Vec<SocketAddr> = Vec::new();
        let mut pruned: usize = 0;
        let mut i: usize = 0;
        assert(all.take(0) =~= Seq::empty());
        while i < given.len()
            invariant
                all == given@,
                mine == addrs_of(self.endpoints.last_endpoints@),
                i <= all.len(),
                kept@ == without(all.take(i as int), mine),
                pruned == i - kept@.len(),
            decreases all.len() - i,
        {
            let a = given[i];
            assert(all.take(i + 1).drop_last() =~= all.take(i as int));
            if is_mine(&self.endpoints.last_endpoints, a) {
                pruned += 1;
            } else {
                kept.push(a);
            }
            i += 1;
        }
        assert(all.take(i as int) =~= all);
        proof {
            distinct_addrs_are_a_set(addr.info.direct_addresses@);
            lemma_without_distinct(all, mine);
        }
        let info = AddrInfo { relay_url: addr.info.relay_url, direct_addresses: kept };
        if !info.is_empty() {
            Ok(NodeAddr { node_id: addr.node_id, info })
        } else if pruned != 0 {
            Err(AddNodeAddrError::EmptyAfterPruning { pruned })
        } else {
            Err(AddNodeAddrError::Empty)
        }
    }

    /// What a discovery service is told, if there is one.
    pub open spec fn published(self, r: Option<AddrInfo>) -> bool {
        if self.has_discovery {
            &&& r is Some
            &&& r->0.relay_url == self.my_relay
            &&& r->0.direct_addresses@ == distinct_addrs(
                addrs_of(self.endpoints.last_endpoints@),
            )
            &&& r->0.wf()
        } else {
            r is None
        }
    }

    /// Publishes our address to a discovery service, if configured.
    ///
    /// Called whenever our addresses or home relay node changes.
    pub fn publish_my_addr(&self) -> (r: Option<AddrInfo>)
        ensures
            self.published(r),
    {
        if self.has_discovery {
            let direct_addresses = distinct(&self.endpoints.addrs());
            proof {
                distinct_addrs_are_a_set(addrs_of(self.endpoints.last_endpoints@));
            }
            Some(AddrInfo { relay_url: self.my_relay(), direct_addresses })
        } else {
            None
        }
    }

    /// What new direct addresses, found at the time `now`, do to the socket and
    /// what follows from them.
    pub open spec fn takes_endpoints(
        self,
        eps: Seq<DirectAddr>,
        now: u64,
        r: Option<AddrUpdate>,
        after: MagicSock,
    ) -> bool {
        &&& after.endpoints.last_endpoints@ == eps
        &&& after.endpoints.last_endpoints_time == Some(now)
        &&& after == (MagicSock { endpoints: after.endpoints, ..self })
        &&& r is None <==> same_endpoints(self.endpoints.last_endpoints@, eps)
        &&& r matches Some(update) ==> {
            &&& update.discovered@ == addrs_of(eps)
            &&& after.published(update.publish)
        }
    }

    /// Updates our direct addresses, found at the time `now`.
    ///
    /// On a successful update, our address is published to discovery. An update
    /// that finds the same set of endpoints changes nothing but their order and
    /// time.
    pub fn update_direct_addresses(&mut self, eps: Vec<DirectAddr>, now: u64) -> (r: Option<
        AddrUpdate,
    >)
        ensures
            old(self).takes_endpoints(eps@, now, r, *final(self)),
    {
        let discovered = DiscoveredEndpoints::new(eps, now);
        let updated = !(self.endpoints == discovered);
        self.endpoints = discovered;
        if updated {
            Some(AddrUpdate { discovered: self.endpoints.addrs(), publish: self.publish_my_addr() })
        } else {
            None
        }
    }

    /// The socket that reaches an address.
    pub open spec fn spec_conn_for_addr(self, addr: SocketAddr) -> Result<UdpSocket, SockError> {
        if addr is V4 {
            Ok(UdpSocket::V4)
        } else if self.has_conn6 {
            Ok(UdpSocket::V6)
        } else {
            Err(SockError::NoIpv6Connection)
        }
    }

    /// The socket that reaches an address.
    pub fn conn_for_addr(&self, addr: SocketAddr) -> (r: Result<UdpSocket, SockError>)
        ensures
            r == self.spec_conn_for_addr(addr),
    {
        match addr {
            SocketAddr::V4 { .. } => Ok(UdpSocket::V4),
            SocketAddr::V6 { .. } => {
                if self.has_conn6 {
                    Ok(UdpSocket::V6)
                } else {
                    Err(SockError::NoIpv6Connection)
                }
            },
        }
    }

    /// The message that tells another node our addresses.
    pub fn to_call_me_maybe_message(&self) -> (r: Message)
        ensures
            call_me_maybe_addrs(r) == Some(addrs_of(self.endpoints.last_endpoints@)),
    {
        Message::CallMeMaybe(CallMeMaybe { my_numbers: self.endpoints.addrs() })
    }

    /// Triggers an address discovery, now or after the one that runs.
    pub fn re_stun(&mut self, why: &'static str) -> (r: Option<&'static str>)
        requires
            old(self).wf(),
        ensures
            final(self).wf(),
            *final(self) == (MagicSock {
                endpoints_update_state: final(self).endpoints_update_state,
                ..*old(self)
            }),
            scheduled(
                old(self).endpoints_update_state,
                why,
                final(self).endpoints_update_state,
            ),
            r == (if old(self).endpoints_update_state.running() is None {
                Some(why)
            } else {
                None
            }),
    {
        self.endpoints_update_state.schedule_run(why)
    }

    /// What becomes of the wish that a node pings us: a message now if the
    /// endpoints are recent enough at the time `now`, and else one in the queue
    /// and an update of the endpoints.
    pub open spec fn calls_me_maybe(
        self,
        url: RelayUrl,
        dst_node: NodeId,
        now: u64,
        r: CallMeMaybeStep,
        after: MagicSock,
    ) -> bool {
        if self.endpoints.spec_fresh_enough(now) {
            &&& r matches CallMeMaybeStep::Send(m) && m.url == url && m.dst_key == dst_node
                && call_me_maybe_addrs(m.msg) == Some(addrs_of(self.endpoints.last_endpoints@))
            &&& after == self
        } else {
            &&& r matches CallMeMaybeStep::Queued { start_update } && start_update == (
            if self.endpoints_update_state.running() is None {
                Some("refresh-for-peering")
            } else {
                None
            })
            &&& after.pending_call_me_maybes@ == self.pending_call_me_maybes@.insert(dst_node, url)
            &&& after == (MagicSock {
                pending_call_me_maybes: after.pending_call_me_maybes,
                endpoints_update_state: after.endpoints_update_state,
                ..self
            })
            &&& scheduled(
                self.endpoints_update_state,
                "refresh-for-peering",
                after.endpoints_update_state,
            )
        }
    }

    /// Asks a node, through a relay, to ping us.
    ///
    /// The message is sent at once if our endpoints are recent enough at the
    /// time `now`. Otherwise it is queued, at most one for each node, and our
    /// endpoints are refreshed.
    pub fn send_or_queue_call_me_maybe(&mut self, url: &RelayUrl, dst_node: NodeId, now: u64) -> (r:
        CallMeMaybeStep)
        requires
            old(self).wf(),
        ensures
            final(self).wf(),
            old(self).calls_me_maybe(*url, dst_node, now, r, *final(self)),
    {
        if self.endpoints.fresh_enough(now) {
            let msg = self.to_call_me_maybe_message();
            CallMeMaybeStep::Send(RelayDisco { url: url.clone(), dst_key: dst_node, msg })
        } else {
            self.pending_call_me_maybes.insert(dst_node, url.clone());
            let start_update = self.re_stun("refresh-for-peering");
            CallMeMaybeStep::Queued { start_update }
        }
    }

    /// Sends the queued messages: one to each node that is in the queue, with
    /// the addresses that are known now. The queue is empty afterwards.
    pub fn send_queued_call_me_maybes(&mut self) -> (r: Vec<RelayDisco>)
        requires
            old(self).wf(),
        ensures
            final(self).wf(),
            final(self).pending_call_me_maybes@ == Map::<PublicKey, RelayUrl>::empty(),
            *final(self) == (MagicSock {
                pending_call_me_maybes: final(self).pending_call_me_maybes,
                ..*old(self)
            }),
            answers_queue(
                r@,
                old(self).pending_call_me_maybes@,
                addrs_of(old(self).endpoints.last_endpoints@),
            ),
    {
        let ghost addrs = addrs_of(self.endpoints.last_endpoints@);
        let ghost queued = self.pending_call_me_maybes@;
        let entries = self.pending_call_me_maybes.drain();
        let mut out: Vec<RelayDisco> = Vec::new();
        let mut i: usize = 0;
        while i < entries.len()
            invariant
                i <= entries@.len(),
                unique_keys(entries@),
                addrs == addrs_of(self.endpoints.last_endpoints@),
                out@.len() == i,
                forall|j: int|
                    0 <= j < i ==> {
                        &&& (#[trigger] out@[j]).dst_key == entries@[j].0
                        &&& out@[j].url == entries@[j].1
                        &&& call_me_maybe_addrs(out@[j].msg) == Some(addrs)
                    },
            decreases entries@.len() - i,
        {
            let msg = self.to_call_me_maybe_message();
            out.push(RelayDisco { url: entries[i].1.clone(), dst_key: entries[i].0, msg });
            i += 1;
        }
        proof {
            assert forall|a: int, b: int| 0 <= a < b < out@.len() implies (
            #[trigger] out@[a]).dst_key != (#[trigger] out@[b]).dst_key by {
                assert(entries@[a].0 != entries@[b].0);
            }
            assert forall|j: int| 0 <= j < out@.len() implies queued.dom().contains(
                (#[trigger] out@[j]).dst_key,
            ) && out@[j].url == queued[out@[j].dst_key] by {
                crate::keymap::lemma_entries_value(entries@, j);
            }
            assert forall|k: PublicKey| #[trigger] queued.dom().contains(k) implies exists|j: int|
                0 <= j < out@.len() && (#[trigger] out@[j]).dst_key == k by {
                crate::keymap::lemma_entries_dom(entries@, k);
                let j = choose|j: int| 0 <= j < entries@.len() && (#[trigger] entries@[j]).0 == k;
                assert(out@[j].dst_key == k);
            }
        }
        out
    }

    /// Called when an endpoints update is done, no matter if it was successful or not.
    pub fn finalize_endpoints_update(&mut self) -> (r: Finalize)
        requires
            old(self).wf(),
        ensures
            final(self).wf(),
            *final(self) == (MagicSock {
                endpoints_update_state: final(self).endpoints_update_state,
                ..*old(self)
            }),
            finalized(
                old(self).endpoints_update_state,
                old(self).closed,
                r,
                final(self).endpoints_update_state,
            ),
    {
        let is_closed = self.closed;
        self.endpoints_update_state.finalize_endpoints_update(is_closed)
    }

    /// What a new home relay does to the socket and what follows from it.
    pub open spec fn takes_home(
        self,
        relay_url: Option<RelayUrl>,
        r: Option<HomeRelayChange>,
        after: MagicSock,
    ) -> bool {
        &&& url_text(after.my_relay) == url_text(relay_url)
        &&& after == (MagicSock { my_relay: after.my_relay, ..self })
        &&& r is Some <==> relay_url is Some && url_text(relay_url) != url_text(self.my_relay)
        &&& r matches Some(change) ==> {
            &&& change.set_home == relay_url->0
            &&& after.published(change.publish)
        }
    }

    /// Makes a relay our home.
    ///
    /// A change to another relay is published, and the relay clients are told of
    /// it. Having no home any more is not told to anyone.
    pub fn set_nearest_relay(&mut self, relay_url: Option<RelayUrl>) -> (r: Option<HomeRelayChange>)
        ensures
            old(self).takes_home(relay_url, r, *final(self)),
    {
        if same_url(&relay_url, &self.my_relay) {
            // No change.
            return None;
        }
        let new_home = clone_url(&relay_url);
        self.set_my_relay(relay_url);
        match new_home {
            // On change, notify all currently connected relay servers and
            // start connecting to our home relay if we are not already.
            Some(url) => Some(HomeRelayChange { publish: self.publish_my_addr(), set_home: url }),
            None => None,
        }
    }

    /// The relay that is used if no check of the network found one.
    pub open spec fn spec_fallback(self) -> Option<RelayUrl> {
        if self.my_relay is Some {
            self.my_relay
        } else if self.relay_urls@.len() == 0 {
            None
        } else {
            Some(self.relay_urls@[fallback_choice(self.relay_urls@.len())])
        }
    }

    /// Returns a deterministic relay node to connect to. This is only used if netcheck
    /// couldn't find the nearest one, for instance, if UDP is blocked and thus STUN
    /// latency checks aren't working.
    ///
    /// The relay that we have is kept. If there is none, and no relays are
    /// known, returns `None`.
    pub fn pick_relay_fallback(&self) -> (r: Option<RelayUrl>)
        ensures
            r == self.spec_fallback(),
            self.my_relay is None && self.relay_urls@.len() > 0 ==> 0 <= fallback_choice(
                self.relay_urls@.len(),
            ) < self.relay_urls@.len(),
    {
        if self.my_relay.is_some() {
            return self.my_relay();
        }
        match choose_url(&self.relay_urls, FALLBACK_SEED) {
            Some(url) => Some(url.clone()),
            None => None,
        }
    }

    /// What closing does: nothing to a closed socket; another one is closing
    /// from then on.
    pub open spec fn spec_close(self) -> (CloseStep, MagicSock) {
        if self.closed {
            (CloseStep::AlreadyClosed, self)
        } else {
            (CloseStep::SendShutdown, MagicSock { closing: true, ..self })
        }
    }

    /// What is left after the actor was told to shut down.
    pub open spec fn spec_shutdown(self, sent: bool) -> MagicSock {
        if sent {
            MagicSock { closed: true, ..self }
        } else {
            self
        }
    }

    /// Closes the connection.
    ///
    /// Only the first close does anything. Any later closes return nil.
    pub fn close(&mut self) -> (r: CloseStep)
        ensures
            (r, *final(self)) == old(self).spec_close(),
    {
        if self.closed {
            return CloseStep::AlreadyClosed;
        }
        self.closing = true;
        CloseStep::SendShutdown
    }

    /// The actor was told to shut down, or could not be reached. Only in the
    /// first case is the socket closed.
    pub fn on_shutdown_sent(&mut self, sent: bool) -> (r: Result<(), SockError>)
        ensures
            r == Self::shutdown_result(sent),
            *final(self) == old(self).spec_shutdown(sent),
    {
        if sent {
            self.closed = true;
            Ok(())
        } else {
            Err(SockError::ConnectionClosed)
        }
    }
}

/// When the next periodic update runs, in nanoseconds from now.
#[derive(Debug, Clone, Copy, PartialEq, Eq, Structural)]
pub struct ReStunTimer {
    /// When the timer fires first.
    pub first: u64,
    /// The time between two firings.
    pub period: u64,
}

/// `Rng::gen_range` of `rand` on a range of durations, given in seconds: a
/// duration, in nanoseconds, that is drawn from the range. Both ends can come
/// up. It panics on an empty range.
#[verifier::external_body]
fn random_nanos(from_secs: u64, to_secs: u64) -> (r: u64)
    requires
        from_secs <= to_secs <= 1_000_000_000,
    ensures
        from_secs * 1_000_000_000 <= r <= to_secs * 1_000_000_000,
{
    let range = Duration::from_secs(from_secs)..=Duration::from_secs(to_secs);
    let d: Duration = rand::thread_rng().gen_range(range);
    d.as_nanos() as u64
}

/// A timer with the given period that fires at once, or only after a period.
pub open spec fn spec_re_stun_timer(initial_delay: bool, period: u64) -> ReStunTimer {
    ReStunTimer {
        first: if initial_delay {
            period
        } else {
            0
        },
        period,
    }
}

/// A timer with the given period that fires at once, or only after a period.
pub fn re_stun_timer(initial_delay: bool, period: u64) -> (r: ReStunTimer)
    ensures
        r == spec_re_stun_timer(initial_delay, period),
{
    ReStunTimer {
        first: if initial_delay {
            period
        } else {
            0
        },
        period,
    }
}

/// The timer of the periodic endpoint update.
///
/// Its period is a random duration between 20 and 26 seconds (just under 30s,
/// a common UDP NAT timeout on Linux,etc)
pub fn new_re_stun_timer(initial_delay: bool) -> (r: ReStunTimer)
    ensures
        20_000_000_000 <= r.period <= 26_000_000_000,
        r == spec_re_stun_timer(initial_delay, r.period),
{
    re_stun_timer(initial_delay, random_nanos(20, 26))
}

/// The port that the IPv6 socket is bound to.
pub open spec fn spec_bind_port_v6(ip4_port: u16) -> u16 {
    if ip4_port == u16::MAX {
        (ip4_port - 1) as u16
    } else {
        (ip4_port + 1) as u16
    }
}

/// The port that the IPv6 socket is bound to, next to the port of the IPv4
/// socket.
pub fn bind_port_v6(ip4_port: u16) -> (r: u16)
    requires
        ip4_port != 0,
    ensures
        r == spec_bind_port_v6(ip4_port),
{
    match ip4_port.checked_add(1) {
        Some(port) => port,
        None => ip4_port - 1,
    }
}

/// After the first close has gone through, closing once more asks for nothing
/// and changes nothing.
pub proof fn only_the_first_close_does_anything(sock: MagicSock)
    requires
        !sock.closed,
    ensures
        ({
            let closed = sock.spec_close().1.spec_shutdown(true);
            &&& closed.closing && closed.closed
            &&& closed.spec_close() == (CloseStep::AlreadyClosed, closed)
        }),
{
}

/// The addresses that a node map gets of a node are all those that were given and
/// are not our own, each once, and its relay with nothing changed. They are
/// refused exactly if there is no relay and every address given is our own, and
/// the error says whether any was given.
pub proof fn addresses_of_others_are_taken(
    sock: MagicSock,
    addr: NodeAddr,
    r: Result<NodeAddr, AddNodeAddrError>,
)
    requires
        sock.takes_addr(addr, r),
    ensures
        r is Ok <==> addr.info.relay_url is Some || exists|a: SocketAddr| #[trigger]
            addr.info.direct_addresses@.contains(a) && forall|i: int|
                0 <= i < sock.endpoints.last_endpoints@.len() ==> (
                #[trigger] sock.endpoints.last_endpoints@[i]).addr != a,
        r matches Ok(taken) ==> {
            &&& taken.node_id == addr.node_id
            &&& taken.info.relay_url == addr.info.relay_url
            &&& taken.info.direct_addresses@.no_duplicates()
            &&& forall|a: SocketAddr| #[trigger]
                taken.info.direct_addresses@.contains(a) <==> (
                addr.info.direct_addresses@.contains(a) && forall|i: int|
                    0 <= i < sock.endpoints.last_endpoints@.len() ==> (
                    #[trigger] sock.endpoints.last_endpoints@[i]).addr != a)
        },
        r == Err::<NodeAddr, _>(AddNodeAddrError::Empty) ==> addr.info.direct_addresses@.len() == 0,
        addr.info.direct_addresses@.len() == 0 && addr.info.relay_url is None ==> r == Err::<
            NodeAddr,
            _,
        >(AddNodeAddrError::Empty),
{
    let all = addr.info.direct_addresses@;
    let mine = addrs_of(sock.endpoints.last_endpoints@);
    let given = distinct_addrs(all);
    let kept = without(given, mine);
    distinct_addrs_are_a_set(all);
    pruning_removes_exactly_our_addresses(given, mine);
    assert forall|a: SocketAddr| #[trigger] mine.contains(a) <==> !(forall|i: int|
        0 <= i < sock.endpoints.last_endpoints@.len() ==> (
        #[trigger] sock.endpoints.last_endpoints@[i]).addr != a) by {
        if mine.contains(a) {
            let i = choose|i: int| 0 <= i < mine.len() && mine[i] == a;
            assert(sock.endpoints.last_endpoints@[i].addr == a);
        }
        if exists|i: int|
            0 <= i < sock.endpoints.last_endpoints@.len() && (
            #[trigger] sock.endpoints.last_endpoints@[i]).addr == a {
            let i = choose|i: int|
                0 <= i < sock.endpoints.last_endpoints@.len() && (
                #[trigger] sock.endpoints.last_endpoints@[i]).addr == a;
            assert(mine[i] == a);
        }
    }
    if kept.len() > 0 {
        let a = kept[0];
        assert(kept.contains(a));
        assert(given.contains(a));
        assert(all.contains(a));
        assert(!mine.contains(a));
    }
    if given.len() > 0 {
        assert(given.contains(given[0]));
    }
    if all.len() > 0 {
        assert(all.contains(all[0]));
        assert(given.contains(all[0]));
    }
    assert forall|a: SocketAddr| #[trigger] kept.contains(a) <==> all.contains(a) && !mine.contains(
        a,
    ) by {
        assert(given.contains(a) <==> all.contains(a));
    }
    if exists|a: SocketAddr| #[trigger] all.contains(a) && !mine.contains(a) {
        let a = choose|a: SocketAddr| #[trigger] all.contains(a) && !mine.contains(a);
        assert(kept.contains(a));
        assert(kept.len() > 0);
    }
}

/// Finding other addresses than before is told to the node map and to the
/// discovery service, if there is one, each with just the addresses found. Finding
/// the same ones again, in whatever order, is told to nobody.
pub proof fn new_endpoints_are_announced(
    sock: MagicSock,
    eps: Seq<DirectAddr>,
    now: u64,
    r: Option<AddrUpdate>,
    after: MagicSock,
)
    requires
        sock.takes_endpoints(eps, now, r, after),
    ensures
        after.endpoints.last_endpoints@ == eps,
        after.endpoints.last_endpoints_time == Some(now),
        after.my_relay == sock.my_relay,
        r is None <==> forall|d: DirectAddr| #[trigger]
            eps.contains(d) <==> sock.endpoints.last_endpoints@.contains(d),
        r matches Some(update) ==> {
            &&& update.discovered@.len() == eps.len()
            &&& forall|i: int| 0 <= i < eps.len() ==> #[trigger] update.discovered@[i] == eps[i].addr
            &&& update.publish is Some <==> sock.has_discovery
            &&& update.publish matches Some(info) ==> {
                &&& info.relay_url == sock.my_relay
                &&& info.direct_addresses@.no_duplicates()
                &&& forall|a: SocketAddr| #[trigger]
                    info.direct_addresses@.contains(a) <==> update.discovered@.contains(a)
            }
        },
{
    distinct_addrs_are_a_set(addrs_of(eps));
    crate::net::endpoints::same_endpoints_hold_the_same(sock.endpoints.last_endpoints@, eps);
}

/// Another home relay is told to the relay clients and to the discovery service,
/// if there is one. The same one again is told to nobody, and neither is having
/// none any more.
pub proof fn a_new_home_is_announced(
    sock: MagicSock,
    url: RelayUrl,
    r: Option<HomeRelayChange>,
    after: MagicSock,
    lost: Option<HomeRelayChange>,
    without_home: MagicSock,
)
    requires
        sock.takes_home(Some(url), r, after),
        sock.takes_home(None, lost, without_home),
    ensures
        after.my_relay is Some,
        after.my_relay->0@ == url@,
        r is None <==> (sock.my_relay matches Some(old_home) && old_home@ == url@),
        r matches Some(change) ==> {
            &&& change.set_home == url
            &&& change.publish is Some <==> sock.has_discovery
            &&& change.publish matches Some(info) ==> info.relay_url == after.my_relay
        },
        lost is None,
        without_home.my_relay is None,
{
}

/// A wish that a node pings us is never lost: either a message with our addresses
/// goes to the relay of the node now, and nothing else changes, or the node stands
/// in the queue with that relay, all others stay as they were, and an update is
/// running that will empty the queue.
pub proof fn call_me_maybes_are_not_lost(
    sock: MagicSock,
    url: RelayUrl,
    dst_node: NodeId,
    now: u64,
    r: CallMeMaybeStep,
    after: MagicSock,
    other: PublicKey,
)
    requires
        sock.calls_me_maybe(url, dst_node, now, r, after),
    ensures
        r is Send <==> sock.endpoints.spec_fresh_enough(now),
        r matches CallMeMaybeStep::Send(m) ==> {
            &&& m.url == url
            &&& m.dst_key == dst_node
            &&& m.msg matches Message::CallMeMaybe(c) && c.my_numbers@.len()
                == sock.endpoints.last_endpoints@.len() && forall|i: int|
                0 <= i < c.my_numbers@.len() ==> #[trigger] c.my_numbers@[i]
                    == sock.endpoints.last_endpoints@[i].addr
            &&& after == sock
        },
        r matches CallMeMaybeStep::Queued { start_update } ==> {
            &&& after.pending_call_me_maybes@.dom().contains(dst_node)
            &&& after.pending_call_me_maybes@[dst_node] == url
            &&& other != dst_node ==> (after.pending_call_me_maybes@.dom().contains(other)
                <==> sock.pending_call_me_maybes@.dom().contains(other))
                && after.pending_call_me_maybes@[other] == sock.pending_call_me_maybes@[other]
            &&& after.endpoints_update_state.running() is Some
            &&& start_update is Some <==> sock.endpoints_update_state.running() is None
            &&& start_update is None ==> after.endpoints_update_state.wanted() is Some
        },
{
}

/// Sending the queued messages reaches every node in the queue exactly once,
/// through the relay that it was queued with, and no other node, and tells each
/// all of our addresses.
pub proof fn every_queued_node_is_asked_once(
    out: Seq<RelayDisco>,
    queued: Map<PublicKey, RelayUrl>,
    addrs: Seq<SocketAddr>,
    node: PublicKey,
)
    requires
        answers_queue(out, queued, addrs),
    ensures
        queued.dom().contains(node) <==> exists|i: int|
            0 <= i < out.len() && (#[trigger] out[i]).dst_key == node,
        forall|i: int, j: int|
            0 <= i < out.len() && 0 <= j < out.len() && (#[trigger] out[i]).dst_key == node && (
            #[trigger] out[j]).dst_key == node ==> i == j,
        forall|i: int|
            0 <= i < out.len() && (#[trigger] out[i]).dst_key == node ==> out[i].url == queued[node]
                && (out[i].msg matches Message::CallMeMaybe(m) && m.my_numbers@ == addrs),
{
    assert forall|i: int, j: int|
        0 <= i < out.len() && 0 <= j < out.len() && (#[trigger] out[i]).dst_key == node && (
        #[trigger] out[j]).dst_key == node implies i == j by {
        if i < j {
            assert(out[i].dst_key != out[j].dst_key);
        }
        if j < i {
            assert(out[j].dst_key != out[i].dst_key);
        }
    }
}

/// An address is reached by the socket of its own family. Only an IPv6 address
/// can be out of reach, and only without an IPv6 socket.
pub proof fn addresses_are_reached_by_their_family(sock: MagicSock, addr: SocketAddr)
    ensures
        sock.spec_conn_for_addr(addr) == Ok::<_, SockError>(UdpSocket::V4) <==> addr is V4,
        sock.spec_conn_for_addr(addr) == Ok::<_, SockError>(UdpSocket::V6) <==> addr is V6
            && sock.has_conn6,
        sock.spec_conn_for_addr(addr) is Err <==> addr is V6 && !sock.has_conn6,
{
}

/// The QUIC layer is told the IPv6 address of the socket, and without one an IPv6
/// address whose low 32 bits are the IPv4 address and whose port is the same.
pub proof fn quic_sees_an_ipv6_address(sock: MagicSock)
    ensures
        sock.local_addrs.1 matches Some(v6) ==> sock.spec_quic_local_addr() == v6,
        sock.local_addrs.1 is None ==> (sock.local_addrs.0 matches SocketAddr::V4 { ip, port } ==> (
        sock.spec_quic_local_addr() matches SocketAddr::V6 { ip: told, port: told_port, .. }
            && told_port == port && told as int % 0x1_0000_0000 == ip && told as int / 0x1_0000_0000
            == 0xffff)),
        sock.local_addrs.1 matches Some(v6) ==> sock.spec_normalized_local_addr() == v6,
        sock.local_addrs.1 is None ==> sock.spec_normalized_local_addr() == sock.local_addrs.0,
{
}

/// The first close asks the actor to shut down and leaves everything else alone.
/// The socket is closed only once the actor was told, and until then closing asks
/// for it again.
pub proof fn closing_tells_the_actor(sock: MagicSock, sent: bool)
    requires
        !sock.closed,
    ensures
        sock.spec_close().0 == CloseStep::SendShutdown,
        sock.spec_close().1.closing,
        !sock.spec_close().1.closed,
        sock.spec_close().1.spec_shutdown(sent).closed <==> sent,
        MagicSock::shutdown_result(sent) is Ok <==> sent,
        !sent ==> MagicSock::shutdown_result(sent) == Err::<(), _>(SockError::ConnectionClosed),
        !sent ==> sock.spec_close().1.spec_shutdown(sent).spec_close().0 == CloseStep::SendShutdown,
        sock.spec_close().1.endpoints == sock.endpoints,
        sock.spec_close().1.pending_call_me_maybes == sock.pending_call_me_maybes,
        sock.spec_close().1.endpoints_update_state == sock.endpoints_update_state,
{
}

/// A node without a home takes one of the relays that it knows, if it knows any,
/// and always the same one of as many: the choice starts from the same seed. A home
/// is never given up.
pub proof fn the_fallback_relay_is_always_the_same(a: MagicSock, b: MagicSock)
    ensures
        a.my_relay is Some ==> a.spec_fallback() == a.my_relay,
        a.spec_fallback() is None <==> a.my_relay is None && a.relay_urls@.len() == 0,
        a.my_relay is None && b.my_relay is None && a.relay_urls@ == b.relay_urls@
            ==> a.spec_fallback() == b.spec_fallback(),
        a.my_relay is None && a.relay_urls@.len() > 0 ==> a.spec_fallback() == Some(
            a.relay_urls@[seeded_choice(0, a.relay_urls@.len())],
        ),
{
}

/// Setting the relay returns the one that was replaced, if another one was, and
/// changes nothing else of the socket.
pub proof fn setting_the_relay_returns_the_old_one(
    sock: MagicSock,
    url: RelayUrl,
    r: Option<RelayUrl>,
    after: MagicSock,
)
    requires
        sock.relay_set(Some(url), r, after),
    ensures
        after.my_relay is Some && after.my_relay->0@ == url@,
        r is Some <==> sock.my_relay is Some && sock.my_relay->0@ != url@,
        r is Some ==> r == sock.my_relay,
        after.endpoints == sock.endpoints,
        after.closed == sock.closed && after.closing == sock.closing,
        after.endpoints_update_state == sock.endpoints_update_state,
        after.pending_call_me_maybes == sock.pending_call_me_maybes,
{
}

/// The IPv6 socket gets a port next to that of the IPv4 socket, never the same and
/// never none. A port that is known is mapped as it is, and an unknown one is not.
/// The timer of the periodic update fires every period, and at once unless it was
/// asked to wait.
pub proof fn ports_and_timers(sock: MagicSock, ip4_port: u16, period: u64)
    requires
        ip4_port != 0,
    ensures
        ip4_port < 65535 ==> spec_bind_port_v6(ip4_port) == ip4_port + 1,
        ip4_port == 65535 ==> spec_bind_port_v6(ip4_port) == 65534,
        sock.port != 0 ==> sock.spec_port_to_map() == Some(sock.port),
        sock.port == 0 ==> sock.spec_port_to_map() is None,
        spec_re_stun_timer(true, period).first == period,
        spec_re_stun_timer(false, period).first == 0,
        spec_re_stun_timer(true, period).period == period,
        spec_re_stun_timer(false, period).period == period,
{
}

} // verus!
