//! The direct addresses of this node: how they are gathered, compared and kept.

use crate::net::addr::{IpAddr, SocketAddr};
use vstd::prelude::*;

verus! {

/// The type of direct address.
///
/// These are the various sources or origins from which a node might have found a
/// possible [`DirectAddr`].
#[derive(Debug, Clone, Copy, PartialEq, Eq, Hash, PartialOrd, Ord, Structural)]
pub enum DirectAddrType {
    /// Not yet determined.
    Unknown,
    /// A locally bound socket address.
    Local,
    /// Public internet address discovered via STUN.
    Stun,
    /// An address assigned by the router using port mapping.
    Portmapped,
    /// Hard NAT: STUN'ed IPv4 address + local fixed port.
    Stun4LocalPort,
}

impl DirectAddrType {
    /// The name of the type, as it is shown to people.
    pub open spec fn spec_name(self) -> Seq<char> {
        match self {
            DirectAddrType::Unknown => "?"@,
            DirectAddrType::Local => "local"@,
            DirectAddrType::Stun => "stun"@,
            DirectAddrType::Portmapped => "portmap"@,
            DirectAddrType::Stun4LocalPort => "stun4localport"@,
        }
    }

    /// The name of the type, as it is shown to people.
    pub fn name(&self) -> (r: &'static str)
        ensures
            r@ == self.spec_name(),
    {
        match self {
            DirectAddrType::Unknown => "?",
            DirectAddrType::Local => "local",
            DirectAddrType::Stun => "stun",
            DirectAddrType::Portmapped => "portmap",
            DirectAddrType::Stun4LocalPort => "stun4localport",
        }
    }
}

/// A *direct address* on which a node might be contactable.
///
/// Direct addresses are UDP socket addresses on which a node could potentially be
/// contacted.  These can come from various sources depending on the network topology of
/// the node, see [`DirectAddrType`] for the several kinds of sources.
#[derive(Debug, Clone, Copy, PartialEq, Eq, Hash, PartialOrd, Ord, Structural)]
pub struct DirectAddr {
    /// The address.
    pub addr: SocketAddr,
    /// The origin of this direct address.
    pub typ: DirectAddrType,
}

/// Whether `d` is one of `xs`.
fn contains_addr(xs: &[DirectAddr], d: &DirectAddr) -> (r: bool)
    ensures
        r == xs@.contains(*d),
{
    let mut i: usize = 0;
    while i < xs.len()
        invariant
            i <= xs@.len(),
            forall|j: int| 0 <= j < i ==> xs@[j] != *d,
        decreases xs@.len() - i,
    {
        if xs[i] == *d {
            return true;
        }
        i += 1;
    }
    false
}

/// Whether each of `xs` is one of `ys`.
fn all_contained(xs: &[DirectAddr], ys: &[DirectAddr]) -> (r: bool)
    ensures
        r == (forall|d: DirectAddr| xs@.contains(d) ==> ys@.contains(d)),
{
    let mut i: usize = 0;
    while i < xs.len()
        invariant
            i <= xs@.len(),
            forall|j: int| 0 <= j < i ==> ys@.contains(#[trigger] xs@[j]),
        decreases xs@.len() - i,
    {
        if !contains_addr(ys, &xs[i]) {
            assert(xs@.contains(xs@[i as int]));
            return false;
        }
        i += 1;
    }
    true
}

/// Whether the two lists agree element by element.
fn same_order(xs: &[DirectAddr], ys: &[DirectAddr]) -> (r: bool)
    ensures
        r == (xs@ == ys@),
{
    if xs.len() != ys.len() {
        return false;
    }
    let mut i: usize = 0;
    while i < xs.len()
        invariant
            xs@.len() == ys@.len(),
            i <= xs@.len(),
            forall|j: int| 0 <= j < i ==> xs@[j] == ys@[j],
        decreases xs@.len() - i,
    {
        if xs[i] != ys[i] {
            return false;
        }
        i += 1;
    }
    assert(xs@ =~= ys@);
    true
}

/// The two lists hold the same elements, in any order and any number of times.
pub open spec fn same_endpoints(xs: Seq<DirectAddr>, ys: Seq<DirectAddr>) -> bool {
    xs.to_set() == ys.to_set()
}

/// Reports whether x and y represent the same set of endpoints. The order doesn't matter.
pub fn endpoint_sets_equal(xs: &[DirectAddr], ys: &[DirectAddr]) -> (r: bool)
    ensures
        r == same_endpoints(xs@, ys@),
{
    if same_order(xs, ys) {
        return true;
    }
    let r = all_contained(xs, ys) && all_contained(ys, xs);
    proof {
        broadcast use vstd::seq_lib::group_seq_properties;

        assert(forall|d: DirectAddr| xs@.contains(d) <==> xs@.to_set().contains(d));
        assert(forall|d: DirectAddr| ys@.contains(d) <==> ys@.to_set().contains(d));
        if r {
            assert(xs@.to_set() =~= ys@.to_set());
        }
    }
    r
}

/// Reordering a list, or repeating what it holds, leaves it the same set of
/// endpoints; being the same set is an equivalence.
pub proof fn endpoint_order_is_irrelevant(xs: Seq<DirectAddr>, ys: Seq<DirectAddr>, zs: Seq<DirectAddr>)
    ensures
        same_endpoints(xs, xs),
        same_endpoints(xs, xs.reverse()),
        same_endpoints(xs, xs + xs),
        same_endpoints(xs, ys) == same_endpoints(ys, xs),
        same_endpoints(xs, ys) && same_endpoints(ys, zs) ==> same_endpoints(xs, zs),
        xs.to_multiset() == ys.to_multiset() ==> same_endpoints(xs, ys),
{
    broadcast use vstd::seq_lib::group_seq_properties;

    assert forall|d: DirectAddr| #[trigger] xs.contains(d) <==> xs.reverse().contains(d) by {
        if xs.contains(d) {
            let i = choose|i: int| 0 <= i < xs.len() && xs[i] == d;
            assert(xs.reverse()[xs.len() - 1 - i] == d);
        }
        if xs.reverse().contains(d) {
            let i = choose|i: int| 0 <= i < xs.len() && xs.reverse()[i] == d;
            assert(xs[xs.len() - 1 - i] == d);
        }
    }
    assert(xs.to_set() =~= xs.reverse().to_set());
    assert forall|d: DirectAddr| #[trigger] xs.contains(d) <==> (xs + xs).contains(d) by {
        if xs.contains(d) {
            let i = choose|i: int| 0 <= i < xs.len() && xs[i] == d;
            assert((xs + xs)[i] == d);
        }
    }
    assert(xs.to_set() =~= (xs + xs).to_set());
    if xs.to_multiset() == ys.to_multiset() {
        assert forall|d: DirectAddr| xs.to_set().contains(d) <==> #[trigger] ys.to_set().contains(
            d,
        ) by {
            xs.to_multiset_ensures();
            ys.to_multiset_ensures();
            assert(xs.contains(d) <==> xs.to_multiset().count(d) > 0);
            assert(ys.contains(d) <==> ys.to_multiset().count(d) > 0);
        }
        assert(xs.to_set() =~= ys.to_set());
    }
}

/// How long a list of endpoints counts as fresh, in nanoseconds: 27 seconds,
/// just under the common UDP mapping timeout of 30 seconds.
pub const ENDPOINTS_FRESH_ENOUGH_NANOS: u64 = 27_000_000_000;

/// The endpoints that the last discovery found. Times are nanoseconds of a
/// clock that never goes back.
#[derive(Debug, Clone, Eq)]
pub struct DiscoveredEndpoints {
    /// Records the endpoints found during the previous
    /// endpoint discovery. It's used to avoid duplicate endpoint change notifications.
    pub last_endpoints: Vec<DirectAddr>,
    /// The last time the endpoints were updated, even if there was no change.
    pub last_endpoints_time: Option<u64>,
}

impl PartialEq for DiscoveredEndpoints {
    fn eq(&self, other: &Self) -> (r: bool) {
        endpoint_sets_equal(self.last_endpoints.as_slice(), other.last_endpoints.as_slice())
    }
}

impl vstd::std_specs::cmp::PartialEqSpecImpl for DiscoveredEndpoints {
    open spec fn obeys_eq_spec() -> bool {
        true
    }

    open spec fn eq_spec(&self, other: &Self) -> bool {
        same_endpoints(self.last_endpoints@, other.last_endpoints@)
    }
}

impl Default for DiscoveredEndpoints {
    fn default() -> (r: Self)
        ensures
            r.last_endpoints@.len() == 0,
            r.last_endpoints_time is None,
    {
        DiscoveredEndpoints { last_endpoints: Vec::new(), last_endpoints_time: None }
    }
}

/// The addresses of a list of endpoints.
pub open spec fn addrs_of(eps: Seq<DirectAddr>) -> Seq<SocketAddr> {
    eps.map_values(|d: DirectAddr| d.addr)
}

impl DiscoveredEndpoints {
    /// The endpoints found at the time `now`.
    pub fn new(endpoints: Vec<DirectAddr>, now: u64) -> (r: Self)
        ensures
            r.last_endpoints@ == endpoints@,
            r.last_endpoints_time == Some(now),
    {
        DiscoveredEndpoints { last_endpoints: endpoints, last_endpoints_time: Some(now) }
    }

    /// The endpoints, in order.
    pub fn into_endpoints(self) -> (r: Vec<DirectAddr>)
        ensures
            r@ == self.last_endpoints@,
    {
        self.last_endpoints
    }

    /// The addresses of the endpoints, in order.
    pub fn addrs(&self) -> (r: Vec<SocketAddr>)
        ensures
            r@ == addrs_of(self.last_endpoints@),
    {
        let mut out: Vec<SocketAddr> = Vec::new();
        let mut i: usize = 0;
        while i < self.last_endpoints.len()
            invariant
                i <= self.last_endpoints@.len(),
                out@ == addrs_of(self.last_endpoints@.take(i as int)),
            decreases self.last_endpoints@.len() - i,
        {
            out.push(self.last_endpoints[i].addr);
            assert(addrs_of(self.last_endpoints@.take(i + 1)) =~= addrs_of(
                self.last_endpoints@.take(i as int),
            ).push(self.last_endpoints@[i as int].addr));
            i += 1;
        }
        assert(self.last_endpoints@.take(i as int) =~= self.last_endpoints@);
        out
    }

    /// Whether there are none.
    pub fn is_empty(&self) -> (r: bool)
        ensures
            r == (self.last_endpoints@.len() == 0),
    {
        self.last_endpoints.is_empty()
    }

    /// The endpoints were updated, and no longer than 27 seconds before `now`.
    pub open spec fn spec_fresh_enough(self, now: u64) -> bool {
        self.last_endpoints_time matches Some(time) && now - time <= ENDPOINTS_FRESH_ENOUGH_NANOS
    }

    /// Whether the endpoints are recent enough at the time `now` to be told to
    /// others.
    pub fn fresh_enough(&self, now: u64) -> (r: bool)
        ensures
            r == self.spec_fresh_enough(now),
    {
        match self.last_endpoints_time {
            None => false,
            Some(time) => now.saturating_sub(time) <= ENDPOINTS_FRESH_ENOUGH_NANOS,
        }
    }
}

/// What a stream of direct addresses does with a discovery.
#[derive(Debug)]
pub enum StreamStep {
    /// Nothing is known yet: wait for the next discovery.
    Skip,
    /// Yield these.
    Yield(Vec<DirectAddr>),
}

/// What a stream of direct addresses does with a discovery of these endpoints.
pub open spec fn stream_step(endpoints: Seq<DirectAddr>, r: StreamStep) -> bool {
    &&& endpoints.len() == 0 <==> r is Skip
    &&& r matches StreamStep::Yield(eps) ==> eps@ == endpoints
}

/// A stream of direct addresses passes on every discovery that found some.
///
/// At startup the endpoints may be empty as they have not been figured out
/// yet; such discoveries are skipped.
pub fn direct_addrs_stream_step(discovered: DiscoveredEndpoints) -> (r: StreamStep)
    ensures
        stream_step(discovered.last_endpoints@, r),
{
    if discovered.is_empty() {
        StreamStep::Skip
    } else {
        StreamStep::Yield(discovered.into_endpoints())
    }
}

/// What a network report says about the public addresses of this node.
#[derive(Debug, Clone, Copy)]
pub struct PublicAddrs {
    /// The public IPv4 address and port.
    pub global_v4: Option<(u32, u16)>,
    /// The public IPv6 socket address: address, port, flow label, scope.
    pub global_v6: Option<(u128, u16, u32, u32)>,
    /// Whether NAT mappings vary by the destination.
    pub mapping_varies_by_dest_ip: Option<bool>,
}

/// Everything that direct addresses are gathered from.
#[derive(Debug)]
pub struct AddrSources {
    /// The IPv4 address and port that the router maps to this node.
    pub port_mapped: Option<(u32, u16)>,
    /// The network report, if one was made.
    pub report: Option<PublicAddrs>,
    /// The port that this node was told to use; 0 means any.
    pub port: u16,
    /// What the IPv4 socket is bound to.
    pub local_addr_v4: Option<SocketAddr>,
    /// What the IPv6 socket is bound to.
    pub local_addr_v6: Option<SocketAddr>,
    /// The addresses of the regular network interfaces.
    pub regular: Vec<IpAddr>,
    /// The addresses of the loopback interfaces.
    pub loopback: Vec<IpAddr>,
}

/// One candidate, or none.
pub open spec fn candidate(addr: Option<SocketAddr>, typ: DirectAddrType) -> Seq<DirectAddr> {
    match addr {
        Some(addr) => seq![DirectAddr { addr, typ }],
        None => Seq::empty(),
    }
}

/// The candidates of a network report: the public IPv4 address, the same with
/// the fixed local port behind a hard NAT, and the public IPv6 address.
pub open spec fn report_candidates(nr: PublicAddrs, port: u16) -> Seq<DirectAddr> {
    let v4 = match nr.global_v4 {
        Some((ip, p)) => Some(SocketAddr::V4 { ip, port: p }),
        None => None,
    };
    let v4_local_port = match nr.global_v4 {
        Some((ip, _)) if nr.mapping_varies_by_dest_ip == Some(true) && port != 0 => Some(
            SocketAddr::V4 { ip, port },
        ),
        _ => None,
    };
    let v6 = match nr.global_v6 {
        Some((ip, port, flowinfo, scope_id)) => Some(
            SocketAddr::V6 { ip, port, flowinfo, scope_id },
        ),
        None => None,
    };
    candidate(v4, DirectAddrType::Stun) + candidate(v4_local_port, DirectAddrType::Stun4LocalPort)
        + candidate(v6, DirectAddrType::Stun)
}

/// The candidates that do not come from local interfaces.
pub open spec fn public_candidates(src: AddrSources) -> Seq<DirectAddr> {
    let mapped = match src.port_mapped {
        Some((ip, port)) => Some(SocketAddr::V4 { ip, port }),
        None => None,
    };
    candidate(mapped, DirectAddrType::Portmapped) + match src.report {
        Some(nr) => report_candidates(nr, src.port),
        None => Seq::empty(),
    }
}

/// The port of a socket that is bound to every interface.
pub open spec fn wildcard_port(local: Option<SocketAddr>) -> Option<u16> {
    match local {
        Some(addr) if addr.spec_ip().spec_is_unspecified() => Some(addr.spec_port()),
        _ => None,
    }
}

/// The address of a socket that is bound to one interface.
pub open spec fn bound_addr(local: Option<SocketAddr>) -> Option<SocketAddr> {
    match local {
        Some(addr) if !addr.spec_ip().spec_is_unspecified() => Some(addr),
        _ => None,
    }
}

/// The candidates of the local interfaces: a wildcard socket of the same IP
/// version makes an interface address reachable on its port.
pub open spec fn interface_candidates(
    ips: Seq<IpAddr>,
    v4_port: Option<u16>,
    v6_port: Option<u16>,
) -> Seq<DirectAddr>
    decreases ips.len(),
{
    if ips.len() == 0 {
        Seq::empty()
    } else {
        let ip = ips.last();
        let port = match ip {
            IpAddr::V4(_) => v4_port,
            IpAddr::V6(_) => v6_port,
        };
        let addr = match port {
            Some(port) => Some(SocketAddr::spec_new(ip, port)),
            None => None,
        };
        interface_candidates(ips.drop_last(), v4_port, v6_port) + candidate(
            addr,
            DirectAddrType::Local,
        )
    }
}

/// The interfaces to offer: the loopback ones only where there is nothing else.
pub open spec fn offered_ips(src: AddrSources) -> Seq<IpAddr> {
    if src.regular@.len() == 0 && public_candidates(src).len() == 0 {
        src.loopback@
    } else {
        src.regular@
    }
}

/// All candidates, from "farthest but most reliable" to "closest but least
/// reliable".
pub open spec fn all_candidates(src: AddrSources) -> Seq<DirectAddr> {
    public_candidates(src) + interface_candidates(
        offered_ips(src),
        wildcard_port(src.local_addr_v4),
        wildcard_port(src.local_addr_v6),
    ) + candidate(bound_addr(src.local_addr_v4), DirectAddrType::Local) + candidate(
        bound_addr(src.local_addr_v6),
        DirectAddrType::Local,
    )
}

/// One of the endpoints has this address.
pub open spec fn has_addr(eps: Seq<DirectAddr>, addr: SocketAddr) -> bool {
    exists|i: int| 0 <= i < eps.len() && (#[trigger] eps[i]).addr == addr
}

/// The list without every candidate whose address came before.
pub open spec fn keep_first(s: Seq<DirectAddr>) -> Seq<DirectAddr>
    decreases s.len(),
{
    if s.len() == 0 {
        Seq::empty()
    } else {
        let kept = keep_first(s.drop_last());
        if has_addr(kept, s.last().addr) {
            kept
        } else {
            kept.push(s.last())
        }
    }
}

/// Adds a candidate unless its address is there already.
fn add_addr(
    eps: &mut Vec<DirectAddr>,
    Ghost(seen): Ghost<Seq<DirectAddr>>,
    addr: SocketAddr,
    typ: DirectAddrType,
)
    requires
        old(eps)@ == keep_first(seen),
    ensures
        final(eps)@ == keep_first(seen.push(DirectAddr { addr, typ })),
{
    assert(seen.push(DirectAddr { addr, typ }).drop_last() =~= seen);
    let mut i: usize = 0;
    while i < eps.len()
        invariant
            i <= eps@.len(),
            eps@ == keep_first(seen),
            forall|j: int| 0 <= j < i ==> (#[trigger] eps@[j]).addr != addr,
        decreases eps@.len() - i,
    {
        if eps[i].addr == addr {
            assert(has_addr(eps@, addr));
            assert(seen.push(DirectAddr { addr, typ }).drop_last() =~= seen);
            return;
        }
        i += 1;
    }
    eps.push(DirectAddr { addr, typ });
}

/// Adds the candidates of a network report.
fn add_report(
    eps: &mut Vec<DirectAddr>,
    Ghost(seen): Ghost<Seq<DirectAddr>>,
    nr: &PublicAddrs,
    port: u16,
)
    requires
        old(eps)@ == keep_first(seen),
    ensures
        final(eps)@ == keep_first(seen + report_candidates(*nr, port)),
{
    let ghost mut added: Seq<DirectAddr> = seen;
    if let Some((ip, p)) = nr.global_v4 {
        add_addr(eps, Ghost(added), SocketAddr::V4 { ip, port: p }, DirectAddrType::Stun);
        proof {
            added = added.push(
                DirectAddr { addr: SocketAddr::V4 { ip, port: p }, typ: DirectAddrType::Stun },
            );
        }
        // If they're behind a hard NAT and are using a fixed
        // port locally, assume they might've added a static
        // port mapping on their router to the same explicit
        // port that we are running with. Worst case it's an invalid candidate mapping.
        if nr.mapping_varies_by_dest_ip == Some(true) && port != 0 {
            let addr = SocketAddr::V4 { ip, port };
            add_addr(eps, Ghost(added), addr, DirectAddrType::Stun4LocalPort);
            proof {
                added = added.push(DirectAddr { addr, typ: DirectAddrType::Stun4LocalPort });
            }
        }
    }
    if let Some((ip, port, flowinfo, scope_id)) = nr.global_v6 {
        let addr = SocketAddr::V6 { ip, port, flowinfo, scope_id };
        add_addr(eps, Ghost(added), addr, DirectAddrType::Stun);
        proof {
            added = added.push(DirectAddr { addr, typ: DirectAddrType::Stun });
        }
    }
    assert(added =~= seen + report_candidates(*nr, port));
}

/// The direct addresses that do not come from local interfaces.
fn gather_public(src: &AddrSources) -> (eps: Vec<DirectAddr>)
    ensures
        eps@ == keep_first(public_candidates(*src)),
{
    let mut eps: Vec<DirectAddr> = Vec::new();
    let ghost mut seen: Seq<DirectAddr> = Seq::empty();
    if let Some((ip, port)) = src.port_mapped {
        let addr = SocketAddr::V4 { ip, port };
        add_addr(&mut eps, Ghost(seen), addr, DirectAddrType::Portmapped);
        proof {
            seen = seen.push(DirectAddr { addr, typ: DirectAddrType::Portmapped });
        }
    }
    if let Some(nr) = &src.report {
        add_report(&mut eps, Ghost(seen), nr, src.port);
        proof {
            seen = seen + report_candidates(*nr, src.port);
        }
    }
    assert(seen =~= public_candidates(*src));
    eps
}

/// Adds the address of a socket that is bound to one interface.
fn add_bound(
    eps: &mut Vec<DirectAddr>,
    Ghost(seen): Ghost<Seq<DirectAddr>>,
    local: Option<SocketAddr>,
)
    requires
        old(eps)@ == keep_first(seen),
    ensures
        final(eps)@ == keep_first(seen + candidate(bound_addr(local), DirectAddrType::Local)),
{
    if let Some(addr) = local {
        if !addr.ip().is_unspecified() {
            // Our local endpoint is bound to a particular address.
            // Do not offer addresses on other local interfaces.
            add_addr(eps, Ghost(seen), addr, DirectAddrType::Local);
            assert(seen.push(DirectAddr { addr, typ: DirectAddrType::Local }) =~= seen + candidate(
                bound_addr(local),
                DirectAddrType::Local,
            ));
            return;
        }
    }
    assert(seen + candidate(bound_addr(local), DirectAddrType::Local) =~= seen);
}

/// The port of a socket that is bound to every interface.
fn port_of_wildcard(local: Option<SocketAddr>) -> (r: Option<u16>)
    ensures
        r == wildcard_port(local),
{
    match local {
        Some(addr) => if addr.ip().is_unspecified() {
            Some(addr.port())
        } else {
            None
        },
        None => None,
    }
}

/// Gathers the direct addresses of this node.
///
/// The endpoints are intentionally returned in priority order, from "farthest
/// but most reliable" to "closest but least reliable." No address occurs twice:
/// the first source that finds one gives it its type.
pub fn gather_direct_addrs(src: &AddrSources) -> (eps: Vec<DirectAddr>)
    ensures
        eps@ == keep_first(all_candidates(*src)),
{
    let mut eps = gather_public(src);
    let ghost public = public_candidates(*src);
    let ghost mut seen: Seq<DirectAddr> = public;
    proof {
        lemma_keep_first_empty(seen);
    }
    let v4_port = port_of_wildcard(src.local_addr_v4);
    let v6_port = port_of_wildcard(src.local_addr_v6);
    // Only offer loopback addresses if we have no
    // interfaces at all to use as endpoints and don't
    // have a public IPv4 or IPv6 address. This allows
    // for localhost testing when you're on a plane and
    // offline, for example.
    let ips: &Vec<IpAddr> = if src.regular.is_empty() && eps.is_empty() {
        &src.loopback
    } else {
        &src.regular
    };
    let mut i: usize = 0;
    assert(interface_candidates(ips@.take(0), v4_port, v6_port) =~= Seq::empty());
    assert(seen =~= public + interface_candidates(ips@.take(0), v4_port, v6_port));
    while i < ips.len()
        invariant
            i <= ips@.len(),
            eps@ == keep_first(seen),
            seen == public + interface_candidates(ips@.take(i as int), v4_port, v6_port),
        decreases ips@.len() - i,
    {
        let ip = ips[i];
        let port = match ip {
            IpAddr::V4(_) => v4_port,
            IpAddr::V6(_) => v6_port,
        };
        assert(ips@.take(i + 1).drop_last() =~= ips@.take(i as int));
        if let Some(port) = port {
            let addr = SocketAddr::new(ip, port);
            add_addr(&mut eps, Ghost(seen), addr, DirectAddrType::Local);
            proof {
                seen = seen.push(DirectAddr { addr, typ: DirectAddrType::Local });
            }
        }
        i += 1;
        assert(seen =~= public + interface_candidates(ips@.take(i as int), v4_port, v6_port));
    }
    assert(ips@.take(i as int) =~= ips@);
    add_bound(&mut eps, Ghost(seen), src.local_addr_v4);
    proof {
        seen = seen + candidate(bound_addr(src.local_addr_v4), DirectAddrType::Local);
    }
    add_bound(&mut eps, Ghost(seen), src.local_addr_v6);
    eps
}

/// Something is kept of every list that holds something.
proof fn lemma_keep_first_empty(s: Seq<DirectAddr>)
    ensures
        keep_first(s).len() == 0 <==> s.len() == 0,
    decreases s.len(),
{
    if s.len() > 0 {
        lemma_keep_first_empty(s.drop_last());
    }
}

/// What is kept of a list: its addresses, each exactly once, with the type of
/// the candidate that came first.
pub proof fn gathered_addresses_are_distinct(s: Seq<DirectAddr>)
    ensures
        forall|i: int, j: int|
            0 <= i < j < keep_first(s).len() ==> (#[trigger] keep_first(s)[i]).addr != (
            #[trigger] keep_first(s)[j]).addr,
        forall|addr: SocketAddr| #[trigger] has_addr(keep_first(s), addr) <==> has_addr(s, addr),
        forall|i: int|
            0 <= i < keep_first(s).len() ==> first_with_addr(s, #[trigger] keep_first(s)[i]),
    decreases s.len(),
{
    if s.len() > 0 {
        let rest = s.drop_last();
        let last = s.last();
        let kept = keep_first(rest);
        gathered_addresses_are_distinct(rest);
        assert forall|addr: SocketAddr| #[trigger] has_addr(keep_first(s), addr) <==> has_addr(
            s,
            addr,
        ) by {
            assert(has_addr(kept, addr) <==> has_addr(rest, addr));
            if has_addr(rest, addr) {
                let i = choose|i: int| 0 <= i < rest.len() && (#[trigger] rest[i]).addr == addr;
                assert(s[i].addr == addr);
            }
            if has_addr(kept, addr) {
                let i = choose|i: int| 0 <= i < kept.len() && (#[trigger] kept[i]).addr == addr;
                assert(keep_first(s)[i].addr == addr);
            }
            if has_addr(s, addr) {
                let i = choose|i: int| 0 <= i < s.len() && (#[trigger] s[i]).addr == addr;
                if i < rest.len() {
                    assert(rest[i].addr == addr);
                } else if !has_addr(kept, last.addr) {
                    assert(keep_first(s)[kept.len() as int].addr == addr);
                }
            }
            if last.addr == addr {
                assert(s[s.len() - 1].addr == addr);
            }
        }
        assert forall|i: int| 0 <= i < keep_first(s).len() implies first_with_addr(
            s,
            #[trigger] keep_first(s)[i],
        ) by {
            let d = keep_first(s)[i];
            if i < kept.len() {
                assert(first_with_addr(rest, kept[i]));
                let k = choose|k: int|
                    0 <= k < rest.len() && rest[k] == d && (forall|j: int|
                        0 <= j < k ==> (#[trigger] rest[j]).addr != d.addr);
                assert(s[k] == d);
                assert forall|j: int| 0 <= j < k implies (#[trigger] s[j]).addr != d.addr by {
                    assert(rest[j] == s[j]);
                }
            } else {
                assert(!has_addr(rest, last.addr));
                assert forall|j: int| 0 <= j < s.len() - 1 implies (#[trigger] s[j]).addr
                    != d.addr by {
                    assert(rest[j] == s[j]);
                }
                assert(s[s.len() - 1] == d);
            }
        }
    }
}

/// `d` is in `s`, and nothing before it has its address.
pub open spec fn first_with_addr(s: Seq<DirectAddr>, d: DirectAddr) -> bool {
    exists|k: int|
        0 <= k < s.len() && #[trigger] s[k] == d && (forall|j: int|
            0 <= j < k ==> (#[trigger] s[j]).addr != d.addr)
}

/// The public addresses come first: local interfaces and bound sockets only add
/// to the end of the list.
pub proof fn public_addresses_come_first(src: AddrSources)
    ensures
        keep_first(public_candidates(src)).is_prefix_of(keep_first(all_candidates(src))),
{
    let public = public_candidates(src);
    let all = all_candidates(src);
    lemma_keep_first_prefix(public, all.subrange(public.len() as int, all.len() as int));
    assert(public + all.subrange(public.len() as int, all.len() as int) =~= all);
}

/// More candidates only add to what is kept.
proof fn lemma_keep_first_prefix(a: Seq<DirectAddr>, b: Seq<DirectAddr>)
    ensures
        keep_first(a).is_prefix_of(keep_first(a + b)),
    decreases b.len(),
{
    if b.len() == 0 {
        assert(a + b =~= a);
    } else {
        lemma_keep_first_prefix(a, b.drop_last());
        assert((a + b).drop_last() =~= a + b.drop_last());
    }
}

/// Two lists are the same set of endpoints exactly if each holds everything that
/// the other holds, address and type.
pub proof fn same_endpoints_hold_the_same(xs: Seq<DirectAddr>, ys: Seq<DirectAddr>)
    ensures
        same_endpoints(xs, ys) <==> forall|d: DirectAddr| #[trigger]
            ys.contains(d) <==> xs.contains(d),
{
    broadcast use vstd::seq_lib::group_seq_properties;

    assert(forall|d: DirectAddr| xs.contains(d) <==> xs.to_set().contains(d));
    assert(forall|d: DirectAddr| ys.contains(d) <==> ys.to_set().contains(d));
    if forall|d: DirectAddr| #[trigger] ys.contains(d) <==> xs.contains(d) {
        assert(xs.to_set() =~= ys.to_set());
    }
}

/// Endpoints that were found at some time are fresh for the 27 seconds that
/// follow, and not a nanosecond longer. Endpoints that were never found are not.
pub proof fn endpoints_go_stale(eps: DiscoveredEndpoints, now: u64)
    ensures
        eps.last_endpoints_time matches Some(time) ==> (eps.spec_fresh_enough(now) <==> now <= time
            + 27_000_000_000),
        eps.last_endpoints_time is None ==> !eps.spec_fresh_enough(now),
{
}

/// What the interfaces offer: each address with the port of the wildcard socket
/// of its version, if there is one, and nothing else.
proof fn lemma_interface_candidates(ips: Seq<IpAddr>, v4_port: Option<u16>, v6_port: Option<u16>)
    ensures
        forall|ip: u32, port: u16|
            ips.contains(IpAddr::V4(ip)) && v4_port == Some(port) ==> #[trigger] interface_candidates(
                ips,
                v4_port,
                v6_port,
            ).contains(
                DirectAddr { addr: SocketAddr::V4 { ip, port }, typ: DirectAddrType::Local },
            ),
        forall|ip: u128, port: u16|
            ips.contains(IpAddr::V6(ip)) && v6_port == Some(port) ==> #[trigger] interface_candidates(
                ips,
                v4_port,
                v6_port,
            ).contains(
                DirectAddr {
                    addr: SocketAddr::V6 { ip, port, flowinfo: 0, scope_id: 0 },
                    typ: DirectAddrType::Local,
                },
            ),
        forall|d: DirectAddr| #[trigger]
            interface_candidates(ips, v4_port, v6_port).contains(d) ==> {
                &&& d.typ == DirectAddrType::Local
                &&& match d.addr {
                    SocketAddr::V4 { ip, port } => ips.contains(IpAddr::V4(ip)) && v4_port == Some(
                        port,
                    ),
                    SocketAddr::V6 { ip, port, flowinfo, scope_id } => ips.contains(IpAddr::V6(ip))
                        && v6_port == Some(port) && flowinfo == 0 && scope_id == 0,
                }
            },
    decreases ips.len(),
{
    let all = interface_candidates(ips, v4_port, v6_port);
    if ips.len() > 0 {
        let front = ips.drop_last();
        let ip = ips.last();
        let before = interface_candidates(front, v4_port, v6_port);
        lemma_interface_candidates(front, v4_port, v6_port);
        let port = match ip {
            IpAddr::V4(_) => v4_port,
            IpAddr::V6(_) => v6_port,
        };
        let addr = match port {
            Some(port) => Some(SocketAddr::spec_new(ip, port)),
            None => None,
        };
        let added = candidate(addr, DirectAddrType::Local);
        assert(all == before + added);
        assert forall|x: IpAddr| #[trigger] ips.contains(x) <==> front.contains(x) || x == ip by {
            if ips.contains(x) && x != ip {
                let i = choose|i: int| 0 <= i < ips.len() && ips[i] == x;
                assert(front[i] == x);
            }
            if front.contains(x) {
                let i = choose|i: int| 0 <= i < front.len() && front[i] == x;
                assert(ips[i] == x);
            }
            assert(ips[ips.len() - 1] == ip);
        }
        assert forall|d: DirectAddr| #[trigger]
            all.contains(d) <==> before.contains(d) || added.contains(d) by {
            lemma_contains_concat(before, added, d);
        }
        if addr is Some {
            assert(added[0] == DirectAddr { addr: addr->0, typ: DirectAddrType::Local });
            assert(added.contains(added[0]));
        }
        assert forall|d: DirectAddr| #[trigger] added.contains(d) implies addr == Some(d.addr)
            && d.typ == DirectAddrType::Local by {
            let i = choose|i: int| 0 <= i < added.len() && added[i] == d;
            assert(added.len() == 1);
        }
    }
}

/// A list that follows another adds what it holds, and nothing else.
proof fn lemma_contains_concat(a: Seq<DirectAddr>, b: Seq<DirectAddr>, d: DirectAddr)
    ensures
        (a + b).contains(d) <==> a.contains(d) || b.contains(d),
{
    if a.contains(d) {
        let i = choose|i: int| 0 <= i < a.len() && a[i] == d;
        assert((a + b)[i] == d);
    }
    if b.contains(d) {
        let i = choose|i: int| 0 <= i < b.len() && b[i] == d;
        assert((a + b)[a.len() + i] == d);
    }
    if (a + b).contains(d) {
        let i = choose|i: int| 0 <= i < (a + b).len() && (a + b)[i] == d;
        if i < a.len() {
            assert(a[i] == d);
        } else {
            assert(b[i - a.len()] == d);
        }
    }
}

/// What one source alone offers.
proof fn lemma_candidate(addr: Option<SocketAddr>, typ: DirectAddrType, d: DirectAddr)
    ensures
        candidate(addr, typ).contains(d) <==> addr == Some(d.addr) && d.typ == typ,
{
    if addr is Some {
        assert(candidate(addr, typ)[0] == DirectAddr { addr: addr->0, typ });
    }
}

/// What the public sources offer.
proof fn lemma_public_candidates(src: AddrSources, d: DirectAddr)
    ensures
        public_candidates(src).contains(d) <==> {
            ||| d.typ == DirectAddrType::Portmapped && (src.port_mapped matches Some(m) && d.addr
                == (SocketAddr::V4 { ip: m.0, port: m.1 }))
            ||| d.typ == DirectAddrType::Stun && (src.report matches Some(nr)
                && nr.global_v4 matches Some(g) && d.addr == (SocketAddr::V4 { ip: g.0, port: g.1 }))
            ||| d.typ == DirectAddrType::Stun4LocalPort && (src.report matches Some(nr)
                && nr.mapping_varies_by_dest_ip == Some(true) && src.port != 0 && (
            nr.global_v4 matches Some(g) && d.addr == (SocketAddr::V4 { ip: g.0, port: src.port })))
            ||| d.typ == DirectAddrType::Stun && (src.report matches Some(nr)
                && nr.global_v6 matches Some(g) && d.addr == (SocketAddr::V6 {
                ip: g.0,
                port: g.1,
                flowinfo: g.2,
                scope_id: g.3,
            }))
        },
{
    let mapped = match src.port_mapped {
        Some((ip, port)) => Some(SocketAddr::V4 { ip, port }),
        None => None,
    };
    let first = candidate(mapped, DirectAddrType::Portmapped);
    lemma_candidate(mapped, DirectAddrType::Portmapped, d);
    match src.report {
        Some(nr) => {
            let v4 = match nr.global_v4 {
                Some((ip, p)) => Some(SocketAddr::V4 { ip, port: p }),
                None => None,
            };
            let v4_local_port = match nr.global_v4 {
                Some((ip, _)) if nr.mapping_varies_by_dest_ip == Some(true) && src.port
                    != 0 => Some(SocketAddr::V4 { ip, port: src.port }),
                _ => None,
            };
            let v6 = match nr.global_v6 {
                Some((ip, port, flowinfo, scope_id)) => Some(
                    SocketAddr::V6 { ip, port, flowinfo, scope_id },
                ),
                None => None,
            };
            let a = candidate(v4, DirectAddrType::Stun);
            let b = candidate(v4_local_port, DirectAddrType::Stun4LocalPort);
            let c = candidate(v6, DirectAddrType::Stun);
            lemma_candidate(v4, DirectAddrType::Stun, d);
            lemma_candidate(v4_local_port, DirectAddrType::Stun4LocalPort, d);
            lemma_candidate(v6, DirectAddrType::Stun, d);
            lemma_contains_concat(a, b, d);
            lemma_contains_concat(a + b, c, d);
            lemma_contains_concat(first, a + b + c, d);
        },
        None => {
            assert(first + Seq::<DirectAddr>::empty() =~= first);
        },
    }
}

/// What all sources together offer.
proof fn lemma_all_candidates(src: AddrSources, d: DirectAddr)
    ensures
        all_candidates(src).contains(d) <==> {
            ||| public_candidates(src).contains(d)
            ||| interface_candidates(
                offered_ips(src),
                wildcard_port(src.local_addr_v4),
                wildcard_port(src.local_addr_v6),
            ).contains(d)
            ||| d.typ == DirectAddrType::Local && bound_addr(src.local_addr_v4) == Some(d.addr)
            ||| d.typ == DirectAddrType::Local && bound_addr(src.local_addr_v6) == Some(d.addr)
        },
{
    let a = public_candidates(src);
    let b = interface_candidates(
        offered_ips(src),
        wildcard_port(src.local_addr_v4),
        wildcard_port(src.local_addr_v6),
    );
    let c = candidate(bound_addr(src.local_addr_v4), DirectAddrType::Local);
    let e = candidate(bound_addr(src.local_addr_v6), DirectAddrType::Local);
    lemma_candidate(bound_addr(src.local_addr_v4), DirectAddrType::Local, d);
    lemma_candidate(bound_addr(src.local_addr_v6), DirectAddrType::Local, d);
    lemma_contains_concat(a, b, d);
    lemma_contains_concat(a + b, c, d);
    lemma_contains_concat(a + b + c, e, d);
}

/// A candidate of any type has its address among those that are gathered.
proof fn lemma_offered(src: AddrSources, d: DirectAddr)
    requires
        all_candidates(src).contains(d),
    ensures
        exists|i: int|
            0 <= i < keep_first(all_candidates(src)).len() && (#[trigger] keep_first(
                all_candidates(src),
            )[i]).addr == d.addr,
{
    let all = all_candidates(src);
    gathered_addresses_are_distinct(all);
    let i = choose|i: int| 0 <= i < all.len() && all[i] == d;
    assert(all[i].addr == d.addr);
    assert(has_addr(all, d.addr));
    assert(has_addr(keep_first(all), d.addr));
}

/// Every public address that is known is offered to other nodes: the one that the
/// router maps, those that a report found, and behind a hard NAT the public IPv4
/// address with the fixed local port.
pub proof fn public_addresses_are_offered(src: AddrSources, addr: SocketAddr)
    requires
        ({
            ||| src.port_mapped matches Some(m) && addr == (SocketAddr::V4 { ip: m.0, port: m.1 })
            ||| src.report matches Some(nr) && nr.global_v4 matches Some(g) && addr == (
            SocketAddr::V4 { ip: g.0, port: g.1 })
            ||| src.report matches Some(nr) && nr.mapping_varies_by_dest_ip == Some(true)
                && src.port != 0 && (nr.global_v4 matches Some(g) && addr == (SocketAddr::V4 {
                ip: g.0,
                port: src.port,
            }))
            ||| src.report matches Some(nr) && nr.global_v6 matches Some(g) && addr == (
            SocketAddr::V6 { ip: g.0, port: g.1, flowinfo: g.2, scope_id: g.3 })
        }),
    ensures
        exists|i: int|
            0 <= i < keep_first(all_candidates(src)).len() && (#[trigger] keep_first(
                all_candidates(src),
            )[i]).addr == addr,
{
    let mapped = DirectAddr { addr, typ: DirectAddrType::Portmapped };
    let stun = DirectAddr { addr, typ: DirectAddrType::Stun };
    let local_port = DirectAddr { addr, typ: DirectAddrType::Stun4LocalPort };
    lemma_public_candidates(src, mapped);
    lemma_public_candidates(src, stun);
    lemma_public_candidates(src, local_port);
    lemma_all_candidates(src, mapped);
    lemma_all_candidates(src, stun);
    lemma_all_candidates(src, local_port);
    if all_candidates(src).contains(mapped) {
        lemma_offered(src, mapped);
    } else if all_candidates(src).contains(stun) {
        lemma_offered(src, stun);
    } else {
        lemma_offered(src, local_port);
    }
}

/// Every local address is offered: that of a socket that is bound to one
/// interface, and for a socket that is bound to all of them each regular interface
/// address of its version with its port.
pub proof fn local_addresses_are_offered(src: AddrSources, addr: SocketAddr)
    requires
        ({
            ||| src.local_addr_v4 == Some(addr) && addr.spec_ip() != IpAddr::V4(0)
                && addr.spec_ip() != IpAddr::V6(0)
            ||| src.local_addr_v6 == Some(addr) && addr.spec_ip() != IpAddr::V4(0)
                && addr.spec_ip() != IpAddr::V6(0)
            ||| addr matches SocketAddr::V4 { ip, port } && src.regular@.contains(IpAddr::V4(ip))
                && src.local_addr_v4 == Some(SocketAddr::V4 { ip: 0, port })
            ||| addr matches SocketAddr::V6 { ip, port, flowinfo, scope_id } && flowinfo == 0
                && scope_id == 0 && src.regular@.contains(IpAddr::V6(ip))
                && src.local_addr_v6 == Some(
                SocketAddr::V6 { ip: 0, port, flowinfo: 0, scope_id: 0 },
            )
        }),
    ensures
        exists|i: int|
            0 <= i < keep_first(all_candidates(src)).len() && (#[trigger] keep_first(
                all_candidates(src),
            )[i]).addr == addr,
{
    let d = DirectAddr { addr, typ: DirectAddrType::Local };
    lemma_all_candidates(src, d);
    lemma_interface_candidates(
        offered_ips(src),
        wildcard_port(src.local_addr_v4),
        wildcard_port(src.local_addr_v6),
    );
    if src.regular@.contains(addr.spec_ip()) {
        assert(offered_ips(src) == src.regular@);
    }
    assert(all_candidates(src).contains(d));
    lemma_offered(src, d);
}

/// Loopback addresses are offered only where there is nothing else to offer, and
/// there they are.
pub proof fn loopback_is_the_last_resort(src: AddrSources, ip: u32, port: u16)
    requires
        src.local_addr_v4 == Some(SocketAddr::V4 { ip: 0, port }),
        src.loopback@.contains(IpAddr::V4(ip)),
        src.regular@.len() == 0,
        src.port_mapped is None,
        src.report is None || (src.report->0.global_v4 is None && src.report->0.global_v6 is None),
    ensures
        exists|i: int|
            0 <= i < keep_first(all_candidates(src)).len() && (#[trigger] keep_first(
                all_candidates(src),
            )[i]).addr == (SocketAddr::V4 { ip, port }),
{
    let d = DirectAddr { addr: SocketAddr::V4 { ip, port }, typ: DirectAddrType::Local };
    lemma_all_candidates(src, d);
    lemma_interface_candidates(
        offered_ips(src),
        wildcard_port(src.local_addr_v4),
        wildcard_port(src.local_addr_v6),
    );
    assert(public_candidates(src).len() == 0);
    assert(all_candidates(src).contains(d));
    lemma_offered(src, d);
}

/// Without public candidates no public source gave anything.
proof fn lemma_nothing_public(src: AddrSources)
    requires
        public_candidates(src).len() == 0,
    ensures
        src.port_mapped is None,
        src.report matches Some(nr) ==> nr.global_v4 is None && nr.global_v6 is None,
{
    if let Some((ip, port)) = src.port_mapped {
        let d = DirectAddr { addr: SocketAddr::V4 { ip, port }, typ: DirectAddrType::Portmapped };
        lemma_public_candidates(src, d);
    }
    if let Some(nr) = src.report {
        if let Some((ip, port)) = nr.global_v4 {
            let d = DirectAddr { addr: SocketAddr::V4 { ip, port }, typ: DirectAddrType::Stun };
            lemma_public_candidates(src, d);
        }
        if let Some((ip, port, flowinfo, scope_id)) = nr.global_v6 {
            let addr = SocketAddr::V6 { ip, port, flowinfo, scope_id };
            lemma_public_candidates(src, DirectAddr { addr, typ: DirectAddrType::Stun });
        }
    }
}

/// Nothing is offered that no source gave: the type of an address says which
/// source that is, and the address is what that source gave. A loopback address is
/// among them only if no other interface and no public address is known.
pub proof fn only_known_addresses_are_offered(src: AddrSources, i: int)
    requires
        0 <= i < keep_first(all_candidates(src)).len(),
    ensures
        ({
            let d = keep_first(all_candidates(src))[i];
            match d.typ {
                DirectAddrType::Unknown => false,
                DirectAddrType::Portmapped => src.port_mapped matches Some(m) && d.addr == (
                SocketAddr::V4 { ip: m.0, port: m.1 }),
                DirectAddrType::Stun => src.report matches Some(nr) && {
                    ||| nr.global_v4 matches Some(g) && d.addr == (SocketAddr::V4 {
                        ip: g.0,
                        port: g.1,
                    })
                    ||| nr.global_v6 matches Some(g) && d.addr == (SocketAddr::V6 {
                        ip: g.0,
                        port: g.1,
                        flowinfo: g.2,
                        scope_id: g.3,
                    })
                },
                DirectAddrType::Stun4LocalPort => src.report matches Some(nr)
                    && nr.mapping_varies_by_dest_ip == Some(true) && src.port != 0 && (
                nr.global_v4 matches Some(g) && d.addr == (SocketAddr::V4 {
                    ip: g.0,
                    port: src.port,
                })),
                DirectAddrType::Local => {
                    ||| src.local_addr_v4 == Some(d.addr)
                    ||| src.local_addr_v6 == Some(d.addr)
                    ||| {
                        &&& src.regular@.contains(d.addr.spec_ip()) || (src.loopback@.contains(
                            d.addr.spec_ip(),
                        ) && src.regular@.len() == 0 && src.port_mapped is None && (
                        src.report matches Some(nr) ==> nr.global_v4 is None && nr.global_v6
                            is None))
                        &&& d.addr is V4 ==> (src.local_addr_v4 matches Some(bound)
                            && bound.spec_ip().spec_is_unspecified() && bound.spec_port()
                            == d.addr.spec_port())
                        &&& d.addr is V6 ==> (src.local_addr_v6 matches Some(bound)
                            && bound.spec_ip().spec_is_unspecified() && bound.spec_port()
                            == d.addr.spec_port())
                    }
                },
            }
        }),
{
    let all = all_candidates(src);
    gathered_addresses_are_distinct(all);
    let d = keep_first(all)[i];
    assert(first_with_addr(all, d));
    assert(all.contains(d));
    lemma_all_candidates(src, d);
    lemma_public_candidates(src, d);
    if public_candidates(src).len() == 0 {
        lemma_nothing_public(src);
    }
    lemma_interface_candidates(
        offered_ips(src),
        wildcard_port(src.local_addr_v4),
        wildcard_port(src.local_addr_v6),
    );
}

/// A list in which no address occurs twice is kept as it is.
pub proof fn distinct_candidates_are_all_kept(s: Seq<DirectAddr>)
    requires
        forall|i: int, j: int| 0 <= i < j < s.len() ==> (#[trigger] s[i]).addr != (#[trigger] s[j]).addr,
    ensures
        keep_first(s) == s,
    decreases s.len(),
{
    if s.len() > 0 {
        let front = s.drop_last();
        assert forall|i: int, j: int| 0 <= i < j < front.len() implies (#[trigger] front[i]).addr != (
        #[trigger] front[j]).addr by {
            assert(s[i].addr != s[j].addr);
        }
        distinct_candidates_are_all_kept(front);
        if has_addr(front, s.last().addr) {
            let i = choose|i: int| 0 <= i < front.len() && (#[trigger] front[i]).addr == s.last().addr;
            assert(s[i].addr != s[s.len() - 1].addr);
        }
        assert(front.push(s.last()) =~= s);
    }
}

/// A stream of direct addresses yields every discovery that found something, whole
/// and in order, and no empty one.
pub proof fn streams_yield_what_was_found(endpoints: Seq<DirectAddr>, r: StreamStep)
    requires
        stream_step(endpoints, r),
    ensures
        endpoints.len() > 0 ==> (r matches StreamStep::Yield(eps) && eps@ == endpoints),
        endpoints.len() == 0 ==> r == StreamStep::Skip,
{
}

/// Each type of address is shown under a name of its own.
pub proof fn address_types_have_their_names(a: DirectAddrType, b: DirectAddrType)
    ensures
        a != b ==> a.spec_name() != b.spec_name(),
        DirectAddrType::Unknown.spec_name() == "?"@,
        DirectAddrType::Local.spec_name() == "local"@,
        DirectAddrType::Stun.spec_name() == "stun"@,
        DirectAddrType::Portmapped.spec_name() == "portmap"@,
        DirectAddrType::Stun4LocalPort.spec_name() == "stun4localport"@,
{
    reveal_strlit("?");
    reveal_strlit("local");
    reveal_strlit("stun");
    reveal_strlit("portmap");
    reveal_strlit("stun4localport");
    assert("?"@.len() == 1);
    assert("local"@.len() == 5);
    assert("stun"@.len() == 4);
    assert("portmap"@.len() == 7);
    assert("stun4localport"@.len() == 14);
}

} // verus!
