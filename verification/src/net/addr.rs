//! Addresses: IP and socket addresses as plain numbers, relay URLs, the
//! addresses under which the QUIC layer knows nodes, and where a message goes.

use crate::key::PublicKey;
use vstd::prelude::*;

verus! {

/// An IP address, as the number that its bytes spell in network order.
#[derive(Clone, Copy, Debug, PartialEq, Eq, PartialOrd, Ord, Hash, Structural)]
pub enum IpAddr {
    V4(u32),
    V6(u128),
}

impl IpAddr {
    /// Whether this is the all-zero address, which stands for "any interface".
    pub fn is_unspecified(&self) -> (r: bool)
        ensures
            r == self.spec_is_unspecified(),
    {
        match *self {
            IpAddr::V4(ip) => ip == 0,
            IpAddr::V6(ip) => ip == 0,
        }
    }

    /// The address is all zero.
    pub open spec fn spec_is_unspecified(self) -> bool {
        self == IpAddr::V4(0) || self == IpAddr::V6(0)
    }
}

/// A socket address. An IPv6 one also has a flow label and a scope.
#[allow(inconsistent_fields)]
#[derive(Clone, Copy, Debug, PartialEq, Eq, PartialOrd, Ord, Hash, Structural)]
pub enum SocketAddr {
    V4 { ip: u32, port: u16 },
    V6 { ip: u128, port: u16, flowinfo: u32, scope_id: u32 },
}

impl SocketAddr {
    /// The socket address of a port of `ip`.
    pub open spec fn spec_new(ip: IpAddr, port: u16) -> SocketAddr {
        match ip {
            IpAddr::V4(ip) => SocketAddr::V4 { ip, port },
            IpAddr::V6(ip) => SocketAddr::V6 { ip, port, flowinfo: 0, scope_id: 0 },
        }
    }

    /// The socket address of a port of `ip`.
    pub fn new(ip: IpAddr, port: u16) -> (r: SocketAddr)
        ensures
            r == Self::spec_new(ip, port),
    {
        match ip {
            IpAddr::V4(ip) => SocketAddr::V4 { ip, port },
            IpAddr::V6(ip) => SocketAddr::V6 { ip, port, flowinfo: 0, scope_id: 0 },
        }
    }

    /// The IP address.
    pub open spec fn spec_ip(self) -> IpAddr {
        match self {
            SocketAddr::V4 { ip, .. } => IpAddr::V4(ip),
            SocketAddr::V6 { ip, .. } => IpAddr::V6(ip),
        }
    }

    /// The IP address.
    pub fn ip(&self) -> (r: IpAddr)
        ensures
            r == self.spec_ip(),
    {
        match *self {
            SocketAddr::V4 { ip, .. } => IpAddr::V4(ip),
            SocketAddr::V6 { ip, .. } => IpAddr::V6(ip),
        }
    }

    /// The port.
    pub open spec fn spec_port(self) -> u16 {
        match self {
            SocketAddr::V4 { port, .. } => port,
            SocketAddr::V6 { port, .. } => port,
        }
    }

    /// The port.
    pub fn port(&self) -> (r: u16)
        ensures
            r == self.spec_port(),
    {
        match *self {
            SocketAddr::V4 { port, .. } => port,
            SocketAddr::V6 { port, .. } => port,
        }
    }

    /// The same address with another port.
    pub open spec fn spec_with_port(self, port: u16) -> SocketAddr {
        match self {
            SocketAddr::V4 { ip, .. } => SocketAddr::V4 { ip, port },
            SocketAddr::V6 { ip, flowinfo, scope_id, .. } => SocketAddr::V6 {
                ip,
                port,
                flowinfo,
                scope_id,
            },
        }
    }

    /// The same address with another port.
    pub fn with_port(self, port: u16) -> (r: SocketAddr)
        ensures
            r == self.spec_with_port(port),
    {
        match self {
            SocketAddr::V4 { ip, .. } => SocketAddr::V4 { ip, port },
            SocketAddr::V6 { ip, flowinfo, scope_id, .. } => SocketAddr::V6 {
                ip,
                port,
                flowinfo,
                scope_id,
            },
        }
    }

    /// Whether the address is an IPv6 one.
    pub fn is_ipv6(&self) -> (r: bool)
        ensures
            r == (self is V6),
    {
        matches!(self, SocketAddr::V6 { .. })
    }
}

/// The URL of a relay server, which is how the server is told from others.
#[derive(Debug, PartialEq, Eq, PartialOrd, Ord, Hash)]
pub struct RelayUrl(pub String);

impl View for RelayUrl {
    type V = Seq<char>;

    open spec fn view(&self) -> Seq<char> {
        self.0@
    }
}

impl Clone for RelayUrl {
    fn clone(&self) -> (r: Self)
        ensures
            r == *self,
    {
        RelayUrl(self.0.clone())
    }
}

impl RelayUrl {
    /// Whether two URLs are the same text.
    pub fn same(&self, other: &RelayUrl) -> (r: bool)
        ensures
            r == (self@ == other@),
    {
        self.0 == other.0
    }
}

/// The text of an optional relay URL.
pub open spec fn url_text(url: Option<RelayUrl>) -> Option<Seq<char>> {
    match url {
        Some(u) => Some(u@),
        None => None,
    }
}

/// A copy of an optional relay URL.
pub fn clone_url(url: &Option<RelayUrl>) -> (r: Option<RelayUrl>)
    ensures
        r == *url,
{
    match url {
        Some(u) => Some(u.clone()),
        None => None,
    }
}

/// Whether two optional relay URLs are the same.
pub fn same_url(a: &Option<RelayUrl>, b: &Option<RelayUrl>) -> (r: bool)
    ensures
        r == (url_text(*a) == url_text(*b)),
{
    match (a, b) {
        (Some(a), Some(b)) => a.same(b),
        (None, None) => true,
        _ => false,
    }
}

/// Where a message can be sent: straight to a socket, or through a relay.
#[derive(Debug, PartialEq, Eq, Hash)]
pub enum SendAddr {
    Udp(SocketAddr),
    Relay(RelayUrl),
}

impl Clone for SendAddr {
    fn clone(&self) -> (r: Self)
        ensures
            r == *self,
    {
        match self {
            SendAddr::Udp(addr) => SendAddr::Udp(*addr),
            SendAddr::Relay(url) => SendAddr::Relay(url.clone()),
        }
    }
}

/// The way by which a discovery message came in.
#[derive(Debug, PartialEq, Eq, Hash)]
pub enum DiscoMessageSource {
    Udp(SocketAddr),
    Relay { url: RelayUrl, key: PublicKey },
}

impl Clone for DiscoMessageSource {
    fn clone(&self) -> (r: Self)
        ensures
            r == *self,
    {
        match self {
            DiscoMessageSource::Udp(addr) => DiscoMessageSource::Udp(*addr),
            DiscoMessageSource::Relay { url, key } => DiscoMessageSource::Relay {
                url: url.clone(),
                key: *key,
            },
        }
    }
}

impl DiscoMessageSource {
    /// The way back to the sender.
    pub open spec fn spec_send_addr(self) -> SendAddr {
        match self {
            DiscoMessageSource::Udp(addr) => SendAddr::Udp(addr),
            DiscoMessageSource::Relay { url, .. } => SendAddr::Relay(url),
        }
    }

    /// The way back to the sender.
    pub fn send_addr(&self) -> (r: SendAddr)
        ensures
            r == self.spec_send_addr(),
    {
        match self {
            DiscoMessageSource::Udp(addr) => SendAddr::Udp(*addr),
            DiscoMessageSource::Relay { url, .. } => SendAddr::Relay(url.clone()),
        }
    }

    /// Whether the message came through a relay.
    pub fn is_relay(&self) -> (r: bool)
        ensures
            r == (self is Relay),
    {
        matches!(self, DiscoMessageSource::Relay { .. })
    }
}

/// The upper half of every mapped address: the unique-local prefix, the global
/// id of this network and its subnet.
pub const ADDR_PREFIX: u64 = 0xfd15_070a_510b_0000;

/// The port of every mapped address.
pub const MAPPED_ADDR_PORT: u16 = 12345;

/// The address under which the QUIC layer knows a node.
///
/// It is an IPv6 unique local address that is never seen on the wire: packets
/// to it are sent to the addresses that the node has.
#[derive(Clone, Copy, Debug, PartialEq, Eq, PartialOrd, Ord, Hash, Structural)]
pub struct QuicMappedAddr(pub SocketAddr);

/// The mapped address with a given number.
pub open spec fn mapped_addr(n: u64) -> QuicMappedAddr {
    QuicMappedAddr(
        SocketAddr::V6 {
            ip: (ADDR_PREFIX * 0x1_0000_0000_0000_0000 + n) as u128,
            port: MAPPED_ADDR_PORT,
            flowinfo: 0,
            scope_id: 0,
        },
    )
}

/// The number of the mapped address that follows the one with a given number.
pub open spec fn next_number(n: u64) -> u64 {
    if n == u64::MAX {
        0
    } else {
        (n + 1) as u64
    }
}

/// Counts the mapped addresses that were handed out.
#[derive(Debug)]
pub struct AddrCounter {
    next: u64,
}

impl AddrCounter {
    /// The number of the next address.
    pub closed spec fn next(&self) -> u64 {
        self.next
    }

    /// Starts to count at 1.
    pub fn new() -> (r: Self)
        ensures
            r.next() == 1,
    {
        AddrCounter { next: 1 }
    }
}

impl QuicMappedAddr {
    /// Generates a globally unique fake UDP address.
    ///
    /// It is an IPv6 unique local address whose lower half is the next number of
    /// the count. The count wraps round after 2^64 calls.
    pub fn generate(counter: &mut AddrCounter) -> (r: QuicMappedAddr)
        ensures
            r == mapped_addr(old(counter).next()),
            final(counter).next() == next_number(old(counter).next()),
    {
        let n: u64 = counter.next;
        counter.next = n.wrapping_add(1);
        let ip: u128 = ADDR_PREFIX as u128 * 0x1_0000_0000_0000_0000 + n as u128;
        QuicMappedAddr(SocketAddr::V6 { ip, port: MAPPED_ADDR_PORT, flowinfo: 0, scope_id: 0 })
    }
}

/// No two numbers give the same mapped address, so the addresses of 2^64
/// consecutive calls are distinct.
pub proof fn mapped_addrs_are_distinct(a: u64, b: u64)
    requires
        a != b,
    ensures
        mapped_addr(a) != mapped_addr(b),
{
    assert(ADDR_PREFIX * 0x1_0000_0000_0000_0000 + a <= u128::MAX);
    assert(ADDR_PREFIX * 0x1_0000_0000_0000_0000 + b <= u128::MAX);
}

/// A socket address is made of its IP address and its port, and another port
/// changes nothing but the port. Only the all-zero addresses stand for any
/// interface.
pub proof fn socket_addresses_keep_their_parts(addr: SocketAddr, ip: IpAddr, port: u16)
    ensures
        SocketAddr::spec_new(ip, port).spec_ip() == ip,
        SocketAddr::spec_new(ip, port).spec_port() == port,
        addr.spec_with_port(port).spec_ip() == addr.spec_ip(),
        addr.spec_with_port(port).spec_port() == port,
        addr.spec_with_port(addr.spec_port()) == addr,
        addr.spec_with_port(port) is V4 <==> addr is V4,
        addr matches SocketAddr::V4 { ip: a, port: p } ==> addr.spec_ip() == IpAddr::V4(a)
            && addr.spec_port() == p,
        addr matches SocketAddr::V6 { ip: a, port: p, .. } ==> addr.spec_ip() == IpAddr::V6(a)
            && addr.spec_port() == p,
        ip.spec_is_unspecified() <==> match ip {
            IpAddr::V4(n) => n == 0,
            IpAddr::V6(n) => n == 0,
        },
{
}

/// A mapped address is an IPv6 address of the unique-local prefix whose lower half
/// is its number, on a port that is the same for all.
pub proof fn mapped_addrs_hold_their_number(n: u64)
    ensures
        mapped_addr(n).0 matches SocketAddr::V6 { ip, port, flowinfo, scope_id } && ip as int
            / 0x1_0000_0000_0000_0000 == 0xfd15_070a_510b_0000 && ip as int
            % 0x1_0000_0000_0000_0000 == n && port == 12345 && flowinfo == 0 && scope_id == 0,
{
    let v: int = ADDR_PREFIX * 0x1_0000_0000_0000_0000 + n;
    assert(0 <= v <= u128::MAX);
}

/// The way back to a sender is the way on which the message came.
pub proof fn the_way_back_is_the_way_it_came(addr: SocketAddr, url: RelayUrl, key: PublicKey)
    ensures
        DiscoMessageSource::Udp(addr).spec_send_addr() == SendAddr::Udp(addr),
        (DiscoMessageSource::Relay { url, key }).spec_send_addr() == SendAddr::Relay(url),
{
}

/// Each call hands out another address than the one before, and the count goes
/// through all numbers before one comes again.
pub proof fn each_call_gives_another_address(n: u64)
    ensures
        mapped_addr(next_number(n)) != mapped_addr(n),
        n < u64::MAX ==> next_number(n) == n + 1,
        next_number(u64::MAX) == 0,
{
    mapped_addrs_are_distinct(next_number(n), n);
}

} // verus!
