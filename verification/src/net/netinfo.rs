//! What is known about the network of this host.

use crate::net::addr::{clone_url, same_url, url_text, RelayUrl};
use crate::net::endpoints::PublicAddrs;
use vstd::prelude::*;

verus! {

/// Which port mapping protocols answer on the local network.
#[derive(Debug, Clone, Copy, PartialEq, Eq, Structural)]
pub struct ProbeOutput {
    pub upnp: bool,
    pub pcp: bool,
    pub nat_pmp: bool,
}

/// What a check of the network found.
#[derive(Debug)]
pub struct Report {
    /// A UDP STUN round trip completed.
    pub udp: bool,
    /// An IPv6 STUN round trip completed.
    pub ipv6: bool,
    /// An IPv4 packet was able to be sent.
    pub ipv4_can_send: bool,
    /// Could bind a socket to ::1.
    pub os_has_ipv6: bool,
    /// An ICMPv4 round trip completed, `None` if not checked.
    pub icmpv4: Option<bool>,
    /// An ICMPv6 round trip completed, `None` if not checked.
    pub icmpv6: Option<bool>,
    /// Whether STUN results depend on which STUN server you're talking to (on IPv4).
    pub mapping_varies_by_dest_ip: Option<bool>,
    /// Whether the router supports communicating between two local devices through the NATted
    /// public IP address (on IPv4).
    pub hair_pinning: Option<bool>,
    /// Probe indicating the presence of port mapping protocols on the LAN.
    pub portmap_probe: Option<ProbeOutput>,
    /// The nearest relay, `None` for unknown.
    pub preferred_relay: Option<RelayUrl>,
    /// The public IPv4 address and port.
    pub global_v4: Option<(u32, u16)>,
    /// The public IPv6 socket address: address, port, flow label, scope.
    pub global_v6: Option<(u128, u16, u32, u32)>,
    /// The time to reach each relay over IPv4, in nanoseconds.
    pub relay_v4_latency: Vec<(RelayUrl, u64)>,
    /// The time to reach each relay over IPv6, in nanoseconds.
    pub relay_v6_latency: Vec<(RelayUrl, u64)>,
}

impl Report {
    /// What the report says of our public addresses.
    pub open spec fn spec_public_addrs(self) -> PublicAddrs {
        PublicAddrs {
            global_v4: self.global_v4,
            global_v6: self.global_v6,
            mapping_varies_by_dest_ip: self.mapping_varies_by_dest_ip,
        }
    }

    /// What the report says of our public addresses.
    pub fn public_addrs(&self) -> (r: PublicAddrs)
        ensures
            r == self.spec_public_addrs(),
    {
        PublicAddrs {
            global_v4: self.global_v4,
            global_v6: self.global_v6,
            mapping_varies_by_dest_ip: self.mapping_varies_by_dest_ip,
        }
    }
}

/// Contains information about the host's network state.
#[derive(Debug)]
pub struct NetInfo {
    /// Says whether the host's NAT mappings vary based on the destination IP.
    pub mapping_varies_by_dest_ip: Option<bool>,
    /// If their router does hairpinning. It reports true even if there's no NAT involved.
    pub hair_pinning: Option<bool>,
    /// Whether the host has IPv6 internet connectivity.
    pub working_ipv6: Option<bool>,
    /// Whether the OS supports IPv6 at all, regardless of whether IPv6 internet connectivity is available.
    pub os_has_ipv6: Option<bool>,
    /// Whether the host has UDP internet connectivity.
    pub working_udp: Option<bool>,
    /// Whether ICMPv4 works, `None` means not checked.
    pub working_icmp_v4: Option<bool>,
    /// Whether ICMPv6 works, `None` means not checked.
    pub working_icmp_v6: Option<bool>,
    /// Whether we have an existing portmap open (UPnP, PMP, or PCP).
    pub have_port_map: bool,
    /// Probe indicating the presence of port mapping protocols on the LAN.
    pub portmap_probe: Option<ProbeOutput>,
    /// This node's preferred relay server for incoming traffic.
    ///
    /// The node might be be temporarily connected to multiple relay servers (to send to
    /// other nodes) but this is the relay on which you can always contact this node.  Also
    /// known as home relay.
    pub preferred_relay: Option<RelayUrl>,
    /// The fastest recent time to reach various relay STUN servers, in nanoseconds, by the
    /// URL of the server and the IP version.
    ///
    /// This should only be updated rarely, or when there's a
    /// material change, as any change here also gets uploaded to the control plane.
    pub relay_latency: Vec<(String, u64)>,
}

/// The latencies of relays over one IP version, each under the URL of the relay
/// with a suffix for the version.
pub open spec fn named_latencies(
    latencies: Seq<(RelayUrl, u64)>,
    suffix: Seq<char>,
) -> Seq<(Seq<char>, u64)> {
    latencies.map_values(|l: (RelayUrl, u64)| (l.0@ + suffix, l.1))
}

/// All latencies of a report, those over IPv4 first.
pub open spec fn report_latencies(r: Report) -> Seq<(Seq<char>, u64)> {
    named_latencies(r.relay_v4_latency@, "-v4"@) + named_latencies(r.relay_v6_latency@, "-v6"@)
}

/// Latencies with the text of their names.
pub open spec fn latency_views(latencies: Seq<(String, u64)>) -> Seq<(Seq<char>, u64)> {
    latencies.map_values(|l: (String, u64)| (l.0@, l.1))
}

/// Adds the latencies of relays over one IP version.
fn add_latencies(out: &mut Vec<(String, u64)>, latencies: &Vec<(RelayUrl, u64)>, suffix: &str)
    ensures
        latency_views(final(out)@) == latency_views(old(out)@) + named_latencies(
            latencies@,
            suffix@,
        ),
{
    let ghost before = out@;
    let mut i: usize = 0;
    assert(latency_views(out@) =~= latency_views(before) + named_latencies(
        latencies@.take(0),
        suffix@,
    ));
    while i < latencies.len()
        invariant
            i <= latencies@.len(),
            latency_views(out@) == latency_views(before) + named_latencies(
                latencies@.take(i as int),
                suffix@,
            ),
        decreases latencies@.len() - i,
    {
        let ghost done = out@;
        let mut name: String = String::new();
        name.append(latencies[i].0.0.as_str());
        name.append(suffix);
        assert(name@ =~= latencies@[i as int].0@ + suffix@);
        out.push((name, latencies[i].1));
        proof {
            assert(latency_views(out@) =~= latency_views(done).push((name@, latencies@[i as int].1)));
            assert(named_latencies(latencies@.take(i + 1), suffix@) =~= named_latencies(
                latencies@.take(i as int),
                suffix@,
            ).push((latencies@[i as int].0@ + suffix@, latencies@[i as int].1)));
            assert(latency_views(out@) =~= latency_views(before) + named_latencies(
                latencies@.take(i + 1),
                suffix@,
            ));
        }
        i += 1;
    }
    assert(latencies@.take(i as int) =~= latencies@);
}

/// Two findings agree, where both were made.
pub open spec fn agree(a: Option<bool>, b: Option<bool>) -> bool {
    a is None || b is None || a == b
}

/// Whether two findings agree, where both were made.
fn findings_agree(a: Option<bool>, b: Option<bool>) -> (r: bool)
    ensures
        r == agree(a, b),
{
    match (a, b) {
        (Some(a), Some(b)) => a == b,
        // ignore for comparison if only one report had this info
        _ => true,
    }
}

impl NetInfo {
    /// Everything is the same, save that what was not checked on one side does
    /// not count.
    pub open spec fn spec_basically_equal(self, other: NetInfo) -> bool {
        &&& self.mapping_varies_by_dest_ip == other.mapping_varies_by_dest_ip
        &&& self.hair_pinning == other.hair_pinning
        &&& self.working_ipv6 == other.working_ipv6
        &&& self.os_has_ipv6 == other.os_has_ipv6
        &&& self.working_udp == other.working_udp
        &&& agree(self.working_icmp_v4, other.working_icmp_v4)
        &&& agree(self.working_icmp_v6, other.working_icmp_v6)
        &&& self.have_port_map == other.have_port_map
        &&& self.portmap_probe == other.portmap_probe
        &&& url_text(self.preferred_relay) == url_text(other.preferred_relay)
    }

    /// Checks if this is probably still the same network as *other*.
    ///
    /// This tries to compare the network situation, without taking into account things
    /// expected to change a little like e.g. latency to the relay server.
    pub fn basically_equal(&self, other: &Self) -> (r: bool)
        ensures
            r == self.spec_basically_equal(*other),
    {
        self.mapping_varies_by_dest_ip == other.mapping_varies_by_dest_ip && self.hair_pinning
            == other.hair_pinning && self.working_ipv6 == other.working_ipv6 && self.os_has_ipv6
            == other.os_has_ipv6 && self.working_udp == other.working_udp && findings_agree(
            self.working_icmp_v4,
            other.working_icmp_v4,
        ) && findings_agree(self.working_icmp_v6, other.working_icmp_v6) && self.have_port_map
            == other.have_port_map && self.portmap_probe == other.portmap_probe && same_url(
            &self.preferred_relay,
            &other.preferred_relay,
        )
    }

    /// This is what a report says of the network, with the relay that is
    /// preferred.
    pub open spec fn is_of_report(
        self,
        r: Report,
        have_port_map: bool,
        preferred_relay: Option<RelayUrl>,
    ) -> bool {
        &&& self.mapping_varies_by_dest_ip == r.mapping_varies_by_dest_ip
        &&& self.hair_pinning == r.hair_pinning
        &&& self.portmap_probe == r.portmap_probe
        &&& self.have_port_map == have_port_map
        &&& self.working_ipv6 == Some(r.ipv6)
        &&& self.os_has_ipv6 == Some(r.os_has_ipv6)
        &&& self.working_udp == Some(r.udp)
        &&& self.working_icmp_v4 == r.icmpv4
        &&& self.working_icmp_v6 == r.icmpv6
        &&& self.preferred_relay == preferred_relay
        &&& latency_views(self.relay_latency@) == report_latencies(r)
    }

    /// What a report says of the network, with the relay that is preferred.
    pub fn from_report(r: &Report, have_port_map: bool, preferred_relay: Option<RelayUrl>) -> (ni:
        NetInfo)
        ensures
            ni.is_of_report(*r, have_port_map, preferred_relay),
    {
        let mut relay_latency: Vec<(String, u64)> = Vec::new();
        assert(latency_views(relay_latency@) =~= Seq::empty());
        add_latencies(&mut relay_latency, &r.relay_v4_latency, "-v4");
        add_latencies(&mut relay_latency, &r.relay_v6_latency, "-v6");
        assert(latency_views(relay_latency@) =~= report_latencies(*r));
        NetInfo {
            mapping_varies_by_dest_ip: r.mapping_varies_by_dest_ip,
            hair_pinning: r.hair_pinning,
            portmap_probe: r.portmap_probe,
            have_port_map,
            working_ipv6: Some(r.ipv6),
            os_has_ipv6: Some(r.os_has_ipv6),
            working_udp: Some(r.udp),
            working_icmp_v4: r.icmpv4,
            working_icmp_v6: r.icmpv6,
            preferred_relay,
            relay_latency,
        }
    }

    /// A copy of the relay that is preferred.
    pub fn preferred(&self) -> (r: Option<RelayUrl>)
        ensures
            r == self.preferred_relay,
    {
        clone_url(&self.preferred_relay)
    }
}

/// No two latencies of a report have the same name, if no relay occurs twice in
/// either list: neither two relays share one, nor one relay over two versions.
pub proof fn latency_names_are_distinct(r: Report, i: int, j: int)
    requires
        forall|a: int, b: int|
            0 <= a < b < r.relay_v4_latency@.len() ==> (#[trigger] r.relay_v4_latency@[a]).0@ != (
            #[trigger] r.relay_v4_latency@[b]).0@,
        forall|a: int, b: int|
            0 <= a < b < r.relay_v6_latency@.len() ==> (#[trigger] r.relay_v6_latency@[a]).0@ != (
            #[trigger] r.relay_v6_latency@[b]).0@,
        0 <= i < j < report_latencies(r).len(),
    ensures
        report_latencies(r)[i].0 != report_latencies(r)[j].0,
{
    reveal_strlit("-v4");
    reveal_strlit("-v6");
    let v4 = r.relay_v4_latency@;
    let v6 = r.relay_v6_latency@;
    let n = v4.len() as int;
    if j < n {
        lemma_same_suffix(v4[i].0@, v4[j].0@, "-v4"@);
    } else if i >= n {
        lemma_same_suffix(v6[i - n].0@, v6[j - n].0@, "-v6"@);
    } else {
        assert((v4[i].0@ + "-v4"@).last() == '4');
        assert((v6[j - n].0@ + "-v6"@).last() == '6');
    }
}

/// Texts are told apart by what stands before a common suffix.
proof fn lemma_same_suffix(a: Seq<char>, b: Seq<char>, suffix: Seq<char>)
    ensures
        a + suffix == b + suffix ==> a == b,
{
    if a + suffix == b + suffix {
        assert((a + suffix).len() == a.len() + suffix.len());
        assert((b + suffix).len() == b.len() + suffix.len());
        assert(a =~= (a + suffix).take(a.len() as int));
        assert(b =~= (b + suffix).take(b.len() as int));
    }
}

/// A network is basically equal to itself, and which of two networks is held
/// against the other does not matter.
pub proof fn basically_equal_is_symmetric(a: NetInfo, b: NetInfo)
    ensures
        a.spec_basically_equal(a),
        a.spec_basically_equal(b) == b.spec_basically_equal(a),
{
}

/// A network with another value for anything but the latencies is not basically
/// equal to what it was, save for a check that was not made on one side.
pub proof fn changes_of_the_network_are_noticed(
    a: NetInfo,
    finding: Option<bool>,
    flag: bool,
    probe: Option<ProbeOutput>,
    url: Option<RelayUrl>,
    latencies: Vec<(String, u64)>,
)
    ensures
        a.spec_basically_equal(NetInfo { mapping_varies_by_dest_ip: finding, ..a }) <==> finding
            == a.mapping_varies_by_dest_ip,
        a.spec_basically_equal(NetInfo { hair_pinning: finding, ..a }) <==> finding
            == a.hair_pinning,
        a.spec_basically_equal(NetInfo { working_ipv6: finding, ..a }) <==> finding
            == a.working_ipv6,
        a.spec_basically_equal(NetInfo { os_has_ipv6: finding, ..a }) <==> finding == a.os_has_ipv6,
        a.spec_basically_equal(NetInfo { working_udp: finding, ..a }) <==> finding == a.working_udp,
        a.spec_basically_equal(NetInfo { working_icmp_v4: finding, ..a }) <==> finding is None
            || a.working_icmp_v4 is None || finding == a.working_icmp_v4,
        a.spec_basically_equal(NetInfo { working_icmp_v6: finding, ..a }) <==> finding is None
            || a.working_icmp_v6 is None || finding == a.working_icmp_v6,
        a.spec_basically_equal(NetInfo { have_port_map: flag, ..a }) <==> flag == a.have_port_map,
        a.spec_basically_equal(NetInfo { portmap_probe: probe, ..a }) <==> probe == a.portmap_probe,
        url is Some && a.preferred_relay is Some ==> (a.spec_basically_equal(
            NetInfo { preferred_relay: url, ..a },
        ) <==> url->0@ == a.preferred_relay->0@),
        url is Some != a.preferred_relay is Some ==> !a.spec_basically_equal(
            NetInfo { preferred_relay: url, ..a },
        ),
        a.spec_basically_equal(NetInfo { relay_latency: latencies, ..a }),
{
}

/// Everything that a report found is in what it says of the network: two reports
/// that differ in a finding differ there too, each latency is there under the URL
/// of its relay and its IP version, and the public addresses are those of the
/// report.
pub proof fn findings_are_kept(
    r: Report,
    ni: NetInfo,
    have_port_map: bool,
    preferred_relay: Option<RelayUrl>,
)
    requires
        ni.is_of_report(r, have_port_map, preferred_relay),
    ensures
        ni.working_udp == Some(r.udp) && ni.working_ipv6 == Some(r.ipv6) && ni.os_has_ipv6 == Some(
            r.os_has_ipv6,
        ),
        ni.working_icmp_v4 == r.icmpv4 && ni.working_icmp_v6 == r.icmpv6,
        ni.mapping_varies_by_dest_ip == r.mapping_varies_by_dest_ip && ni.hair_pinning
            == r.hair_pinning,
        ni.portmap_probe == r.portmap_probe && ni.have_port_map == have_port_map,
        ni.preferred_relay == preferred_relay,
        ni.relay_latency@.len() == r.relay_v4_latency@.len() + r.relay_v6_latency@.len(),
        forall|i: int|
            0 <= i < r.relay_v4_latency@.len() ==> (#[trigger] ni.relay_latency@[i]).0@
                == r.relay_v4_latency@[i].0@ + "-v4"@ && ni.relay_latency@[i].1
                == r.relay_v4_latency@[i].1,
        forall|i: int|
            r.relay_v4_latency@.len() <= i < ni.relay_latency@.len() ==> (
            #[trigger] ni.relay_latency@[i]).0@ == r.relay_v6_latency@[i
                - r.relay_v4_latency@.len()].0@ + "-v6"@ && ni.relay_latency@[i].1
                == r.relay_v6_latency@[i - r.relay_v4_latency@.len()].1,
        r.spec_public_addrs().global_v4 == r.global_v4,
        r.spec_public_addrs().global_v6 == r.global_v6,
        r.spec_public_addrs().mapping_varies_by_dest_ip == r.mapping_varies_by_dest_ip,
{
    let views = latency_views(ni.relay_latency@);
    let all = report_latencies(r);
    assert(views.len() == ni.relay_latency@.len());
    assert(all.len() == r.relay_v4_latency@.len() + r.relay_v6_latency@.len());
    assert forall|i: int| 0 <= i < ni.relay_latency@.len() implies (
    #[trigger] ni.relay_latency@[i]).0@ == all[i].0 && ni.relay_latency@[i].1 == all[i].1 by {
        assert(views[i] == (ni.relay_latency@[i].0@, ni.relay_latency@[i].1));
    }
}

} // verus!
