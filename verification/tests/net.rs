use bytes::Bytes;
use iroh_core::io_kind::ErrorKind;
use iroh_core::key::PublicKey;
use iroh_core::net::actor::{
    report_result, Action, Actor, ActorMessage, NetInfoStep, NetcheckError, RelayReadResult,
    ReportWait, Tick,
};
use iroh_core::net::addr::{
    AddrCounter, DiscoMessageSource, IpAddr, QuicMappedAddr, RelayUrl, SendAddr, SocketAddr,
};
use iroh_core::net::disco::{
    call_me_maybe_pings, disco_transmit, handle_disco_message, handle_ping, ping_message,
    ping_queued, poll_handle_ping_action, poll_handle_ping_actions, poll_send_disco_message,
    poll_send_disco_message_udp, poll_send_ping, poll_send_relay, send_disco_message_queued,
    send_disco_message_relay, send_ping_queued, CallMeMaybe, DiscoAction,
    DiscoBoxError, Message, Ping, PingAction, PingEvent, PingLoop, PingPurpose, PingRole, PingStep,
    Pong, Queued, SendPing, TransactionId, TrySend,
};
use iroh_core::net::endpoints::{
    direct_addrs_stream_step, endpoint_sets_equal, gather_direct_addrs, AddrSources, DirectAddr,
    DirectAddrType, DiscoveredEndpoints, PublicAddrs, StreamStep,
};
use iroh_core::net::netinfo::{NetInfo, ProbeOutput, Report};
use iroh_core::net::packets::{split_packets, PacketSplitIter, PacketTooBig, Transmit, UnexpectedEof};
use iroh_core::net::poll::{Poll, SockError};
use iroh_core::net::recv::{
    handle_relay_disco_message, mask_packets, packet_bounds, poll_recv, process_relay_read_result,
    relay_parts, remap_meta, RecvEvent, RecvMeta, RecvStep, RelayRecv, RelayRecvEvent,
    RelayRecvStep,
};
use iroh_core::net::secrets::DiscoSecrets;
use iroh_core::net::send::{poll_send, SendAddrs, SendBegin, SendRun, SendStart};
use iroh_core::net::sock::{
    bind_port_v6, new_re_stun_timer, re_stun_timer, AddNodeAddrError, AddrInfo, CallMeMaybeStep,
    CloseStep, MagicSock, NodeAddr, SockOptions, UdpSocket,
};
use iroh_core::net::update_state::{EndpointUpdateState, Finalize};

const SECOND: u64 = 1_000_000_000;

const MAX_PACKET: usize = 64 * 1024;

fn io_error(kind: ErrorKind) -> SockError {
    SockError::Io { kind, text: "no".to_string() }
}

fn key(n: u8) -> PublicKey {
    PublicKey([n; 32])
}

fn url(s: &str) -> RelayUrl {
    RelayUrl(s.to_string())
}

fn v4(n: u8, port: u16) -> SocketAddr {
    SocketAddr::V4 { ip: u32::from_be_bytes([192, 168, 0, n]), port }
}

fn v6(n: u128, port: u16) -> SocketAddr {
    SocketAddr::V6 { ip: n, port, flowinfo: 0, scope_id: 0 }
}

fn sock() -> MagicSock {
    MagicSock::new(SockOptions {
        public_key: key(1),
        local_addr_v4: SocketAddr::V4 { ip: 0, port: 4000 },
        local_addr_v6: Some(v6(0, 4001)),
        has_conn6: true,
        relay_urls: vec![url("https://a/"), url("https://b/"), url("https://c/")],
        has_discovery: true,
    })
}

fn direct(addr: SocketAddr, typ: DirectAddrType) -> DirectAddr {
    DirectAddr { addr, typ }
}

fn send_ping(id: usize, dst: SendAddr) -> SendPing {
    SendPing {
        id,
        dst,
        dst_node: key(9),
        tx_id: TransactionId([id as u8; 12]),
        purpose: PingPurpose(1),
    }
}

fn mk_transmit(contents: &[u8], segment_size: Option<usize>) -> Transmit {
    Transmit {
        destination: SocketAddr::V4 { ip: 0x7f00_0001, port: 0 },
        ecn: None,
        contents: contents.to_vec().into(),
        segment_size,
        src_ip: None,
    }
}

fn to(dst: SocketAddr, contents: &[u8]) -> Transmit {
    let mut t = mk_transmit(contents, None);
    t.destination = dst;
    t
}

#[test]
fn test_split_packets() {
    fn mk_expected(parts: &[&'static str]) -> Vec<Bytes> {
        parts.iter().map(|p| p.as_bytes().to_vec().into()).collect()
    }
    // no packets
    assert_eq!(split_packets(&[]).into_vec(), Vec::<Bytes>::new());
    // no split
    assert_eq!(
        split_packets(&vec![mk_transmit(b"hello", None), mk_transmit(b"world", None)]).into_vec(),
        mk_expected(&["hello", "world"])
    );
    // split without rest
    assert_eq!(
        split_packets(&[mk_transmit(b"helloworld", Some(5))]).into_vec(),
        mk_expected(&["hello", "world"])
    );
    // split with rest and second transmit
    assert_eq!(
        split_packets(&vec![mk_transmit(b"hello world", Some(5)), mk_transmit(b"!", None)])
            .into_vec(),
        mk_expected(&["hello", " worl", "d", "!"])
    );
    // split that results in 1 packet
    assert_eq!(
        split_packets(&vec![mk_transmit(b"hello world", Some(1000)), mk_transmit(b"!", None)])
            .into_vec(),
        mk_expected(&["hello world", "!"])
    );
}

#[test]
fn split_packets_keeps_empty_unsegmented_contents() {
    assert_eq!(split_packets(&[mk_transmit(b"", None)]).into_vec(), vec![Bytes::new()]);
    assert_eq!(split_packets(&[mk_transmit(b"", Some(3))]).into_vec(), Vec::<Bytes>::new());
}

#[test]
fn chunks_join_to_the_content() {
    let packets = split_packets(&[mk_transmit(b"abcdefgh", Some(3))]).into_vec();
    assert_eq!(packets.iter().map(|p| p.len()).collect::<Vec<_>>(), vec![3, 3, 2]);
    assert_eq!(packets.concat(), b"abcdefgh".to_vec());
}

fn frame(parts: &[&[u8]]) -> Bytes {
    let mut out = Vec::new();
    for p in parts {
        out.extend_from_slice(&(p.len() as u16).to_le_bytes());
        out.extend_from_slice(p);
    }
    out.into()
}

#[test]
fn framed_packets_come_back() {
    let long = vec![7u8; 300];
    let items = PacketSplitIter::new(MAX_PACKET, frame(&[b"one", b"", &long])).unwrap().collect();
    assert_eq!(
        items,
        vec![
            Ok(Bytes::from_static(b"one")),
            Ok(Bytes::new()),
            Ok(Bytes::from(long)),
        ]
    );
}

#[test]
fn broken_packets_fail_once() {
    // the length is cut off
    let mut iter = PacketSplitIter::new(MAX_PACKET, Bytes::from_static(&[5])).unwrap();
    assert_eq!(iter.next(), Some(Err(UnexpectedEof)));
    assert_eq!(iter.next(), None);
    // the packet is cut off
    let mut iter = PacketSplitIter::new(MAX_PACKET, Bytes::from_static(&[1, 0, 9, 3, 0, 1, 2])).unwrap();
    assert_eq!(iter.next(), Some(Ok(Bytes::from_static(&[9]))));
    assert_eq!(iter.next(), Some(Err(UnexpectedEof)));
    assert_eq!(iter.next(), None);
}

#[test]
fn mapped_addresses() {
    let mut counter = AddrCounter::new();
    let a = QuicMappedAddr::generate(&mut counter);
    let b = QuicMappedAddr::generate(&mut counter);
    assert_ne!(a, b);
    let bytes: [u8; 16] = [0xfd, 21, 7, 10, 81, 11, 0, 0, 0, 0, 0, 0, 0, 0, 0, 1];
    assert_eq!(a.0, v6(u128::from_be_bytes(bytes), 12345));
    assert_eq!(b.0.ip(), IpAddr::V6(u128::from_be_bytes(bytes) + 1));
}

#[test]
fn address_parts() {
    let a = v4(7, 80);
    assert_eq!(a.ip(), IpAddr::V4(0xc0a8_0007));
    assert_eq!(a.port(), 80);
    assert_eq!(a.with_port(81), v4(7, 81));
    assert!(!a.is_ipv6());
    assert!(v6(1, 2).is_ipv6());
    assert!(IpAddr::V6(0).is_unspecified());
    assert!(!IpAddr::V4(1).is_unspecified());
    assert_eq!(SocketAddr::new(IpAddr::V6(3), 4), v6(3, 4));
}

#[test]
fn sources_lead_back() {
    let relay = DiscoMessageSource::Relay { url: url("https://r/"), key: key(3) };
    assert!(relay.is_relay());
    assert_eq!(relay.send_addr(), SendAddr::Relay(url("https://r/")));
    let udp = DiscoMessageSource::Udp(v4(1, 2));
    assert!(!udp.is_relay());
    assert_eq!(udp.send_addr(), SendAddr::Udp(v4(1, 2)));
    assert_eq!(udp.clone(), udp);
}

#[test]
fn type_names() {
    assert_eq!(DirectAddrType::Unknown.name(), "?");
    assert_eq!(DirectAddrType::Local.name(), "local");
    assert_eq!(DirectAddrType::Stun.name(), "stun");
    assert_eq!(DirectAddrType::Portmapped.name(), "portmap");
    assert_eq!(DirectAddrType::Stun4LocalPort.name(), "stun4localport");
}

#[test]
fn endpoint_sets() {
    let a = direct(v4(1, 1), DirectAddrType::Local);
    let b = direct(v4(2, 1), DirectAddrType::Local);
    let c = direct(v4(1, 1), DirectAddrType::Stun);
    assert!(endpoint_sets_equal(&[], &[]));
    assert!(endpoint_sets_equal(&[a, b], &[a, b]));
    assert!(endpoint_sets_equal(&[a, b], &[b, a]));
    assert!(endpoint_sets_equal(&[a, b, a], &[b, a]));
    assert!(!endpoint_sets_equal(&[a], &[a, b]));
    assert!(!endpoint_sets_equal(&[a], &[]));
    assert!(!endpoint_sets_equal(&[a], &[c]));
}

fn sources() -> AddrSources {
    AddrSources {
        port_mapped: None,
        report: None,
        port: 4000,
        local_addr_v4: Some(SocketAddr::V4 { ip: 0, port: 4000 }),
        local_addr_v6: Some(v6(0, 4001)),
        regular: vec![],
        loopback: vec![],
    }
}

#[test]
fn gathered_in_priority_order() {
    let mut src = sources();
    src.port_mapped = Some((0x0505_0505, 99));
    src.report = Some(PublicAddrs {
        global_v4: Some((0x0808_0808, 1234)),
        global_v6: Some((77, 4321, 0, 0)),
        mapping_varies_by_dest_ip: Some(true),
    });
    src.regular = vec![IpAddr::V4(10), IpAddr::V6(11)];
    src.loopback = vec![IpAddr::V4(0x7f00_0001)];
    let pub4 = |port| SocketAddr::V4 { ip: 0x0808_0808, port };
    assert_eq!(
        gather_direct_addrs(&src),
        vec![
            direct(SocketAddr::V4 { ip: 0x0505_0505, port: 99 }, DirectAddrType::Portmapped),
            direct(pub4(1234), DirectAddrType::Stun),
            direct(pub4(4000), DirectAddrType::Stun4LocalPort),
            direct(v6(77, 4321), DirectAddrType::Stun),
            direct(SocketAddr::V4 { ip: 10, port: 4000 }, DirectAddrType::Local),
            direct(v6(11, 4001), DirectAddrType::Local),
        ]
    );
}

#[test]
fn gathered_addresses_occur_once() {
    let mut src = sources();
    src.port_mapped = Some((10, 4000));
    src.report = Some(PublicAddrs {
        global_v4: Some((10, 4000)),
        global_v6: None,
        mapping_varies_by_dest_ip: Some(true),
    });
    src.regular = vec![IpAddr::V4(10), IpAddr::V4(10)];
    assert_eq!(
        gather_direct_addrs(&src),
        vec![direct(SocketAddr::V4 { ip: 10, port: 4000 }, DirectAddrType::Portmapped)]
    );
}

#[test]
fn loopback_only_without_anything_else() {
    let mut src = sources();
    src.loopback = vec![IpAddr::V4(0x7f00_0001)];
    let local = direct(SocketAddr::V4 { ip: 0x7f00_0001, port: 4000 }, DirectAddrType::Local);
    assert_eq!(gather_direct_addrs(&src), vec![local]);
    src.port_mapped = Some((10, 9));
    assert_eq!(gather_direct_addrs(&src).len(), 1);
    assert_eq!(gather_direct_addrs(&src)[0].typ, DirectAddrType::Portmapped);
}

#[test]
fn bound_sockets_offer_only_themselves() {
    let mut src = sources();
    src.local_addr_v4 = Some(v4(3, 4000));
    src.local_addr_v6 = None;
    src.regular = vec![IpAddr::V4(10), IpAddr::V6(11)];
    assert_eq!(
        gather_direct_addrs(&src),
        vec![direct(v4(3, 4000), DirectAddrType::Local)]
    );
    // no fixed port, and no hard NAT
    src.port = 0;
    src.report = Some(PublicAddrs {
        global_v4: Some((8, 8)),
        global_v6: None,
        mapping_varies_by_dest_ip: Some(true),
    });
    assert_eq!(gather_direct_addrs(&src).len(), 2);
    src.port = 5;
    src.report = Some(PublicAddrs {
        global_v4: Some((8, 8)),
        global_v6: None,
        mapping_varies_by_dest_ip: None,
    });
    assert_eq!(gather_direct_addrs(&src).len(), 2);
}

#[test]
fn freshness_and_equality_of_endpoints() {
    let eps = vec![direct(v4(1, 1), DirectAddrType::Local)];
    let d = DiscoveredEndpoints::new(eps.clone(), 100 * SECOND);
    assert!(d.fresh_enough(127 * SECOND));
    assert!(!d.fresh_enough(127 * SECOND + 1));
    assert!(d.fresh_enough(50 * SECOND));
    assert!(!DiscoveredEndpoints::default().fresh_enough(0));
    assert!(DiscoveredEndpoints::default().is_empty());
    assert!(d == DiscoveredEndpoints::new(eps.clone(), 1));
    assert!(d != DiscoveredEndpoints::default());
    assert_eq!(d.addrs(), vec![v4(1, 1)]);
    assert!(matches!(direct_addrs_stream_step(DiscoveredEndpoints::default()), StreamStep::Skip));
    match direct_addrs_stream_step(d) {
        StreamStep::Yield(found) => assert_eq!(found, eps),
        StreamStep::Skip => panic!("skipped"),
    }
}

#[test]
fn update_state() {
    let mut s = EndpointUpdateState::new();
    assert!(!s.is_running());
    assert_eq!(s.schedule_run("first"), Some("first"));
    assert!(s.is_running());
    assert_eq!(s.schedule_run("second"), None);
    assert_eq!(s.schedule_run("third"), None);
    assert!(matches!(s.finalize_endpoints_update(false), Finalize::Rerun("third")));
    assert!(s.is_running());
    assert!(matches!(s.finalize_endpoints_update(false), Finalize::Idle));
    assert!(!s.is_running());
    s.schedule_run("a");
    s.schedule_run("b");
    assert!(matches!(s.finalize_endpoints_update(true), Finalize::Closed));
    assert!(!s.is_running());
}

#[test]
fn closing_twice() {
    let mut s = sock();
    assert_eq!(s.close(), CloseStep::SendShutdown);
    assert!(s.is_closing());
    assert!(!s.is_closed());
    assert_eq!(s.on_shutdown_sent(false), Err(SockError::ConnectionClosed));
    assert!(!s.is_closed());
    assert_eq!(s.close(), CloseStep::SendShutdown);
    assert_eq!(s.on_shutdown_sent(true), Ok(()));
    assert!(s.is_closed());
    assert_eq!(s.close(), CloseStep::AlreadyClosed);
    assert!(matches!(
        poll_recv(s.is_closed(), true, RecvEvent::Start),
        RecvStep::Done(Poll::Pending)
    ));
    match poll_send(s.is_closed(), &[to(v4(1, 1), b"x")]) {
        SendStart::Done(r) => assert_eq!(r, Err(SockError::ConnectionClosed)),
        SendStart::Batch(_) => panic!("sent on a closed socket"),
    }
}

#[test]
fn local_addresses() {
    let mut s = sock();
    assert_eq!(s.local_addr(), (SocketAddr::V4 { ip: 0, port: 4000 }, Some(v6(0, 4001))));
    assert_eq!(s.normalized_local_addr(), v6(0, 4001));
    assert_eq!(s.quic_local_addr(), v6(0, 4001));
    assert_eq!(s.port, 4000);
    s.local_addrs = (v4(1, 7), None);
    assert_eq!(s.normalized_local_addr(), v4(1, 7));
    let mapped = u128::from_be_bytes([0, 0, 0, 0, 0, 0, 0, 0, 0, 0, 0xff, 0xff, 192, 168, 0, 1]);
    assert_eq!(s.quic_local_addr(), v6(mapped, 7));
    assert_eq!(s.conn_for_addr(v4(1, 1)), Ok(UdpSocket::V4));
    assert_eq!(s.conn_for_addr(v6(1, 1)), Ok(UdpSocket::V6));
    s.has_conn6 = false;
    assert_eq!(s.conn_for_addr(v6(1, 1)), Err(SockError::NoIpv6Connection));
    assert!(s.has_send_address(Some(true)));
    assert!(!s.has_send_address(Some(false)));
    assert!(!s.has_send_address(None));
    assert_eq!(s.get_mapping_addr(Some(QuicMappedAddr(v6(5, 5)))), Some(v6(5, 5)));
    assert_eq!(s.get_mapping_addr(None), None);
}

#[test]
fn error_kinds() {
    assert_eq!(SockError::ConnectionClosed.kind(), ErrorKind::NotConnected);
    assert_eq!(SockError::UnexpectedEof.kind(), ErrorKind::UnexpectedEof);
    assert_eq!(SockError::NoIpv6Connection.kind(), ErrorKind::Other);
    assert_eq!(io_error(ErrorKind::BrokenPipe).kind(), ErrorKind::BrokenPipe);
}

fn node(relay: Option<RelayUrl>, addrs: Vec<SocketAddr>) -> NodeAddr {
    NodeAddr { node_id: key(5), info: AddrInfo { relay_url: relay, direct_addresses: addrs } }
}

#[test]
fn own_addresses_are_pruned() {
    let mut s = sock();
    s.update_direct_addresses(
        vec![
            direct(v4(1, 1), DirectAddrType::Local),
            direct(v4(2, 2), DirectAddrType::Local),
        ],
        0,
    );
    let added = s.add_node_addr(node(None, vec![v4(1, 1), v4(3, 3), v4(2, 2)])).unwrap();
    assert_eq!(added.info.direct_addresses, vec![v4(3, 3)]);
    assert_eq!(added.node_id, key(5));
    let added = s.add_node_addr(node(Some(url("https://r/")), vec![v4(1, 1)])).unwrap();
    assert_eq!(added.info.relay_url, Some(url("https://r/")));
    assert!(added.info.direct_addresses.is_empty());
    assert_eq!(
        s.add_node_addr(node(None, vec![v4(1, 1), v4(2, 2)])).unwrap_err(),
        AddNodeAddrError::EmptyAfterPruning { pruned: 2 }
    );
    assert_eq!(s.add_node_addr(node(None, vec![])).unwrap_err(), AddNodeAddrError::Empty);
}

#[test]
fn direct_address_updates() {
    let mut s = sock();
    let a = direct(v4(1, 1), DirectAddrType::Local);
    let b = direct(v4(2, 2), DirectAddrType::Stun);
    let update = s.update_direct_addresses(vec![a, b], 5).unwrap();
    assert_eq!(update.discovered, vec![v4(1, 1), v4(2, 2)]);
    let published = update.publish.unwrap();
    assert_eq!(published.direct_addresses, vec![v4(1, 1), v4(2, 2)]);
    assert_eq!(published.relay_url, None);
    // the same set in another order is no change, but the time is kept
    assert!(s.update_direct_addresses(vec![b, a], 9).is_none());
    assert_eq!(s.endpoints.last_endpoints_time, Some(9));
    s.has_discovery = false;
    assert!(s.update_direct_addresses(vec![a], 10).unwrap().publish.is_none());
}

#[test]
fn call_me_maybe_now_or_later() {
    let mut s = sock();
    match s.send_or_queue_call_me_maybe(&url("https://a/"), key(7), SECOND) {
        CallMeMaybeStep::Queued { start_update } => {
            assert_eq!(start_update, Some("refresh-for-peering"))
        }
        CallMeMaybeStep::Send(_) => panic!("sent stale endpoints"),
    }
    match s.send_or_queue_call_me_maybe(&url("https://b/"), key(8), SECOND) {
        CallMeMaybeStep::Queued { start_update } => assert_eq!(start_update, None),
        CallMeMaybeStep::Send(_) => panic!("sent stale endpoints"),
    }
    // a second message for a node takes the place of the first
    s.send_or_queue_call_me_maybe(&url("https://c/"), key(7), SECOND);
    s.update_direct_addresses(vec![direct(v4(1, 1), DirectAddrType::Local)], SECOND);
    let mut sent: Vec<(PublicKey, RelayUrl)> = Vec::new();
    for m in s.send_queued_call_me_maybes() {
        assert_eq!(m.msg, Message::CallMeMaybe(CallMeMaybe { my_numbers: vec![v4(1, 1)] }));
        sent.push((m.dst_key, m.url));
    }
    assert_eq!(sent.len(), 2);
    assert!(sent.contains(&(key(7), url("https://c/"))));
    assert!(sent.contains(&(key(8), url("https://b/"))));
    assert!(s.send_queued_call_me_maybes().is_empty());
    match s.send_or_queue_call_me_maybe(&url("https://a/"), key(7), 2 * SECOND) {
        CallMeMaybeStep::Send(m) => {
            assert_eq!(m.dst_key, key(7));
            assert_eq!(m.url, url("https://a/"));
        }
        CallMeMaybeStep::Queued { .. } => panic!("queued fresh endpoints"),
    }
}

#[test]
fn home_relay() {
    let mut s = sock();
    let picked = s.pick_relay_fallback().unwrap();
    assert!(s.relay_urls.contains(&picked));
    // the choice does not change
    assert_eq!(s.pick_relay_fallback(), Some(picked));
    let change = s.set_nearest_relay(Some(url("https://b/"))).unwrap();
    assert_eq!(change.set_home, url("https://b/"));
    assert_eq!(change.publish.unwrap().relay_url, Some(url("https://b/")));
    assert_eq!(s.my_relay(), Some(url("https://b/")));
    assert!(s.set_nearest_relay(Some(url("https://b/"))).is_none());
    // the relay that we have is kept
    assert_eq!(s.pick_relay_fallback(), Some(url("https://b/")));
    assert_eq!(s.set_my_relay(Some(url("https://b/"))), None);
    assert_eq!(s.set_my_relay(Some(url("https://c/"))), Some(url("https://b/")));
    assert!(s.set_nearest_relay(None).is_none());
    assert_eq!(s.my_relay(), None);
    s.relay_urls = vec![];
    assert_eq!(s.pick_relay_fallback(), None);
    s.relay_urls = vec![url("https://only/")];
    assert_eq!(s.pick_relay_fallback(), Some(url("https://only/")));
}

#[test]
fn timers_and_ports() {
    let t = re_stun_timer(true, 7);
    assert_eq!((t.first, t.period), (7, 7));
    let t = re_stun_timer(false, 7);
    assert_eq!((t.first, t.period), (0, 7));
    let drawn: Vec<u64> = (0..50).map(|_| new_re_stun_timer(true).period).collect();
    assert!(drawn.iter().all(|p| (20 * SECOND..=26 * SECOND).contains(p)));
    assert!(drawn.iter().any(|p| *p != drawn[0]));
    assert_eq!(new_re_stun_timer(false).first, 0);
    assert_eq!(bind_port_v6(4000), 4001);
    assert_eq!(bind_port_v6(65535), 65534);
}

fn batch(transmits: &[Transmit]) -> iroh_core::net::send::SendBatch {
    match poll_send(false, transmits) {
        SendStart::Batch(b) => b,
        SendStart::Done(r) => panic!("done: {:?}", r),
    }
}

fn run(udp: Option<SocketAddr>, relay: Option<RelayUrl>, pings: bool) -> SendRun {
    let b = batch(&[to(v6(1, 1), b"one"), to(v6(1, 1), b"two"), to(v6(2, 1), b"other")]);
    assert_eq!(b.dest, v6(1, 1));
    assert_eq!(b.transmits.len(), 2);
    let msgs = if pings {
        vec![PingAction::SendPing(send_ping(1, SendAddr::Udp(v4(1, 1))))]
    } else {
        vec![]
    };
    let addrs = SendAddrs { public_key: key(4), udp_addr: udp, relay_url: relay, msgs };
    match b.begin(Some(addrs)) {
        SendBegin::Run(run, msgs) => {
            assert_eq!(msgs.len(), pings as usize);
            assert_eq!(run.pings_sent, pings);
            run
        }
        SendBegin::Dropped(_) => panic!("dropped"),
    }
}

#[test]
fn sending_nothing_and_to_nobody() {
    assert!(matches!(poll_send(true, &[]), SendStart::Done(Ok(0))));
    let b = batch(&[to(v6(1, 1), b"one"), to(v6(1, 1), b"two")]);
    assert!(matches!(b.begin(None), SendBegin::Dropped(2)));
    // a node without addresses: the batch is dropped
    assert_eq!(run(None, None, false).finish(None), Poll::Ready(2));
    assert_eq!(run(None, None, true).finish(None), Poll::Ready(2));
}

#[test]
fn sending_over_udp_and_relay() {
    let mut r = run(Some(v4(9, 9)), Some(url("https://r/")), false);
    assert_eq!(r.udp_transmits(), Some(v4(9, 9)));
    assert!(r.transmits.iter().all(|t| t.destination == v4(9, 9)));
    r.on_udp(Poll::Ready(Ok(1)));
    // only what UDP took goes to the relay
    let (relay, node, contents) = r.relay_packets().unwrap();
    assert_eq!(relay, url("https://r/"));
    assert_eq!(node, key(4));
    assert_eq!(contents.into_vec(), vec![Bytes::from_static(b"one")]);
    assert_eq!(r.finish(Some(Poll::Ready(true))), Poll::Ready(1));
}

#[test]
fn sending_with_backpressure() {
    let with_udp = |udp, relay: Option<Poll<bool>>, pings| {
        let url = relay.map(|_| url("https://r/"));
        let mut r = run(Some(v4(9, 9)), url, pings);
        r.udp_transmits();
        r.on_udp(udp);
        r.finish(relay)
    };
    let io = || Poll::Ready(Err(io_error(ErrorKind::Other)));
    // all paths wait
    assert_eq!(with_udp(Poll::Pending, None, true), Poll::Pending);
    assert_eq!(with_udp(Poll::Pending, Some(Poll::Pending), true), Poll::Pending);
    // one path is free
    assert_eq!(with_udp(Poll::Pending, Some(Poll::Ready(true)), false), Poll::Ready(2));
    assert_eq!(with_udp(Poll::Ready(Ok(2)), Some(Poll::Pending), false), Poll::Ready(2));
    assert_eq!(with_udp(Poll::Ready(Ok(7)), None, false), Poll::Ready(2));
    assert_eq!(with_udp(Poll::Ready(Ok(0)), None, false), Poll::Ready(0));
    // nothing went out at all
    assert_eq!(with_udp(io(), None, false), Poll::Pending);
    assert_eq!(with_udp(io(), Some(Poll::Ready(false)), false), Poll::Pending);
    // only the pings went out
    assert_eq!(with_udp(io(), None, true), Poll::Ready(0));
    assert_eq!(with_udp(io(), Some(Poll::Ready(false)), true), Poll::Ready(2));
    // the relay takes what UDP could not
    assert_eq!(with_udp(io(), Some(Poll::Ready(true)), false), Poll::Ready(2));
    let r = run(None, Some(url("https://r/")), false);
    assert_eq!(r.relay_packets().unwrap().2.into_vec().len(), 2);
    assert_eq!(r.finish(Some(Poll::Ready(false))), Poll::Pending);
}

#[test]
fn receiving_in_order() {
    let ready = |n| Poll::Ready(Ok(n));
    assert!(matches!(poll_recv(false, true, RecvEvent::Start), RecvStep::TryUdpV4));
    assert!(matches!(
        poll_recv(false, true, RecvEvent::UdpV4(ready(3))),
        RecvStep::Received { msgs: 3, from_ipv4: true }
    ));
    assert!(matches!(poll_recv(false, true, RecvEvent::UdpV4(ready(0))), RecvStep::TryUdpV6));
    assert!(matches!(poll_recv(false, false, RecvEvent::UdpV4(Poll::Pending)), RecvStep::TryRelay));
    assert!(matches!(
        poll_recv(false, true, RecvEvent::UdpV6(ready(2))),
        RecvStep::Received { msgs: 2, from_ipv4: false }
    ));
    assert!(matches!(poll_recv(false, true, RecvEvent::UdpV6(ready(0))), RecvStep::TryRelay));
    assert!(matches!(
        poll_recv(false, true, RecvEvent::UdpV4(Poll::Ready(Err(SockError::NoIpv6Connection)))),
        RecvStep::Done(Poll::Ready(Err(SockError::NoIpv6Connection)))
    ));
}

fn meta(len: usize, stride: usize) -> RecvMeta {
    RecvMeta { addr: v4(1, 1), len, stride, ecn: None, dst_ip: None }
}

#[test]
fn packets_that_are_not_quic_are_hidden() {
    let m = meta(10, 3);
    assert_eq!(packet_bounds(&m), vec![(0, 3), (3, 6), (6, 9)]);
    let mut buf: Vec<u8> = (1..=12).collect();
    assert_eq!(mask_packets(&mut buf, &m, &[true, false, true]), 2);
    assert_eq!(buf, vec![1, 2, 3, 0, 5, 6, 7, 8, 9, 10, 11, 12]);
    assert_eq!(mask_packets(&mut buf, &meta(2, 3), &[]), 0);
    assert_eq!(packet_bounds(&meta(0, 3)), vec![]);
}

#[test]
fn metas_are_remapped() {
    let ip = Some(IpAddr::V6(8));
    let mapped = QuicMappedAddr(v6(5, 12345));
    let mut m = meta(10, 3);
    remap_meta(&mut m, 2, Some(mapped), ip);
    assert_eq!(m, RecvMeta { addr: v6(5, 12345), len: 10, stride: 3, ecn: None, dst_ip: ip });
    let mut m = meta(10, 3);
    remap_meta(&mut m, 2, None, ip);
    assert_eq!(m, RecvMeta { addr: v4(1, 1), len: 0, stride: 3, ecn: None, dst_ip: ip });
    let mut m = meta(10, 3);
    remap_meta(&mut m, 0, Some(mapped), ip);
    assert_eq!((m.len, m.addr), (0, v4(1, 1)));
}

#[test]
fn relay_messages_fill_buffers() {
    let mut r = RelayRecv::new(2);
    assert!(matches!(
        r.poll_recv_relay(false, RelayRecvEvent::Start),
        RelayRecvStep::TryRecv { slot: 0 }
    ));
    assert!(matches!(
        r.poll_recv_relay(false, RelayRecvEvent::Stored),
        RelayRecvStep::TryRecv { slot: 1 }
    ));
    assert!(matches!(
        r.poll_recv_relay(false, RelayRecvEvent::Stored),
        RelayRecvStep::Done(Poll::Ready(Ok(2)))
    ));
    let mut r = RelayRecv::new(2);
    assert!(matches!(
        r.poll_recv_relay(false, RelayRecvEvent::Empty),
        RelayRecvStep::Done(Poll::Pending)
    ));
    assert!(matches!(
        r.poll_recv_relay(true, RelayRecvEvent::Start),
        RelayRecvStep::Done(Poll::Pending)
    ));
    assert!(matches!(
        r.poll_recv_relay(false, RelayRecvEvent::Disconnected),
        RelayRecvStep::Done(Poll::Ready(Err(SockError::ConnectionClosed)))
    ));
    assert!(matches!(
        r.poll_recv_relay(false, RelayRecvEvent::Failed(SockError::UnexpectedEof)),
        RelayRecvStep::Done(Poll::Ready(Err(SockError::UnexpectedEof)))
    ));
}

#[test]
fn relay_reads_become_packets() {
    let mut buf = frame(&[b"quic", b"disco", b"more"]).to_vec();
    buf.push(1);
    let parts = relay_parts(MAX_PACKET, buf.into()).unwrap();
    assert_eq!(parts.len(), 4);
    let mapped = QuicMappedAddr(v6(5, 12345));
    let internal = vec![false, true, false, false];
    let out = process_relay_read_result(&parts, &internal, key(6), mapped, None);
    assert_eq!(out.len(), 3);
    let first = out[0].as_ref().unwrap();
    assert_eq!(first.node_id, key(6));
    assert_eq!(first.bytes, Bytes::from_static(b"quic"));
    assert_eq!(
        first.meta,
        RecvMeta { addr: v6(5, 12345), len: 4, stride: 4, ecn: None, dst_ip: None }
    );
    assert_eq!(out[1].as_ref().unwrap().bytes, Bytes::from_static(b"more"));
    assert_eq!(out[2].as_ref().unwrap_err(), &SockError::UnexpectedEof);
    assert!(relay_parts(0, Bytes::new()).unwrap().is_empty());
    assert_eq!(
        handle_relay_disco_message(Some(key(2)), &url("https://r/"), key(3)),
        Some((key(2), DiscoMessageSource::Relay { url: url("https://r/"), key: key(3) }))
    );
    assert_eq!(handle_relay_disco_message(None, &url("https://r/"), key(3)), None);
}

#[test]
fn disco_messages_are_routed() {
    let udp = || DiscoMessageSource::Udp(v4(1, 1));
    let relay = || DiscoMessageSource::Relay { url: url("https://r/"), key: key(3) };
    let ping = Ping { tx_id: TransactionId([1; 12]), node_key: key(2) };
    let pong = Pong { tx_id: TransactionId([1; 12]), ping_observed_addr: SendAddr::Udp(v4(2, 2)) };
    let cmm = || Message::CallMeMaybe(CallMeMaybe { my_numbers: vec![v4(3, 3)] });
    assert!(matches!(
        handle_disco_message(true, Ok(Message::Ping(ping)), key(2), udp()),
        DiscoAction::Ignore
    ));
    assert!(matches!(
        handle_disco_message(false, Err(DiscoBoxError::Open), key(2), udp()),
        DiscoAction::Ignore
    ));
    assert!(matches!(
        handle_disco_message(false, Err(DiscoBoxError::Parse), key(2), udp()),
        DiscoAction::Ignore
    ));
    match handle_disco_message(false, Ok(Message::Ping(ping)), key(2), udp()) {
        DiscoAction::HandlePing { ping: p, sender, src } => {
            assert_eq!((p, sender, src), (ping, key(2), udp()))
        }
        other => panic!("{:?}", other),
    }
    match handle_disco_message(false, Ok(Message::Pong(pong.clone())), key(2), relay()) {
        DiscoAction::HandlePong { pong: p, sender, src } => {
            assert_eq!((p, sender, src), (pong, key(2), relay()))
        }
        other => panic!("{:?}", other),
    }
    assert!(matches!(handle_disco_message(false, Ok(cmm()), key(2), udp()), DiscoAction::Ignore));
    assert!(matches!(
        handle_disco_message(false, Ok(cmm()), key(2), relay()),
        DiscoAction::HandleCallMeMaybe { .. }
    ));
    assert_eq!(DiscoSecrets::<u8>::unseal_and_decode(false, Some(cmm())), Err(DiscoBoxError::Open));
    assert_eq!(DiscoSecrets::<u8>::unseal_and_decode(true, None), Err(DiscoBoxError::Parse));
    assert_eq!(DiscoSecrets::<u8>::unseal_and_decode(true, Some(cmm())), Ok(cmm()));
}

#[test]
fn pings_are_answered() {
    let src = DiscoMessageSource::Relay { url: url("https://r/"), key: key(3) };
    let dm = Ping { tx_id: TransactionId([4; 12]), node_key: key(2) };
    assert!(handle_ping(PingRole::Duplicate, None, dm, key(2), &src).is_none());
    for role in [PingRole::NewPath, PingRole::LikelyHeartbeat, PingRole::Activate] {
        let back = Some(send_ping(2, SendAddr::Udp(v4(1, 1))));
        let reply = handle_ping(role, back, dm, key(2), &src).unwrap();
        assert_eq!(reply.dst, SendAddr::Relay(url("https://r/")));
        assert_eq!(reply.dst_node, key(2));
        assert_eq!(reply.pong.tx_id, dm.tx_id);
        assert_eq!(reply.pong.ping_observed_addr, reply.dst);
        assert_eq!(reply.ping_back, Some(send_ping(2, SendAddr::Udp(v4(1, 1)))));
    }
}

#[test]
fn pings_are_queued_and_reported() {
    let udp = send_ping(1, SendAddr::Udp(v4(1, 1)));
    let relay = send_ping(2, SendAddr::Relay(url("https://r/")));
    let msg = Message::Ping(Ping { tx_id: TransactionId([1; 12]), node_key: key(1) });
    assert_eq!(ping_message(&udp, key(1)), msg);
    match send_ping_queued(&udp, key(1)) {
        Queued::Udp { dst, dst_key, msg: m } => {
            assert_eq!((dst, dst_key, m), (v4(1, 1), key(9), msg))
        }
        other => panic!("{:?}", other),
    }
    match send_ping_queued(&relay, key(1)) {
        Queued::Relay { url: u, dst_key, .. } => {
            assert_eq!((u, dst_key), (url("https://r/"), key(9)))
        }
        other => panic!("{:?}", other),
    }
    assert!(matches!(
        send_disco_message_queued(SendAddr::Udp(v4(1, 1)), key(2), ping_message(&udp, key(1))),
        Queued::Udp { .. }
    ));
    assert!(ping_queued(send_ping(1, SendAddr::Udp(v4(1, 1))), false).is_none());
    assert_eq!(ping_queued(send_ping(1, SendAddr::Udp(v4(1, 1))), true).unwrap().id, 1);
    let (res, sent) = poll_send_ping(&udp, Poll::Ready(Ok(())));
    assert_eq!(res, Poll::Ready(Ok(())));
    assert_eq!(sent.unwrap().dst, SendAddr::Udp(v4(1, 1)));
    assert!(poll_send_ping(&udp, Poll::Pending).1.is_none());
    assert!(poll_send_ping(&udp, Poll::Ready(Err(SockError::ConnectionClosed))).1.is_none());
}

#[test]
fn disco_sending_outcomes() {
    assert_eq!(poll_send_relay(TrySend::Sent), Poll::Ready(true));
    assert_eq!(poll_send_relay(TrySend::Closed), Poll::Ready(false));
    assert_eq!(poll_send_relay(TrySend::Full), Poll::Pending);
    assert!(send_disco_message_relay(Poll::Ready(true)));
    assert!(!send_disco_message_relay(Poll::Ready(false)));
    assert!(!send_disco_message_relay(Poll::Pending));
    assert_eq!(poll_send_disco_message_udp(Poll::Ready(Ok(0))), Poll::Ready(Ok(false)));
    assert_eq!(poll_send_disco_message_udp(Poll::Ready(Ok(1))), Poll::Ready(Ok(true)));
    assert_eq!(poll_send_disco_message_udp(Poll::Pending), Poll::Pending);
    assert_eq!(
        poll_send_disco_message_udp(Poll::Ready(Err(SockError::NoIpv6Connection))),
        Poll::Ready(Err(SockError::NoIpv6Connection))
    );
    assert_eq!(poll_send_disco_message(Poll::Ready(Ok(false))), Poll::Ready(Ok(())));
    assert_eq!(poll_send_disco_message(Poll::Pending), Poll::Pending);
    let t = disco_transmit(false, v4(1, 1), Bytes::from_static(b"pkt")).unwrap();
    assert_eq!((t.destination, t.contents, t.segment_size), (v4(1, 1), Bytes::from_static(b"pkt"), None));
    assert_eq!(
        disco_transmit(true, v4(1, 1), Bytes::new()).unwrap_err(),
        SockError::ConnectionClosed
    );
}

#[test]
fn ping_actions_are_handled_from_the_end() {
    let cmm = || PingAction::SendCallMeMaybe { relay_url: url("https://r/"), dst_node: key(1) };
    let ping = |n| PingAction::SendPing(send_ping(n, SendAddr::Udp(v4(1, 1))));
    let mut msgs = vec![ping(1), cmm(), ping(2)];
    let first = match poll_handle_ping_actions(&mut msgs, PingEvent::Start) {
        PingLoop::Handle(a) => a,
        other => panic!("{:?}", other),
    };
    assert_eq!(first, ping(2));
    // it has to wait
    assert!(matches!(
        poll_handle_ping_actions(&mut msgs, PingEvent::Handled(first, Poll::Pending)),
        PingLoop::Done(Poll::Pending)
    ));
    assert_eq!(msgs, vec![ping(1), cmm(), ping(2)]);
    let handled = msgs.pop().unwrap();
    match poll_handle_ping_actions(&mut msgs, PingEvent::Handled(handled, Poll::Ready(Ok(())))) {
        PingLoop::Handle(a) => assert_eq!(a, cmm()),
        other => panic!("{:?}", other),
    }
    let failed = PingEvent::Handled(cmm(), Poll::Ready(Err(SockError::NoIpv6Connection)));
    assert!(matches!(
        poll_handle_ping_actions(&mut msgs, failed),
        PingLoop::Done(Poll::Ready(Err(SockError::NoIpv6Connection)))
    ));
    assert_eq!(msgs, vec![ping(1)]);
    msgs.clear();
    assert!(matches!(
        poll_handle_ping_actions(&mut msgs, PingEvent::Start),
        PingLoop::Done(Poll::Ready(Ok(())))
    ));
    assert!(matches!(poll_handle_ping_action(true, false, &ping(1)), PingStep::Skip));
    assert!(matches!(poll_handle_ping_action(false, true, &ping(1)), PingStep::Skip));
    assert!(matches!(poll_handle_ping_action(false, false, &ping(1)), PingStep::Ping(_)));
    assert!(matches!(poll_handle_ping_action(false, false, &cmm()), PingStep::CallMeMaybe { .. }));
    let pings = call_me_maybe_pings(vec![ping(1), cmm(), ping(2)]);
    assert_eq!(pings.iter().map(|p| p.id).collect::<Vec<_>>(), vec![1, 2]);
}

fn report() -> Report {
    Report {
        udp: true,
        ipv6: true,
        ipv4_can_send: false,
        os_has_ipv6: true,
        icmpv4: Some(true),
        icmpv6: None,
        mapping_varies_by_dest_ip: Some(false),
        hair_pinning: None,
        portmap_probe: Some(ProbeOutput { upnp: true, pcp: false, nat_pmp: false }),
        preferred_relay: None,
        global_v4: Some((8, 8)),
        global_v6: None,
        relay_v4_latency: vec![(url("https://a/"), 7), (url("https://b/"), 9)],
        relay_v6_latency: vec![(url("https://a/"), 8)],
    }
}

#[test]
fn latencies_are_named_by_relay_and_version() {
    let ni = NetInfo::from_report(&report(), false, None);
    let expected: Vec<(String, u64)> = vec![
        ("https://a/-v4".to_string(), 7),
        ("https://b/-v4".to_string(), 9),
        ("https://a/-v6".to_string(), 8),
    ];
    assert_eq!(ni.relay_latency, expected);
}

#[test]
fn networks_are_compared() {
    let ni = |icmp| {
        let mut r = report();
        r.icmpv4 = icmp;
        NetInfo::from_report(&r, false, Some(url("https://a/")))
    };
    assert!(ni(Some(true)).basically_equal(&ni(Some(true))));
    assert!(!ni(Some(true)).basically_equal(&ni(Some(false))));
    assert!(ni(Some(true)).basically_equal(&ni(None)));
    assert!(ni(None).basically_equal(&ni(Some(false))));
    let mut other = ni(None);
    other.preferred_relay = Some(url("https://b/"));
    assert!(!ni(None).basically_equal(&other));
    let mut other = ni(None);
    other.have_port_map = true;
    assert!(!ni(None).basically_equal(&other));
    assert_eq!(ni(None).preferred(), Some(url("https://a/")));
    assert_eq!(report().public_addrs().global_v4, Some((8, 8)));
}

#[test]
fn reports_change_the_socket() {
    let mut a = Actor::new(sock());
    assert!(a.handle_netcheck_report(&None, true).is_none());
    assert!(a.net_info_last.is_none());
    let change = a.handle_netcheck_report(&Some(report()), true).unwrap();
    assert!(a.msock.relay_urls.contains(&change.set_home));
    assert!(a.msock.ipv6_reported);
    assert!(a.no_v4_send);
    assert_eq!(a.msock.my_relay(), Some(change.set_home));
    assert!(a.net_info_last.as_ref().unwrap().have_port_map);
    // basically the same network: what is known is kept
    let mut r = report();
    r.icmpv6 = Some(true);
    assert!(a.handle_netcheck_report(&Some(r), true).is_none());
    assert_eq!(a.net_info_last.as_ref().unwrap().working_icmp_v6, None);
    let mut r = report();
    r.preferred_relay = Some(url("https://z/"));
    assert_eq!(a.handle_netcheck_report(&Some(r), true).unwrap().set_home, url("https://z/"));
    assert_eq!(
        a.net_info_last.as_ref().unwrap().preferred_relay,
        Some(url("https://z/"))
    );
}

#[test]
fn endpoint_updates_are_stored() {
    let mut a = Actor::new(sock());
    a.handle_netcheck_report(&Some(report()), false);
    a.msock.send_or_queue_call_me_maybe(&url("https://r/"), key(7), 0);
    let mut src = sources();
    src.port_mapped = Some((5, 5));
    let out = a.store_endpoints_update(&src, 3 * SECOND);
    assert_eq!(out.update.unwrap().discovered, vec![SocketAddr::V4 { ip: 5, port: 5 }]);
    assert_eq!(out.messages.len(), 1);
    assert!(a.net_info_last.as_ref().unwrap().have_port_map);
    assert!(a.msock.endpoints.fresh_enough(3 * SECOND));
    let out = a.store_endpoints_update(&src, 4 * SECOND);
    assert!(out.update.is_none());
    assert!(out.messages.is_empty());
}

#[test]
fn actor_ticks() {
    let mut a = Actor::new(sock());
    let (acts, stop) = a.run(Tick::ReStunTimer);
    assert!(!stop);
    assert!(matches!(acts[..], [Action::SignalUpdate("periodic")]));
    // an update runs already
    assert!(a.run(Tick::PortmapChanged).0.is_empty());
    assert!(matches!(a.msock.finalize_endpoints_update(), Finalize::Rerun("portmap_updated")));
    assert!(matches!(
        a.run(Tick::LinkChange(true)).0[..],
        [Action::ClearDnsCache, Action::CloseStaleRelays, Action::ResetNodeStates]
    ));
    assert!(matches!(
        a.run(Tick::Heartbeat).0[..],
        [Action::PruneInactive, Action::SendStayinAlive]
    ));
    assert!(matches!(
        a.run(Tick::UpdateChanged(Some("why"))).0[..],
        [Action::ProcureMapping, Action::UpdateNetInfo("why")]
    ));
    assert!(a.run(Tick::UpdateChanged(None)).0.is_empty());
    assert!(matches!(a.update_net_info(), NetInfoStep::RequestReport));
    a.msock.relay_urls.clear();
    assert!(matches!(a.update_net_info(), NetInfoStep::SkipReport));
}

#[test]
fn actor_messages() {
    let mut a = Actor::new(sock());
    let (acts, stop) = a.run(Tick::Message(ActorMessage::Shutdown));
    assert!(stop);
    assert!(matches!(
        acts[..],
        [
            Action::NotifyShutdown,
            Action::DeactivatePortMapper,
            Action::CancelRelayActor,
            Action::CloseConn6,
            Action::CloseConn4,
        ]
    ));
    a.msock.has_conn6 = false;
    assert_eq!(a.handle_actor_message(ActorMessage::Shutdown).0.len(), 4);
    let read = RelayReadResult { url: url("https://r/"), src: key(2), buf: Bytes::new() };
    assert!(matches!(
        a.handle_actor_message(ActorMessage::ReceiveRelay(read)).0[..],
        [Action::ProcessRelay(_)]
    ));
    let tx = TransactionId([3; 12]);
    assert!(matches!(
        a.handle_actor_message(ActorMessage::EndpointPingExpired(4, tx)).0[..],
        [Action::NotifyPingTimeout(4, _)]
    ));
    assert!(matches!(
        a.handle_actor_message(ActorMessage::NetcheckReport(Ok(None), "w")).0[..],
        [Action::HandleReport(None), Action::FinalizeUpdate("w")]
    ));
    let failed = ActorMessage::NetcheckReport(Err(NetcheckError::Timeout), "w");
    assert!(matches!(a.handle_actor_message(failed).0[..], [Action::FinalizeUpdate("w")]));
    assert!(matches!(
        a.handle_actor_message(ActorMessage::NetworkChange).0[..],
        [Action::CheckNetwork]
    ));
    assert!(matches!(
        a.handle_actor_message(ActorMessage::ForceNetworkChange(false)).0[..],
        [Action::SignalUpdate("link-change-minor")]
    ));
    assert!(report_result(ReportWait::Report(report())).unwrap().is_some());
    assert!(matches!(report_result(ReportWait::Dropped), Err(NetcheckError::NotReceived)));
    assert!(matches!(report_result(ReportWait::Elapsed), Err(NetcheckError::Timeout)));
    assert!(matches!(
        report_result(ReportWait::Failed("x".to_string())),
        Err(NetcheckError::Failed(_))
    ));
}

#[test]
fn secrets_are_kept() {
    let mut s: DiscoSecrets<u32> = DiscoSecrets::new();
    assert_eq!(s.get(&key(1)), None);
    s.or_insert(key(1), 10);
    s.or_insert(key(1), 11);
    s.or_insert(key(2), 20);
    assert_eq!(s.get(&key(1)), Some(&10));
    assert_eq!(s.get(&key(2)), Some(&20));
}

#[test]
fn actor_local_addr_prefers_ipv6() {
    let (a, b) = (v4(1, 1), v6(2, 2));
    assert_eq!(Actor::normalized_local_addr(Some(a), Some(Some(b))), Some(b));
    assert_eq!(Actor::normalized_local_addr(Some(a), Some(None)), None);
    assert_eq!(Actor::normalized_local_addr(Some(a), None), Some(a));
    assert_eq!(Actor::normalized_local_addr(None, None), None);
}

#[test]
fn pings_go_out_before_the_batch() {
    let addr = v4(3, 3);
    assert!(run(Some(addr), None, true).after_pings(Poll::Pending).is_none());
    let sent = run(Some(addr), None, true).after_pings(Poll::Ready(Ok(()))).unwrap();
    assert_eq!(sent.udp_addr, Some(addr));
    assert_eq!(sent.transmits.len(), sent.n);
    let failed = Poll::Ready(Err(SockError::NoIpv6Connection));
    assert!(run(Some(addr), None, true).after_pings(failed).is_some());
}

#[test]
fn only_a_known_port_is_mapped() {
    let mut s = sock();
    assert_eq!(s.port_to_map(), Some(4000));
    s.port = 0;
    assert_eq!(s.port_to_map(), None);
}

#[test]
fn relay_messages_have_a_largest_size() {
    let message = Bytes::from_static(&[2, 0, 7, 8]);
    let mut iter = PacketSplitIter::new(4, message.clone()).unwrap();
    assert_eq!(iter.next(), Some(Ok(Bytes::from_static(&[7, 8]))));
    assert_eq!(iter.next(), None);
    assert_eq!(PacketSplitIter::new(3, message.clone()).unwrap_err(), PacketTooBig { len: 4 });
    assert_eq!(relay_parts(4, message.clone()).unwrap().len(), 1);
    assert_eq!(relay_parts(3, message).unwrap_err(), PacketTooBig { len: 4 });
}

#[test]
fn direct_addresses_are_a_set() {
    let mut s = sock();
    s.has_discovery = true;
    let stun = direct(v4(1, 1), DirectAddrType::Stun);
    let local = direct(v4(1, 1), DirectAddrType::Local);
    let other = direct(v4(2, 2), DirectAddrType::Local);
    let update = s.update_direct_addresses(vec![stun, other, local], 1).unwrap();
    assert_eq!(update.discovered, vec![v4(1, 1), v4(2, 2), v4(1, 1)]);
    assert_eq!(update.publish.unwrap().direct_addresses, vec![v4(1, 1), v4(2, 2)]);
    let twice = |a| NodeAddr {
        node_id: key(5),
        info: AddrInfo { relay_url: None, direct_addresses: vec![a, a] },
    };
    let added = s.add_node_addr(twice(v4(9, 9))).unwrap();
    assert_eq!(added.info.direct_addresses, vec![v4(9, 9)]);
    assert_eq!(
        s.add_node_addr(twice(v4(1, 1))).unwrap_err(),
        AddNodeAddrError::EmptyAfterPruning { pruned: 1 }
    );
}
