//! The actor of the socket: what it does on each message, timer and network
//! change.

use crate::key::PublicKey;
use crate::net::addr::{clone_url, RelayUrl, SocketAddr};
use crate::net::disco::TransactionId;
use crate::net::endpoints::{
    addrs_of, all_candidates, gather_direct_addrs, keep_first, same_endpoints, AddrSources,
    DirectAddr,
};
use crate::net::netinfo::{NetInfo, Report};
use crate::net::sock::{
    answers_queue, fallback_choice, AddrUpdate, HomeRelayChange, MagicSock, RelayDisco,
};
use crate::net::update_state::scheduled;
use bytes::Bytes;
use vstd::prelude::*;

verus! {

/// A message that came through a relay.
#[derive(Debug)]
pub struct RelayReadResult {
    /// The relay.
    pub url: RelayUrl,
    /// The node that sent it.
    pub src: PublicKey,
    /// The packets, each with its length before it.
    pub buf: Bytes,
}

/// Why there is no network report.
#[derive(Debug, PartialEq, Eq)]
pub enum NetcheckError {
    /// The check failed, with its own words.
    Failed(String),
    /// netcheck report not received
    NotReceived,
    /// netcheck report timeout
    Timeout,
}

/// How waiting for a network report ended.
#[derive(Debug)]
pub enum ReportWait {
    Report(Report),
    Failed(String),
    /// The sender went away.
    Dropped,
    /// It took longer than [`NETCHECK_REPORT_TIMEOUT_SECS`].
    Elapsed,
}

/// How long a network report is waited for, in seconds.
pub const NETCHECK_REPORT_TIMEOUT_SECS: u64 = 10;

/// How often nodes are sent a sign of life, in seconds.
pub const HEARTBEAT_INTERVAL_SECS: u64 = 5;

/// A message to the actor.
#[derive(Debug)]
pub enum ActorMessage {
    Shutdown,
    ReceiveRelay(RelayReadResult),
    EndpointPingExpired(usize, TransactionId),
    NetcheckReport(Result<Option<Report>, NetcheckError>, &'static str),
    NetworkChange,
    ForceNetworkChange(bool),
}

/// What wakes the actor.
#[derive(Debug)]
pub enum Tick {
    /// A message came in.
    Message(ActorMessage),
    /// The timer of the periodic endpoint update fired.
    ReStunTimer,
    /// The external address of the port mapper changed.
    PortmapChanged,
    /// The heartbeat timer fired.
    Heartbeat,
    /// An endpoint update was started, for this reason, or ended.
    UpdateChanged(Option<&'static str>),
    /// The network changed, in a major or in a minor way.
    LinkChange(bool),
}

/// Something that the actor has to do.
#[derive(Debug)]
pub enum Action {
    /// Tell the node map that the socket shuts down.
    NotifyShutdown,
    /// Stop the port mapper.
    DeactivatePortMapper,
    /// Stop the relay clients.
    CancelRelayActor,
    /// Close the IPv6 socket.
    CloseConn6,
    /// Close the IPv4 socket.
    CloseConn4,
    /// Split a relay message and pass on its packets.
    ProcessRelay(RelayReadResult),
    /// Tell the node map that a ping was not answered.
    NotifyPingTimeout(usize, TransactionId),
    /// Take in a network report.
    HandleReport(Option<Report>),
    /// An endpoint update is done.
    FinalizeUpdate(&'static str),
    /// Look whether the network changed.
    CheckNetwork,
    /// Forget cached DNS answers.
    ClearDnsCache,
    /// An endpoint update starts, for this reason.
    SignalUpdate(&'static str),
    /// Close the relay connections whose local address is gone.
    CloseStaleRelays,
    /// Forget which paths to the nodes are the best.
    ResetNodeStates,
    /// Forget nodes that were not heard of.
    PruneInactive,
    /// Send what keeps the paths to the nodes open.
    SendStayinAlive,
    /// Ask the router for a port mapping.
    ProcureMapping,
    /// Check the network.
    UpdateNetInfo(&'static str),
}

/// What to do to check the network.
#[derive(Debug)]
pub enum NetInfoStep {
    /// There is no relay to check against: go on without a report.
    SkipReport,
    /// Request a report.
    RequestReport,
}

/// The actor of the socket.
#[derive(Debug)]
pub struct Actor {
    /// The socket.
    pub msock: MagicSock,
    /// The `NetInfo` provided in the last call to `net_info_func`. It's used to deduplicate calls to netInfoFunc.
    pub net_info_last: Option<NetInfo>,
    /// Whether IPv4 UDP is known to be unable to transmit
    /// at all. This could happen if the socket is in an invalid state
    /// (as can happen on darwin after a network link status change).
    pub no_v4_send: bool,
}

/// What follows from an endpoint update.
#[derive(Debug)]
pub struct StoreOutcome {
    /// What follows from new direct addresses, if they changed.
    pub update: Option<AddrUpdate>,
    /// Queued messages that are sent now.
    pub messages: Vec<RelayDisco>,
}

/// The signal that an update starts, if none runs.
pub open spec fn signal(sock: MagicSock, why: &'static str) -> Seq<Action> {
    if sock.endpoints_update_state.running() is None {
        seq![Action::SignalUpdate(why)]
    } else {
        Seq::empty()
    }
}

/// The reason of an update that a change of the network asks for.
pub open spec fn link_change_reason(is_major: bool) -> &'static str {
    if is_major {
        "link-change-major"
    } else {
        "link-change-minor"
    }
}

/// What a change of the network asks for.
pub open spec fn network_change_actions(sock: MagicSock, is_major: bool) -> Seq<Action> {
    if is_major {
        seq![Action::ClearDnsCache] + signal(sock, link_change_reason(is_major))
            + seq![Action::CloseStaleRelays, Action::ResetNodeStates]
    } else {
        signal(sock, link_change_reason(is_major))
    }
}

/// What a message asks for.
pub open spec fn message_actions(sock: MagicSock, msg: ActorMessage) -> Seq<Action> {
    match msg {
        ActorMessage::Shutdown => {
            let stop = seq![
                Action::NotifyShutdown,
                Action::DeactivatePortMapper,
                Action::CancelRelayActor,
            ];
            if sock.has_conn6 {
                stop + seq![Action::CloseConn6, Action::CloseConn4]
            } else {
                stop + seq![Action::CloseConn4]
            }
        },
        ActorMessage::ReceiveRelay(m) => seq![Action::ProcessRelay(m)],
        ActorMessage::EndpointPingExpired(id, tx) => seq![Action::NotifyPingTimeout(id, tx)],
        ActorMessage::NetcheckReport(Ok(report), why) => seq![
            Action::HandleReport(report),
            Action::FinalizeUpdate(why),
        ],
        ActorMessage::NetcheckReport(Err(_), why) => seq![Action::FinalizeUpdate(why)],
        ActorMessage::NetworkChange => seq![Action::CheckNetwork],
        ActorMessage::ForceNetworkChange(is_major) => network_change_actions(sock, is_major),
    }
}

/// The reason of the endpoint update that an event asks for, if it asks for one.
pub open spec fn tick_update(tick: Tick) -> Option<&'static str> {
    match tick {
        Tick::Message(ActorMessage::ForceNetworkChange(is_major)) => Some(
            link_change_reason(is_major),
        ),
        Tick::ReStunTimer => Some("periodic"),
        Tick::PortmapChanged => Some("portmap_updated"),
        Tick::LinkChange(is_major) => Some(link_change_reason(is_major)),
        _ => None,
    }
}

/// What an event asks for.
pub open spec fn tick_actions(sock: MagicSock, tick: Tick) -> Seq<Action> {
    match tick {
        Tick::Message(msg) => message_actions(sock, msg),
        Tick::ReStunTimer => signal(sock, "periodic"),
        Tick::PortmapChanged => signal(sock, "portmap_updated"),
        Tick::Heartbeat => seq![Action::PruneInactive, Action::SendStayinAlive],
        Tick::UpdateChanged(Some(why)) => seq![Action::ProcureMapping, Action::UpdateNetInfo(why)],
        Tick::UpdateChanged(None) => Seq::empty(),
        Tick::LinkChange(is_major) => network_change_actions(sock, is_major),
    }
}

/// What an event does to the socket: at most that it schedules an endpoint
/// update.
pub open spec fn tick_changes(a: MagicSock, tick: Tick, b: MagicSock) -> bool {
    match tick_update(tick) {
        Some(why) => {
            &&& scheduled(a.endpoints_update_state, why, b.endpoints_update_state)
            &&& b == (MagicSock { endpoints_update_state: b.endpoints_update_state, ..a })
        },
        None => b == a,
    }
}

/// The relay that is preferred after a report: the one that it names, or the
/// one that we have, or some relay.
pub open spec fn preferred_after(sock: MagicSock, report: Report) -> Option<RelayUrl> {
    if report.preferred_relay is Some {
        report.preferred_relay
    } else if sock.my_relay is Some {
        sock.my_relay
    } else if sock.relay_urls@.len() == 0 {
        None
    } else {
        Some(sock.relay_urls@[fallback_choice(sock.relay_urls@.len())])
    }
}

/// The event ends the loop of the actor.
pub open spec fn tick_stops(tick: Tick) -> bool {
    tick matches Tick::Message(ActorMessage::Shutdown)
}

/// What is remembered of the network: what was known, if it is basically the
/// same, and else what is known now.
pub open spec fn remembered(last: Option<NetInfo>, ni: NetInfo) -> Option<NetInfo> {
    match last {
        Some(last) if ni.spec_basically_equal(last) => Some(last),
        _ => Some(ni),
    }
}

/// What a network report does to the actor and what follows from it.
pub open spec fn report_taken(
    a: Actor,
    nr: Report,
    have_port_map: bool,
    r: Option<HomeRelayChange>,
    b: Actor,
) -> bool {
    let preferred = preferred_after(a.msock, nr);
    &&& b.no_v4_send == !nr.ipv4_can_send
    &&& exists|ni: NetInfo| #[trigger]
        ni.is_of_report(nr, have_port_map, preferred) && b.net_info_last == remembered(
            a.net_info_last,
            ni,
        )
    &&& (MagicSock { ipv6_reported: nr.ipv6, ..a.msock }).takes_home(preferred, r, b.msock)
}

/// What the results of an endpoint update do to the actor and what follows from
/// them.
pub open spec fn update_stored(
    a: Actor,
    sources: AddrSources,
    now: u64,
    r: StoreOutcome,
    b: Actor,
) -> bool {
    let eps = keep_first(all_candidates(sources));
    &&& b.msock.endpoints.last_endpoints@ == eps
    &&& b.msock.endpoints.last_endpoints_time == Some(now)
    &&& b.msock.pending_call_me_maybes@ == Map::<PublicKey, RelayUrl>::empty()
    &&& b.msock == (MagicSock {
        endpoints: b.msock.endpoints,
        pending_call_me_maybes: b.msock.pending_call_me_maybes,
        ..a.msock
    })
    &&& b.no_v4_send == a.no_v4_send
    &&& b.net_info_last == (match a.net_info_last {
        Some(ni) if sources.port_mapped is Some => Some(NetInfo { have_port_map: true, ..ni }),
        last => last,
    })
    &&& r.update is None <==> same_endpoints(a.msock.endpoints.last_endpoints@, eps)
    &&& r.update matches Some(u) ==> u.discovered@ == addrs_of(eps) && b.msock.published(u.publish)
    &&& answers_queue(r.messages@, a.msock.pending_call_me_maybes@, addrs_of(eps))
}

impl Actor {
    /// The socket keeps its invariant.
    pub open spec fn wf(&self) -> bool {
        self.msock.wf()
    }

    /// An actor that knows nothing of the network.
    pub fn new(msock: MagicSock) -> (r: Self)
        requires
            msock.wf(),
        ensures
            r.wf(),
            r.msock == msock,
            r.net_info_last is None,
            !r.no_v4_send,
    {
        Actor { msock, net_info_last: None, no_v4_send: false }
    }

    /// Schedules an endpoint update, and signals it if it starts now.
    fn signal_re_stun(&mut self, why: &'static str, out: &mut Vec<Action>)
        requires
            old(self).wf(),
        ensures
            final(self).wf(),
            *final(self) == (Actor { msock: final(self).msock, ..*old(self) }),
            scheduled(
                old(self).msock.endpoints_update_state,
                why,
                final(self).msock.endpoints_update_state,
            ),
            final(self).msock == (MagicSock {
                endpoints_update_state: final(self).msock.endpoints_update_state,
                ..old(self).msock
            }),
            final(out)@ == old(out)@ + signal(old(self).msock, why),
    {
        match self.msock.re_stun(why) {
            Some(why) => {
                out.push(Action::SignalUpdate(why));
            },
            None => {},
        }
        assert(out@ =~= old(out)@ + signal(old(self).msock, why));
    }

    /// Reacts to a change of the network. After a major one the old routes are
    /// not trusted any more.
    pub fn handle_network_change(&mut self, is_major: bool) -> (r: Vec<Action>)
        requires
            old(self).wf(),
        ensures
            final(self).wf(),
            *final(self) == (Actor { msock: final(self).msock, ..*old(self) }),
            tick_changes(old(self).msock, Tick::LinkChange(is_major), final(self).msock),
            r@ == network_change_actions(old(self).msock, is_major),
    {
        let mut out: Vec<Action> = Vec::new();
        if is_major {
            out.push(Action::ClearDnsCache);
            self.signal_re_stun("link-change-major", &mut out);
            out.push(Action::CloseStaleRelays);
            out.push(Action::ResetNodeStates);
            assert(out@ =~= network_change_actions(old(self).msock, is_major));
        } else {
            self.signal_re_stun("link-change-minor", &mut out);
            assert(out@ =~= network_change_actions(old(self).msock, is_major));
        }
        out
    }

    /// Processes an incoming actor message.
    ///
    /// Returns what is to be done, and `true` if it was a shutdown.
    pub fn handle_actor_message(&mut self, msg: ActorMessage) -> (r: (Vec<Action>, bool))
        requires
            old(self).wf(),
        ensures
            final(self).wf(),
            *final(self) == (Actor { msock: final(self).msock, ..*old(self) }),
            tick_changes(old(self).msock, Tick::Message(msg), final(self).msock),
            r.0@ == message_actions(old(self).msock, msg),
            r.1 == tick_stops(Tick::Message(msg)),
    {
        let mut out: Vec<Action> = Vec::new();
        match msg {
            ActorMessage::Shutdown => {
                out.push(Action::NotifyShutdown);
                out.push(Action::DeactivatePortMapper);
                out.push(Action::CancelRelayActor);
                // They will frequently have been closed already.
                if self.msock.has_conn6 {
                    out.push(Action::CloseConn6);
                }
                out.push(Action::CloseConn4);
                assert(out@ =~= message_actions(old(self).msock, msg));
                return (out, true);
            },
            ActorMessage::ReceiveRelay(read_result) => {
                out.push(Action::ProcessRelay(read_result));
            },
            ActorMessage::EndpointPingExpired(id, txid) => {
                out.push(Action::NotifyPingTimeout(id, txid));
            },
            ActorMessage::NetcheckReport(report, why) => {
                match report {
                    Ok(report) => {
                        out.push(Action::HandleReport(report));
                    },
                    Err(_) => {},
                }
                out.push(Action::FinalizeUpdate(why));
            },
            ActorMessage::NetworkChange => {
                out.push(Action::CheckNetwork);
            },
            ActorMessage::ForceNetworkChange(is_major) => {
                out = self.handle_network_change(is_major);
            },
        }
        assert(out@ =~= message_actions(old(self).msock, msg));
        (out, false)
    }

    /// One round of the actor's loop: what is to be done on an event, and `true`
    /// if the loop ends.
    pub fn run(&mut self, tick: Tick) -> (r: (Vec<Action>, bool))
        requires
            old(self).wf(),
        ensures
            final(self).wf(),
            *final(self) == (Actor { msock: final(self).msock, ..*old(self) }),
            tick_changes(old(self).msock, tick, final(self).msock),
            r.0@ == tick_actions(old(self).msock, tick),
            r.1 == tick_stops(tick),
    {
        let mut out: Vec<Action> = Vec::new();
        match tick {
            Tick::Message(msg) => {
                return self.handle_actor_message(msg);
            },
            Tick::ReStunTimer => {
                self.signal_re_stun("periodic", &mut out);
            },
            Tick::PortmapChanged => {
                self.signal_re_stun("portmap_updated", &mut out);
            },
            Tick::Heartbeat => {
                out.push(Action::PruneInactive);
                out.push(Action::SendStayinAlive);
            },
            Tick::UpdateChanged(reason) => {
                if let Some(why) = reason {
                    // Refreshes knowledge about our local endpoints.
                    out.push(Action::ProcureMapping);
                    out.push(Action::UpdateNetInfo(why));
                }
            },
            Tick::LinkChange(is_major) => {
                out = self.handle_network_change(is_major);
            },
        }
        assert(out@ =~= tick_actions(old(self).msock, tick));
        (out, false)
    }

    /// The local address of the sockets as they are now.
    pub open spec fn spec_normalized_local_addr(
        v4: Option<SocketAddr>,
        v6: Option<Option<SocketAddr>>,
    ) -> Option<SocketAddr> {
        match v6 {
            Some(addr) => addr,
            None => v4,
        }
    }

    /// The local address of the sockets as they are now: that of the IPv6 socket,
    /// if there is one, and else that of the IPv4 socket. A socket that cannot
    /// tell its address has none, and an IPv6 socket that cannot is not replaced
    /// by the other.
    pub fn normalized_local_addr(v4: Option<SocketAddr>, v6: Option<Option<SocketAddr>>) -> (r:
        Option<SocketAddr>)
        ensures
            r == Self::spec_normalized_local_addr(v4, v6),
    {
        if let Some(v6) = v6 {
            return v6;
        }
        v4
    }

    /// Whether the network is checked.
    pub open spec fn spec_update_net_info(self) -> NetInfoStep {
        if self.msock.relay_urls@.len() == 0 {
            NetInfoStep::SkipReport
        } else {
            NetInfoStep::RequestReport
        }
    }

    /// Checks the network, unless there is no relay to check it against.
    pub fn update_net_info(&self) -> (r: NetInfoStep)
        ensures
            r == self.spec_update_net_info(),
    {
        if self.msock.relay_urls.is_empty() {
            NetInfoStep::SkipReport
        } else {
            NetInfoStep::RequestReport
        }
    }

    /// Updates `NetInfo.HavePortMap` to true.
    pub fn set_net_info_have_port_map(&mut self)
        ensures
            *final(self) == (Actor {
                net_info_last: match old(self).net_info_last {
                    Some(ni) => Some(NetInfo { have_port_map: true, ..ni }),
                    None => None,
                },
                ..*old(self)
            }),
    {
        match self.net_info_last.take() {
            Some(ni) => {
                let mut ni = ni;
                ni.have_port_map = true;
                self.net_info_last = Some(ni);
            },
            None => {},
        }
    }

    /// Remembers what is known of the network, unless it is basically the same.
    pub fn call_net_info_callback(&mut self, ni: NetInfo)
        ensures
            *final(self) == (Actor {
                net_info_last: remembered(old(self).net_info_last, ni),
                ..*old(self)
            }),
    {
        if let Some(net_info_last) = &self.net_info_last {
            if ni.basically_equal(net_info_last) {
                return;
            }
        }
        self.net_info_last = Some(ni);
    }

    /// Takes in a network report. `have_port_map` says whether the port mapper
    /// has an external address.
    ///
    /// If UDP is blocked the report may name no relay; then a deterministic but
    /// arbitrary one is picked.
    pub fn handle_netcheck_report(&mut self, report: &Option<Report>, have_port_map: bool) -> (r:
        Option<HomeRelayChange>)
        requires
            old(self).wf(),
        ensures
            final(self).wf(),
            report is None ==> r is None && *final(self) == *old(self),
            *report matches Some(nr) ==> report_taken(
                *old(self),
                nr,
                have_port_map,
                r,
                *final(self),
            ),
    {
        match report {
            Some(nr) => {
                self.msock.ipv6_reported = nr.ipv6;
                self.no_v4_send = !nr.ipv4_can_send;
                let mut preferred = clone_url(&nr.preferred_relay);
                if preferred.is_none() {
                    // Perhaps UDP is blocked. Pick a deterministic but arbitrary one.
                    preferred = self.msock.pick_relay_fallback();
                }
                let ni = NetInfo::from_report(nr, have_port_map, preferred);
                let change = self.msock.set_nearest_relay(ni.preferred());
                self.call_net_info_callback(ni);
                change
            },
            None => None,
        }
    }

    /// Stores the results of a successful endpoint update, at the time `now`.
    ///
    /// Regardless of whether our local endpoints changed, the queued
    /// call-me-maybe messages are sent.
    pub fn store_endpoints_update(&mut self, sources: &AddrSources, now: u64) -> (r: StoreOutcome)
        requires
            old(self).wf(),
        ensures
            final(self).wf(),
            update_stored(*old(self), *sources, now, r, *final(self)),
    {
        if sources.port_mapped.is_some() {
            self.set_net_info_have_port_map();
        }
        let eps = gather_direct_addrs(sources);
        let update = self.msock.update_direct_addresses(eps, now);
        let messages = self.msock.send_queued_call_me_maybes();
        StoreOutcome { update, messages }
    }
}

/// The report of a check of the network.
pub open spec fn report_of(wait: ReportWait) -> Result<Option<Report>, NetcheckError> {
    match wait {
        ReportWait::Report(report) => Ok(Some(report)),
        ReportWait::Failed(e) => Err(NetcheckError::Failed(e)),
        ReportWait::Dropped => Err(NetcheckError::NotReceived),
        ReportWait::Elapsed => Err(NetcheckError::Timeout),
    }
}

/// The report of a check of the network, by how waiting for it ended.
pub fn report_result(wait: ReportWait) -> (r: Result<Option<Report>, NetcheckError>)
    ensures
        r == report_of(wait),
{
    match wait {
        ReportWait::Report(report) => Ok(Some(report)),
        ReportWait::Failed(e) => Err(NetcheckError::Failed(e)),
        ReportWait::Dropped => Err(NetcheckError::NotReceived),
        ReportWait::Elapsed => Err(NetcheckError::Timeout),
    }
}

/// Whatever wakes the actor, at most one endpoint update runs, and one is
/// remembered only while one runs: no event starts an update beside another.
pub proof fn updates_never_overlap(a: MagicSock, tick: Tick, b: MagicSock)
    requires
        a.wf(),
        tick_changes(a, tick, b),
    ensures
        b.endpoints_update_state.wf(),
        a.endpoints_update_state.running() is Some ==> {
            &&& b.endpoints_update_state.running() == a.endpoints_update_state.running()
            &&& forall|i: int|
                0 <= i < tick_actions(a, tick).len() ==> !(#[trigger] tick_actions(a, tick)[i]
                    is SignalUpdate)
        },
{
}

/// Every report ends the update that it was made for, and one that came is taken
/// in before that.
pub proof fn every_report_ends_the_update(
    sock: MagicSock,
    report: Option<Report>,
    e: NetcheckError,
    why: &'static str,
)
    ensures
        ({
            let made = tick_actions(sock, Tick::Message(ActorMessage::NetcheckReport(Ok(report), why)));
            let failed = tick_actions(sock, Tick::Message(ActorMessage::NetcheckReport(Err(e), why)));
            &&& made.len() == 2
            &&& made[0] == Action::HandleReport(report)
            &&& made[1] == Action::FinalizeUpdate(why)
            &&& failed.len() == 1
            &&& failed[0] == Action::FinalizeUpdate(why)
        }),
{
}

/// A shutdown tells the node map, stops the port mapper and the relay clients, and
/// closes every socket that there is. Nothing else does any of that.
pub proof fn a_shutdown_stops_everything(sock: MagicSock, tick: Tick)
    ensures
        ({
            let actions = tick_actions(sock, tick);
            let stops = tick matches Tick::Message(ActorMessage::Shutdown);
            &&& tick_stops(tick) <==> stops
            &&& actions.contains(Action::NotifyShutdown) <==> stops
            &&& actions.contains(Action::DeactivatePortMapper) <==> stops
            &&& actions.contains(Action::CancelRelayActor) <==> stops
            &&& actions.contains(Action::CloseConn4) <==> stops
            &&& actions.contains(Action::CloseConn6) <==> stops && sock.has_conn6
        }),
{
    let actions = tick_actions(sock, tick);
    if tick matches Tick::Message(ActorMessage::Shutdown) {
        assert(actions[0] == Action::NotifyShutdown);
        assert(actions[1] == Action::DeactivatePortMapper);
        assert(actions[2] == Action::CancelRelayActor);
        assert(actions[actions.len() - 1] == Action::CloseConn4);
        if sock.has_conn6 {
            assert(actions[3] == Action::CloseConn6);
        }
    }
}

/// Where no update runs, an event that asks for one starts it, for the reason of
/// the event, and it is signalled exactly once. The periodic timer, a new port
/// mapping and every change of the network ask for one.
pub proof fn updates_that_are_asked_for_start(
    a: MagicSock,
    is_major: bool,
    tick: Tick,
    b: MagicSock,
)
    requires
        tick_changes(a, tick, b),
        a.endpoints_update_state.running() is None,
        ({
            ||| tick is ReStunTimer
            ||| tick is PortmapChanged
            ||| tick == Tick::LinkChange(is_major)
            ||| tick == Tick::Message(ActorMessage::ForceNetworkChange(is_major))
        }),
    ensures
        b.endpoints_update_state.running() is Some,
        b.endpoints_update_state.running()->0 == (if tick is ReStunTimer {
            "periodic"
        } else if tick is PortmapChanged {
            "portmap_updated"
        } else if is_major {
            "link-change-major"
        } else {
            "link-change-minor"
        }),
        tick_actions(a, tick).contains(
            Action::SignalUpdate(b.endpoints_update_state.running()->0),
        ),
        forall|i: int, j: int|
            0 <= i < tick_actions(a, tick).len() && 0 <= j < tick_actions(a, tick).len() && (
            #[trigger] tick_actions(a, tick)[i]) is SignalUpdate && (#[trigger] tick_actions(a, tick)[j])
                is SignalUpdate ==> i == j,
{
    let actions = tick_actions(a, tick);
    let why = b.endpoints_update_state.running()->0;
    if actions[0] is SignalUpdate {
        assert(actions[0] == Action::SignalUpdate(why));
    } else {
        assert(actions[1] == Action::SignalUpdate(why));
    }
}

/// After a major change of the network nothing that depended on the old one is
/// trusted any more: cached names, the connections to the relays and the paths to
/// the nodes. After a minor one they stay.
pub proof fn major_changes_reset_what_is_known(sock: MagicSock, is_major: bool)
    ensures
        ({
            let change = tick_actions(sock, Tick::LinkChange(is_major));
            let forced = tick_actions(
                sock,
                Tick::Message(ActorMessage::ForceNetworkChange(is_major)),
            );
            &&& forced == change
            &&& change.contains(Action::ClearDnsCache) <==> is_major
            &&& change.contains(Action::CloseStaleRelays) <==> is_major
            &&& change.contains(Action::ResetNodeStates) <==> is_major
        }),
{
    let change = tick_actions(sock, Tick::LinkChange(is_major));
    if is_major {
        assert(change[0] == Action::ClearDnsCache);
        assert(change[change.len() - 2] == Action::CloseStaleRelays);
        assert(change[change.len() - 1] == Action::ResetNodeStates);
    }
}

/// An update that was started is carried out for its reason, a relay message is
/// passed on as it came, the end of a ping is told with its id, the heartbeat keeps
/// the paths open, and a hint that the network changed has it looked at.
pub proof fn each_event_has_its_action(
    sock: MagicSock,
    why: &'static str,
    msg: RelayReadResult,
    id: usize,
    tx: TransactionId,
)
    ensures
        tick_actions(sock, Tick::UpdateChanged(Some(why))).contains(Action::UpdateNetInfo(why)),
        tick_actions(sock, Tick::UpdateChanged(Some(why))).contains(Action::ProcureMapping),
        tick_actions(sock, Tick::UpdateChanged(None)).len() == 0,
        tick_actions(sock, Tick::Message(ActorMessage::ReceiveRelay(msg))) == seq![
            Action::ProcessRelay(msg),
        ],
        tick_actions(sock, Tick::Message(ActorMessage::EndpointPingExpired(id, tx))) == seq![
            Action::NotifyPingTimeout(id, tx),
        ],
        tick_actions(sock, Tick::Message(ActorMessage::NetworkChange)) == seq![
            Action::CheckNetwork,
        ],
        tick_actions(sock, Tick::Heartbeat).contains(Action::SendStayinAlive),
        tick_actions(sock, Tick::Heartbeat).contains(Action::PruneInactive),
{
    let started = tick_actions(sock, Tick::UpdateChanged(Some(why)));
    assert(started[0] == Action::ProcureMapping);
    assert(started[1] == Action::UpdateNetInfo(why));
    let beat = tick_actions(sock, Tick::Heartbeat);
    assert(beat[0] == Action::PruneInactive);
    assert(beat[1] == Action::SendStayinAlive);
}

/// After a report the relay that it prefers is our home. A report that prefers
/// none leaves the home as it is, and a node without a home gets one as soon as
/// any relay is known. What the report says of IPv6 and of sending over IPv4 is
/// kept, and nothing of the endpoints and their updates changes.
pub proof fn a_report_decides_the_home(
    a: Actor,
    nr: Report,
    have_port_map: bool,
    r: Option<HomeRelayChange>,
    b: Actor,
)
    requires
        report_taken(a, nr, have_port_map, r, b),
    ensures
        nr.preferred_relay matches Some(url) ==> b.msock.my_relay is Some && b.msock.my_relay->0@
            == url@,
        nr.preferred_relay is None && a.msock.my_relay is Some ==> b.msock.my_relay is Some
            && b.msock.my_relay->0@ == a.msock.my_relay->0@ && r is None,
        nr.preferred_relay is None && a.msock.my_relay is None ==> (b.msock.my_relay is Some
            <==> a.msock.relay_urls@.len() > 0),
        b.msock.ipv6_reported == nr.ipv6,
        b.no_v4_send <==> !nr.ipv4_can_send,
        b.msock.endpoints == a.msock.endpoints,
        b.msock.endpoints_update_state == a.msock.endpoints_update_state,
        b.msock.pending_call_me_maybes == a.msock.pending_call_me_maybes,
        b.msock.closed == a.msock.closed,
        b.net_info_last is Some,
        a.net_info_last is None ==> b.net_info_last->0.working_udp == Some(nr.udp)
            && b.net_info_last->0.have_port_map == have_port_map,
        r matches Some(change) ==> b.msock.my_relay is Some && change.set_home@
            == b.msock.my_relay->0@,
{
}

/// What is known of the network is replaced exactly if it changed.
pub proof fn only_changes_of_the_network_are_remembered(last: Option<NetInfo>, ni: NetInfo)
    ensures
        last is None ==> remembered(last, ni) == Some(ni),
        last is Some && !ni.spec_basically_equal(last->0) ==> remembered(last, ni) == Some(ni),
        last is Some && ni.spec_basically_equal(last->0) ==> remembered(last, ni) == last,
{
}

/// The end of an endpoint update leaves the addresses that were found, empties the
/// queue with one message for each node in it, and touches nothing else of the
/// socket. A change is announced, and a port mapping is remembered.
pub proof fn an_update_answers_the_queue(
    a: Actor,
    sources: AddrSources,
    now: u64,
    r: StoreOutcome,
    b: Actor,
    node: PublicKey,
)
    requires
        update_stored(a, sources, now, r, b),
    ensures
        b.msock.endpoints.last_endpoints@ == keep_first(all_candidates(sources)),
        b.msock.endpoints.spec_fresh_enough(now),
        !b.msock.pending_call_me_maybes@.dom().contains(node),
        a.msock.pending_call_me_maybes@.dom().contains(node) <==> exists|i: int|
            0 <= i < r.messages@.len() && (#[trigger] r.messages@[i]).dst_key == node,
        forall|i: int|
            0 <= i < r.messages@.len() && (#[trigger] r.messages@[i]).dst_key == node
                ==> r.messages@[i].url == a.msock.pending_call_me_maybes@[node],
        b.msock.my_relay == a.msock.my_relay,
        b.msock.endpoints_update_state == a.msock.endpoints_update_state,
        b.msock.closed == a.msock.closed,
        r.update is None <==> forall|d: DirectAddr| #[trigger]
            b.msock.endpoints.last_endpoints@.contains(d)
                <==> a.msock.endpoints.last_endpoints@.contains(d),
        r.update matches Some(u) ==> (u.publish is Some <==> a.msock.has_discovery)
            && u.discovered@.len() == b.msock.endpoints.last_endpoints@.len(),
        a.net_info_last is Some && sources.port_mapped is Some ==> b.net_info_last is Some
            && b.net_info_last->0.have_port_map,
        sources.port_mapped is None ==> b.net_info_last == a.net_info_last,
{
    let eps = keep_first(all_candidates(sources));
    crate::net::sock::every_queued_node_is_asked_once(
        r.messages@,
        a.msock.pending_call_me_maybes@,
        addrs_of(eps),
        node,
    );
    crate::net::endpoints::same_endpoints_hold_the_same(a.msock.endpoints.last_endpoints@, eps);
}

/// A report that came is handed on as it is, and anything else is the error that
/// says what went wrong.
pub proof fn reports_are_handed_on(wait: ReportWait)
    ensures
        wait matches ReportWait::Report(report) ==> report_of(wait) == Ok::<_, NetcheckError>(
            Some(report),
        ),
        wait matches ReportWait::Failed(e) ==> report_of(wait) == Err::<Option<Report>, _>(
            NetcheckError::Failed(e),
        ),
        wait is Dropped ==> report_of(wait) == Err::<Option<Report>, _>(NetcheckError::NotReceived),
        wait is Elapsed ==> report_of(wait) == Err::<Option<Report>, _>(NetcheckError::Timeout),
{
}

/// The network is checked whenever there is a relay to check it against. The local
/// address is that of the IPv6 socket wherever there is one, even if it cannot tell
/// its address, and else that of the IPv4 socket.
pub proof fn the_ipv6_socket_comes_first(
    actor: Actor,
    v4: Option<SocketAddr>,
    v6: Option<SocketAddr>,
)
    ensures
        actor.spec_update_net_info() is RequestReport <==> actor.msock.relay_urls@.len() > 0,
        actor.spec_update_net_info() is SkipReport <==> actor.msock.relay_urls@.len() == 0,
        Actor::spec_normalized_local_addr(v4, Some(v6)) == v6,
        Actor::spec_normalized_local_addr(v4, None) == v4,
{
}

} // verus!
