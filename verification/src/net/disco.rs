//! Discovery messages: what each one asks for, and how pings are sent.

use crate::key::{NodeId, PublicKey};
use crate::net::addr::{DiscoMessageSource, RelayUrl, SendAddr, SocketAddr};
use crate::net::packets::Transmit;
use crate::net::poll::{Poll, SockError};
use crate::vecs::reversed;
use bytes::Bytes;
use vstd::prelude::*;

verus! {

/// Tells a ping from others.
#[derive(Debug, Clone, Copy, PartialEq, Eq, Hash)]
pub struct TransactionId(pub [u8; 12]);

/// Asks whether a path works.
#[derive(Debug, Clone, Copy, PartialEq, Eq)]
pub struct Ping {
    /// Comes back in the answer.
    pub tx_id: TransactionId,
    /// The node that asks.
    pub node_key: PublicKey,
}

/// Answers a ping.
#[derive(Debug, Clone, PartialEq, Eq)]
pub struct Pong {
    /// The id of the ping.
    pub tx_id: TransactionId,
    /// Where the ping was seen to come from.
    pub ping_observed_addr: SendAddr,
}

/// Asks the other node to ping this one.
#[derive(Debug, Clone, PartialEq, Eq)]
pub struct CallMeMaybe {
    /// The addresses on which this node may be reached.
    pub my_numbers: Vec<SocketAddr>,
}

/// A discovery message.
#[derive(Debug, Clone, PartialEq, Eq)]
pub enum Message {
    Ping(Ping),
    Pong(Pong),
    CallMeMaybe(CallMeMaybe),
}

/// What a ping is sent for.
#[derive(Debug, Clone, Copy, PartialEq, Eq, Structural)]
pub struct PingPurpose(pub u8);

/// A ping to be sent.
#[derive(Debug, PartialEq, Eq)]
pub struct SendPing {
    /// The number of the node in the node map.
    pub id: usize,
    /// The path that the ping tries.
    pub dst: SendAddr,
    /// The node that the ping goes to.
    pub dst_node: NodeId,
    /// The id of the ping.
    pub tx_id: TransactionId,
    /// What the ping is sent for.
    pub purpose: PingPurpose,
}

/// Something to be sent to find or keep a path to a node.
#[derive(Debug, PartialEq, Eq)]
pub enum PingAction {
    SendCallMeMaybe { relay_url: RelayUrl, dst_node: NodeId },
    SendPing(SendPing),
}

/// A ping that was sent, as the node map is told of it.
#[derive(Debug, PartialEq, Eq)]
pub struct PingSent {
    pub id: usize,
    pub dst: SendAddr,
    pub tx_id: TransactionId,
    pub purpose: PingPurpose,
}

/// Why a sealed message could not be read.
#[derive(Debug, Clone, Copy, PartialEq, Eq, Structural)]
pub enum DiscoBoxError {
    /// Failed to open crypto box.
    Open,
    /// Failed to parse disco message.
    Parse,
}

/// What a discovery message leads to.
#[derive(Debug)]
pub enum DiscoAction {
    /// Nothing.
    Ignore,
    /// A ping is to be answered.
    HandlePing { ping: Ping, sender: PublicKey, src: DiscoMessageSource },
    /// The node map takes an answer to a ping.
    HandlePong { pong: Pong, sender: PublicKey, src: DiscoMessageSource },
    /// The node map takes the addresses of a node that wants to be pinged.
    HandleCallMeMaybe { sender: PublicKey, msg: CallMeMaybe },
}

/// What a discovery message leads to: nothing on a closed socket or for a
/// message that could not be read, and a call-me-maybe counts only if it came
/// through a relay.
pub open spec fn disco_action(
    is_closed: bool,
    dm: Result<Message, DiscoBoxError>,
    sender: PublicKey,
    src: DiscoMessageSource,
) -> DiscoAction {
    if is_closed {
        DiscoAction::Ignore
    } else {
        match dm {
            Err(_) => DiscoAction::Ignore,
            Ok(Message::Ping(ping)) => DiscoAction::HandlePing { ping, sender, src },
            Ok(Message::Pong(pong)) => DiscoAction::HandlePong { pong, sender, src },
            Ok(Message::CallMeMaybe(msg)) => if src is Relay {
                DiscoAction::HandleCallMeMaybe { sender, msg }
            } else {
                DiscoAction::Ignore
            },
        }
    }
}

/// Handles a discovery message that was unsealed to `dm`.
pub fn handle_disco_message(
    is_closed: bool,
    dm: Result<Message, DiscoBoxError>,
    sender: PublicKey,
    src: DiscoMessageSource,
) -> (r: DiscoAction)
    ensures
        r == disco_action(is_closed, dm, sender, src),
{
    if is_closed {
        return DiscoAction::Ignore;
    }
    let dm = match dm {
        Ok(dm) => dm,
        // Couldn't open or parse it, but it may come from a version that we
        // don't understand: just ignore it.
        Err(_) => {
            return DiscoAction::Ignore;
        },
    };
    match dm {
        Message::Ping(ping) => DiscoAction::HandlePing { ping, sender, src },
        Message::Pong(pong) => DiscoAction::HandlePong { pong, sender, src },
        Message::CallMeMaybe(msg) => {
            if src.is_relay() {
                DiscoAction::HandleCallMeMaybe { sender, msg }
            } else {
                // call-me-maybe packets should only come via relay
                DiscoAction::Ignore
            }
        },
    }
}

/// The pings among the actions, in order.
pub open spec fn pings_of(actions: Seq<PingAction>) -> Seq<SendPing>
    decreases actions.len(),
{
    if actions.len() == 0 {
        Seq::empty()
    } else {
        let before = pings_of(actions.drop_last());
        match actions.last() {
            PingAction::SendPing(ping) => before.push(ping),
            PingAction::SendCallMeMaybe { .. } => before,
        }
    }
}

/// What is sent in response to a call-me-maybe: the pings, in order. A
/// call-me-maybe is not answered by another one.
pub fn call_me_maybe_pings(actions: Vec<PingAction>) -> (r: Vec<SendPing>)
    ensures
        r@ == pings_of(actions@),
{
    let ghost all = actions@;
    let mut rest = reversed(actions);
    let mut out: Vec<SendPing> = Vec::new();
    let ghost mut n: int = 0;
    assert(all.take(0) =~= Seq::empty());
    while rest.len() > 0
        invariant
            0 <= n <= all.len(),
            rest@ == all.subrange(n, all.len() as int).reverse(),
            out@ == pings_of(all.take(n)),
        decreases rest@.len(),
    {
        if let Some(action) = rest.pop() {
            proof {
                assert(action == all[n]);
                assert(rest@ =~= all.subrange(n + 1, all.len() as int).reverse());
                assert(all.take(n + 1).drop_last() =~= all.take(n));
                n = n + 1;
            }
            match action {
                PingAction::SendPing(ping) => {
                    out.push(ping);
                },
                PingAction::SendCallMeMaybe { .. } => {},
            }
        }
    }
    assert(all.take(n) =~= all);
    out
}

/// What the node map makes of a ping.
#[derive(Debug, Clone, Copy, PartialEq, Eq, Structural)]
pub enum PingRole {
    /// The path was confirmed by the same ping already.
    Duplicate,
    NewPath,
    LikelyHeartbeat,
    Activate,
}

/// How a ping is answered.
#[derive(Debug)]
pub struct PingReply {
    /// Where the answer goes.
    pub dst: SendAddr,
    /// The node that it goes to.
    pub dst_node: PublicKey,
    /// The answer.
    pub pong: Pong,
    /// A ping of our own that follows it.
    pub ping_back: Option<SendPing>,
}

/// How a ping is answered, by what the node map makes of it.
pub open spec fn ping_reply(
    role: PingRole,
    needs_ping_back: Option<SendPing>,
    dm: Ping,
    sender: NodeId,
    src: DiscoMessageSource,
) -> Option<PingReply> {
    if role is Duplicate {
        None
    } else {
        Some(
            PingReply {
                dst: src.spec_send_addr(),
                dst_node: sender,
                pong: Pong { tx_id: dm.tx_id, ping_observed_addr: src.spec_send_addr() },
                ping_back: needs_ping_back,
            },
        )
    }
}

/// Handle a ping message.
///
/// `role` and `needs_ping_back` are what the node map makes of it. A duplicate
/// is not answered; to any other one the answer goes back the way it came.
pub fn handle_ping(
    role: PingRole,
    needs_ping_back: Option<SendPing>,
    dm: Ping,
    sender: NodeId,
    src: &DiscoMessageSource,
) -> (r: Option<PingReply>)
    ensures
        r == ping_reply(role, needs_ping_back, dm, sender, *src),
{
    match role {
        PingRole::Duplicate => {
            return None;
        },
        PingRole::LikelyHeartbeat => {},
        PingRole::NewPath => {},
        PingRole::Activate => {},
    }
    let addr = src.send_addr();
    let pong = Pong { tx_id: dm.tx_id, ping_observed_addr: addr.clone() };
    Some(PingReply { dst: addr, dst_node: sender, pong, ping_back: needs_ping_back })
}

/// Which queue a message goes to.
#[derive(Debug)]
pub enum Queued {
    /// The queue of messages for the UDP sockets.
    Udp { dst: SocketAddr, dst_key: PublicKey, msg: Message },
    /// The queue of a relay client.
    Relay { url: RelayUrl, dst_key: PublicKey, msg: Message },
}

/// The queue for a message, by the path that it takes.
pub open spec fn queued(dst: SendAddr, dst_key: PublicKey, msg: Message) -> Queued {
    match dst {
        SendAddr::Udp(addr) => Queued::Udp { dst: addr, dst_key, msg },
        SendAddr::Relay(url) => Queued::Relay { url, dst_key, msg },
    }
}

/// Send a disco message. UDP messages will be queued.
///
/// If `dst` is [`SendAddr::Relay`], the message will be pushed into the relay client channel.
/// If `dst` is [`SendAddr::Udp`], the message will be pushed into the udp disco send channel.
pub fn send_disco_message_queued(dst: SendAddr, dst_key: PublicKey, msg: Message) -> (r: Queued)
    ensures
        r == queued(dst, dst_key, msg),
{
    match dst {
        SendAddr::Udp(addr) => Queued::Udp { dst: addr, dst_key, msg },
        SendAddr::Relay(url) => Queued::Relay { url, dst_key, msg },
    }
}

/// The message that a ping is, sent by the node with the key `public_key`.
pub open spec fn spec_ping_message(ping: SendPing, public_key: PublicKey) -> Message {
    Message::Ping(Ping { tx_id: ping.tx_id, node_key: public_key })
}

/// The message that a ping is, sent by the node with the key `public_key`.
pub fn ping_message(ping: &SendPing, public_key: PublicKey) -> (r: Message)
    ensures
        r == spec_ping_message(*ping, public_key),
{
    Message::Ping(Ping { tx_id: ping.tx_id, node_key: public_key })
}

/// Queues a ping on the path that it tries.
pub fn send_ping_queued(ping: &SendPing, public_key: PublicKey) -> (r: Queued)
    ensures
        r == queued(ping.dst, ping.dst_node, spec_ping_message(*ping, public_key)),
{
    let msg = ping_message(ping, public_key);
    send_disco_message_queued(ping.dst.clone(), ping.dst_node, msg)
}

/// What the node map is told of a ping that was sent.
pub open spec fn ping_sent(ping: SendPing) -> PingSent {
    PingSent { id: ping.id, dst: ping.dst, tx_id: ping.tx_id, purpose: ping.purpose }
}

/// What the node map is told of a ping, by whether it was sent.
pub open spec fn ping_told(ping: SendPing, sent: bool) -> Option<PingSent> {
    if sent {
        Some(ping_sent(ping))
    } else {
        None
    }
}

/// The node map is told of a ping that was sent, and of no other.
pub fn ping_queued(ping: SendPing, sent: bool) -> (r: Option<PingSent>)
    ensures
        r == ping_told(ping, sent),
{
    if sent {
        Some(PingSent { id: ping.id, dst: ping.dst, tx_id: ping.tx_id, purpose: ping.purpose })
    } else {
        None
    }
}

/// What comes of sending a ping at once, and what the node map is told.
pub fn poll_send_ping(ping: &SendPing, sent: Poll<Result<(), SockError>>) -> (r: (
    Poll<Result<(), SockError>>,
    Option<PingSent>,
))
    ensures
        r.0 == sent,
        r.1 == ping_told(*ping, sent matches Poll::Ready(Ok(_))),
{
    match sent {
        Poll::Ready(Ok(done)) => (
            Poll::Ready(Ok(done)),
            Some(
                PingSent {
                    id: ping.id,
                    dst: ping.dst.clone(),
                    tx_id: ping.tx_id,
                    purpose: ping.purpose,
                },
            ),
        ),
        Poll::Ready(Err(e)) => (Poll::Ready(Err(e)), None),
        Poll::Pending => (Poll::Pending, None),
    }
}

/// The outcome of sending a discovery message over UDP.
pub open spec fn disco_outcome(udp: Poll<Result<bool, SockError>>) -> Poll<Result<(), SockError>> {
    match udp {
        Poll::Ready(Ok(_)) => Poll::Ready(Ok(())),
        Poll::Ready(Err(e)) => Poll::Ready(Err(e)),
        Poll::Pending => Poll::Pending,
    }
}

/// The outcome of sending a discovery message over UDP, where it matters only
/// whether the socket took it or failed.
pub fn poll_send_disco_message(udp: Poll<Result<bool, SockError>>) -> (r: Poll<
    Result<(), SockError>,
>)
    ensures
        r == disco_outcome(udp),
{
    match udp {
        Poll::Ready(Ok(_)) => Poll::Ready(Ok(())),
        Poll::Ready(Err(e)) => Poll::Ready(Err(e)),
        Poll::Pending => Poll::Pending,
    }
}

/// What is handed to the UDP socket to send a sealed discovery message.
pub open spec fn spec_disco_transmit(is_closed: bool, dst: SocketAddr, pkt: Bytes) -> Result<
    Transmit,
    SockError,
> {
    if is_closed {
        Err(SockError::ConnectionClosed)
    } else {
        Ok(
            Transmit {
                destination: dst,
                contents: pkt,
                ecn: None,
                segment_size: None,
                src_ip: None,
            },
        )
    }
}

/// What is handed to the UDP socket to send a sealed discovery message.
pub fn disco_transmit(is_closed: bool, dst: SocketAddr, pkt: Bytes) -> (r: Result<
    Transmit,
    SockError,
>)
    ensures
        r == spec_disco_transmit(is_closed, dst, pkt),
{
    if is_closed {
        return Err(SockError::ConnectionClosed);
    }
    Ok(Transmit { destination: dst, contents: pkt, ecn: None, segment_size: None, src_ip: None })
}

/// Whether a discovery message went out.
pub open spec fn disco_sent(sent: Poll<Result<usize, SockError>>) -> Poll<Result<bool, SockError>> {
    match sent {
        Poll::Ready(Ok(n)) => Poll::Ready(Ok(n != 0)),
        Poll::Ready(Err(e)) => Poll::Ready(Err(e)),
        Poll::Pending => Poll::Pending,
    }
}

/// Whether a discovery message went out, by what the UDP socket says of the
/// number of transmits that it sent.
pub fn poll_send_disco_message_udp(sent: Poll<Result<usize, SockError>>) -> (r: Poll<
    Result<bool, SockError>,
>)
    ensures
        r == disco_sent(sent),
{
    match sent {
        // Can't send. (e.g. no IPv6 locally)
        Poll::Ready(Ok(0)) => Poll::Ready(Ok(false)),
        Poll::Ready(Ok(_)) => Poll::Ready(Ok(true)),
        Poll::Ready(Err(e)) => Poll::Ready(Err(e)),
        Poll::Pending => Poll::Pending,
    }
}

/// What came of pushing a message into a queue.
#[derive(Debug, Clone, Copy, PartialEq, Eq, Structural)]
pub enum TrySend {
    /// The queue took it.
    Sent,
    /// Nobody reads the queue any more.
    Closed,
    /// The queue has no room now.
    Full,
}

/// The outcome of sending to a relay.
pub open spec fn relay_poll(queue: TrySend) -> Poll<bool> {
    match queue {
        TrySend::Sent => Poll::Ready(true),
        TrySend::Closed => Poll::Ready(false),
        TrySend::Full => Poll::Pending,
    }
}

/// The outcome of sending to a relay, by what the queue of the relay clients
/// did: a message for which there is no room can be sent later, one that nobody
/// reads cannot.
pub fn poll_send_relay(queue: TrySend) -> (r: Poll<bool>)
    ensures
        r == relay_poll(queue),
{
    match queue {
        TrySend::Sent => Poll::Ready(true),
        TrySend::Closed => Poll::Ready(false),
        TrySend::Full => Poll::Pending,
    }
}

/// Whether a discovery message went to the relay.
pub fn send_disco_message_relay(sent: Poll<bool>) -> (r: bool)
    ensures
        r == (sent == Poll::Ready(true)),
{
    match sent {
        Poll::Ready(true) => true,
        _ => false,
    }
}

/// What to do for one action.
#[derive(Debug)]
pub enum PingStep<'a> {
    /// Nothing: the socket is shutting down.
    Skip,
    /// Ask a node to ping us, now or when our endpoints are known.
    CallMeMaybe { relay_url: &'a RelayUrl, dst_node: NodeId },
    /// Send a ping.
    Ping(&'a SendPing),
}

/// What to do for one action.
pub open spec fn ping_step<'a>(
    is_closing: bool,
    is_closed: bool,
    msg: &'a PingAction,
) -> PingStep<'a> {
    if is_closing || is_closed {
        PingStep::Skip
    } else {
        match *msg {
            PingAction::SendCallMeMaybe { relay_url, dst_node } => PingStep::CallMeMaybe {
                relay_url: &relay_url,
                dst_node,
            },
            PingAction::SendPing(ping) => PingStep::Ping(&ping),
        }
    }
}

/// What to do for one action. Sending is aborted as soon as we know we are
/// shutting down.
pub fn poll_handle_ping_action<'a>(
    is_closing: bool,
    is_closed: bool,
    msg: &'a PingAction,
) -> (r: PingStep<'a>)
    ensures
        r == ping_step(is_closing, is_closed, msg),
{
    if is_closing || is_closed {
        return PingStep::Skip;
    }
    match msg {
        PingAction::SendCallMeMaybe { relay_url, dst_node } => PingStep::CallMeMaybe {
            relay_url,
            dst_node: *dst_node,
        },
        PingAction::SendPing(ping) => PingStep::Ping(ping),
    }
}

/// What the handling of a list of actions does next.
#[derive(Debug)]
pub enum PingLoop {
    /// Handle this action and come back with its outcome.
    Handle(PingAction),
    /// Stop with this outcome.
    Done(Poll<Result<(), SockError>>),
}

/// What the last handled action came to.
#[derive(Debug)]
pub enum PingEvent {
    /// None was handled yet.
    Start,
    /// This one was handled, with this outcome.
    Handled(PingAction, Poll<Result<(), SockError>>),
}

/// What the handling of a list of actions does next, and what is left of it:
/// the last one is handled next, one that cannot be handled yet goes back, and
/// an error stops it.
pub open spec fn ping_loop(msgs: Seq<PingAction>, event: PingEvent) -> (PingLoop, Seq<PingAction>) {
    match event {
        PingEvent::Handled(msg, Poll::Pending) => (PingLoop::Done(Poll::Pending), msgs.push(msg)),
        PingEvent::Handled(_, Poll::Ready(Err(e))) => (PingLoop::Done(Poll::Ready(Err(e))), msgs),
        _ => if msgs.len() == 0 {
            (PingLoop::Done(Poll::Ready(Ok(()))), msgs)
        } else {
            (PingLoop::Handle(msgs.last()), msgs.drop_last())
        },
    }
}

/// Handles the actions from the last one to the first.
///
/// One that cannot be handled yet goes back to where it was, and nothing more is
/// done. An error also stops it; the action that failed is gone.
pub fn poll_handle_ping_actions(msgs: &mut Vec<PingAction>, event: PingEvent) -> (r: PingLoop)
    ensures
        (r, final(msgs)@) == ping_loop(old(msgs)@, event),
{
    match event {
        PingEvent::Handled(msg, Poll::Pending) => {
            msgs.push(msg);
            return PingLoop::Done(Poll::Pending);
        },
        PingEvent::Handled(_, Poll::Ready(Err(e))) => {
            return PingLoop::Done(Poll::Ready(Err(e)));
        },
        _ => {},
    }
    match msgs.pop() {
        Some(msg) => PingLoop::Handle(msg),
        None => PingLoop::Done(Poll::Ready(Ok(()))),
    }
}

/// An action that cannot be handled yet is not lost: it is back in its place,
/// and it is the next one to be handled.
pub proof fn pending_actions_are_kept(msgs: Seq<PingAction>)
    requires
        msgs.len() > 0,
    ensures
        ({
            let (step, rest) = ping_loop(msgs, PingEvent::Start);
            &&& step == PingLoop::Handle(msgs.last())
            &&& ping_loop(rest, PingEvent::Handled(msgs.last(), Poll::Pending)) == (
                PingLoop::Done(Poll::Pending),
                msgs,
            )
        }),
{
    assert(msgs.drop_last().push(msgs.last()) =~= msgs);
}

/// A ping is answered exactly once: not if it is a duplicate, and else with its
/// own id, on the path on which it came, with the address at which it was seen.
pub proof fn pings_are_answered_on_their_path(
    role: PingRole,
    needs_ping_back: Option<SendPing>,
    dm: Ping,
    sender: NodeId,
    src: DiscoMessageSource,
)
    ensures
        ({
            let r = ping_reply(role, needs_ping_back, dm, sender, src);
            &&& r is None <==> role == PingRole::Duplicate
            &&& r matches Some(reply) ==> {
                &&& reply.pong.tx_id == dm.tx_id
                &&& reply.dst_node == sender
                &&& reply.ping_back == needs_ping_back
                &&& src matches DiscoMessageSource::Udp(addr) ==> reply.dst == SendAddr::Udp(addr)
                    && reply.pong.ping_observed_addr == SendAddr::Udp(addr)
                &&& src matches DiscoMessageSource::Relay { url, .. } ==> reply.dst
                    == SendAddr::Relay(url) && reply.pong.ping_observed_addr == SendAddr::Relay(url)
            }
        }),
{
}

/// An open socket acts on every message that it can read, with nothing changed,
/// save for a call-me-maybe that came straight from a socket. A closed one acts
/// on none, and a message that cannot be read is never acted on.
pub proof fn readable_messages_are_acted_on(
    ping: Ping,
    pong: Pong,
    call: CallMeMaybe,
    sender: PublicKey,
    src: DiscoMessageSource,
    dm: Result<Message, DiscoBoxError>,
)
    ensures
        disco_action(false, Ok(Message::Ping(ping)), sender, src) == (DiscoAction::HandlePing {
            ping,
            sender,
            src,
        }),
        disco_action(false, Ok(Message::Pong(pong)), sender, src) == (DiscoAction::HandlePong {
            pong,
            sender,
            src,
        }),
        src is Relay ==> disco_action(false, Ok(Message::CallMeMaybe(call)), sender, src) == (
        DiscoAction::HandleCallMeMaybe { sender, msg: call }),
        src is Udp ==> disco_action(false, Ok(Message::CallMeMaybe(call)), sender, src)
            == DiscoAction::Ignore,
        disco_action(true, dm, sender, src) == DiscoAction::Ignore,
        dm is Err ==> disco_action(false, dm, sender, src) == DiscoAction::Ignore,
{
}

/// In response to a call-me-maybe every ping is sent, in order, and nothing else.
pub proof fn every_ping_is_sent(a: Seq<PingAction>, b: Seq<PingAction>, action: PingAction)
    ensures
        pings_of(a + b) == pings_of(a) + pings_of(b),
        action matches PingAction::SendPing(ping) ==> pings_of(seq![action]) == seq![ping],
        action is SendCallMeMaybe ==> pings_of(seq![action]) == Seq::<SendPing>::empty(),
    decreases b.len(),
{
    assert(seq![action].drop_last() =~= Seq::empty());
    assert(pings_of(Seq::empty()) == Seq::<SendPing>::empty());
    assert(seq![action].last() == action);
    match action {
        PingAction::SendPing(ping) => {
            assert(Seq::<SendPing>::empty().push(ping) =~= seq![ping]);
        },
        PingAction::SendCallMeMaybe { .. } => {},
    }
    if b.len() == 0 {
        assert(a + b =~= a);
        assert(pings_of(a) + pings_of(b) =~= pings_of(a));
    } else {
        every_ping_is_sent(a, b.drop_last(), action);
        assert((a + b).drop_last() =~= a + b.drop_last());
        assert(pings_of(a + b) =~= pings_of(a) + pings_of(b));
    }
}

/// A ping goes out on the path that it tries, to the node that it is for, under
/// its own id and the key of this node, and the node map hears of that very ping.
pub proof fn pings_go_out_on_the_path_they_try(ping: SendPing, public_key: PublicKey)
    ensures
        ({
            let q = queued(ping.dst, ping.dst_node, spec_ping_message(ping, public_key));
            let msg = Message::Ping(Ping { tx_id: ping.tx_id, node_key: public_key });
            &&& ping.dst matches SendAddr::Udp(addr) ==> q == (Queued::Udp {
                dst: addr,
                dst_key: ping.dst_node,
                msg,
            })
            &&& ping.dst matches SendAddr::Relay(url) ==> q == (Queued::Relay {
                url,
                dst_key: ping.dst_node,
                msg,
            })
        }),
        ping_sent(ping).id == ping.id,
        ping_sent(ping).dst == ping.dst,
        ping_sent(ping).tx_id == ping.tx_id,
        ping_sent(ping).purpose == ping.purpose,
{
}

/// Sending to a relay succeeds exactly if the queue took the message, and can be
/// tried again exactly if the queue was full.
pub proof fn only_a_full_queue_is_tried_again(queue: TrySend)
    ensures
        relay_poll(queue) is Pending <==> queue == TrySend::Full,
        relay_poll(queue) == Poll::Ready(true) <==> queue == TrySend::Sent,
{
}

/// Handling goes from the last action to the first: as long as all goes well each
/// is handled in turn and none is left in the end, and the first error ends it
/// with the actions before it untouched.
pub proof fn actions_are_handled_one_by_one(
    msgs: Seq<PingAction>,
    last: PingAction,
    done: PingAction,
    e: SockError,
)
    ensures
        ping_loop(msgs.push(last), PingEvent::Start) == (PingLoop::Handle(last), msgs),
        ping_loop(msgs.push(last), PingEvent::Handled(done, Poll::Ready(Ok(())))) == (
            PingLoop::Handle(last),
            msgs,
        ),
        ping_loop(Seq::empty(), PingEvent::Start).0 == PingLoop::Done(Poll::Ready(Ok(()))),
        ping_loop(Seq::empty(), PingEvent::Handled(done, Poll::Ready(Ok(())))).0 == PingLoop::Done(
            Poll::Ready(Ok(())),
        ),
        ping_loop(msgs, PingEvent::Handled(done, Poll::Ready(Err(e)))) == (
            PingLoop::Done(Poll::Ready(Err(e))),
            msgs,
        ),
{
    assert(msgs.push(last).drop_last() =~= msgs);
}

/// An action is carried out as it is, unless the socket is closing or closed, and
/// then it is not carried out at all.
pub proof fn a_closing_socket_sends_no_pings(
    is_closing: bool,
    is_closed: bool,
    relay_url: RelayUrl,
    dst_node: NodeId,
    ping: SendPing,
    msg: PingAction,
)
    ensures
        ping_step(is_closing, is_closed, &msg) is Skip <==> is_closing || is_closed,
        ping_step(false, false, &PingAction::SendPing(ping)) == PingStep::Ping(&ping),
        ping_step(false, false, &PingAction::SendCallMeMaybe { relay_url, dst_node }) == (
        PingStep::CallMeMaybe { relay_url: &relay_url, dst_node }),
{
}

/// A discovery message is sent to its address in one piece, and only by an open
/// socket. It went out exactly if the socket sent a transmit.
pub proof fn disco_messages_go_out_in_one_piece(
    is_closed: bool,
    dst: SocketAddr,
    pkt: Bytes,
    n: usize,
    e: SockError,
)
    ensures
        spec_disco_transmit(is_closed, dst, pkt) is Err <==> is_closed,
        spec_disco_transmit(false, dst, pkt) matches Ok(t) && t.destination == dst && t.contents
            == pkt && t.segment_size is None,
        disco_sent(Poll::Ready(Ok(n))) == Poll::Ready(Ok::<bool, SockError>(n > 0)),
        disco_sent(Poll::Ready(Err(e))) == Poll::Ready(Err::<bool, _>(e)),
        disco_sent(Poll::Pending) is Pending,
{
}

/// The node map hears of a ping exactly if it went out, and sending a message ends
/// as the socket says, whether or not it sent anything.
pub proof fn only_sent_pings_are_told(ping: SendPing, sent: bool, took: bool, e: SockError)
    ensures
        ping_told(ping, sent) is Some <==> sent,
        ping_told(ping, true) matches Some(told) && told.id == ping.id && told.tx_id == ping.tx_id
            && told.dst == ping.dst && told.purpose == ping.purpose,
        disco_outcome(Poll::Ready(Ok(took))) == Poll::Ready(Ok::<(), SockError>(())),
        disco_outcome(Poll::Ready(Err(e))) == Poll::Ready(Err::<(), _>(e)),
        disco_outcome(Poll::Pending) is Pending,
{
}

} // verus!
