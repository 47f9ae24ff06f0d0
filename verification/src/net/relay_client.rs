//! The relay client: what the writer and the reader of a relay connection do
//! with each message.

use crate::buf::{bytes_content, bytes_len};
use crate::key::PublicKey;
use crate::net::addr::SocketAddr;
use crate::net::poll::Poll;
use bytes::Bytes;
use vstd::prelude::*;
use vstd::utf8::{decode_utf8, valid_utf8};

verus! {

/// How long the reader waits for a frame, in seconds.
pub const CLIENT_RECV_TIMEOUT_SECS: u64 = 120;

/// A frame of the relay protocol.
#[derive(Debug)]
pub enum Frame {
    /// A packet for another client.
    SendPacket { dst_key: PublicKey, packet: Bytes },
    /// A packet from another client.
    RecvPacket { src_key: PublicKey, content: Bytes },
    KeepAlive,
    /// Whether this is the client's home server.
    NotePreferred { preferred: bool },
    /// Another client disconnected.
    PeerGone { peer: PublicKey },
    Ping { data: [u8; 8] },
    Pong { data: [u8; 8] },
    /// The state of the connection, in words.
    Health { problem: Bytes },
    /// The server restarts. Both times are in milliseconds.
    Restarting { reconnect_in: u32, try_for: u32 },
    /// Any other frame.
    Other { typ: u8 },
}

/// The type of a frame that a client does not expect.
#[derive(Debug, Clone, Copy, PartialEq, Eq, Structural)]
pub enum FrameType {
    SendPacket,
    NotePreferred,
    Other(u8),
}

/// The type of message received by the client from a relay server.
#[derive(Debug)]
pub enum ReceivedMessage {
    /// Represents an incoming packet.
    ReceivedPacket {
        /// The [`PublicKey`] of the packet sender.
        source: PublicKey,
        /// The received packet bytes.
        data: Bytes,
    },
    /// Indicates that the client identified by the underlying public key had previously sent you a
    /// packet but has now disconnected from the server.
    PeerGone(PublicKey),
    /// Request from a client or server to reply to the
    /// other side with a [`ReceivedMessage::Pong`] with the given payload.
    Ping([u8; 8]),
    /// Reply to a [`ReceivedMessage::Ping`] from a client or server
    /// with the payload sent previously in the ping.
    Pong([u8; 8]),
    /// A one-way empty message from server to client, just to
    /// keep the connection alive. It's like a [`ReceivedMessage::Ping`], but doesn't solicit
    /// a reply from the client.
    KeepAlive,
    /// A one-way message from server to client, declaring the connection health state.
    Health {
        /// If set, is a description of why the connection is unhealthy.
        problem: Option<String>,
    },
    /// A one-way message from server to client, advertising that the server is restarting.
    ServerRestarting {
        /// An advisory duration, in milliseconds, that the client should wait before attempting to
        /// reconnect. It might be zero. It exists for the server to smear out the reconnects.
        reconnect_in: u64,
        /// An advisory duration, in milliseconds, for how long the client should attempt to
        /// reconnect before giving up and proceeding with its normal connection failure logic.
        try_for: u64,
    },
}

/// What can go wrong on a relay connection.
#[derive(Debug, PartialEq, Eq)]
pub enum ClientError {
    /// packet too big
    PacketTooBig { len: usize },
    /// unexpected packet
    UnexpectedFrame(FrameType),
    /// A text is not valid UTF-8.
    InvalidUtf8,
    /// channel unexpectedly closed
    ChannelClosed,
    /// shut down
    ShutDown,
    /// EOF: reader stream ended
    EndOfStream,
    /// No frame came in time.
    Timeout,
    /// The connection failed, with its own words.
    Connection(String),
}

/// `std::str::from_utf8` on the bytes of a buffer, and the text in a string of
/// its own: the text that the bytes encode, or nothing if they are not valid
/// UTF-8.
#[verifier::external_body]
fn bytes_to_text(b: &Bytes) -> (r: Option<String>)
    ensures
        r is Some <==> valid_utf8(bytes_content(*b)),
        r matches Some(s) ==> s@ == decode_utf8(bytes_content(*b)),
{
    std::str::from_utf8(b).ok().map(str::to_owned)
}

/// What an incoming frame stands for: the message in it. A frame that only a
/// client sends is an error, and so is a problem that is no text.
pub open spec fn incoming(frame: Frame, r: Result<ReceivedMessage, ClientError>) -> bool {
    match frame {
        Frame::KeepAlive => r == Ok::<_, ClientError>(ReceivedMessage::KeepAlive),
        Frame::PeerGone { peer } => r == Ok::<_, ClientError>(ReceivedMessage::PeerGone(peer)),
        Frame::RecvPacket { src_key, content } => r == Ok::<_, ClientError>(
            ReceivedMessage::ReceivedPacket { source: src_key, data: content },
        ),
        Frame::Ping { data } => r == Ok::<_, ClientError>(ReceivedMessage::Ping(data)),
        Frame::Pong { data } => r == Ok::<_, ClientError>(ReceivedMessage::Pong(data)),
        Frame::Health { problem } => if valid_utf8(bytes_content(problem)) {
            &&& r matches Ok(ReceivedMessage::Health { problem: Some(text) })
            &&& text@ == decode_utf8(bytes_content(problem))
        } else {
            r == Err::<ReceivedMessage, _>(ClientError::InvalidUtf8)
        },
        Frame::Restarting { reconnect_in, try_for } => r == Ok::<_, ClientError>(
            ReceivedMessage::ServerRestarting {
                reconnect_in: reconnect_in as u64,
                try_for: try_for as u64,
            },
        ),
        Frame::SendPacket { .. } => r == Err::<ReceivedMessage, _>(
            ClientError::UnexpectedFrame(FrameType::SendPacket),
        ),
        Frame::NotePreferred { .. } => r == Err::<ReceivedMessage, _>(
            ClientError::UnexpectedFrame(FrameType::NotePreferred),
        ),
        Frame::Other { typ } => r == Err::<ReceivedMessage, _>(
            ClientError::UnexpectedFrame(FrameType::Other(typ)),
        ),
    }
}

/// The message that an incoming frame stands for.
pub fn process_incoming_frame(frame: Frame) -> (r: Result<ReceivedMessage, ClientError>)
    ensures
        incoming(frame, r),
{
    match frame {
        // A one-way keep-alive message that doesn't require an ack.
        Frame::KeepAlive => Ok(ReceivedMessage::KeepAlive),
        Frame::PeerGone { peer } => Ok(ReceivedMessage::PeerGone(peer)),
        Frame::RecvPacket { src_key, content } => Ok(
            ReceivedMessage::ReceivedPacket { source: src_key, data: content },
        ),
        Frame::Ping { data } => Ok(ReceivedMessage::Ping(data)),
        Frame::Pong { data } => Ok(ReceivedMessage::Pong(data)),
        Frame::Health { problem } => {
            match bytes_to_text(&problem) {
                Some(text) => Ok(ReceivedMessage::Health { problem: Some(text) }),
                None => Err(ClientError::InvalidUtf8),
            }
        },
        Frame::Restarting { reconnect_in, try_for } => Ok(
            ReceivedMessage::ServerRestarting {
                reconnect_in: reconnect_in as u64,
                try_for: try_for as u64,
            },
        ),
        Frame::SendPacket { .. } => Err(ClientError::UnexpectedFrame(FrameType::SendPacket)),
        Frame::NotePreferred { .. } => Err(ClientError::UnexpectedFrame(FrameType::NotePreferred)),
        Frame::Other { typ } => Err(ClientError::UnexpectedFrame(FrameType::Other(typ))),
    }
}

/// The kinds of messages we can send to the server
#[derive(Debug)]
pub enum ClientWriterMessage {
    /// Send a packet (addressed to the [`PublicKey`]) to the server
    Packet((PublicKey, Bytes)),
    /// Send a pong to the server
    Pong([u8; 8]),
    /// Send a ping to the server
    Ping([u8; 8]),
    /// Tell the server whether or not this client is the user's preferred client
    NotePreferred(bool),
    /// Shutdown the writer
    Shutdown,
}

/// What the writer does with a packet.
#[derive(Debug)]
pub enum PacketStep {
    /// Ask the rate limiter first, and come back with its answer.
    CheckRate(Frame),
    /// Write the frame, and flush.
    Write(Frame),
    /// The packet is dropped.
    Drop,
}

/// What the writer does with a packet first.
pub open spec fn packet_step(
    max_packet_size: usize,
    rate_limited: bool,
    dst_key: PublicKey,
    packet: Bytes,
) -> Result<PacketStep, ClientError> {
    if bytes_content(packet).len() > max_packet_size {
        Err(ClientError::PacketTooBig { len: bytes_content(packet).len() as usize })
    } else if rate_limited {
        Ok(PacketStep::CheckRate(Frame::SendPacket { dst_key, packet }))
    } else {
        Ok(PacketStep::Write(Frame::SendPacket { dst_key, packet }))
    }
}

/// Starts to send a packet to another client.
///
/// A packet of more than `max_packet_size` bytes is refused. Where there is a
/// rate limiter it is asked first.
pub fn send_packet(
    max_packet_size: usize,
    rate_limited: bool,
    dst_key: PublicKey,
    packet: Bytes,
) -> (r: Result<PacketStep, ClientError>)
    ensures
        r == packet_step(max_packet_size, rate_limited, dst_key, packet),
{
    let len: usize = bytes_len(&packet);
    if len > max_packet_size {
        return Err(ClientError::PacketTooBig { len });
    }
    let frame = Frame::SendPacket { dst_key, packet };
    if rate_limited {
        Ok(PacketStep::CheckRate(frame))
    } else {
        Ok(PacketStep::Write(frame))
    }
}

/// What becomes of a packet after the rate limiter was asked.
pub open spec fn rate_checked(frame: Frame, within_limit: bool) -> PacketStep {
    if within_limit {
        PacketStep::Write(frame)
    } else {
        PacketStep::Drop
    }
}

/// What becomes of a packet after the rate limiter was asked: a packet over the
/// limit is dropped without an error.
pub fn after_rate_check(frame: Frame, within_limit: bool) -> (r: PacketStep)
    ensures
        r == rate_checked(frame, within_limit),
{
    if within_limit {
        PacketStep::Write(frame)
    } else {
        PacketStep::Drop
    }
}

/// What the writer does next.
#[derive(Debug)]
pub enum WriterStep {
    /// Write the frame, flush, and go on.
    Write(Frame),
    /// Ask the rate limiter about the frame, write it or drop it, and go on.
    CheckRate(Frame),
    /// Stop, with this result.
    Stop(Result<(), ClientError>),
}

/// Listens for messages to send to the server.
///
/// Shutsdown when you send a [`ClientWriterMessage::Shutdown`], or if there is an error writing to
/// the server.
#[derive(Debug)]
pub struct ClientWriter {
    /// The size of the largest packet that is sent.
    pub max_packet_size: usize,
    /// Whether there is a rate limiter.
    pub rate_limited: bool,
}

impl ClientWriter {
    /// The frame that a message becomes.
    pub open spec fn frame_of(msg: ClientWriterMessage) -> Option<Frame> {
        match msg {
            ClientWriterMessage::Packet((dst_key, packet)) => Some(
                Frame::SendPacket { dst_key, packet },
            ),
            ClientWriterMessage::Pong(data) => Some(Frame::Pong { data }),
            ClientWriterMessage::Ping(data) => Some(Frame::Ping { data }),
            ClientWriterMessage::NotePreferred(preferred) => Some(
                Frame::NotePreferred { preferred },
            ),
            ClientWriterMessage::Shutdown => None,
        }
    }

    /// What the writer does with a message: a packet that is too big ends it,
    /// and so do a shutdown and the end of the messages.
    pub open spec fn spec_run(self, msg: Option<ClientWriterMessage>) -> WriterStep {
        match msg {
            None => WriterStep::Stop(Err(ClientError::ChannelClosed)),
            Some(ClientWriterMessage::Shutdown) => WriterStep::Stop(Ok(())),
            Some(ClientWriterMessage::Packet((_, bytes))) => {
                let len = bytes_content(bytes).len();
                if len > self.max_packet_size {
                    WriterStep::Stop(Err(ClientError::PacketTooBig { len: len as usize }))
                } else if self.rate_limited {
                    WriterStep::CheckRate(Self::frame_of(msg->0)->0)
                } else {
                    WriterStep::Write(Self::frame_of(msg->0)->0)
                }
            },
            Some(m) => WriterStep::Write(Self::frame_of(m)->0),
        }
    }

    /// One round of the writer's loop, on the next message or the end of the
    /// messages.
    pub fn run(&self, msg: Option<ClientWriterMessage>) -> (r: WriterStep)
        ensures
            r == self.spec_run(msg),
    {
        match msg {
            Some(ClientWriterMessage::Packet((key, bytes))) => {
                match send_packet(self.max_packet_size, self.rate_limited, key, bytes) {
                    Ok(PacketStep::CheckRate(frame)) => WriterStep::CheckRate(frame),
                    Ok(PacketStep::Write(frame)) => WriterStep::Write(frame),
                    Ok(PacketStep::Drop) => WriterStep::Stop(Ok(())),
                    Err(e) => WriterStep::Stop(Err(e)),
                }
            },
            Some(ClientWriterMessage::Pong(data)) => WriterStep::Write(Frame::Pong { data }),
            Some(ClientWriterMessage::Ping(data)) => WriterStep::Write(Frame::Ping { data }),
            Some(ClientWriterMessage::NotePreferred(preferred)) => WriterStep::Write(
                Frame::NotePreferred { preferred },
            ),
            Some(ClientWriterMessage::Shutdown) => WriterStep::Stop(Ok(())),
            None => WriterStep::Stop(Err(ClientError::ChannelClosed)),
        }
    }
}

/// What the reader got from the connection.
#[derive(Debug)]
pub enum ReaderEvent {
    /// A frame.
    Frame(Frame),
    /// The connection failed, with its own words.
    Failed(String),
    /// The connection ended.
    Eof,
    /// Nothing, for [`CLIENT_RECV_TIMEOUT_SECS`].
    Timeout,
}

/// What one read comes to.
pub open spec fn read_as(event: ReaderEvent, r: Result<ReceivedMessage, ClientError>) -> bool {
    match event {
        ReaderEvent::Frame(frame) => incoming(frame, r),
        ReaderEvent::Failed(e) => r == Err::<ReceivedMessage, _>(ClientError::Connection(e)),
        ReaderEvent::Eof => r == Err::<ReceivedMessage, _>(ClientError::EndOfStream),
        ReaderEvent::Timeout => r == Err::<ReceivedMessage, _>(ClientError::Timeout),
    }
}

/// The outcome of one read: a message, or the error that ends the reader.
pub fn read_outcome(event: ReaderEvent) -> (r: Result<ReceivedMessage, ClientError>)
    ensures
        read_as(event, r),
{
    match event {
        ReaderEvent::Frame(frame) => process_incoming_frame(frame),
        ReaderEvent::Failed(e) => Err(ClientError::Connection(e)),
        ReaderEvent::Eof => Err(ClientError::EndOfStream),
        ReaderEvent::Timeout => Err(ClientError::Timeout),
    }
}

/// What the reader does next.
#[derive(Debug)]
pub enum ReaderStep {
    /// Pass the message on, and come back with whether it was taken.
    Forward(ReceivedMessage),
    /// Read again.
    Continue,
    /// Shut down the writer, and stop.
    Shutdown,
}

/// What the reader does after one read: any error ends the connection.
pub open spec fn spec_reader_step(outcome: Result<ReceivedMessage, ClientError>) -> ReaderStep {
    match outcome {
        Ok(msg) => ReaderStep::Forward(msg),
        Err(_) => ReaderStep::Shutdown,
    }
}

/// What the reader does after one read: any error ends the connection.
pub fn reader_step(outcome: Result<ReceivedMessage, ClientError>) -> (r: ReaderStep)
    ensures
        r == spec_reader_step(outcome),
{
    match outcome {
        Ok(msg) => ReaderStep::Forward(msg),
        Err(_) => ReaderStep::Shutdown,
    }
}

/// What the reader does after it passed a message on: it stops as soon as
/// nobody takes messages any more.
pub open spec fn spec_after_forward(taken: bool) -> ReaderStep {
    if taken {
        ReaderStep::Continue
    } else {
        ReaderStep::Shutdown
    }
}

/// What the reader does after it passed a message on: it stops as soon as
/// nobody takes messages any more.
pub fn after_forward(taken: bool) -> (r: ReaderStep)
    ensures
        r == spec_after_forward(taken),
{
    if taken {
        ReaderStep::Continue
    } else {
        ReaderStep::Shutdown
    }
}

/// What closing a client does.
#[derive(Debug, Clone, Copy, PartialEq, Eq, Structural)]
pub enum ClientClose {
    /// Nothing: both tasks are done.
    Nothing,
    /// The writer is told to shut down, and the reader is aborted.
    Shutdown,
}

/// A relay Client, as far as it decides anything: which of its tasks still run.
#[derive(Debug, Clone, Copy, PartialEq, Eq, Structural)]
pub struct Client {
    /// Our local address, if known.
    ///
    /// Is `None` when using websockets, whose connections are not ours to establish.
    pub local_addr: Option<SocketAddr>,
    /// The task that writes to the server is done.
    pub writer_finished: bool,
    /// The task that reads from the server is done.
    pub reader_finished: bool,
}

impl Client {
    /// The message that sends a packet, unless it is too big.
    pub open spec fn spec_send(max_packet_size: usize, dstkey: PublicKey, packet: Bytes) -> Result<
        ClientWriterMessage,
        ClientError,
    > {
        if bytes_content(packet).len() > max_packet_size {
            Err(ClientError::PacketTooBig { len: bytes_content(packet).len() as usize })
        } else {
            Ok(ClientWriterMessage::Packet((dstkey, packet)))
        }
    }

    /// Sends a packet to the node identified by `dstkey`
    ///
    /// Errors if the packet is larger than `max_packet_size`
    pub fn send(max_packet_size: usize, dstkey: PublicKey, packet: Bytes) -> (r: Result<
        ClientWriterMessage,
        ClientError,
    >)
        ensures
            r == Self::spec_send(max_packet_size, dstkey, packet),
    {
        let len: usize = bytes_len(&packet);
        if len > max_packet_size {
            return Err(ClientError::PacketTooBig { len });
        }
        Ok(ClientWriterMessage::Packet((dstkey, packet)))
    }

    /// Send a ping with 8 bytes of random data.
    pub fn send_ping(data: [u8; 8]) -> (r: ClientWriterMessage)
        ensures
            r == ClientWriterMessage::Ping(data),
    {
        ClientWriterMessage::Ping(data)
    }

    /// Respond to a ping request. The `data` field should be filled
    /// by the 8 bytes of random data send by the ping.
    pub fn send_pong(data: [u8; 8]) -> (r: ClientWriterMessage)
        ensures
            r == ClientWriterMessage::Pong(data),
    {
        ClientWriterMessage::Pong(data)
    }

    /// Sends a packet that tells the server whether this
    /// client is the user's preferred server. This is only
    /// used in the server for stats.
    pub fn note_preferred(preferred: bool) -> (r: ClientWriterMessage)
        ensures
            r == ClientWriterMessage::NotePreferred(preferred),
    {
        ClientWriterMessage::NotePreferred(preferred)
    }

    /// The local address that the [`Client`] is listening on.
    ///
    /// `None` when using websockets.
    pub fn local_addr(&self) -> (r: Option<SocketAddr>)
        ensures
            r == self.local_addr,
    {
        self.local_addr
    }

    /// Whether or not this [`Client`] is closed.
    ///
    /// The [`Client`] is considered closed if the write side of the client is no longer running.
    pub fn is_closed(&self) -> (r: bool)
        ensures
            r == self.writer_finished,
    {
        self.writer_finished
    }

    /// What closing the client does.
    pub open spec fn spec_close(self) -> ClientClose {
        if self.writer_finished && self.reader_finished {
            ClientClose::Nothing
        } else {
            ClientClose::Shutdown
        }
    }

    /// Close the client
    ///
    /// Shuts down the write loop directly and marks the client as closed.
    pub fn close(&self) -> (r: ClientClose)
        ensures
            r == self.spec_close(),
    {
        if self.writer_finished && self.reader_finished {
            ClientClose::Nothing
        } else {
            ClientClose::Shutdown
        }
    }
}

/// The receiving end of a relay [`Client`].
#[derive(Debug, Clone, Copy, PartialEq, Eq, Structural)]
pub struct ClientReceiver {
    /// An error was returned: the [`Client`] is dead.
    pub closed: bool,
}

impl ClientReceiver {
    /// The receiver of a new client.
    pub fn new() -> (r: Self)
        ensures
            !r.closed,
    {
        ClientReceiver { closed: false }
    }

    /// What a read returns, and the receiver after it. `msg` is what the channel
    /// from the reader gives.
    pub open spec fn spec_recv(self, msg: Option<Result<ReceivedMessage, ClientError>>) -> (
        Result<ReceivedMessage, ClientError>,
        ClientReceiver,
    ) {
        let r = if self.closed {
            Err(ClientError::ShutDown)
        } else {
            match msg {
                Some(res) => res,
                None => Err(ClientError::ShutDown),
            }
        };
        (r, ClientReceiver { closed: r is Err })
    }

    /// Reads a messages from a relay server: what the channel from the reader
    /// gave, where the end of the channel means that the client is shut down.
    ///
    /// Once it returns an error, the [`Client`] is dead forever.
    pub fn recv(&mut self, msg: Option<Result<ReceivedMessage, ClientError>>) -> (r: Result<
        ReceivedMessage,
        ClientError,
    >)
        ensures
            (r, *final(self)) == old(self).spec_recv(msg),
            old(self).closed ==> r is Err,
            r is Err <==> final(self).closed,
    {
        if self.closed {
            return Err(ClientError::ShutDown);
        }
        match msg {
            Some(Ok(msg)) => Ok(msg),
            Some(Err(e)) => {
                self.closed = true;
                Err(e)
            },
            None => {
                self.closed = true;
                Err(ClientError::ShutDown)
            },
        }
    }

    /// What one read after the other returns, if the channel gives `msgs`.
    pub open spec fn received(
        self,
        msgs: Seq<Option<Result<ReceivedMessage, ClientError>>>,
    ) -> Seq<Result<ReceivedMessage, ClientError>>
        decreases msgs.len(),
    {
        if msgs.len() == 0 {
            Seq::empty()
        } else {
            let (r, next) = self.spec_recv(msgs[0]);
            seq![r] + next.received(msgs.subrange(1, msgs.len() as int))
        }
    }
}

/// Once a read returned an error, the client is dead forever: every later read
/// returns an error too, whatever the channel gives, and no message is delivered
/// any more.
pub proof fn dead_after_the_first_error(
    receiver: ClientReceiver,
    msgs: Seq<Option<Result<ReceivedMessage, ClientError>>>,
    first: int,
    later: int,
)
    requires
        0 <= first <= later < msgs.len(),
        receiver.received(msgs)[first] is Err,
    ensures
        receiver.received(msgs).len() == msgs.len(),
        receiver.received(msgs)[later] is Err,
    decreases msgs.len(),
{
    let (r, next) = receiver.spec_recv(msgs[0]);
    let rest = msgs.subrange(1, msgs.len() as int);
    lemma_received(next, rest);
    if first > 0 {
        assert(receiver.received(msgs)[first] == next.received(rest)[first - 1]);
        dead_after_the_first_error(next, rest, first - 1, later - 1);
        assert(receiver.received(msgs)[later] == next.received(rest)[later - 1]);
    } else if later > 0 {
        assert(receiver.received(msgs)[later] == next.received(rest)[later - 1]);
    }
}

/// Every read returns something, and a dead client returns nothing but errors.
proof fn lemma_received(
    receiver: ClientReceiver,
    msgs: Seq<Option<Result<ReceivedMessage, ClientError>>>,
)
    ensures
        receiver.received(msgs).len() == msgs.len(),
        receiver.closed ==> forall|i: int|
            0 <= i < msgs.len() ==> (#[trigger] receiver.received(msgs)[i]) is Err,
    decreases msgs.len(),
{
    if msgs.len() > 0 {
        let (r, next) = receiver.spec_recv(msgs[0]);
        let rest = msgs.subrange(1, msgs.len() as int);
        lemma_received(next, rest);
        if receiver.closed {
            assert forall|i: int| 0 <= i < msgs.len() implies (
            #[trigger] receiver.received(msgs)[i]) is Err by {
                if i > 0 {
                    assert(receiver.received(msgs)[i] == next.received(rest)[i - 1]);
                }
            }
        }
    }
}

/// The messages that the reader passes on. `reads` is what one read after the
/// other comes to, and `taken` says of each whether its message is taken if it
/// has one.
pub open spec fn forwarded(
    reads: Seq<Result<ReceivedMessage, ClientError>>,
    taken: Seq<bool>,
) -> Seq<ReceivedMessage>
    decreases reads.len(),
{
    if reads.len() == 0 {
        Seq::empty()
    } else {
        match spec_reader_step(reads[0]) {
            ReaderStep::Forward(msg) => if spec_after_forward(taken[0]) is Continue {
                seq![msg] + forwarded(
                    reads.subrange(1, reads.len() as int),
                    taken.subrange(1, taken.len() as int),
                )
            } else {
                Seq::empty()
            },
            _ => Seq::empty(),
        }
    }
}

/// The first error of the connection ends it: the reader passes on the messages
/// before it at most, in order, and nothing that comes after it.
pub proof fn nothing_is_forwarded_after_an_error(
    reads: Seq<Result<ReceivedMessage, ClientError>>,
    taken: Seq<bool>,
    failed: int,
)
    requires
        0 <= failed < reads.len(),
        taken.len() == reads.len(),
        reads[failed] is Err,
    ensures
        forwarded(reads, taken).len() <= failed,
        forall|i: int|
            0 <= i < forwarded(reads, taken).len() ==> reads[i] == Ok::<_, ClientError>(
                #[trigger] forwarded(reads, taken)[i],
            ),
    decreases reads.len(),
{
    let rest = reads.subrange(1, reads.len() as int);
    let rest_taken = taken.subrange(1, taken.len() as int);
    if failed > 0 {
        nothing_is_forwarded_after_an_error(rest, rest_taken, failed - 1);
        assert forall|i: int| 0 <= i < forwarded(reads, taken).len() implies reads[i] == Ok::<
            _,
            ClientError,
        >(#[trigger] forwarded(reads, taken)[i]) by {
            if i > 0 {
                assert(forwarded(reads, taken)[i] == forwarded(rest, rest_taken)[i - 1]);
                assert(reads[i] == rest[i - 1]);
            }
        }
    }
}

/// What a websocket gave.
#[derive(Debug)]
pub enum WsEvent {
    /// A message of bytes.
    Binary(Vec<u8>),
    /// Any other message.
    Unsupported,
    /// The connection failed, with its own words.
    Failed(String),
    /// The connection ended.
    End,
    /// Nothing yet.
    Pending,
}

/// What a websocket event means to the reader.
pub open spec fn ws_poll(event: WsEvent) -> Poll<Option<Result<Vec<u8>, ClientError>>> {
    match event {
        WsEvent::Binary(vec) => Poll::Ready(Some(Ok(vec))),
        WsEvent::Unsupported => Poll::Pending,
        WsEvent::Failed(e) => Poll::Ready(Some(Err(ClientError::Connection(e)))),
        WsEvent::End => Poll::Ready(None),
        WsEvent::Pending => Poll::Pending,
    }
}

/// What a websocket event means to the reader: bytes are a frame to be decoded,
/// and any other message is skipped.
pub fn ws_read(event: WsEvent) -> (r: Poll<Option<Result<Vec<u8>, ClientError>>>)
    ensures
        r == ws_poll(event),
{
    match event {
        WsEvent::Binary(vec) => Poll::Ready(Some(Ok(vec))),
        WsEvent::Unsupported => Poll::Pending,
        WsEvent::Failed(e) => Poll::Ready(Some(Err(ClientError::Connection(e)))),
        WsEvent::End => Poll::Ready(None),
        WsEvent::Pending => Poll::Pending,
    }
}

/// A packet that a client accepts never ends its writer: it goes on to the
/// server, or to the rate limiter where there is one.
pub proof fn accepted_packets_are_written(writer: ClientWriter, dstkey: PublicKey, packet: Bytes)
    requires
        Client::spec_send(writer.max_packet_size, dstkey, packet) is Ok,
    ensures
        writer.spec_run(
            Some(Client::spec_send(writer.max_packet_size, dstkey, packet)->Ok_0),
        ) == (if writer.rate_limited {
            WriterStep::CheckRate(Frame::SendPacket { dst_key: dstkey, packet })
        } else {
            WriterStep::Write(Frame::SendPacket { dst_key: dstkey, packet })
        }),
{
}

/// Pings and pongs carry their data unchanged: the frame that is written for
/// one is read as the same one.
pub proof fn pings_arrive_unchanged(
    data: [u8; 8],
    ping: Result<ReceivedMessage, ClientError>,
    pong: Result<ReceivedMessage, ClientError>,
)
    requires
        incoming(ClientWriter::frame_of(ClientWriterMessage::Ping(data))->0, ping),
        incoming(ClientWriter::frame_of(ClientWriterMessage::Pong(data))->0, pong),
    ensures
        ping == Ok::<_, ClientError>(ReceivedMessage::Ping(data)),
        pong == Ok::<_, ClientError>(ReceivedMessage::Pong(data)),
{
}

/// A packet that one client writes arrives at the other as it was: the server only
/// replaces the key of the receiver by that of the sender. So does everything else
/// that a server tells a client, with nothing changed.
pub proof fn packets_arrive_unchanged(
    source: PublicKey,
    data: Bytes,
    peer: PublicKey,
    reconnect_in: u32,
    try_for: u32,
    packet: Result<ReceivedMessage, ClientError>,
    gone: Result<ReceivedMessage, ClientError>,
    alive: Result<ReceivedMessage, ClientError>,
    restart: Result<ReceivedMessage, ClientError>,
)
    requires
        incoming(Frame::RecvPacket { src_key: source, content: data }, packet),
        incoming(Frame::PeerGone { peer }, gone),
        incoming(Frame::KeepAlive, alive),
        incoming(Frame::Restarting { reconnect_in, try_for }, restart),
    ensures
        packet matches Ok(ReceivedMessage::ReceivedPacket { source: s, data: d }) && s == source
            && d == data,
        gone matches Ok(ReceivedMessage::PeerGone(p)) && p == peer,
        alive matches Ok(ReceivedMessage::KeepAlive),
        restart matches Ok(ReceivedMessage::ServerRestarting { reconnect_in: r, try_for: t }) && r
            == reconnect_in && t == try_for,
{
}

/// A problem is told in the words in which it came if these are text, and a frame
/// that no server sends is an error. No other frame is one.
pub proof fn only_bad_frames_are_errors(frame: Frame, r: Result<ReceivedMessage, ClientError>)
    requires
        incoming(frame, r),
    ensures
        r is Err <==> match frame {
            Frame::SendPacket { .. } => true,
            Frame::NotePreferred { .. } => true,
            Frame::Other { .. } => true,
            Frame::Health { problem } => !valid_utf8(bytes_content(problem)),
            _ => false,
        },
        frame is SendPacket ==> r == Err::<ReceivedMessage, _>(
            ClientError::UnexpectedFrame(FrameType::SendPacket),
        ),
        frame is NotePreferred ==> r == Err::<ReceivedMessage, _>(
            ClientError::UnexpectedFrame(FrameType::NotePreferred),
        ),
        frame matches Frame::Other { typ } ==> r == Err::<ReceivedMessage, _>(
            ClientError::UnexpectedFrame(FrameType::Other(typ)),
        ),
        frame is Health && r is Err ==> r == Err::<ReceivedMessage, _>(ClientError::InvalidUtf8),
        frame matches Frame::Health { problem } ==> (r matches Ok(m) ==> (
        m matches ReceivedMessage::Health { problem: Some(text) } && text@ == decode_utf8(
            bytes_content(problem),
        ))),
{
}

/// Sending a packet is refused exactly if it is too big, and then with its size. A
/// packet within the limit goes out as it is, or to the rate limiter first, which
/// can drop it but not change it. The client and its writer judge by the same
/// limit.
pub proof fn packets_within_the_limit_go_out(
    max_packet_size: usize,
    rate_limited: bool,
    dst_key: PublicKey,
    packet: Bytes,
    within_limit: bool,
)
    ensures
        ({
            let frame = Frame::SendPacket { dst_key, packet };
            let step = packet_step(max_packet_size, rate_limited, dst_key, packet);
            &&& bytes_content(packet).len() > max_packet_size <==> step is Err
            &&& bytes_content(packet).len() > max_packet_size <==> Client::spec_send(
                max_packet_size,
                dst_key,
                packet,
            ) is Err
            &&& bytes_content(packet).len() <= max_packet_size && !rate_limited ==> step == Ok::<
                _,
                ClientError,
            >(PacketStep::Write(frame))
            &&& bytes_content(packet).len() <= max_packet_size && rate_limited ==> step == Ok::<
                _,
                ClientError,
            >(PacketStep::CheckRate(frame))
            &&& max_packet_size < bytes_content(packet).len() <= usize::MAX ==> step == Err::<
                PacketStep,
                _,
            >(ClientError::PacketTooBig { len: bytes_content(packet).len() as usize })
            &&& rate_checked(frame, true) == PacketStep::Write(frame)
            &&& rate_checked(frame, false) == PacketStep::Drop
        }),
{
}

/// The writer stops on a shutdown without an error, on the end of its messages
/// with one, and on a packet that is too big. It writes every other message.
pub proof fn the_writer_goes_on_until_it_is_stopped(
    writer: ClientWriter,
    msg: ClientWriterMessage,
    data: [u8; 8],
    preferred: bool,
)
    ensures
        writer.spec_run(None) == WriterStep::Stop(Err(ClientError::ChannelClosed)),
        writer.spec_run(Some(ClientWriterMessage::Shutdown)) == WriterStep::Stop(Ok(())),
        writer.spec_run(Some(ClientWriterMessage::Ping(data))) == WriterStep::Write(
            Frame::Ping { data },
        ),
        writer.spec_run(Some(ClientWriterMessage::Pong(data))) == WriterStep::Write(
            Frame::Pong { data },
        ),
        writer.spec_run(Some(ClientWriterMessage::NotePreferred(preferred))) == WriterStep::Write(
            Frame::NotePreferred { preferred },
        ),
        writer.spec_run(Some(msg)) is Stop <==> (msg is Shutdown || (
        msg matches ClientWriterMessage::Packet((_, bytes)) && bytes_content(bytes).len()
            > writer.max_packet_size)),
{
}

/// As long as reading goes well and the messages are taken, every message is
/// passed on, in order.
pub proof fn everything_read_is_forwarded(msgs: Seq<ReceivedMessage>, taken: Seq<bool>)
    requires
        taken.len() == msgs.len(),
        forall|i: int| 0 <= i < taken.len() ==> #[trigger] taken[i],
    ensures
        forwarded(
            msgs.map_values(|m: ReceivedMessage| Ok::<ReceivedMessage, ClientError>(m)),
            taken,
        ) == msgs,
    decreases msgs.len(),
{
    let reads = msgs.map_values(|m: ReceivedMessage| Ok::<ReceivedMessage, ClientError>(m));
    if msgs.len() > 0 {
        let rest = msgs.subrange(1, msgs.len() as int);
        let rest_taken = taken.subrange(1, taken.len() as int);
        assert forall|i: int| 0 <= i < rest_taken.len() implies #[trigger] rest_taken[i] by {
            assert(taken[i + 1]);
        }
        everything_read_is_forwarded(rest, rest_taken);
        assert(reads.subrange(1, reads.len() as int) =~= rest.map_values(
            |m: ReceivedMessage| Ok::<ReceivedMessage, ClientError>(m),
        ));
        assert(reads[0] == Ok::<ReceivedMessage, ClientError>(msgs[0]));
        assert(taken[0]);
        assert(seq![msgs[0]] + rest =~= msgs);
    } else {
        assert(forwarded(reads, taken) =~= msgs);
    }
}

/// The reader stops, and the writer with it, on any error and as soon as nobody
/// takes its messages, and for no other reason.
pub proof fn the_reader_stops_on_errors_alone(
    outcome: Result<ReceivedMessage, ClientError>,
    taken: bool,
)
    ensures
        outcome is Err <==> spec_reader_step(outcome) is Shutdown,
        outcome matches Ok(msg) ==> spec_reader_step(outcome) == ReaderStep::Forward(msg),
        spec_after_forward(taken) is Shutdown <==> !taken,
        spec_after_forward(taken) is Continue <==> taken,
{
}

/// A receiver returns what the channel gives for as long as that is no error, the
/// first error as it came, and the end of the channel as a shutdown.
pub proof fn messages_are_received_in_order(
    receiver: ClientReceiver,
    msgs: Seq<ReceivedMessage>,
    e: ClientError,
)
    requires
        !receiver.closed,
    ensures
        receiver.received(msgs.map_values(|m: ReceivedMessage| Some(Ok::<_, ClientError>(m))))
            == msgs.map_values(|m: ReceivedMessage| Ok::<ReceivedMessage, ClientError>(m)),
        receiver.spec_recv(Some(Err(e))).0 == Err::<ReceivedMessage, _>(e),
        receiver.spec_recv(None).0 == Err::<ReceivedMessage, _>(ClientError::ShutDown),
    decreases msgs.len(),
{
    let given = msgs.map_values(|m: ReceivedMessage| Some(Ok::<_, ClientError>(m)));
    let expected = msgs.map_values(|m: ReceivedMessage| Ok::<ReceivedMessage, ClientError>(m));
    if msgs.len() > 0 {
        let rest = msgs.subrange(1, msgs.len() as int);
        let (r, next) = receiver.spec_recv(given[0]);
        messages_are_received_in_order(next, rest, e);
        assert(given.subrange(1, given.len() as int) =~= rest.map_values(
            |m: ReceivedMessage| Some(Ok::<_, ClientError>(m)),
        ));
        assert(seq![r] + rest.map_values(
            |m: ReceivedMessage| Ok::<ReceivedMessage, ClientError>(m),
        ) =~= expected);
    } else {
        assert(receiver.received(given) =~= expected);
    }
}

/// Whatever ends a read without a frame is an error that says so, and a websocket
/// hands on its bytes as they came and skips what holds none.
pub proof fn failed_reads_are_told_apart(
    event: ReaderEvent,
    r: Result<ReceivedMessage, ClientError>,
    bytes: Vec<u8>,
    e: String,
)
    requires
        read_as(event, r),
    ensures
        event is Eof ==> r == Err::<ReceivedMessage, _>(ClientError::EndOfStream),
        event is Timeout ==> r == Err::<ReceivedMessage, _>(ClientError::Timeout),
        event matches ReaderEvent::Failed(words) ==> r == Err::<ReceivedMessage, _>(
            ClientError::Connection(words),
        ),
        event matches ReaderEvent::Frame(frame) ==> incoming(frame, r),
        ws_poll(WsEvent::Binary(bytes)) == Poll::Ready(Some(Ok::<_, ClientError>(bytes))),
        ws_poll(WsEvent::Failed(e)) == Poll::Ready(
            Some(Err::<Vec<u8>, _>(ClientError::Connection(e))),
        ),
        ws_poll(WsEvent::End) matches Poll::Ready(None),
        ws_poll(WsEvent::Unsupported) is Pending,
        ws_poll(WsEvent::Pending) is Pending,
{
}

/// Closing a client leaves none of its tasks running: it does nothing only if both
/// are done already.
pub proof fn closing_stops_both_tasks(client: Client)
    ensures
        client.spec_close() == ClientClose::Shutdown <==> !client.writer_finished
            || !client.reader_finished,
{
}

} // verus!
