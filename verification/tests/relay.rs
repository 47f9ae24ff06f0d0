use bytes::Bytes;
use iroh_core::key::PublicKey;
use iroh_core::net::addr::SocketAddr;
use iroh_core::net::poll::Poll;
use iroh_core::net::relay_client::{
    after_forward, after_rate_check, process_incoming_frame, read_outcome, reader_step,
    send_packet, ws_read, Client, ClientClose, ClientError, ClientReceiver, ClientWriter, ClientWriterMessage,
    Frame, FrameType, PacketStep, ReaderEvent, ReaderStep, ReceivedMessage, WriterStep, WsEvent,
};

const MAX: usize = 64 * 1024;

fn key(n: u8) -> PublicKey {
    PublicKey([n; 32])
}

#[test]
fn frames_become_messages() {
    assert!(matches!(
        process_incoming_frame(Frame::KeepAlive),
        Ok(ReceivedMessage::KeepAlive)
    ));
    match process_incoming_frame(Frame::PeerGone { peer: key(1) }) {
        Ok(ReceivedMessage::PeerGone(k)) => assert_eq!(k, key(1)),
        other => panic!("{:?}", other),
    }
    let content = Bytes::from_static(b"data");
    match process_incoming_frame(Frame::RecvPacket { src_key: key(2), content }) {
        Ok(ReceivedMessage::ReceivedPacket { source, data }) => {
            assert_eq!((source, data), (key(2), Bytes::from_static(b"data")))
        }
        other => panic!("{:?}", other),
    }
    match process_incoming_frame(Frame::Ping { data: [3; 8] }) {
        Ok(ReceivedMessage::Ping(data)) => assert_eq!(data, [3; 8]),
        other => panic!("{:?}", other),
    }
    match process_incoming_frame(Frame::Pong { data: [4; 8] }) {
        Ok(ReceivedMessage::Pong(data)) => assert_eq!(data, [4; 8]),
        other => panic!("{:?}", other),
    }
    match process_incoming_frame(Frame::Restarting { reconnect_in: 5, try_for: 6 }) {
        Ok(ReceivedMessage::ServerRestarting { reconnect_in, try_for }) => {
            assert_eq!((reconnect_in, try_for), (5, 6))
        }
        other => panic!("{:?}", other),
    }
}

#[test]
fn health_problems_are_text() {
    let problem = Bytes::from("k\u{e4}se \u{1f980}".to_string());
    match process_incoming_frame(Frame::Health { problem }) {
        Ok(ReceivedMessage::Health { problem }) => {
            assert_eq!(problem, Some("k\u{e4}se \u{1f980}".to_string()))
        }
        other => panic!("{:?}", other),
    }
    let problem = Bytes::from_static(&[0xff, 0xfe]);
    assert_eq!(
        process_incoming_frame(Frame::Health { problem }).unwrap_err(),
        ClientError::InvalidUtf8
    );
}

#[test]
fn unexpected_frames() {
    let packet = Bytes::from_static(b"data");
    assert_eq!(
        process_incoming_frame(Frame::SendPacket { dst_key: key(1), packet }).unwrap_err(),
        ClientError::UnexpectedFrame(FrameType::SendPacket)
    );
    assert_eq!(
        process_incoming_frame(Frame::NotePreferred { preferred: true }).unwrap_err(),
        ClientError::UnexpectedFrame(FrameType::NotePreferred)
    );
    assert_eq!(
        process_incoming_frame(Frame::Other { typ: 2 }).unwrap_err(),
        ClientError::UnexpectedFrame(FrameType::Other(2))
    );
}

#[test]
fn packets_have_a_limit() {
    let fits = Bytes::from(vec![0u8; MAX]);
    let too_big = Bytes::from(vec![0u8; MAX + 1]);
    assert!(matches!(
        send_packet(MAX, false, key(1), fits.clone()),
        Ok(PacketStep::Write(Frame::SendPacket { .. }))
    ));
    assert!(matches!(
        send_packet(MAX, true, key(1), fits.clone()),
        Ok(PacketStep::CheckRate(Frame::SendPacket { .. }))
    ));
    assert_eq!(
        send_packet(MAX, false, key(1), too_big.clone()).unwrap_err(),
        ClientError::PacketTooBig { len: MAX + 1 }
    );
    assert!(Client::send(MAX, key(1), fits).is_ok());
    assert_eq!(
        Client::send(MAX, key(1), too_big).unwrap_err(),
        ClientError::PacketTooBig { len: MAX + 1 }
    );
    assert!(matches!(after_rate_check(Frame::KeepAlive, true), PacketStep::Write(_)));
    assert!(matches!(after_rate_check(Frame::KeepAlive, false), PacketStep::Drop));
}

#[test]
fn writer_rounds() {
    let w = ClientWriter { max_packet_size: MAX, rate_limited: false };
    let msg = Client::send(MAX, key(1), Bytes::from_static(b"x")).unwrap();
    assert!(matches!(w.run(Some(msg)), WriterStep::Write(Frame::SendPacket { .. })));
    assert!(matches!(
        w.run(Some(Client::send_ping([1; 8]))),
        WriterStep::Write(Frame::Ping { data }) if data == [1; 8]
    ));
    assert!(matches!(
        w.run(Some(Client::send_pong([2; 8]))),
        WriterStep::Write(Frame::Pong { data }) if data == [2; 8]
    ));
    assert!(matches!(
        w.run(Some(Client::note_preferred(true))),
        WriterStep::Write(Frame::NotePreferred { preferred: true })
    ));
    assert!(matches!(w.run(Some(ClientWriterMessage::Shutdown)), WriterStep::Stop(Ok(()))));
    assert!(matches!(w.run(None), WriterStep::Stop(Err(ClientError::ChannelClosed))));
    let big = ClientWriterMessage::Packet((key(1), Bytes::from(vec![0u8; MAX + 1])));
    assert!(matches!(
        w.run(Some(big)),
        WriterStep::Stop(Err(ClientError::PacketTooBig { .. }))
    ));
    let w = ClientWriter { max_packet_size: MAX, rate_limited: true };
    let msg = Client::send(MAX, key(1), Bytes::from_static(b"x")).unwrap();
    assert!(matches!(w.run(Some(msg)), WriterStep::CheckRate(_)));
}

#[test]
fn reader_rounds() {
    let ok = read_outcome(ReaderEvent::Frame(Frame::KeepAlive));
    assert!(matches!(reader_step(ok), ReaderStep::Forward(ReceivedMessage::KeepAlive)));
    for (event, err) in [
        (ReaderEvent::Eof, ClientError::EndOfStream),
        (ReaderEvent::Timeout, ClientError::Timeout),
        (ReaderEvent::Failed("x".to_string()), ClientError::Connection("x".to_string())),
    ] {
        let outcome = read_outcome(event);
        assert_eq!(outcome.as_ref().unwrap_err(), &err);
        assert!(matches!(reader_step(outcome), ReaderStep::Shutdown));
    }
    assert!(matches!(after_forward(true), ReaderStep::Continue));
    assert!(matches!(after_forward(false), ReaderStep::Shutdown));
}

#[test]
fn receiver_is_dead_after_an_error() {
    let alive = || Some(Ok(ReceivedMessage::KeepAlive));
    let mut r = ClientReceiver::new();
    assert!(r.recv(alive()).is_ok());
    assert_eq!(r.recv(None).unwrap_err(), ClientError::ShutDown);
    assert!(r.closed);
    assert_eq!(r.recv(alive()).unwrap_err(), ClientError::ShutDown);
    let mut r = ClientReceiver::new();
    assert_eq!(r.recv(Some(Err(ClientError::Timeout))).unwrap_err(), ClientError::Timeout);
    assert_eq!(r.recv(alive()).unwrap_err(), ClientError::ShutDown);
}

#[test]
fn client_state() {
    let c = |w, r| Client { local_addr: None, writer_finished: w, reader_finished: r };
    assert_eq!(c(true, true).close(), ClientClose::Nothing);
    assert_eq!(c(true, false).close(), ClientClose::Shutdown);
    assert_eq!(c(false, true).close(), ClientClose::Shutdown);
    assert!(c(true, false).is_closed());
    assert!(!c(false, true).is_closed());
    assert_eq!(c(false, false).local_addr(), None);
    let addr = SocketAddr::V4 { ip: 0x7f00_0001, port: 80 };
    let client = Client { local_addr: Some(addr), ..c(false, false) };
    assert_eq!(client.local_addr(), Some(addr));
}

#[test]
fn websocket_events() {
    assert_eq!(ws_read(WsEvent::Binary(vec![1])), Poll::Ready(Some(Ok(vec![1]))));
    assert_eq!(ws_read(WsEvent::Unsupported), Poll::Pending);
    assert_eq!(ws_read(WsEvent::Pending), Poll::Pending);
    assert_eq!(ws_read(WsEvent::End), Poll::Ready(None));
    assert_eq!(
        ws_read(WsEvent::Failed("x".to_string())),
        Poll::Ready(Some(Err(ClientError::Connection("x".to_string()))))
    );
}
