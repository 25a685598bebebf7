use led_display_client::client::MessageType;
use led_display_client::client::ReadMessage;
use led_display_client::client::ReadOutcome;
use led_display_client::client::WebSocketClient;
use led_display_client::client::WsState;
use led_display_client::frame::encode_frame;
use led_display_client::frame::WsError;
use led_display_client::ntp::TimeError;
use led_display_client::session::ClientAction;
use led_display_client::session::ClientError;
use led_display_client::session::ClientEvent;
use led_display_client::session::ClientPhase;
use led_display_client::session::ClientSession;
use led_display_client::tls::TlsError;
use led_display_client::tls::TlsSession;
use led_display_client::tls::TlsState;
use led_display_client::tls::sock_read;
use led_display_client::tls::sock_write;
use led_display_client::transport::TcpError;

fn message(mt: MessageType, payload: &[u8]) -> ReadMessage {
    ReadMessage {
        message_type: mt,
        payload: payload.to_vec(),
        end_of_message: true,
        close_status: None,
        consumed: 0,
    }
}

#[test]
fn hello_scenario_dispatches_exactly_one_text() {
    // One connection attempt end to end: the transport reaches established,
    // a time reply arrives, the TLS engine reports a completed handshake,
    // the upgrade is accepted, and the server sends one text frame "hello".
    // Exactly one dispatch to the display sink results, with "hello".
    let mut session = ClientSession::new();
    assert!(matches!(session.start(), ClientAction::ConnectTcp));

    let mut shown: Vec<Vec<u8>> = Vec::new();
    let events = vec![
        ClientEvent::TcpEstablished,
        ClientEvent::TimeFetched(1_622_375_903),
        ClientEvent::TlsEstablished,
        ClientEvent::UpgradeAccepted,
    ];
    for ev in events {
        if let ClientAction::ShowText(t) = session.step(ev) {
            shown.push(t);
        }
    }
    assert_eq!(session.phase, ClientPhase::Running);

    // The frame travels through the real codec before it is dispatched.
    let wire = encode_frame(true, 0x1, None, &b"hello".to_vec());
    let mut ws = WebSocketClient::new_client();
    ws.state = WsState::Open;
    let m = match ws.read(&wire, 128).unwrap() {
        ReadOutcome::Message(m) => m,
        ReadOutcome::Incomplete => panic!("frame should be complete"),
    };
    match session.step(ClientEvent::Message(m)) {
        ClientAction::ShowText(t) => shown.push(t),
        _ => panic!("a text frame must go to the display sink"),
    }
    assert_eq!(shown, vec![b"hello".to_vec()]);
    assert_eq!(session.phase, ClientPhase::Running);
}

#[test]
fn close_must_reply_triggers_one_reply_then_close_and_nothing_more() {
    let mut session = ClientSession::new();
    session.start();
    session.step(ClientEvent::TcpEstablished);
    session.step(ClientEvent::TimeFetched(0));
    session.step(ClientEvent::TlsEstablished);
    session.step(ClientEvent::UpgradeAccepted);

    let payload = vec![0x03, 0xE8, b'b', b'y', b'e'];
    match session.step(ClientEvent::Message(message(
        MessageType::CloseMustReply,
        &payload,
    ))) {
        ClientAction::ReplyCloseThenClose(p) => assert_eq!(p, payload),
        _ => panic!("a close must be replied to and the transport closed"),
    }
    assert_eq!(session.phase, ClientPhase::Done);
    // A second close frame after the attempt is done triggers nothing.
    match session.step(ClientEvent::Message(message(
        MessageType::CloseMustReply,
        &payload,
    ))) {
        ClientAction::AwaitFrame => {}
        _ => panic!("no further reply or close may follow"),
    }
}

#[test]
fn close_completed_closes_without_a_reply() {
    let mut session = ClientSession::new();
    session.start();
    session.step(ClientEvent::TcpEstablished);
    session.step(ClientEvent::TimeFetched(0));
    session.step(ClientEvent::TlsEstablished);
    session.step(ClientEvent::UpgradeAccepted);
    match session.step(ClientEvent::Message(message(MessageType::CloseCompleted, &[]))) {
        ClientAction::CloseTcp => {}
        _ => panic!("a completed close only closes the transport"),
    }
    assert_eq!(session.phase, ClientPhase::Done);
}

#[test]
fn ping_is_echoed_and_pong_ignored() {
    let mut session = ClientSession::new();
    session.start();
    session.step(ClientEvent::TcpEstablished);
    session.step(ClientEvent::TimeFetched(0));
    session.step(ClientEvent::TlsEstablished);
    session.step(ClientEvent::UpgradeAccepted);
    match session.step(ClientEvent::Message(message(MessageType::Ping, b"hb"))) {
        ClientAction::ReplyPong(p) => assert_eq!(p, b"hb".to_vec()),
        _ => panic!("a ping must be echoed as a pong"),
    }
    match session.step(ClientEvent::Message(message(MessageType::Pong, b"hb"))) {
        ClientAction::AwaitFrame => {}
        _ => panic!("a pong needs no action"),
    }
}

#[test]
fn any_fault_aborts_the_attempt() {
    let mut session = ClientSession::new();
    session.start();
    let e = ClientError::Tcp(TcpError::Closed);
    match session.step(ClientEvent::Fault(e)) {
        ClientAction::Abort(got) => assert_eq!(got, e),
        _ => panic!("a fault must abort"),
    }
    assert_eq!(session.phase, ClientPhase::Failed(e));
}

#[test]
fn layer_errors_convert_into_the_ambient_error() {
    assert_eq!(
        ClientError::from(TcpError::Closed),
        ClientError::Tcp(TcpError::Closed)
    );
    assert_eq!(
        ClientError::from(TlsError::ReadFailed(-34)),
        ClientError::Tls(TlsError::ReadFailed(-34))
    );
    assert_eq!(
        ClientError::from(WsError::HandshakeMismatch),
        ClientError::Ws(WsError::HandshakeMismatch)
    );
    assert_eq!(
        ClientError::from(TimeError::InvalidVersion(3)),
        ClientError::Time(TimeError::InvalidVersion(3))
    );
}

#[test]
fn tls_lifecycle_follows_the_contract() {
    let mut tls = TlsSession::new();
    assert_eq!(tls.state, TlsState::Initialized);
    tls.reset(&b"ninjametal.com".to_vec(), 1_622_375_903);
    assert_eq!(tls.state, TlsState::Ready);
    assert_eq!(tls.server_name, b"ninjametal.com".to_vec());
    assert_eq!(tls.unix_time, 1_622_375_903);
    tls.handshake_result(true, 0).unwrap();
    assert_eq!(tls.state, TlsState::Open);
    assert_eq!(tls.interpret_read(42, 0), Ok(42));
    assert_eq!(tls.state, TlsState::Open);
    assert_eq!(tls.interpret_write(0, 0), Ok(()));
    assert_eq!(
        tls.interpret_read(-1, -34),
        Err(TlsError::ReadFailed(-34))
    );
    assert_eq!(tls.state, TlsState::Failed);
}

#[test]
fn failed_tls_handshake_carries_the_engine_code() {
    let mut tls = TlsSession::new();
    tls.reset(&b"ninjametal.com".to_vec(), 0);
    assert_eq!(
        tls.handshake_result(false, -62),
        Err(TlsError::HandshakeFailed(-62))
    );
    assert_eq!(tls.state, TlsState::Failed);
}

#[test]
fn callback_return_codes_follow_the_engine_convention() {
    assert_eq!(sock_read(Ok(512)), 512);
    assert_eq!(sock_read(Err(TcpError::Closed)), -1);
    assert_eq!(sock_write(Ok(0)), 0);
    assert_eq!(sock_write(Err(TcpError::SocketStatusNone)), -1);
}
