use led_display_client::client::MessageType;
use led_display_client::client::ReadOutcome;
use led_display_client::client::SendMessageType;
use led_display_client::client::WebSocketClient;
use led_display_client::client::WsState;
use led_display_client::frame::decode_frame;
use led_display_client::frame::encode_frame;
use led_display_client::frame::DecodeStep;
use led_display_client::frame::WsError;

fn open_client() -> WebSocketClient {
    let mut c = WebSocketClient::new_client();
    c.state = WsState::Open;
    c
}

#[test]
fn encode_unmasked_text_hello_matches_wire_reference() {
    // The canonical single-frame text message "hello", unmasked.
    let payload = b"hello".to_vec();
    let bytes = encode_frame(true, 0x1, None, &payload);
    assert_eq!(bytes, vec![129, 5, 104, 101, 108, 108, 111]);
}

#[test]
fn text_round_trip_masked() {
    let mut sender = open_client();
    let payload = b"hello".to_vec();
    let mask = vec![7u8, 1, 9, 250];
    let wire = sender
        .write(SendMessageType::Text, true, &payload, &mask)
        .unwrap();

    let mut receiver = open_client();
    match receiver.read(&wire, 128).unwrap() {
        ReadOutcome::Message(m) => {
            assert_eq!(m.message_type, MessageType::Text);
            assert_eq!(m.payload, payload);
            assert!(m.end_of_message);
            assert_eq!(m.consumed, wire.len());
        }
        ReadOutcome::Incomplete => panic!("frame should be complete"),
    }
}

#[test]
fn ping_payload_echoed_as_pong_round_trips() {
    // A ping arrives from the server (unmasked)...
    let ping_payload = b"are you there".to_vec();
    let ping_wire = encode_frame(true, 0x9, None, &ping_payload);
    let mut receiver = open_client();
    let ping = match receiver.read(&ping_wire, 128).unwrap() {
        ReadOutcome::Message(m) => m,
        ReadOutcome::Incomplete => panic!("ping should be complete"),
    };
    assert_eq!(ping.message_type, MessageType::Ping);

    // ...its payload is echoed back as a pong...
    let mask = vec![0u8, 0, 0, 1];
    let pong_wire = receiver
        .write(SendMessageType::Pong, true, &ping.payload, &mask)
        .unwrap();

    // ...and decoding the echo yields a pong with the original payload.
    let mut observer = open_client();
    match observer.read(&pong_wire, 128).unwrap() {
        ReadOutcome::Message(m) => {
            assert_eq!(m.message_type, MessageType::Pong);
            assert_eq!(m.payload, ping_payload);
        }
        ReadOutcome::Incomplete => panic!("pong should be complete"),
    }
}

#[test]
fn sixteen_bit_length_round_trips() {
    let payload: Vec<u8> = (0..300u32).map(|i| (i % 251) as u8).collect();
    let mask = vec![1u8, 2, 3, 4];
    let mut sender = open_client();
    let wire = sender
        .write(SendMessageType::Binary, true, &payload, &mask)
        .unwrap();
    // 2 header + 2 extended length + 4 mask + payload
    assert_eq!(wire.len(), 8 + payload.len());
    assert_eq!(wire[1] & 0x7F, 126);

    let mut receiver = open_client();
    match receiver.read(&wire, 1024).unwrap() {
        ReadOutcome::Message(m) => {
            assert_eq!(m.message_type, MessageType::Binary);
            assert_eq!(m.payload, payload);
        }
        ReadOutcome::Incomplete => panic!("frame should be complete"),
    }
}

#[test]
fn sixty_four_bit_length_round_trips() {
    let payload: Vec<u8> = (0..70000u32).map(|i| (i % 241) as u8).collect();
    let wire = encode_frame(true, 0x2, None, &payload);
    assert_eq!(wire[1] & 0x7F, 127);
    assert_eq!(wire.len(), 10 + payload.len());
    let mut receiver = open_client();
    match receiver.read(&wire, 100_000).unwrap() {
        ReadOutcome::Message(m) => {
            assert_eq!(m.payload, payload);
        }
        ReadOutcome::Incomplete => panic!("frame should be complete"),
    }
}

#[test]
fn oversized_declared_payload_is_rejected() {
    // A frame declaring 200 payload bytes must not touch a 128-byte
    // destination buffer.
    let payload: Vec<u8> = vec![7u8; 200];
    let wire = encode_frame(true, 0x2, None, &payload);
    let mut receiver = open_client();
    match receiver.read(&wire, 128) {
        Err(WsError::FrameTooLarge(declared, cap)) => {
            assert_eq!(declared, 200);
            assert_eq!(cap, 128);
        }
        other => panic!("expected FrameTooLarge, got {:?}", other.is_ok()),
    }
    // The header alone, without any payload byte, is already rejected.
    let header_only = wire[..4].to_vec();
    match decode_frame(&header_only, 128) {
        Err(WsError::FrameTooLarge(200, 128)) => {}
        _ => panic!("expected FrameTooLarge from the header alone"),
    }
}

#[test]
fn invalid_opcode_is_rejected() {
    let wire = vec![0x83u8, 0x00];
    match decode_frame(&wire, 128) {
        Err(WsError::InvalidOpcode(3)) => {}
        _ => panic!("expected InvalidOpcode(3)"),
    }
}

#[test]
fn partial_frames_ask_for_more_bytes() {
    let payload = b"hello".to_vec();
    let wire = encode_frame(true, 0x1, None, &payload);
    for cut in 0..wire.len() {
        let part = wire[..cut].to_vec();
        match decode_frame(&part, 128) {
            Ok(DecodeStep::Incomplete) => {}
            _ => panic!("prefix of {} bytes should be incomplete", cut),
        }
    }
    match decode_frame(&wire, 128) {
        Ok(DecodeStep::Frame(f)) => {
            assert_eq!(f.payload, payload);
            assert!(f.fin);
            assert_eq!(f.opcode, 0x1);
        }
        _ => panic!("full frame should decode"),
    }
}

#[test]
fn close_frame_carries_status_and_drives_close_states() {
    // Server closes first: the client owes a reply.
    let close_payload = vec![0x03u8, 0xE8];  // status 1000
    let wire = encode_frame(true, 0x8, None, &close_payload);
    let mut receiver = open_client();
    match receiver.read(&wire, 128).unwrap() {
        ReadOutcome::Message(m) => {
            assert_eq!(m.message_type, MessageType::CloseMustReply);
            assert_eq!(m.close_status, Some(1000));
            assert_eq!(m.payload, close_payload);
        }
        ReadOutcome::Incomplete => panic!("close should be complete"),
    }
    assert_eq!(receiver.state, WsState::CloseReceived);
    // The reply is allowed in that state and finishes the session.
    let mask = vec![9u8, 9, 9, 9];
    receiver
        .write(SendMessageType::CloseReply, true, &close_payload, &mask)
        .unwrap();
    assert_eq!(receiver.state, WsState::Closed);

    // This side closes first: the server's close completes the handshake.
    let mut initiator = open_client();
    let reason = b"bye".to_vec();
    let close_wire = initiator.close(1000, &reason, &mask).unwrap();
    assert_eq!(initiator.state, WsState::CloseSent);
    // The close frame carries the status code and reason, masked.
    let mut observer = open_client();
    match observer.read(&close_wire, 128).unwrap() {
        ReadOutcome::Message(m) => {
            assert_eq!(m.close_status, Some(1000));
            assert_eq!(&m.payload[2..], b"bye");
        }
        ReadOutcome::Incomplete => panic!("close should be complete"),
    }
    match initiator.read(&wire, 128).unwrap() {
        ReadOutcome::Message(m) => {
            assert_eq!(m.message_type, MessageType::CloseCompleted);
        }
        ReadOutcome::Incomplete => panic!("close should be complete"),
    }
    assert_eq!(initiator.state, WsState::Closed);
}

#[test]
fn continuation_without_start_is_rejected() {
    let wire = encode_frame(true, 0x0, None, &b"tail".to_vec());
    let mut receiver = open_client();
    match receiver.read(&wire, 128) {
        Err(WsError::InvalidContinuation) => {}
        _ => panic!("expected InvalidContinuation"),
    }
}

#[test]
fn fragmented_message_keeps_its_type() {
    let mut receiver = open_client();
    let first = encode_frame(false, 0x1, None, &b"hel".to_vec());
    match receiver.read(&first, 128).unwrap() {
        ReadOutcome::Message(m) => {
            assert_eq!(m.message_type, MessageType::Text);
            assert!(!m.end_of_message);
        }
        ReadOutcome::Incomplete => panic!("fragment should decode"),
    }
    let rest = encode_frame(true, 0x0, None, &b"lo".to_vec());
    match receiver.read(&rest, 128).unwrap() {
        ReadOutcome::Message(m) => {
            assert_eq!(m.message_type, MessageType::Text);
            assert!(m.end_of_message);
            assert_eq!(m.payload, b"lo".to_vec());
        }
        ReadOutcome::Incomplete => panic!("fragment should decode"),
    }
}

#[test]
fn read_in_wrong_state_is_refused() {
    let mut c = WebSocketClient::new_client();
    let wire = encode_frame(true, 0x1, None, &b"hi".to_vec());
    match c.read(&wire, 128) {
        Err(WsError::InvalidState) => {}
        _ => panic!("read before the handshake must be refused"),
    }
    match c.write(SendMessageType::Text, true, &b"hi".to_vec(), &vec![0, 0, 0, 0]) {
        Err(WsError::InvalidState) => {}
        _ => panic!("write before the handshake must be refused"),
    }
}

#[test]
fn our_unmasked_frames_decode_with_the_reference_codec() {
    // Cross-check: a frame built here is read back by embedded-websocket.
    let payload = b"cross-check payload".to_vec();
    let wire = encode_frame(true, 0x1, None, &payload);
    let mut ws = embedded_websocket::WebSocketServer::new_server();
    ws.state = embedded_websocket::WebSocketState::Open;
    let mut out = [0u8; 256];
    let res = ws.read(&wire, &mut out).unwrap();
    assert_eq!(
        res.message_type,
        embedded_websocket::WebSocketReceiveMessageType::Text
    );
    assert!(res.end_of_message);
    assert_eq!(&out[..res.len_to], payload.as_slice());
    assert_eq!(res.len_from, wire.len());
}

#[test]
fn reference_codec_close_frame_decodes_here() {
    // Cross-check: the close frame the reference codec sends carries the
    // status code this codec reports.
    let mut ws = embedded_websocket::WebSocketClient::new_client(embedded_websocket::EmptyRng::new());
    ws.state = embedded_websocket::WebSocketState::Open;
    let mut buf = [0u8; 128];
    let n = ws
        .close(
            embedded_websocket::WebSocketCloseStatusCode::NormalClosure,
            Some("bye"),
            &mut buf,
        )
        .unwrap();
    let wire = buf[..n].to_vec();

    let mut receiver = open_client();
    match receiver.read(&wire, 128).unwrap() {
        ReadOutcome::Message(m) => {
            assert_eq!(m.message_type, MessageType::CloseMustReply);
            assert_eq!(m.close_status, Some(1000));
            assert_eq!(&m.payload[2..], b"bye");
        }
        ReadOutcome::Incomplete => panic!("close should be complete"),
    }
}

#[test]
fn reference_codec_masked_frames_decode_here() {
    // Cross-check: a masked client frame from embedded-websocket is read
    // back by this codec.
    let mut ws = embedded_websocket::WebSocketClient::new_client(embedded_websocket::EmptyRng::new());
    ws.state = embedded_websocket::WebSocketState::Open;
    let mut wire_buf = [0u8; 256];
    let payload = b"masked by the reference".to_vec();
    let n = ws
        .write(
            embedded_websocket::WebSocketSendMessageType::Text,
            true,
            &payload,
            &mut wire_buf,
        )
        .unwrap();
    let wire = wire_buf[..n].to_vec();
    assert_ne!(wire[1] & 0x80, 0, "client frames are masked");

    let mut receiver = open_client();
    match receiver.read(&wire, 128).unwrap() {
        ReadOutcome::Message(m) => {
            assert_eq!(m.message_type, MessageType::Text);
            assert_eq!(m.payload, payload);
        }
        ReadOutcome::Incomplete => panic!("frame should be complete"),
    }
}
