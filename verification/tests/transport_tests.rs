use led_display_client::ntp::TimeError;
use led_display_client::transport::connect_commands;
use led_display_client::transport::poll_established;
use led_display_client::transport::read_poll;
use led_display_client::transport::wait_for_is_connected;
use led_display_client::transport::write_all_transmitted;
use led_display_client::transport::write_poll;
use led_display_client::transport::ChipCommand;
use led_display_client::transport::Connection;
use led_display_client::transport::IpAddr;
use led_display_client::transport::MacAddr;
use led_display_client::transport::NetConfig;
use led_display_client::transport::PollVerdict;
use led_display_client::transport::ReadPoll;
use led_display_client::transport::SendProgress;
use led_display_client::transport::SocketId;
use led_display_client::transport::SocketStatus;
use led_display_client::transport::TcpError;
use led_display_client::transport::WritePoll;

fn conn() -> Connection {
    Connection::new(SocketId::Socket0)
}

#[test]
fn established_reached_before_any_close_connects() {
    // Status sequences that reach Established first succeed, at that poll.
    let polls = vec![
        Some(SocketStatus::Init),
        Some(SocketStatus::SynSent),
        Some(SocketStatus::SynSent),
        Some(SocketStatus::Established),
        Some(SocketStatus::Closed),
    ];
    let mut c = conn();
    assert_eq!(wait_for_is_connected(&mut c, &polls), Ok(3));
    assert_eq!(c.socket_status, SocketStatus::Established);
}

#[test]
fn close_observed_first_fails_with_closed() {
    let polls = vec![
        Some(SocketStatus::SynSent),
        Some(SocketStatus::CloseWait),
        Some(SocketStatus::Established),
    ];
    let mut c = conn();
    assert_eq!(wait_for_is_connected(&mut c, &polls), Err(TcpError::Closed));

    let polls = vec![Some(SocketStatus::Closed)];
    let mut c = conn();
    assert_eq!(wait_for_is_connected(&mut c, &polls), Err(TcpError::Closed));
}

#[test]
fn missing_status_fails_and_exhaustion_times_out() {
    let polls = vec![Some(SocketStatus::SynSent), None];
    let mut c = conn();
    assert_eq!(
        wait_for_is_connected(&mut c, &polls),
        Err(TcpError::SocketStatusNone)
    );

    let polls = vec![Some(SocketStatus::SynSent); 5];
    let mut c = conn();
    assert_eq!(wait_for_is_connected(&mut c, &polls), Err(TcpError::Timeout));

    let mut c = conn();
    assert_eq!(
        wait_for_is_connected(&mut c, &Vec::new()),
        Err(TcpError::Timeout)
    );
}

#[test]
fn poll_records_last_observed_status() {
    let mut c = conn();
    assert_eq!(poll_established(&mut c, Some(SocketStatus::SynSent)), PollVerdict::Retry);
    assert_eq!(c.socket_status, SocketStatus::SynSent);
    assert_eq!(
        poll_established(&mut c, Some(SocketStatus::Established)),
        PollVerdict::Ready
    );
    assert_eq!(c.socket_status, SocketStatus::Established);
    assert_eq!(poll_established(&mut c, None), PollVerdict::Failed(TcpError::SocketStatusNone));
    assert_eq!(c.socket_status, SocketStatus::Established);
}

#[test]
fn connect_command_sequence_is_exact() {
    let cfg = NetConfig {
        mac: MacAddr { m0: 2, m1: 1, m2: 2, m3: 3, m4: 4, m5: 5 },
        ip: IpAddr { a: 192, b: 168, c: 1, d: 33 },
        subnet: IpAddr { a: 255, b: 255, c: 255, d: 0 },
        gateway: IpAddr { a: 192, b: 168, c: 1, d: 1 },
    };
    let host = IpAddr { a: 51, b: 140, c: 68, d: 75 };
    let cmds = connect_commands(&cfg, SocketId::Socket0, &host, 443, true);
    assert_eq!(
        cmds,
        vec![
            ChipCommand::SetMode,
            ChipCommand::SetMac(cfg.mac),
            ChipCommand::SetSubnet(cfg.subnet),
            ChipCommand::SetIp(cfg.ip),
            ChipCommand::SetGateway(cfg.gateway),
            ChipCommand::SetRxBufferSize16K(SocketId::Socket0),
            ChipCommand::SetTxBufferSize16K(SocketId::Socket0),
            ChipCommand::SetProtocolTcp(SocketId::Socket0),
            ChipCommand::Disconnect(SocketId::Socket0),
            ChipCommand::OpenTcp(SocketId::Socket0),
            ChipCommand::ConnectTo(SocketId::Socket0, host, 443),
        ]
    );
    let cmds = connect_commands(&cfg, SocketId::Socket0, &host, 80, false);
    assert_eq!(cmds.len(), 9);
    assert!(!cmds.contains(&ChipCommand::SetRxBufferSize16K(SocketId::Socket0)));
}

#[test]
fn read_poll_waits_until_data_arrives() {
    let mut c = conn();
    assert_eq!(
        read_poll(&mut c, Some(SocketStatus::SynSent), None),
        ReadPoll::Wait
    );
    assert_eq!(
        read_poll(&mut c, Some(SocketStatus::Established), None),
        ReadPoll::Wait
    );
    assert_eq!(
        read_poll(&mut c, Some(SocketStatus::Established), Some(17)),
        ReadPoll::Data(17)
    );
    assert_eq!(
        read_poll(&mut c, Some(SocketStatus::CloseWait), Some(17)),
        ReadPoll::Fail(TcpError::Closed)
    );
}

#[test]
fn write_poll_advances_until_the_payload_is_covered() {
    let mut c = conn();
    let mut p = SendProgress::new(10);
    assert_eq!(
        write_poll(&mut c, Some(SocketStatus::Established), &mut p, 4),
        WritePoll::Progress
    );
    assert_eq!(p.sent, 4);
    assert_eq!(
        write_poll(&mut c, Some(SocketStatus::SynSent), &mut p, 0),
        WritePoll::Wait
    );
    assert_eq!(p.sent, 4);
    assert_eq!(
        write_poll(&mut c, Some(SocketStatus::Established), &mut p, 6),
        WritePoll::Done
    );
    assert!(p.done());
    let mut p2 = SendProgress::new(3);
    assert_eq!(
        write_poll(&mut c, Some(SocketStatus::Closed), &mut p2, 0),
        WritePoll::Fail(TcpError::Closed)
    );
    assert_eq!(p2.sent, 0);
}

#[test]
fn chunked_transmission_reassembles_the_payload_exactly() {
    // However the chip splits the sends, the transmitted bytes concatenate
    // to the payload: nothing dropped, reordered or duplicated.
    let payload: Vec<u8> = (0..100u8).collect();
    for sizes in [vec![100], vec![1; 100], vec![37, 13, 50], vec![99, 1]] {
        assert_eq!(write_all_transmitted(&payload, &sizes), payload);
    }
    // Sizes covering only part of the payload transmit exactly that prefix.
    let partial = write_all_transmitted(&payload, &vec![10, 5]);
    assert_eq!(partial, payload[..15].to_vec());
    assert_eq!(write_all_transmitted(&payload, &Vec::new()), Vec::<u8>::new());
}

#[test]
fn time_errors_ride_inside_transport_errors() {
    let e = TcpError::Time(TimeError::InvalidVersion(3));
    assert_eq!(e, TcpError::Time(TimeError::InvalidVersion(3)));
    assert_ne!(e, TcpError::Closed);
}
