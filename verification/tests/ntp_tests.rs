use led_display_client::ntp::build_ntp_request;
use led_display_client::ntp::handle_ntp_reply;
use led_display_client::ntp::parse_ntp_response;
use led_display_client::ntp::TimeError;
use led_display_client::ntp::UdpReply;
use led_display_client::ntp::NTP_PACKET_LEN;
use led_display_client::ntp::NTP_PORT;

fn response_with_timestamp(ts_bytes: [u8; 8]) -> Vec<u8> {
    let mut p = vec![0u8; NTP_PACKET_LEN];
    p[0] = 0x24; // leap 0, version 4, mode 4 (server)
    p[32..40].copy_from_slice(&ts_bytes);
    p
}

#[test]
fn request_packet_is_48_bytes_of_client_header() {
    let req = build_ntp_request();
    assert_eq!(req.len(), 48);
    assert_eq!(req[0], 0x23); // leap 0, version 4, mode 3 (client)
    assert!(req[1..].iter().all(|&b| b == 0));
}

#[test]
fn known_timestamp_parses_to_reference_unix_time() {
    // Transmit timestamp 0xE45DFC5F.12345678: seconds since 1900 with the
    // top bit set, so no era correction applies.
    let p = response_with_timestamp([228, 93, 252, 95, 18, 52, 86, 120]);
    assert_eq!(parse_ntp_response(&p), Ok(1_622_375_903));
}

#[test]
fn era_rollover_is_corrected_for_small_timestamps() {
    // A timestamp with the top bit clear belongs to the next era: one full
    // 2^32 seconds is added before the epoch shift.
    let p = response_with_timestamp([16, 0, 0, 0, 0, 0, 0, 0]);
    assert_eq!(parse_ntp_response(&p), Ok(0x1000_0000 + 0x1_0000_0000 - 2_208_988_800));
    assert_eq!(parse_ntp_response(&p), Ok(2_354_413_952));
}

#[test]
fn wrong_length_is_rejected() {
    let p = vec![0x24u8; 47];
    assert_eq!(
        parse_ntp_response(&p),
        Err(TimeError::InvalidPacketLength(47))
    );
    let p = vec![0x24u8; 49];
    assert_eq!(
        parse_ntp_response(&p),
        Err(TimeError::InvalidPacketLength(49))
    );
}

#[test]
fn wrong_version_is_rejected() {
    let mut p = response_with_timestamp([228, 93, 252, 95, 0, 0, 0, 0]);
    p[0] = 0x1C; // version 3
    assert_eq!(parse_ntp_response(&p), Err(TimeError::InvalidVersion(3)));
}

#[test]
fn replies_from_other_ports_keep_the_wait_going() {
    let data = response_with_timestamp([228, 93, 252, 95, 0, 0, 0, 0]);
    let stray = Some(UdpReply { port: 5353, data: data.clone() });
    assert_eq!(handle_ntp_reply(&stray), Ok(None));
    assert_eq!(handle_ntp_reply(&None), Ok(None));
    let good = Some(UdpReply { port: NTP_PORT, data });
    assert_eq!(handle_ntp_reply(&good), Ok(Some(1_622_375_903)));
}

#[test]
fn malformed_reply_from_the_right_port_is_an_error() {
    let bad = Some(UdpReply { port: NTP_PORT, data: vec![0u8; 10] });
    assert_eq!(
        handle_ntp_reply(&bad),
        Err(TimeError::InvalidPacketLength(10))
    );
}
