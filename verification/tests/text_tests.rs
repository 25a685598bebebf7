use led_display_client::frame::WsError;
use led_display_client::text::validate_utf8;

fn ok(bytes: &[u8]) -> bool {
    validate_utf8(&bytes.to_vec()).is_ok()
}

#[test]
fn plain_and_multibyte_text_is_accepted() {
    assert!(ok(b""));
    assert!(ok(b"hello"));
    assert!(ok("héllo".as_bytes()));
    assert!(ok("€100".as_bytes()));
    assert!(ok("\u{10348}".as_bytes()));
    assert!(ok("\u{FFFD}".as_bytes()));
    assert!(ok("\u{10FFFF}".as_bytes()));
}

#[test]
fn malformed_sequences_are_rejected_with_the_utf8_error() {
    let cases: &[&[u8]] = &[
        &[0x80],                    // lone continuation byte
        &[0xC2],                    // truncated two-byte sequence
        &[0xC0, 0xAF],              // overlong encoding of '/'
        &[0xE0, 0x80, 0x80],        // overlong three-byte form
        &[0xED, 0xA0, 0x80],        // surrogate code point
        &[0xF4, 0x90, 0x80, 0x80],  // past the last code point
        &[0xF5, 0x80, 0x80, 0x80],  // undefined lead byte
        &[0xFF],                    // undefined lead byte
        &[0xE2, 0x82],              // truncated at the end
        &[0x61, 0xC2, 0x61],        // continuation replaced by ASCII
    ];
    for bytes in cases {
        assert_eq!(
            validate_utf8(&bytes.to_vec()),
            Err(WsError::InvalidUtf8),
            "should reject {:?}",
            bytes
        );
    }
}

#[test]
fn validator_agrees_with_the_standard_library() {
    // Exhaustive over all two-byte strings: the validator accepts exactly
    // the strings the standard library accepts.
    for a in 0..=255u8 {
        for b in 0..=255u8 {
            let bytes = vec![a, b];
            assert_eq!(
                ok(&bytes),
                std::str::from_utf8(&bytes).is_ok(),
                "disagreement on {:?}",
                bytes
            );
        }
    }
}

#[test]
fn validator_agrees_on_three_byte_boundaries() {
    // The boundary lead bytes of every three- and four-byte range, crossed
    // with boundary continuation values.
    let leads = [0xE0u8, 0xE1, 0xEC, 0xED, 0xEE, 0xEF, 0xF0, 0xF1, 0xF3, 0xF4];
    let conts = [0x7Fu8, 0x80, 0x8F, 0x90, 0x9F, 0xA0, 0xBF, 0xC0];
    for &l in &leads {
        for &b1 in &conts {
            for &b2 in &conts {
                let three = vec![l, b1, b2];
                assert_eq!(
                    ok(&three),
                    std::str::from_utf8(&three).is_ok(),
                    "disagreement on {:?}",
                    three
                );
                let four = vec![l, b1, b2, 0x80];
                assert_eq!(
                    ok(&four),
                    std::str::from_utf8(&four).is_ok(),
                    "disagreement on {:?}",
                    four
                );
            }
        }
    }
}
