//! Network time client: the device has no trustworthy real-time clock, so
//! before every TLS handshake it asks an SNTP server for the current time
//! and hands the answer to the TLS session for certificate-expiry checks.
//!
//! The request and reply are 48-byte SNTP packets. Only the computation is
//! here: building the request, filtering replies, and turning the 64-bit
//! fixed-point transmit timestamp into signed Unix seconds (with the era
//! rollover correction for timestamps whose top bit is clear).

use vstd::prelude::*;

verus! {

/// UDP port of the network time service.
pub const NTP_PORT: u16 = 123;

/// Length in bytes of an SNTP request or reply packet.
pub const NTP_PACKET_LEN: usize = 48;

/// First packet byte of a client request: leap-indicator 0, version 4, mode 3.
pub const NTP_REQUEST_HEADER: u8 = 0x23;

/// Seconds between the NTP epoch (1900) and the Unix epoch (1970).
pub const NTP_UNIX_EPOCH_OFFSET: i64 = 2_208_988_800;

/// How a malformed time reply is rejected.
#[derive(Debug, Clone, Copy, PartialEq, Eq, Structural)]
pub enum TimeError {
    /// The reply did not have the 48 bytes of an SNTP packet.
    InvalidPacketLength(usize),
    /// The reply's version field was not 4.
    InvalidVersion(u8),
}

/// One datagram as the transport hands it up: the remote port it came from
/// and the bytes received.
pub struct UdpReply {
    pub port: u16,
    pub data: Vec<u8>,
}

/// The version field of a packet: bits 3 to 5 of the first byte.
pub open spec fn ntp_version(s: Seq<u8>) -> u8
    recommends
        s.len() > 0,
{
    (s[0] >> 3) & 0x07
}

/// The big-endian value of the 8 timestamp bytes.
pub open spec fn ntp_u64_be(s: Seq<u8>) -> nat
    recommends
        s.len() == 8,
{
    (s[0] * 0x100_0000_0000_0000 + s[1] * 0x1_0000_0000_0000 + s[2] * 0x100_0000_0000 + s[3]
        * 0x1_0000_0000 + s[4] * 0x100_0000 + s[5] * 0x1_0000 + s[6] * 0x100 + s[7]) as nat
}

/// Era-rollover correction: a timestamp with the top bit clear belongs to the
/// era after the 32-bit seconds field wraps, so it counts one full era more.
pub open spec fn ntp_era_corrected(t: nat) -> nat {
    if t < 0x8000_0000_0000_0000 {
        (t + 0x1_0000_0000_0000_0000) as nat
    } else {
        t
    }
}

/// The signed Unix time encoded by a full 48-byte reply: the upper 32 bits of
/// the era-corrected transmit timestamp (bytes 32 to 39), shifted to the Unix
/// epoch.
pub open spec fn ntp_unix_seconds(s: Seq<u8>) -> int
    recommends
        s.len() == 48,
{
    ntp_era_corrected(ntp_u64_be(s.subrange(32, 40))) / 0x1_0000_0000 - NTP_UNIX_EPOCH_OFFSET
}

/// Builds the fixed 48-byte client request: the header byte, then zeros.
pub fn build_ntp_request() -> (r: Vec<u8>)
    ensures
        r@.len() == NTP_PACKET_LEN,
        r@[0] == NTP_REQUEST_HEADER,
        forall|i: int| 1 <= i < 48 ==> r@[i] == 0u8,
{
    let mut v: Vec<u8> = Vec::new();
    v.push(NTP_REQUEST_HEADER);
    while v.len() < NTP_PACKET_LEN
        invariant
            1 <= v@.len() <= 48,
            v@[0] == NTP_REQUEST_HEADER,
            forall|i: int| 1 <= i < v@.len() ==> v@[i] == 0u8,
        decreases 48 - v@.len(),
    {
        v.push(0);
    }
    v
}

/// Parses a time reply: exactly 48 bytes and version 4, else the matching
/// error; on success the era-corrected Unix time of the transmit timestamp.
pub fn parse_ntp_response(p: &Vec<u8>) -> (r: Result<i64, TimeError>)
    ensures
        p@.len() != 48 ==> r == Err::<i64, TimeError>(
            TimeError::InvalidPacketLength(p@.len() as usize),
        ),
        p@.len() == 48 && ntp_version(p@) != 4 ==> r == Err::<i64, TimeError>(
            TimeError::InvalidVersion(ntp_version(p@)),
        ),
        p@.len() == 48 && ntp_version(p@) == 4 ==> (r matches Ok(t) && t == ntp_unix_seconds(
            p@,
        )),
{
    if p.len() != NTP_PACKET_LEN {
        return Err(TimeError::InvalidPacketLength(p.len()));
    }
    let version: u8 = (p[0] >> 3) & 0x07;
    if version != 4 {
        return Err(TimeError::InvalidVersion(version));
    }

    let b0 = p[32];
    let b1 = p[33];
    let b2 = p[34];
    let b3 = p[35];
    let b4 = p[36];
    let b5 = p[37];
    let b6 = p[38];
    let b7 = p[39];
    let ts: u64 = (b0 as u64) << 56 | (b1 as u64) << 48 | (b2 as u64) << 40 | (b3 as u64) << 32 | (
    b4 as u64) << 24 | (b5 as u64) << 16 | (b6 as u64) << 8 | (b7 as u64);
    assert(ts == b0 * 0x100_0000_0000_0000 + b1 * 0x1_0000_0000_0000 + b2 * 0x100_0000_0000 + b3
        * 0x1_0000_0000 + b4 * 0x100_0000 + b5 * 0x1_0000 + b6 * 0x100 + b7)
        by (bit_vector)
        requires
            ts == (b0 as u64) << 56 | (b1 as u64) << 48 | (b2 as u64) << 40 | (b3 as u64) << 32 | (
            b4 as u64) << 24 | (b5 as u64) << 16 | (b6 as u64) << 8 | (b7 as u64),
    ;
    assert(ts as nat == ntp_u64_be(p@.subrange(32, 40)));

    let corrected: u128 = if ts < 0x8000_0000_0000_0000 {
        ts as u128 + 0x1_0000_0000_0000_0000
    } else {
        ts as u128
    };
    assert(corrected as nat == ntp_era_corrected(ts as nat));

    let secs: u128 = corrected >> 32;
    assert(secs == corrected / 0x1_0000_0000) by (bit_vector)
        requires
            secs == corrected >> 32,
    ;
    assert(secs < 0x2_0000_0000) by (bit_vector)
        requires
            corrected < 0x2_0000_0000_0000_0000,
            secs == corrected >> 32,
    ;
    let unix_time: i64 = secs as i64 - NTP_UNIX_EPOCH_OFFSET;
    Ok(unix_time)
}

/// One step of the reply-wait loop: nothing yet or a datagram from the wrong
/// port keeps the caller waiting; a datagram from the time service is parsed.
pub fn handle_ntp_reply(reply: &Option<UdpReply>) -> (r: Result<Option<i64>, TimeError>)
    ensures
        reply is None ==> r == Ok::<Option<i64>, TimeError>(None),
        reply matches Some(rep) ==> ({
            &&& (rep.port != NTP_PORT ==> r == Ok::<Option<i64>, TimeError>(None))
            &&& (rep.port == NTP_PORT && rep.data@.len() != 48 ==> r == Err::<
                Option<i64>,
                TimeError,
            >(TimeError::InvalidPacketLength(rep.data@.len() as usize)))
            &&& (rep.port == NTP_PORT && rep.data@.len() == 48 && ntp_version(rep.data@) != 4
                ==> r == Err::<Option<i64>, TimeError>(
                TimeError::InvalidVersion(ntp_version(rep.data@)),
            ))
            &&& (rep.port == NTP_PORT && rep.data@.len() == 48 && ntp_version(rep.data@) == 4
                ==> (r matches Ok(o) && o matches Some(t) && t == ntp_unix_seconds(rep.data@)))
        }),
{
    match reply {
        None => Ok(None),
        Some(rep) => {
            if rep.port != NTP_PORT {
                Ok(None)
            } else {
                match parse_ntp_response(&rep.data) {
                    Ok(t) => Ok(Some(t)),
                    Err(e) => Err(e),
                }
            }
        },
    }
}

} // verus!
