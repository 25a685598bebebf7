//! WebSocket frame codec: the wire format of one frame, as a family of spec
//! functions, with a verified encoder and decoder.
//!
//! A frame is two header bytes (final-fragment flag and opcode; mask flag and
//! a 7-bit length), an optional extended length of 2 or 8 big-endian bytes,
//! an optional 4-byte masking key, and the payload, XOR-masked when the key
//! is present. A client masks every frame it sends; a server sends unmasked
//! frames, and the decoder here takes both.

use vstd::prelude::*;

verus! {

/// Frame opcodes of the protocol.
pub const OPCODE_CONTINUATION: u8 = 0x0;

pub const OPCODE_TEXT: u8 = 0x1;

pub const OPCODE_BINARY: u8 = 0x2;

pub const OPCODE_CLOSE: u8 = 0x8;

pub const OPCODE_PING: u8 = 0x9;

pub const OPCODE_PONG: u8 = 0xA;

/// A WebSocket failure: a bad opening handshake or a frame that cannot be
/// decoded.
#[derive(Debug, Clone, Copy, PartialEq, Eq, Structural)]
pub enum WsError {
    /// The Upgrade response did not carry the expected accept key.
    HandshakeMismatch,
    /// A frame declared a payload longer than the destination buffer: the
    /// declared length and the capacity it exceeded.
    FrameTooLarge(u64, usize),
    /// A frame carried an opcode the protocol does not define.
    InvalidOpcode(u8),
    /// A continuation frame arrived with no message to continue, or a data
    /// frame interrupted a fragmented message.
    InvalidContinuation,
    /// A text message's payload was not valid UTF-8.
    InvalidUtf8,
    /// The operation is not allowed in the session's current state.
    InvalidState,
}

/// The two big-endian bytes of a 16-bit length.
pub open spec fn be16(n: nat) -> Seq<u8>
    recommends
        n < 0x1_0000,
{
    seq![(n / 0x100 % 0x100) as u8, (n % 0x100) as u8]
}

/// The value of two big-endian bytes.
pub open spec fn be16_val(s: Seq<u8>) -> nat
    recommends
        s.len() == 2,
{
    (s[0] * 0x100 + s[1]) as nat
}

/// The eight big-endian bytes of a 64-bit length.
pub open spec fn be64(n: nat) -> Seq<u8>
    recommends
        n < 0x1_0000_0000_0000_0000,
{
    seq![
        (n / 0x100_0000_0000_0000 % 0x100) as u8,
        (n / 0x1_0000_0000_0000 % 0x100) as u8,
        (n / 0x100_0000_0000 % 0x100) as u8,
        (n / 0x1_0000_0000 % 0x100) as u8,
        (n / 0x100_0000 % 0x100) as u8,
        (n / 0x1_0000 % 0x100) as u8,
        (n / 0x100 % 0x100) as u8,
        (n % 0x100) as u8,
    ]
}

/// The value of eight big-endian bytes.
pub open spec fn be64_val(s: Seq<u8>) -> nat
    recommends
        s.len() == 8,
{
    (s[0] * 0x100_0000_0000_0000 + s[1] * 0x1_0000_0000_0000 + s[2] * 0x100_0000_0000 + s[3]
        * 0x1_0000_0000 + s[4] * 0x100_0000 + s[5] * 0x1_0000 + s[6] * 0x100 + s[7]) as nat
}

/// The opcodes the protocol defines.
pub open spec fn valid_opcode(op: u8) -> bool {
    op == OPCODE_CONTINUATION || op == OPCODE_TEXT || op == OPCODE_BINARY || op == OPCODE_CLOSE
        || op == OPCODE_PING || op == OPCODE_PONG
}

/// XOR-masking of a payload with a 4-byte key, repeated cyclically. Applying
/// it twice with the same key gives the payload back.
pub open spec fn mask_bytes(payload: Seq<u8>, key: Seq<u8>) -> Seq<u8>
    recommends
        key.len() == 4,
{
    Seq::new(payload.len(), |i: int| payload[i] ^ key[i % 4])
}

/// The header of a frame: flags-and-opcode byte, then the mask flag and the
/// 7-bit length, extended by 2 or 8 big-endian bytes when the payload needs
/// them.
pub open spec fn frame_header(fin: bool, opcode: u8, masked: bool, plen: nat) -> Seq<u8>
    recommends
        opcode < 16,
        plen < 0x1_0000_0000_0000_0000,
{
    let b0 = (if fin {
        0x80u8
    } else {
        0x00u8
    }) | opcode;
    let mbit = if masked {
        0x80u8
    } else {
        0x00u8
    };
    if plen < 126 {
        seq![b0, mbit | (plen as u8)]
    } else if plen < 0x1_0000 {
        seq![b0, mbit | 126u8] + be16(plen)
    } else {
        seq![b0, mbit | 127u8] + be64(plen)
    }
}

/// One whole frame on the wire: header, masking key when present, and the
/// payload, masked when the key is present.
pub open spec fn frame_bytes(fin: bool, opcode: u8, mask: Option<Seq<u8>>, payload: Seq<u8>)
    -> Seq<u8>
    recommends
        opcode < 16,
        payload.len() < 0x1_0000_0000_0000_0000,
        mask matches Some(k) ==> k.len() == 4,
{
    match mask {
        None => frame_header(fin, opcode, false, payload.len()) + payload,
        Some(k) => frame_header(fin, opcode, true, payload.len()) + k + mask_bytes(payload, k),
    }
}

/// The final-fragment flag of an incoming frame.
pub open spec fn hdr_fin(s: Seq<u8>) -> bool
    recommends
        s.len() >= 1,
{
    s[0] & 0x80 != 0
}

/// The opcode of an incoming frame.
pub open spec fn hdr_opcode(s: Seq<u8>) -> u8
    recommends
        s.len() >= 1,
{
    s[0] & 0x0F
}

/// The mask flag of an incoming frame.
pub open spec fn hdr_masked(s: Seq<u8>) -> bool
    recommends
        s.len() >= 2,
{
    s[1] & 0x80 != 0
}

/// The 7-bit length field of an incoming frame.
pub open spec fn hdr_len7(s: Seq<u8>) -> u8
    recommends
        s.len() >= 2,
{
    s[1] & 0x7F
}

/// How many extended-length bytes the 7-bit length field announces.
pub open spec fn ext_len_bytes(s: Seq<u8>) -> int
    recommends
        s.len() >= 2,
{
    if hdr_len7(s) == 126 {
        2
    } else if hdr_len7(s) == 127 {
        8
    } else {
        0
    }
}

/// Whether enough bytes are present to read the declared payload length.
pub open spec fn have_length(s: Seq<u8>) -> bool {
    s.len() >= 2 && s.len() >= 2 + ext_len_bytes(s)
}

/// The payload length an incoming frame declares.
pub open spec fn declared_len(s: Seq<u8>) -> nat
    recommends
        have_length(s),
{
    if hdr_len7(s) == 126 {
        be16_val(s.subrange(2, 4))
    } else if hdr_len7(s) == 127 {
        be64_val(s.subrange(2, 10))
    } else {
        hdr_len7(s) as nat
    }
}

/// Total length of header and masking key of an incoming frame.
pub open spec fn header_len(s: Seq<u8>) -> int
    recommends
        s.len() >= 2,
{
    2 + ext_len_bytes(s) + if hdr_masked(s) {
        4int
    } else {
        0int
    }
}

/// Whether one whole frame is present.
pub open spec fn frame_complete(s: Seq<u8>) -> bool {
    have_length(s) && s.len() >= header_len(s) + declared_len(s)
}

/// The payload of a complete incoming frame, unmasked when the frame was
/// masked.
pub open spec fn frame_payload(s: Seq<u8>) -> Seq<u8>
    recommends
        frame_complete(s),
{
    let raw = s.subrange(header_len(s), header_len(s) + declared_len(s));
    if hdr_masked(s) {
        mask_bytes(raw, s.subrange(2 + ext_len_bytes(s), 2 + ext_len_bytes(s) + 4))
    } else {
        raw
    }
}

/// A decoded frame, before the session interprets its opcode: the
/// final-fragment flag, the opcode, the unmasked payload, and how many input
/// bytes the frame occupied.
pub struct RawFrame {
    pub fin: bool,
    pub opcode: u8,
    pub payload: Vec<u8>,
    pub consumed: usize,
}

/// The outcome of a decode attempt on a buffer that may hold less than one
/// whole frame.
pub enum DecodeStep {
    /// The buffer holds no complete frame yet: read more bytes first.
    Incomplete,
    /// One whole frame, decoded.
    Frame(RawFrame),
}

/// What `decode_frame` must return on the given input: more bytes wanted
/// until opcode and length can be read, the matching error on an undefined
/// opcode or a payload over the destination capacity, more bytes wanted
/// until the whole frame is present, and otherwise exactly the frame the
/// spec functions describe.
pub open spec fn decode_spec(s: Seq<u8>, max_payload: usize, r: Result<DecodeStep, WsError>)
    -> bool {
    if s.len() < 2 {
        r is Ok && (r matches Ok(o) && o is Incomplete)
    } else if !valid_opcode(hdr_opcode(s)) {
        r == Err::<DecodeStep, WsError>(WsError::InvalidOpcode(hdr_opcode(s)))
    } else if !have_length(s) {
        r is Ok && (r matches Ok(o) && o is Incomplete)
    } else if declared_len(s) > max_payload {
        r == Err::<DecodeStep, WsError>(
            WsError::FrameTooLarge(declared_len(s) as u64, max_payload),
        )
    } else if !frame_complete(s) {
        r is Ok && (r matches Ok(o) && o is Incomplete)
    } else {
        r matches Ok(o) && o matches DecodeStep::Frame(f) && f.fin == hdr_fin(s) && f.opcode
            == hdr_opcode(s) && f.payload@ == frame_payload(s) && f.consumed == header_len(s)
            + declared_len(s)
    }
}

/// Decodes one frame from the front of `input`. The destination buffer of
/// the caller holds `max_payload` bytes: a frame declaring more than that is
/// rejected before any payload is touched, so the bound can never be
/// overrun.
pub fn decode_frame(input: &Vec<u8>, max_payload: usize) -> (r: Result<DecodeStep, WsError>)
    ensures
        decode_spec(input@, max_payload, r),
{
    let ilen: usize = input.len();
    if ilen < 2 {
        return Ok(DecodeStep::Incomplete);
    }
    let opcode: u8 = input[0] & 0x0F;
    let fin: bool = input[0] & 0x80 != 0;
    if !(opcode == OPCODE_CONTINUATION || opcode == OPCODE_TEXT || opcode == OPCODE_BINARY
        || opcode == OPCODE_CLOSE || opcode == OPCODE_PING || opcode == OPCODE_PONG) {
        return Err(WsError::InvalidOpcode(opcode));
    }
    let masked: bool = input[1] & 0x80 != 0;
    let len7: u8 = input[1] & 0x7F;

    let ext: usize = if len7 == 126 {
        2
    } else if len7 == 127 {
        8
    } else {
        0
    };
    if ilen < 2 + ext {
        return Ok(DecodeStep::Incomplete);
    }

    let plen64: u64 = if len7 == 126 {
        input[2] as u64 * 0x100 + input[3] as u64
    } else if len7 == 127 {
        input[2] as u64 * 0x100_0000_0000_0000 + input[3] as u64 * 0x1_0000_0000_0000 + input[4]
            as u64 * 0x100_0000_0000 + input[5] as u64 * 0x1_0000_0000 + input[6] as u64
            * 0x100_0000 + input[7] as u64 * 0x1_0000 + input[8] as u64 * 0x100 + input[9] as u64
    } else {
        len7 as u64
    };
    assert(plen64 == declared_len(input@));
    if plen64 > max_payload as u64 {
        return Err(WsError::FrameTooLarge(plen64, max_payload));
    }
    let plen: usize = plen64 as usize;

    let hlen: usize = 2 + ext + if masked {
        4
    } else {
        0
    };
    if ilen < hlen || ilen - hlen < plen {
        return Ok(DecodeStep::Incomplete);
    }

    let mut payload: Vec<u8> = Vec::new();
    if masked {
        let k0 = input[2 + ext];
        let k1 = input[2 + ext + 1];
        let k2 = input[2 + ext + 2];
        let k3 = input[2 + ext + 3];
        let ghost key: Seq<u8> = input@.subrange(2 + ext, 2 + ext + 4);
        assert(key.len() == 4 && key[0] == k0 && key[1] == k1 && key[2] == k2 && key[3] == k3);
        let mut i: usize = 0;
        while i < plen
            invariant
                0 <= i <= plen,
                hlen + plen <= ilen,
                ilen == input@.len(),
                key.len() == 4,
                key[0] == k0 && key[1] == k1 && key[2] == k2 && key[3] == k3,
                payload@ =~= mask_bytes(
                    input@.subrange(hlen as int, hlen + i),
                    key,
                ),
            decreases plen - i,
        {
            let m = i % 4;
            let kb: u8 = if m == 0 {
                k0
            } else if m == 1 {
                k1
            } else if m == 2 {
                k2
            } else {
                k3
            };
            payload.push(input[hlen + i] ^ kb);
            assert(payload@ =~= mask_bytes(input@.subrange(hlen as int, hlen + i + 1), key));
            i = i + 1;
        }
        assert(payload@ =~= frame_payload(input@));
    } else {
        let mut i: usize = 0;
        while i < plen
            invariant
                0 <= i <= plen,
                hlen + plen <= ilen,
                ilen == input@.len(),
                payload@ =~= input@.subrange(hlen as int, hlen + i),
            decreases plen - i,
        {
            payload.push(input[hlen + i]);
            assert(payload@ =~= input@.subrange(hlen as int, hlen + i + 1));
            i = i + 1;
        }
        assert(payload@ =~= frame_payload(input@));
    }
    Ok(DecodeStep::Frame(RawFrame { fin, opcode, payload, consumed: hlen + plen }))
}

/// Encodes one frame: header, then the 4-byte masking key when given, then
/// the payload, masked with that key. A client passes a key with every
/// frame; the result is exactly `frame_bytes`.
pub fn encode_frame(fin: bool, opcode: u8, mask_key: Option<&Vec<u8>>, payload: &Vec<u8>) -> (r:
    Vec<u8>)
    requires
        opcode < 16,
        mask_key matches Some(k) ==> k@.len() == 4,
    ensures
        r@ == frame_bytes(
            fin,
            opcode,
            match mask_key {
                Some(k) => Some(k@),
                None => None,
            },
            payload@,
        ),
{
    let plen: usize = payload.len();
    let masked: bool = match mask_key {
        Some(_) => true,
        None => false,
    };
    let b0: u8 = (if fin {
        0x80u8
    } else {
        0x00u8
    }) | opcode;
    let mbit: u8 = if masked {
        0x80u8
    } else {
        0x00u8
    };

    let mut out: Vec<u8> = Vec::new();
    out.push(b0);
    if plen < 126 {
        out.push(mbit | (plen as u8));
    } else if plen < 0x1_0000 {
        out.push(mbit | 126u8);
        out.push((plen / 0x100 % 0x100) as u8);
        out.push((plen % 0x100) as u8);
    } else {
        out.push(mbit | 127u8);
        let p: u64 = plen as u64;
        out.push((p / 0x100_0000_0000_0000 % 0x100) as u8);
        out.push((p / 0x1_0000_0000_0000 % 0x100) as u8);
        out.push((p / 0x100_0000_0000 % 0x100) as u8);
        out.push((p / 0x1_0000_0000 % 0x100) as u8);
        out.push((p / 0x100_0000 % 0x100) as u8);
        out.push((p / 0x1_0000 % 0x100) as u8);
        out.push((p / 0x100 % 0x100) as u8);
        out.push((p % 0x100) as u8);
    }
    assert(out@ =~= frame_header(fin, opcode, masked, payload@.len()));

    match mask_key {
        None => {
            let ghost hdr = out@;
            let mut i: usize = 0;
            while i < plen
                invariant
                    0 <= i <= plen,
                    plen == payload@.len(),
                    out@ =~= hdr + payload@.subrange(0, i as int),
                decreases plen - i,
            {
                out.push(payload[i]);
                assert(out@ =~= hdr + payload@.subrange(0, i + 1));
                i = i + 1;
            }
            assert(out@ =~= hdr + payload@);
        },
        Some(k) => {
            out.push(k[0]);
            out.push(k[1]);
            out.push(k[2]);
            out.push(k[3]);
            let ghost pre = out@;
            assert(pre =~= frame_header(fin, opcode, masked, payload@.len()) + k@);
            let k0 = k[0];
            let k1 = k[1];
            let k2 = k[2];
            let k3 = k[3];
            let mut i: usize = 0;
            while i < plen
                invariant
                    0 <= i <= plen,
                    plen == payload@.len(),
                    k@.len() == 4,
                    k@[0] == k0 && k@[1] == k1 && k@[2] == k2 && k@[3] == k3,
                    out@ =~= pre + mask_bytes(payload@.subrange(0, i as int), k@),
                decreases plen - i,
            {
                let m = i % 4;
                let kb: u8 = if m == 0 {
                    k0
                } else if m == 1 {
                    k1
                } else if m == 2 {
                    k2
                } else {
                    k3
                };
                out.push(payload[i] ^ kb);
                assert(out@ =~= pre + mask_bytes(payload@.subrange(0, i + 1), k@));
                i = i + 1;
            }
            assert(payload@.subrange(0, plen as int) =~= payload@);
            assert(out@ =~= pre + mask_bytes(payload@, k@));
        },
    }
    out
}

/// The flags-and-opcode byte decodes back to the flag and opcode that built
/// it.
proof fn lemma_b0_facts(fin: bool, opcode: u8)
    requires
        opcode < 16,
    ensures
        ((if fin {
            0x80u8
        } else {
            0x00u8
        }) | opcode) & 0x0F == opcode,
        (((if fin {
            0x80u8
        } else {
            0x00u8
        }) | opcode) & 0x80 != 0) == fin,
{
    if fin {
        assert((0x80u8 | opcode) & 0x0F == opcode && (0x80u8 | opcode) & 0x80 != 0)
            by (bit_vector)
            requires
                opcode < 16,
        ;
    } else {
        assert((0x00u8 | opcode) & 0x0F == opcode && (0x00u8 | opcode) & 0x80 == 0)
            by (bit_vector)
            requires
                opcode < 16,
        ;
    }
}

/// The mask-and-length byte decodes back to the mask flag and 7-bit length
/// that built it.
proof fn lemma_len_byte_facts(masked: bool, l: u8)
    requires
        l <= 127,
    ensures
        ((if masked {
            0x80u8
        } else {
            0x00u8
        }) | l) & 0x7F == l,
        (((if masked {
            0x80u8
        } else {
            0x00u8
        }) | l) & 0x80 != 0) == masked,
{
    if masked {
        assert((0x80u8 | l) & 0x7F == l && (0x80u8 | l) & 0x80 != 0)
            by (bit_vector)
            requires
                l <= 127,
        ;
    } else {
        assert((0x00u8 | l) & 0x7F == l && (0x00u8 | l) & 0x80 == 0)
            by (bit_vector)
            requires
                l <= 127,
        ;
    }
}

/// Two big-endian bytes decode back to the 16-bit length they encode.
proof fn lemma_be16_round(n: nat)
    requires
        n < 0x1_0000,
    ensures
        be16_val(be16(n)) == n,
{
    let m = n as u16;
    assert((m / 0x100 % 0x100) * 0x100 + (m % 0x100) == m) by (bit_vector);
}

/// Eight big-endian bytes decode back to the 64-bit length they encode.
proof fn lemma_be64_round(n: nat)
    requires
        n < 0x1_0000_0000_0000_0000,
    ensures
        be64_val(be64(n)) == n,
{
    let m = n as u64;
    assert((m / 0x100_0000_0000_0000 % 0x100) * 0x100_0000_0000_0000 + (m / 0x1_0000_0000_0000
        % 0x100) * 0x1_0000_0000_0000 + (m / 0x100_0000_0000 % 0x100) * 0x100_0000_0000 + (m
        / 0x1_0000_0000 % 0x100) * 0x1_0000_0000 + (m / 0x100_0000 % 0x100) * 0x100_0000 + (m
        / 0x1_0000 % 0x100) * 0x1_0000 + (m / 0x100 % 0x100) * 0x100 + (m % 0x100) == m)
        by (bit_vector);
}

/// Round trip at the wire level: a frame built by `frame_bytes` is complete
/// and parses back to exactly the flag, opcode and payload it was built
/// from, with nothing left over.
pub proof fn lemma_frame_round_trip(fin: bool, opcode: u8, mask: Option<Seq<u8>>, payload: Seq<u8>)
    requires
        opcode < 16,
        mask matches Some(k) ==> k.len() == 4,
        payload.len() < 0x1_0000_0000_0000_0000,
    ensures
        ({
            let s = frame_bytes(fin, opcode, mask, payload);
            &&& frame_complete(s)
            &&& hdr_fin(s) == fin
            &&& hdr_opcode(s) == opcode
            &&& hdr_masked(s) == (mask is Some)
            &&& declared_len(s) == payload.len()
            &&& frame_payload(s) == payload
            &&& header_len(s) + declared_len(s) == s.len()
        }),
{
    let s = frame_bytes(fin, opcode, mask, payload);
    let masked = mask is Some;
    let plen = payload.len();
    let hdr = frame_header(fin, opcode, masked, plen);
    let body: Seq<u8> = match mask {
        None => payload,
        Some(k) => k + mask_bytes(payload, k),
    };
    assert(s == hdr + body);
    lemma_b0_facts(fin, opcode);

    let ext: int = if plen < 126 {
        0
    } else if plen < 0x1_0000 {
        2
    } else {
        8
    };
    assert(hdr.len() == 2 + ext);
    assert(s[0] == hdr[0] && s[1] == hdr[1]);

    if plen < 126 {
        let l = plen as u8;
        lemma_len_byte_facts(masked, l);
        assert(hdr_len7(s) == l && l < 126);
    } else if plen < 0x1_0000 {
        lemma_len_byte_facts(masked, 126);
        assert(hdr_len7(s) == 126);
        assert(s.subrange(2, 4) =~= be16(plen));
        lemma_be16_round(plen);
    } else {
        lemma_len_byte_facts(masked, 127);
        assert(hdr_len7(s) == 127);
        assert(s.subrange(2, 10) =~= be64(plen));
        lemma_be64_round(plen);
    }
    assert(have_length(s));
    assert(declared_len(s) == plen);
    assert(hdr_masked(s) == masked);
    assert(header_len(s) == hdr.len() + if masked {
        4int
    } else {
        0int
    });

    match mask {
        None => {
            assert(s.subrange(header_len(s), header_len(s) + plen as int) =~= payload);
        },
        Some(k) => {
            assert(s.subrange(2 + ext, 2 + ext + 4) =~= k);
            assert(s.subrange(header_len(s), header_len(s) + plen as int) =~= mask_bytes(
                payload,
                k,
            ));
            lemma_mask_involution(payload, k);
        },
    }
}

/// Round trip at the decoder level: whatever `decode_frame` returns for a
/// frame built from a payload that fits the destination buffer, it is that
/// frame, whole.
pub proof fn lemma_round_trip_decodes(
    fin: bool,
    opcode: u8,
    mask: Option<Seq<u8>>,
    payload: Seq<u8>,
    max_payload: usize,
    r: Result<DecodeStep, WsError>,
)
    requires
        valid_opcode(opcode),
        mask matches Some(k) ==> k.len() == 4,
        payload.len() <= max_payload,
        decode_spec(frame_bytes(fin, opcode, mask, payload), max_payload, r),
    ensures
        r matches Ok(o) && o matches DecodeStep::Frame(f) && f.fin == fin && f.opcode == opcode
            && f.payload@ == payload && f.consumed == frame_bytes(
            fin,
            opcode,
            mask,
            payload,
        ).len(),
{
    lemma_frame_round_trip(fin, opcode, mask, payload);
}

/// Unmasking with the key that masked is the identity.
pub proof fn lemma_mask_involution(payload: Seq<u8>, key: Seq<u8>)
    requires
        key.len() == 4,
    ensures
        mask_bytes(mask_bytes(payload, key), key) == payload,
{
    assert forall|a: u8, b: u8| #[trigger] ((a ^ b) ^ b) == a by {
        assert(forall|a: u8, b: u8| #[trigger] ((a ^ b) ^ b) == a) by (bit_vector);
    }
    assert(mask_bytes(mask_bytes(payload, key), key) =~= payload);
}

} // verus!
