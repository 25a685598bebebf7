//! WebSocket opening handshake: building the HTTP Upgrade request, deriving
//! the accept key the server owes back, and validating the server's
//! response.
//!
//! The accept key is the base64 encoding of the SHA-1 digest of the
//! request's base64 key followed by the protocol's fixed GUID. Only the
//! digest itself is taken from an outside crate; everything else is built
//! and checked here, byte for byte.

use vstd::prelude::*;

use crate::base64::base64_of;
use crate::base64::base64_encode;
use crate::frame::WsError;

verus! {

/// "GET "
pub const GET_SP: [u8; 4] = [71, 69, 84, 32];

/// " HTTP/1.1\r\nHost: "
pub const HTTP_HOST: [u8; 17] = [32, 72, 84, 84, 80, 47, 49, 46, 49, 13, 10, 72, 111, 115, 116, 58, 32];

/// "\r\nUpgrade: websocket\r\nConnection: Upgrade\r\nSec-WebSocket-Key: "
pub const UPGRADE_KEY: [u8; 62] = [
    13, 10, 85, 112, 103, 114, 97, 100, 101, 58, 32, 119, 101, 98, 115, 111, 99, 107, 101, 116,
    13, 10, 67, 111, 110, 110, 101, 99, 116, 105, 111, 110, 58, 32, 85, 112, 103, 114, 97, 100,
    101, 13, 10, 83, 101, 99, 45, 87, 101, 98, 83, 111, 99, 107, 101, 116, 45, 75, 101, 121, 58,
    32,
];

/// "\r\nOrigin: "
pub const ORIGIN_HDR: [u8; 10] = [13, 10, 79, 114, 105, 103, 105, 110, 58, 32];

/// "\r\nSec-WebSocket-Protocol: "
pub const PROTOCOL_HDR: [u8; 26] = [
    13, 10, 83, 101, 99, 45, 87, 101, 98, 83, 111, 99, 107, 101, 116, 45, 80, 114, 111, 116, 111,
    99, 111, 108, 58, 32,
];

/// "\r\nSec-WebSocket-Version: 13\r\n\r\n"
pub const VERSION_END: [u8; 31] = [
    13, 10, 83, 101, 99, 45, 87, 101, 98, 83, 111, 99, 107, 101, 116, 45, 86, 101, 114, 115, 105,
    111, 110, 58, 32, 49, 51, 13, 10, 13, 10,
];

/// "258EAFA5-E914-47DA-95CA-C5AB0DC85B11", the fixed GUID the protocol
/// appends to the key before hashing.
pub const ACCEPT_GUID: [u8; 36] = [
    50, 53, 56, 69, 65, 70, 65, 53, 45, 69, 57, 49, 52, 45, 52, 55, 68, 65, 45, 57, 53, 67, 65,
    45, 67, 53, 65, 66, 48, 68, 67, 56, 53, 66, 49, 49,
];

/// "HTTP/1.1 101 "
pub const STATUS_101: [u8; 13] = [72, 84, 84, 80, 47, 49, 46, 49, 32, 49, 48, 49, 32];

/// "\r\nSec-WebSocket-Accept: "
pub const ACCEPT_HDR: [u8; 24] = [
    13, 10, 83, 101, 99, 45, 87, 101, 98, 83, 111, 99, 107, 101, 116, 45, 65, 99, 99, 101, 112,
    116, 58, 32,
];

/// "\r\n"
pub const CRLF: [u8; 2] = [13, 10];

/// What the client asks for in the opening handshake: the request path, the
/// host and origin of the target, and an optional sub-protocol list (already
/// rendered as one comma-separated byte string).
pub struct WebSocketOptions {
    pub path: Vec<u8>,
    pub host: Vec<u8>,
    pub origin: Vec<u8>,
    pub sub_protocols: Option<Vec<u8>>,
}

/// The whole Upgrade request for the given parts, byte for byte.
pub open spec fn upgrade_request(
    path: Seq<u8>,
    host: Seq<u8>,
    origin: Seq<u8>,
    key_b64: Seq<u8>,
    sub_protocols: Option<Seq<u8>>,
) -> Seq<u8> {
    GET_SP@ + path + HTTP_HOST@ + host + UPGRADE_KEY@ + key_b64 + ORIGIN_HDR@ + origin + (
    match sub_protocols {
        Some(p) => PROTOCOL_HDR@ + p,
        None => Seq::empty(),
    }) + VERSION_END@
}

/// The 20-byte SHA-1 digest of a byte sequence, named here; the digest
/// itself is computed by an outside crate.
pub uninterp spec fn sha1_of(s: Seq<u8>) -> Seq<u8>;

/// Relies on the sha1 crate's `Sha1` (RustCrypto): the digest is 20 bytes
/// and depends on the input bytes alone.
#[verifier::external_body]
fn sha1_digest(data: &Vec<u8>) -> (r: Vec<u8>)
    ensures
        r@ == sha1_of(data@),
        r@.len() == 20,
{
    let digest = <sha1::Sha1 as sha1::Digest>::digest(data.as_slice());
    digest.as_slice().to_vec()
}

/// The accept key the server owes for a given base64-encoded request key.
pub open spec fn accept_key_of(key_b64: Seq<u8>) -> Seq<u8> {
    base64_of(sha1_of(key_b64 + ACCEPT_GUID@))
}

/// Appends a whole buffer.
fn append_vec(out: &mut Vec<u8>, add: &Vec<u8>)
    ensures
        final(out)@ == old(out)@ + add@,
{
    let mut i: usize = 0;
    while i < add.len()
        invariant
            0 <= i <= add@.len(),
            out@ =~= old(out)@ + add@.subrange(0, i as int),
        decreases add@.len() - i,
    {
        out.push(add[i]);
        assert(out@ =~= old(out)@ + add@.subrange(0, i + 1));
        i = i + 1;
    }
    assert(out@ =~= old(out)@ + add@);
}

/// Appends a compiled-in byte table.
fn append_table<const N: usize>(out: &mut Vec<u8>, add: &[u8; N])
    ensures
        final(out)@ == old(out)@ + add@,
{
    let mut i: usize = 0;
    while i < N
        invariant
            0 <= i <= N,
            add@.len() == N,
            out@ =~= old(out)@ + add@.subrange(0, i as int),
        decreases N - i,
    {
        out.push(add[i]);
        assert(out@ =~= old(out)@ + add@.subrange(0, i + 1));
        i = i + 1;
    }
    assert(out@ =~= old(out)@ + add@);
}

/// Derives the accept key owed for a base64 request key: base64 of the
/// SHA-1 digest of the key followed by the protocol GUID.
pub fn derive_accept_key(key_b64: &Vec<u8>) -> (r: Vec<u8>)
    ensures
        r@ == accept_key_of(key_b64@),
        r@.len() == 28,
{
    let mut data: Vec<u8> = Vec::new();
    append_vec(&mut data, key_b64);
    append_table(&mut data, &ACCEPT_GUID);
    assert(data@ =~= key_b64@ + ACCEPT_GUID@);
    let digest = sha1_digest(&data);
    proof {
        crate::base64::lemma_base64_len(digest@);
    }
    base64_encode(&digest)
}

/// Builds the Upgrade request for the given options and base64 key:
/// exactly `upgrade_request`.
pub fn build_upgrade_request(options: &WebSocketOptions, key_b64: &Vec<u8>) -> (r: Vec<u8>)
    ensures
        options.sub_protocols matches Some(p) ==> r@ == upgrade_request(
            options.path@,
            options.host@,
            options.origin@,
            key_b64@,
            Some(p@),
        ),
        options.sub_protocols is None ==> r@ == upgrade_request(
            options.path@,
            options.host@,
            options.origin@,
            key_b64@,
            None,
        ),
{
    let mut out: Vec<u8> = Vec::new();
    append_table(&mut out, &GET_SP);
    append_vec(&mut out, &options.path);
    append_table(&mut out, &HTTP_HOST);
    append_vec(&mut out, &options.host);
    append_table(&mut out, &UPGRADE_KEY);
    append_vec(&mut out, key_b64);
    append_table(&mut out, &ORIGIN_HDR);
    append_vec(&mut out, &options.origin);
    match &options.sub_protocols {
        Some(p) => {
            append_table(&mut out, &PROTOCOL_HDR);
            append_vec(&mut out, p);
        },
        None => {},
    }
    append_table(&mut out, &VERSION_END);
    proof {
        if options.sub_protocols is Some {
            assert(out@ =~= upgrade_request(
                options.path@,
                options.host@,
                options.origin@,
                key_b64@,
                Some(options.sub_protocols.unwrap()@),
            ));
        } else {
            assert(out@ =~= upgrade_request(
                options.path@,
                options.host@,
                options.origin@,
                key_b64@,
                None,
            ));
        }
    }
    out
}

/// The needle occurs in the haystack at exactly this position.
pub open spec fn match_at(h: Seq<u8>, i: int, n: Seq<u8>) -> bool {
    0 <= i && i + n.len() <= h.len() && h.subrange(i, i + n.len()) == n
}

/// Compares the needle against the haystack at one position.
fn eq_at(h: &Vec<u8>, i: usize, n: &Vec<u8>) -> (r: bool)
    requires
        i + n@.len() <= h@.len(),
    ensures
        r <==> match_at(h@, i as int, n@),
{
    let hl: usize = h.len();
    let nl: usize = n.len();
    let mut j: usize = 0;
    while j < nl
        invariant
            0 <= j <= nl,
            nl == n@.len(),
            hl == h@.len(),
            i + nl <= hl,
            forall|k: int| 0 <= k < j ==> h@[i + k] == n@[k],
        decreases nl - j,
    {
        if h[i + j] != n[j] {
            assert(h@.subrange(i as int, i + n@.len())[j as int] != n@[j as int]);
            return false;
        }
        j = j + 1;
    }
    assert(h@.subrange(i as int, i + n@.len()) =~= n@);
    true
}

/// Finds the first occurrence of a non-empty needle: the returned position
/// matches and no earlier one does; no position matches when nothing is
/// returned.
pub fn find_subsequence(h: &Vec<u8>, n: &Vec<u8>) -> (r: Option<usize>)
    requires
        n@.len() >= 1,
    ensures
        r matches Some(i) ==> match_at(h@, i as int, n@) && (forall|j: int|
            0 <= j < i ==> !match_at(h@, j, n@)),
        r is None ==> forall|j: int| !match_at(h@, j, n@),
{
    let hlen: usize = h.len();
    let nlen: usize = n.len();
    let mut i: usize = 0;
    while hlen - i >= nlen && i < hlen
        invariant
            0 <= i <= hlen,
            hlen == h@.len(),
            nlen == n@.len(),
            nlen >= 1,
            forall|j: int| 0 <= j < i ==> !match_at(h@, j, n@),
        decreases hlen - i,
    {
        if eq_at(h, i, n) {
            return Some(i);
        }
        i = i + 1;
    }
    assert forall|j: int| !match_at(h@, j, n@) by {
        if 0 <= j < i {
        } else if j + n@.len() > h@.len() {
        } else {
        }
    }
    None
}

/// A well-formed acceptance: the response opens with status 101 of HTTP/1.1
/// and carries the expected accept key in its own header line.
pub open spec fn response_accepts(resp: Seq<u8>, expected: Seq<u8>) -> bool {
    match_at(resp, 0, STATUS_101@) && (exists|i: int|
        match_at(resp, i, ACCEPT_HDR@ + expected + CRLF@))
}

/// Validates the server's Upgrade response against the expected accept key:
/// accepted exactly when `response_accepts` holds, rejected with the
/// handshake-mismatch error otherwise.
pub fn check_upgrade_response(resp: &Vec<u8>, expected_accept: &Vec<u8>) -> (r: Result<
    (),
    WsError,
>)
    ensures
        r is Ok <==> response_accepts(resp@, expected_accept@),
        r is Err ==> r == Err::<(), WsError>(WsError::HandshakeMismatch),
{
    let mut status: Vec<u8> = Vec::new();
    append_table(&mut status, &STATUS_101);
    assert(status@ =~= STATUS_101@);
    if resp.len() < status.len() {
        assert(!match_at(resp@, 0, STATUS_101@));
        return Err(WsError::HandshakeMismatch);
    }
    if !eq_at(resp, 0, &status) {
        return Err(WsError::HandshakeMismatch);
    }
    let mut needle: Vec<u8> = Vec::new();
    append_table(&mut needle, &ACCEPT_HDR);
    append_vec(&mut needle, expected_accept);
    append_table(&mut needle, &CRLF);
    assert(needle@ =~= ACCEPT_HDR@ + expected_accept@ + CRLF@);
    match find_subsequence(resp, &needle) {
        Some(i) => {
            assert(match_at(resp@, i as int, ACCEPT_HDR@ + expected_accept@ + CRLF@));
            Ok(())
        },
        None => Err(WsError::HandshakeMismatch),
    }
}

} // verus!
