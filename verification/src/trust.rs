//! Trust store: the certificate authority identity compiled into the
//! firmware, used only while the TLS handshake validates the server's
//! certificate chain, and the fixed entropy seed the engine is fed.
//!
//! The anchor is the root authority behind the target server's certificate
//! chain: its DER-encoded distinguished name and its RSA-4096 public key.
//! The seed is a fixed table because the device has no entropy source; it is
//! reused across boots and devices, a known weakness kept deliberately so
//! that a real source can be injected in its place without touching
//! protocol logic.

use vstd::prelude::*;

verus! {

/// DER-encoded distinguished name of the built-in root authority.
pub const ROOT_CA_DN: [u8; 81] = [
    48, 79, 49, 11, 48, 9, 6, 3, 85, 4, 6, 19, 2, 85, 83, 49, 41, 48, 39, 6,
    3, 85, 4, 10, 19, 32, 73, 110, 116, 101, 114, 110, 101, 116, 32, 83,
    101, 99, 117, 114, 105, 116, 121, 32, 82, 101, 115, 101, 97, 114, 99,
    104, 32, 71, 114, 111, 117, 112, 49, 21, 48, 19, 6, 3, 85, 4, 3, 19, 12,
    73, 83, 82, 71, 32, 82, 111, 111, 116, 32, 88, 49
];

/// Big-endian modulus of the root authority's RSA-4096 public key.
pub const ROOT_CA_RSA_N: [u8; 512] = [
    173, 232, 36, 115, 244, 20, 55, 243, 155, 158, 43, 87, 40, 28, 135, 190,
    220, 183, 223, 56, 144, 140, 110, 60, 230, 87, 160, 120, 247, 117, 194,
    162, 254, 245, 106, 110, 246, 0, 79, 40, 219, 222, 104, 134, 108, 68,
    147, 182, 177, 99, 253, 20, 18, 107, 191, 31, 210, 234, 49, 155, 33,
    126, 209, 51, 60, 186, 72, 245, 221, 121, 223, 179, 184, 255, 18, 241,
    33, 154, 75, 193, 138, 134, 113, 105, 74, 102, 102, 108, 143, 126, 60,
    112, 191, 173, 41, 34, 6, 243, 228, 192, 230, 128, 174, 226, 75, 143,
    183, 153, 126, 148, 3, 159, 211, 71, 151, 124, 153, 72, 35, 83, 232, 56,
    174, 79, 10, 111, 131, 46, 209, 73, 87, 140, 128, 116, 182, 218, 47,
    208, 56, 141, 123, 3, 112, 33, 27, 117, 242, 48, 60, 250, 143, 174, 221,
    218, 99, 171, 235, 22, 79, 194, 142, 17, 75, 126, 207, 11, 232, 255,
    181, 119, 46, 244, 178, 123, 74, 224, 76, 18, 37, 12, 112, 141, 3, 41,
    160, 225, 83, 36, 236, 19, 217, 238, 25, 191, 16, 179, 74, 140, 63, 137,
    163, 97, 81, 222, 172, 135, 7, 148, 244, 99, 113, 236, 46, 226, 111, 91,
    152, 129, 225, 137, 92, 52, 121, 108, 118, 239, 59, 144, 98, 121, 230,
    219, 164, 154, 47, 38, 197, 208, 16, 225, 14, 222, 217, 16, 142, 22,
    251, 183, 247, 168, 247, 199, 229, 2, 7, 152, 143, 54, 8, 149, 231, 226,
    55, 150, 13, 54, 117, 158, 251, 14, 114, 177, 29, 155, 188, 3, 249, 73,
    5, 216, 129, 221, 5, 180, 42, 214, 65, 233, 172, 1, 118, 149, 10, 15,
    216, 223, 213, 189, 18, 31, 53, 47, 40, 23, 108, 210, 152, 193, 168, 9,
    100, 119, 110, 71, 55, 186, 206, 172, 89, 94, 104, 157, 127, 114, 214,
    137, 197, 6, 65, 41, 62, 89, 62, 221, 38, 245, 36, 201, 17, 167, 90,
    163, 76, 64, 31, 70, 161, 153, 181, 167, 58, 81, 110, 134, 59, 158, 125,
    114, 167, 18, 5, 120, 89, 237, 62, 81, 120, 21, 11, 3, 143, 141, 208,
    47, 5, 178, 62, 123, 74, 28, 75, 115, 5, 18, 252, 198, 234, 224, 80, 19,
    124, 67, 147, 116, 179, 202, 116, 231, 142, 31, 1, 8, 208, 48, 212, 91,
    113, 54, 180, 7, 186, 193, 48, 48, 92, 72, 183, 130, 59, 152, 166, 125,
    96, 138, 162, 163, 41, 130, 204, 186, 189, 131, 4, 27, 162, 131, 3, 65,
    161, 214, 5, 241, 27, 194, 182, 240, 168, 124, 134, 59, 70, 168, 72, 42,
    136, 220, 118, 154, 118, 191, 31, 106, 165, 61, 25, 143, 235, 56, 243,
    100, 222, 200, 43, 13, 10, 40, 255, 247, 219, 226, 21, 66, 212, 34, 208,
    39, 93, 225, 121, 254, 24, 231, 112, 136, 173, 78, 230, 217, 139, 58,
    198, 221, 39, 81, 110, 255, 188, 100, 245, 51, 67, 79
];

/// Big-endian public exponent of the root authority's RSA key.
pub const ROOT_CA_RSA_E: [u8; 3] = [
    1, 0, 1
];

/// The fixed entropy table fed to the TLS engine (see the module note).
pub const ENTROPY_SEED: [u8; 64] = [
    4, 205, 125, 104, 100, 198, 94, 237, 24, 126, 163, 81, 220, 30, 50, 126,
    80, 241, 252, 25, 227, 153, 83, 119, 200, 6, 176, 227, 59, 38, 205, 20,
    237, 46, 180, 219, 36, 213, 240, 188, 239, 240, 231, 54, 242, 77, 59,
    242, 108, 186, 44, 58, 69, 181, 156, 196, 143, 194, 172, 63, 71, 99, 76,
    30
];

/// One trust anchor: a certificate authority's distinguished name and RSA
/// public key, trusted a priori for certificate chain validation.
pub struct TrustAnchor {
    /// DER-encoded distinguished name of the authority.
    pub dn: Vec<u8>,
    /// Modulus of the authority's RSA public key, big-endian.
    pub rsa_n: Vec<u8>,
    /// Public exponent of the authority's RSA public key, big-endian.
    pub rsa_e: Vec<u8>,
    /// Whether the anchor is a certificate authority (as opposed to a
    /// self-signed end certificate).
    pub ca: bool,
}

impl TrustAnchor {
    /// An anchor is usable when its name and key material are non-empty.
    pub open spec fn wf(self) -> bool {
        self.dn@.len() > 0 && self.rsa_n@.len() > 0 && self.rsa_e@.len() > 0
    }
}

/// Copies a compiled-in byte table into an owned buffer.
fn array_to_vec<const N: usize>(a: &[u8; N]) -> (r: Vec<u8>)
    ensures
        r@ == a@,
{
    let mut v: Vec<u8> = Vec::new();
    let mut i: usize = 0;
    while i < N
        invariant
            0 <= i <= N,
            a@.len() == N,
            v@ =~= a@.subrange(0, i as int),
        decreases N - i,
    {
        v.push(a[i]);
        assert(v@ =~= a@.subrange(0, i + 1));
        i = i + 1;
    }
    assert(v@ =~= a@);
    v
}

/// Builds the compiled-in trust anchor: exactly the distinguished name,
/// modulus and exponent above, marked as a certificate authority.
pub fn build_trust_anchor() -> (r: TrustAnchor)
    ensures
        r.wf(),
        r.dn@ == ROOT_CA_DN@,
        r.rsa_n@ == ROOT_CA_RSA_N@,
        r.rsa_e@ == ROOT_CA_RSA_E@,
        r.ca == true,
{
    TrustAnchor {
        dn: array_to_vec(&ROOT_CA_DN),
        rsa_n: array_to_vec(&ROOT_CA_RSA_N),
        rsa_e: array_to_vec(&ROOT_CA_RSA_E),
        ca: true,
    }
}

/// The fixed 64-byte entropy seed injected into the TLS engine.
pub fn entropy_seed() -> (r: Vec<u8>)
    ensures
        r@ == ENTROPY_SEED@,
        r@.len() == 64,
{
    array_to_vec(&ENTROPY_SEED)
}

} // verus!
