//! Base64 (standard alphabet, with padding), encode only: the opening
//! handshake sends the 16 random key bytes and checks the accept digest in
//! this encoding.

use vstd::prelude::*;

verus! {

/// The character the standard alphabet assigns to one 6-bit group.
pub open spec fn b64_char(v: int) -> u8
    recommends
        0 <= v < 64,
{
    if v < 26 {
        (65 + v) as u8  // 'A'..'Z'
    } else if v < 52 {
        (97 + v - 26) as u8  // 'a'..'z'
    } else if v < 62 {
        (48 + v - 52) as u8  // '0'..'9'
    } else if v == 62 {
        43u8  // '+'
    } else {
        47u8  // '/'
    }
}

/// The base64 encoding of a byte sequence: each group of three bytes becomes
/// four characters; a final group of one or two bytes is padded with '='.
pub open spec fn base64_of(s: Seq<u8>) -> Seq<u8>
    decreases s.len(),
{
    if s.len() == 0 {
        Seq::empty()
    } else if s.len() == 1 {
        seq![b64_char((s[0] / 4) as int), b64_char(((s[0] % 4) * 16) as int), 61u8, 61u8]
    } else if s.len() == 2 {
        seq![
            b64_char((s[0] / 4) as int),
            b64_char(((s[0] % 4) * 16 + s[1] / 16) as int),
            b64_char(((s[1] % 16) * 4) as int),
            61u8,
        ]
    } else {
        seq![
            b64_char((s[0] / 4) as int),
            b64_char(((s[0] % 4) * 16 + s[1] / 16) as int),
            b64_char(((s[1] % 16) * 4 + s[2] / 64) as int),
            b64_char((s[2] % 64) as int),
        ] + base64_of(s.skip(3))
    }
}

/// The encoding is always padded to whole groups: four characters for every
/// three input bytes, rounded up.
pub proof fn lemma_base64_len(s: Seq<u8>)
    ensures
        base64_of(s).len() == 4 * ((s.len() + 2) / 3),
    decreases s.len(),
{
    if s.len() >= 3 {
        lemma_base64_len(s.skip(3));
    }
}

/// Maps one 6-bit group to its alphabet character.
fn b64_char_of(v: u8) -> (r: u8)
    requires
        v < 64,
    ensures
        r == b64_char(v as int),
{
    if v < 26 {
        65 + v
    } else if v < 52 {
        97 + v - 26
    } else if v < 62 {
        48 + v - 52
    } else if v == 62 {
        43
    } else {
        47
    }
}

/// Encodes a byte sequence in base64 with padding: exactly `base64_of`.
pub fn base64_encode(s: &Vec<u8>) -> (r: Vec<u8>)
    ensures
        r@ == base64_of(s@),
{
    let mut out: Vec<u8> = Vec::new();
    let mut i: usize = 0;
    let n: usize = s.len();
    proof {
        assert(s@.skip(0) =~= s@);
        assert(Seq::<u8>::empty() + base64_of(s@) =~= base64_of(s@));
    }
    while n - i >= 3
        invariant
            0 <= i <= n,
            n == s@.len(),
            out@ + base64_of(s@.skip(i as int)) == base64_of(s@),
        decreases n - i,
    {
        let b0 = s[i];
        let b1 = s[i + 1];
        let b2 = s[i + 2];
        let ghost pre = out@;
        out.push(b64_char_of(b0 / 4));
        out.push(b64_char_of((b0 % 4) * 16 + b1 / 16));
        out.push(b64_char_of((b1 % 16) * 4 + b2 / 64));
        out.push(b64_char_of(b2 % 64));
        proof {
            let sk = s@.skip(i as int);
            assert(sk[0] == b0 && sk[1] == b1 && sk[2] == b2);
            assert(sk.skip(3) =~= s@.skip(i + 3));
            assert(out@ + base64_of(s@.skip(i + 3)) =~= pre + base64_of(sk));
        }
        i = i + 3;
    }
    let ghost pre = out@;
    if i == n {
        proof {
            assert(s@.skip(i as int) =~= Seq::<u8>::empty());
            assert(out@ + base64_of(s@.skip(i as int)) =~= out@);
        }
    } else if n - i == 1 {
        let b0 = s[i];
        out.push(b64_char_of(b0 / 4));
        out.push(b64_char_of((b0 % 4) * 16));
        out.push(61);
        out.push(61);
        proof {
            let sk = s@.skip(i as int);
            assert(sk.len() == 1 && sk[0] == b0);
            assert(out@ =~= pre + base64_of(sk));
        }
    } else {
        let b0 = s[i];
        let b1 = s[i + 1];
        out.push(b64_char_of(b0 / 4));
        out.push(b64_char_of((b0 % 4) * 16 + b1 / 16));
        out.push(b64_char_of((b1 % 16) * 4));
        out.push(61);
        proof {
            let sk = s@.skip(i as int);
            assert(sk.len() == 2 && sk[0] == b0 && sk[1] == b1);
            assert(out@ =~= pre + base64_of(sk));
        }
    }
    out
}

} // verus!
