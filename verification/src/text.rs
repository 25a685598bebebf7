//! Text payload validation: a text frame's payload must be well-formed
//! UTF-8 before it may be handed to the display sink.
//!
//! The encoding is checked against its grammar directly: one byte below
//! 0x80, or a two- to four-byte sequence whose lead byte fixes the length
//! and whose continuation bytes lie in the ranges that exclude overlong
//! forms, surrogate code points and values past the last code point.

use vstd::prelude::*;

use crate::frame::WsError;

verus! {

/// A continuation byte: 0b10xxxxxx.
pub open spec fn is_cont(b: u8) -> bool {
    0x80 <= b <= 0xBF
}

/// The bytes from position `i` on are a sequence of well-formed UTF-8
/// characters.
pub open spec fn utf8_ok_from(s: Seq<u8>, i: int) -> bool
    recommends
        0 <= i <= s.len(),
    decreases s.len() - i,
{
    if i < 0 || i >= s.len() {
        true
    } else {
        let b0 = s[i];
        if b0 < 0x80 {
            utf8_ok_from(s, i + 1)
        } else if 0xC2 <= b0 <= 0xDF {
            i + 2 <= s.len() && is_cont(s[i + 1]) && utf8_ok_from(s, i + 2)
        } else if b0 == 0xE0 {
            i + 3 <= s.len() && 0xA0 <= s[i + 1] <= 0xBF && is_cont(s[i + 2]) && utf8_ok_from(
                s,
                i + 3,
            )
        } else if 0xE1 <= b0 <= 0xEC || b0 == 0xEE || b0 == 0xEF {
            i + 3 <= s.len() && is_cont(s[i + 1]) && is_cont(s[i + 2]) && utf8_ok_from(s, i + 3)
        } else if b0 == 0xED {
            i + 3 <= s.len() && 0x80 <= s[i + 1] <= 0x9F && is_cont(s[i + 2]) && utf8_ok_from(
                s,
                i + 3,
            )
        } else if b0 == 0xF0 {
            i + 4 <= s.len() && 0x90 <= s[i + 1] <= 0xBF && is_cont(s[i + 2]) && is_cont(
                s[i + 3],
            ) && utf8_ok_from(s, i + 4)
        } else if 0xF1 <= b0 <= 0xF3 {
            i + 4 <= s.len() && is_cont(s[i + 1]) && is_cont(s[i + 2]) && is_cont(s[i + 3])
                && utf8_ok_from(s, i + 4)
        } else if b0 == 0xF4 {
            i + 4 <= s.len() && 0x80 <= s[i + 1] <= 0x8F && is_cont(s[i + 2]) && is_cont(
                s[i + 3],
            ) && utf8_ok_from(s, i + 4)
        } else {
            false
        }
    }
}

/// A whole byte sequence is well-formed UTF-8.
pub open spec fn is_valid_utf8(s: Seq<u8>) -> bool {
    utf8_ok_from(s, 0)
}

/// Checks a text payload: accepted exactly when it is well-formed UTF-8,
/// rejected with the invalid-UTF-8 error otherwise.
pub fn validate_utf8(bytes: &Vec<u8>) -> (r: Result<(), WsError>)
    ensures
        r is Ok <==> is_valid_utf8(bytes@),
        r is Err ==> r == Err::<(), WsError>(WsError::InvalidUtf8),
{
    let n: usize = bytes.len();
    let mut i: usize = 0;
    while i < n
        invariant
            0 <= i <= n,
            n == bytes@.len(),
            is_valid_utf8(bytes@) <==> utf8_ok_from(bytes@, i as int),
        decreases n - i,
    {
        let b0 = bytes[i];
        if b0 < 0x80 {
            i = i + 1;
        } else if 0xC2 <= b0 && b0 <= 0xDF {
            if !(n - i >= 2 && 0x80 <= bytes[i + 1] && bytes[i + 1] <= 0xBF) {
                return Err(WsError::InvalidUtf8);
            }
            i = i + 2;
        } else if b0 == 0xE0 {
            if !(n - i >= 3 && 0xA0 <= bytes[i + 1] && bytes[i + 1] <= 0xBF && 0x80 <= bytes[i
                + 2] && bytes[i + 2] <= 0xBF) {
                return Err(WsError::InvalidUtf8);
            }
            i = i + 3;
        } else if (0xE1 <= b0 && b0 <= 0xEC) || b0 == 0xEE || b0 == 0xEF {
            if !(n - i >= 3 && 0x80 <= bytes[i + 1] && bytes[i + 1] <= 0xBF && 0x80 <= bytes[i
                + 2] && bytes[i + 2] <= 0xBF) {
                return Err(WsError::InvalidUtf8);
            }
            i = i + 3;
        } else if b0 == 0xED {
            if !(n - i >= 3 && 0x80 <= bytes[i + 1] && bytes[i + 1] <= 0x9F && 0x80 <= bytes[i
                + 2] && bytes[i + 2] <= 0xBF) {
                return Err(WsError::InvalidUtf8);
            }
            i = i + 3;
        } else if b0 == 0xF0 {
            if !(n - i >= 4 && 0x90 <= bytes[i + 1] && bytes[i + 1] <= 0xBF && 0x80 <= bytes[i
                + 2] && bytes[i + 2] <= 0xBF && 0x80 <= bytes[i + 3] && bytes[i + 3] <= 0xBF) {
                return Err(WsError::InvalidUtf8);
            }
            i = i + 4;
        } else if 0xF1 <= b0 && b0 <= 0xF3 {
            if !(n - i >= 4 && 0x80 <= bytes[i + 1] && bytes[i + 1] <= 0xBF && 0x80 <= bytes[i
                + 2] && bytes[i + 2] <= 0xBF && 0x80 <= bytes[i + 3] && bytes[i + 3] <= 0xBF) {
                return Err(WsError::InvalidUtf8);
            }
            i = i + 4;
        } else if b0 == 0xF4 {
            if !(n - i >= 4 && 0x80 <= bytes[i + 1] && bytes[i + 1] <= 0x8F && 0x80 <= bytes[i
                + 2] && bytes[i + 2] <= 0xBF && 0x80 <= bytes[i + 3] && bytes[i + 3] <= 0xBF) {
                return Err(WsError::InvalidUtf8);
            }
            i = i + 4;
        } else {
            return Err(WsError::InvalidUtf8);
        }
    }
    Ok(())
}

} // verus!
