//! UTF-8 well-formedness, as the codec needs it to validate domain names and
//! the strings of an authentication request.
//!
//! The grammar follows RFC 3629: one- to four-byte sequences, with the
//! narrowed second-byte ranges that exclude overlong encodings, surrogates,
//! and code points above U+10FFFF.

use vstd::prelude::*;

verus! {

/// Whether `b` is a UTF-8 continuation byte (`10xxxxxx`).
pub open spec fn is_cont_byte(b: u8) -> bool {
    0x80 <= b && b <= 0xBF
}

/// Whether `s` is well-formed UTF-8 from position `i` to its end.
pub open spec fn utf8_ok_from(s: Seq<u8>, i: int) -> bool
    decreases s.len() - i,
{
    if i >= s.len() {
        true
    } else {
        let b0 = s[i];
        if b0 <= 0x7F {
            utf8_ok_from(s, i + 1)
        } else if 0xC2 <= b0 && b0 <= 0xDF {
            &&& i + 2 <= s.len()
            &&& is_cont_byte(s[i + 1])
            &&& utf8_ok_from(s, i + 2)
        } else if b0 == 0xE0 {
            &&& i + 3 <= s.len()
            &&& 0xA0 <= s[i + 1] && s[i + 1] <= 0xBF
            &&& is_cont_byte(s[i + 2])
            &&& utf8_ok_from(s, i + 3)
        } else if (0xE1 <= b0 && b0 <= 0xEC) || b0 == 0xEE || b0 == 0xEF {
            &&& i + 3 <= s.len()
            &&& is_cont_byte(s[i + 1])
            &&& is_cont_byte(s[i + 2])
            &&& utf8_ok_from(s, i + 3)
        } else if b0 == 0xED {
            &&& i + 3 <= s.len()
            &&& 0x80 <= s[i + 1] && s[i + 1] <= 0x9F
            &&& is_cont_byte(s[i + 2])
            &&& utf8_ok_from(s, i + 3)
        } else if b0 == 0xF0 {
            &&& i + 4 <= s.len()
            &&& 0x90 <= s[i + 1] && s[i + 1] <= 0xBF
            &&& is_cont_byte(s[i + 2])
            &&& is_cont_byte(s[i + 3])
            &&& utf8_ok_from(s, i + 4)
        } else if 0xF1 <= b0 && b0 <= 0xF3 {
            &&& i + 4 <= s.len()
            &&& is_cont_byte(s[i + 1])
            &&& is_cont_byte(s[i + 2])
            &&& is_cont_byte(s[i + 3])
            &&& utf8_ok_from(s, i + 4)
        } else if b0 == 0xF4 {
            &&& i + 4 <= s.len()
            &&& 0x80 <= s[i + 1] && s[i + 1] <= 0x8F
            &&& is_cont_byte(s[i + 2])
            &&& is_cont_byte(s[i + 3])
            &&& utf8_ok_from(s, i + 4)
        } else {
            false
        }
    }
}

/// Whether `s` is well-formed UTF-8.
pub open spec fn is_utf8(s: Seq<u8>) -> bool {
    utf8_ok_from(s, 0)
}

/// Checks a continuation byte at a known-in-bounds position.
fn check_cont(bytes: &[u8], i: usize) -> (r: bool)
    requires
        i < bytes@.len(),
    ensures
        r == is_cont_byte(bytes@[i as int]),
{
    let b = bytes[i];
    0x80 <= b && b <= 0xBF
}

/// Decides whether `bytes` is well-formed UTF-8.
pub fn validate_utf8(bytes: &[u8]) -> (r: bool)
    ensures
        r == is_utf8(bytes@),
{
    let n = bytes.len();
    let mut i: usize = 0;
    while i < n
        invariant
            i <= n,
            n == bytes@.len(),
            is_utf8(bytes@) == utf8_ok_from(bytes@, i as int),
        decreases n - i,
    {
        let b0 = bytes[i];
        if b0 <= 0x7F {
            i = i + 1;
        } else if 0xC2 <= b0 && b0 <= 0xDF {
            if n - i < 2 || !check_cont(bytes, i + 1) {
                return false;
            }
            i = i + 2;
        } else if b0 == 0xE0 {
            if n - i < 3 || !(0xA0 <= bytes[i + 1] && bytes[i + 1] <= 0xBF) || !check_cont(
                bytes,
                i + 2,
            ) {
                return false;
            }
            i = i + 3;
        } else if (0xE1 <= b0 && b0 <= 0xEC) || b0 == 0xEE || b0 == 0xEF {
            if n - i < 3 || !check_cont(bytes, i + 1) || !check_cont(bytes, i + 2) {
                return false;
            }
            i = i + 3;
        } else if b0 == 0xED {
            if n - i < 3 || !(0x80 <= bytes[i + 1] && bytes[i + 1] <= 0x9F) || !check_cont(
                bytes,
                i + 2,
            ) {
                return false;
            }
            i = i + 3;
        } else if b0 == 0xF0 {
            if n - i < 4 || !(0x90 <= bytes[i + 1] && bytes[i + 1] <= 0xBF) || !check_cont(
                bytes,
                i + 2,
            ) || !check_cont(bytes, i + 3) {
                return false;
            }
            i = i + 4;
        } else if 0xF1 <= b0 && b0 <= 0xF3 {
            if n - i < 4 || !check_cont(bytes, i + 1) || !check_cont(bytes, i + 2) || !check_cont(
                bytes,
                i + 3,
            ) {
                return false;
            }
            i = i + 4;
        } else if b0 == 0xF4 {
            if n - i < 4 || !(0x80 <= bytes[i + 1] && bytes[i + 1] <= 0x8F) || !check_cont(
                bytes,
                i + 2,
            ) || !check_cont(bytes, i + 3) {
                return false;
            }
            i = i + 4;
        } else {
            return false;
        }
    }
    true
}

} // verus!
