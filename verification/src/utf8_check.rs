//! A verified UTF-8 validity check, proved equivalent to the
//! specification-level predicate `vstd::utf8::valid_utf8`, together with
//! the one trusted conversion that turns validated bytes into a `String`.

use vstd::prelude::*;
use vstd::utf8::encode_utf8;
use vstd::utf8::valid_utf8;

verus! {

/// Checks whether the bytes from `from` to the end form a valid UTF-8
/// encoding: each scalar must use well-formed leading and continuation
/// bytes, must not be an overlong encoding, and must not fall in the
/// surrogate range.
fn utf8_valid_from(bytes: &Vec<u8>, from: usize) -> (r: bool)
    requires
        from <= bytes@.len(),
    ensures
        r == valid_utf8(bytes@.subrange(from as int, bytes@.len() as int)),
    decreases bytes@.len() - from,
{
    let ghost s = bytes@.subrange(from as int, bytes@.len() as int);
    let len = bytes.len();
    let rem = len - from;
    if rem == 0 {
        return true;
    }
    let b0 = bytes[from];
    if b0 < 0x80 {
        proof {
            assert(b0 & 0x7F <= 0x7F) by (bit_vector);
            assert(vstd::utf8::valid_first_scalar(s));
            assert(vstd::utf8::length_of_first_scalar(s) == 1);
            assert(vstd::utf8::pop_first_scalar(s) =~= bytes@.subrange(
                from + 1,
                bytes@.len() as int,
            ));
        }
        utf8_valid_from(bytes, from + 1)
    } else if 0xC0 <= b0 && b0 <= 0xDF {
        if rem < 2 {
            proof {
                assert(!vstd::utf8::valid_first_scalar(s));
            }
            return false;
        }
        let b1 = bytes[from + 1];
        if !(0x80 <= b1 && b1 <= 0xBF) {
            proof {
                assert(!vstd::utf8::valid_first_scalar(s));
            }
            return false;
        }
        let cp: u32 = (((b0 & 0x1F) as u32) << 6) | ((b1 & 0x3F) as u32);
        if cp < 0x80 {
            proof {
                assert(vstd::utf8::decode_first_codepoint(s) == cp);
                assert(!vstd::utf8::valid_first_scalar(s));
            }
            return false;
        }
        proof {
            let c0 = b0;
            let c1 = b1;
            assert((((c0 & 0x1F) as u32) << 6) | ((c1 & 0x3F) as u32) <= 0x7FF) by (bit_vector);
            assert(vstd::utf8::valid_first_scalar(s));
            assert(vstd::utf8::length_of_first_scalar(s) == 2);
            assert(vstd::utf8::pop_first_scalar(s) =~= bytes@.subrange(
                from + 2,
                bytes@.len() as int,
            ));
        }
        utf8_valid_from(bytes, from + 2)
    } else if 0xE0 <= b0 && b0 <= 0xEF {
        if rem < 3 {
            proof {
                assert(!vstd::utf8::valid_first_scalar(s));
            }
            return false;
        }
        let b1 = bytes[from + 1];
        let b2 = bytes[from + 2];
        if !(0x80 <= b1 && b1 <= 0xBF) || !(0x80 <= b2 && b2 <= 0xBF) {
            proof {
                assert(!vstd::utf8::valid_first_scalar(s));
            }
            return false;
        }
        let cp: u32 = (((b0 & 0x0F) as u32) << 12) | (((b1 & 0x3F) as u32) << 6) | ((b2
            & 0x3F) as u32);
        if cp < 0x800 || (0xD800 <= cp && cp <= 0xDFFF) {
            proof {
                assert(vstd::utf8::decode_first_codepoint(s) == cp);
                assert(!vstd::utf8::valid_first_scalar(s));
            }
            return false;
        }
        proof {
            assert(vstd::utf8::decode_first_codepoint(s) == cp);
            assert(vstd::utf8::valid_first_scalar(s));
            assert(vstd::utf8::length_of_first_scalar(s) == 3);
            assert(vstd::utf8::pop_first_scalar(s) =~= bytes@.subrange(
                from + 3,
                bytes@.len() as int,
            ));
        }
        utf8_valid_from(bytes, from + 3)
    } else if 0xF0 <= b0 && b0 <= 0xF7 {
        if rem < 4 {
            proof {
                assert(!vstd::utf8::valid_first_scalar(s));
            }
            return false;
        }
        let b1 = bytes[from + 1];
        let b2 = bytes[from + 2];
        let b3 = bytes[from + 3];
        if !(0x80 <= b1 && b1 <= 0xBF) || !(0x80 <= b2 && b2 <= 0xBF) || !(0x80 <= b3 && b3
            <= 0xBF) {
            proof {
                assert(!vstd::utf8::valid_first_scalar(s));
            }
            return false;
        }
        let cp: u32 = (((b0 & 0x07) as u32) << 18) | (((b1 & 0x3F) as u32) << 12) | (((b2
            & 0x3F) as u32) << 6) | ((b3 & 0x3F) as u32);
        if cp < 0x10000 || cp > 0x10FFFF {
            proof {
                assert(vstd::utf8::decode_first_codepoint(s) == cp);
                assert(!vstd::utf8::valid_first_scalar(s));
            }
            return false;
        }
        proof {
            assert(vstd::utf8::decode_first_codepoint(s) == cp);
            assert(vstd::utf8::valid_first_scalar(s));
            assert(vstd::utf8::length_of_first_scalar(s) == 4);
            assert(vstd::utf8::pop_first_scalar(s) =~= bytes@.subrange(
                from + 4,
                bytes@.len() as int,
            ));
        }
        utf8_valid_from(bytes, from + 4)
    } else {
        proof {
            assert(!vstd::utf8::valid_first_scalar(s));
        }
        false
    }
}

/// Checks whether the whole byte vector is valid UTF-8.
pub fn utf8_valid(bytes: &Vec<u8>) -> (r: bool)
    ensures
        r == valid_utf8(bytes@),
{
    let r = utf8_valid_from(bytes, 0);
    proof {
        assert(bytes@.subrange(0, bytes@.len() as int) =~= bytes@);
    }
    r
}

/// Relies on `String::from_utf8`: on bytes already known to be valid
/// UTF-8 it returns `Ok` with the string whose byte encoding is exactly
/// those bytes.
#[verifier::external_body]
pub fn string_from_utf8_bytes(bytes: Vec<u8>) -> (r: String)
    requires
        valid_utf8(bytes@),
    ensures
        encode_utf8(r@) == bytes@,
{
    match String::from_utf8(bytes) {
        Ok(s) => s,
        Err(_) => String::new(),
    }
}

} // verus!
