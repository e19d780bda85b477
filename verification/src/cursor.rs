//! The parsing core: byte-cursor primitives over an immutable input
//! buffer.  A cursor is the pair of the full buffer and a current offset;
//! each primitive consumes a prefix of the remaining bytes and returns the
//! decoded value together with the offset of the unconsumed remainder, or
//! a tagged error at the offset where decoding failed.
//!
//! Every primitive is specified against pure readers of the byte format
//! (`u16_le_at`, `u32_le_at`): little-endian, offsets explicit.
//! Truncation always yields a fatal `Malformed` error at the offset where
//! bytes ran out; a literal mismatch yields a recoverable `Malformed`
//! error that a caller past a structural commitment point upgrades with
//! [`crate::error::ParseError::into_fatal`].

use vstd::prelude::*;

use crate::error::ContextLabel;
use crate::error::ErrorKind;
use crate::error::ParseError;
use crate::error::Severity;

verus! {

/// The little-endian 16-bit integer stored at offset `i` of `b`.
pub open spec fn u16_le_at(b: Seq<u8>, i: int) -> u16 {
    ((b[i] as int) + 0x100 * (b[i + 1] as int)) as u16
}

/// The little-endian 32-bit integer stored at offset `i` of `b`.
pub open spec fn u32_le_at(b: Seq<u8>, i: int) -> u32 {
    ((b[i] as int) + 0x100 * (b[i + 1] as int) + 0x1_0000 * (b[i + 2] as int) + 0x100_0000 * (b[i
        + 3] as int)) as u32
}

/// True of the error a primitive reports when the bytes ran out at
/// offset `at`: fatal, `Malformed`, no context yet.
pub open spec fn is_truncation_error(e: ParseError, at: int) -> bool {
    &&& e.kind == ErrorKind::Malformed
    &&& e.severity == Severity::Fatal
    &&& e.offset == at
    &&& e.context@ == Seq::<ContextLabel>::empty()
}

/// True of the error a primitive reports when a literal tag did not
/// match at offset `at`: recoverable, `Malformed`, no context yet.
pub open spec fn is_tag_mismatch_error(e: ParseError, at: int) -> bool {
    &&& e.kind == ErrorKind::Malformed
    &&& e.severity == Severity::Recoverable
    &&& e.offset == at
    &&& e.context@ == Seq::<ContextLabel>::empty()
}

/// Reads one byte at an offset already known to be in bounds.
pub fn read_u8(input: &Vec<u8>, offset: usize) -> (r: u8)
    requires
        offset + 1 <= input@.len(),
    ensures
        r == input@[offset as int],
{
    input[offset]
}

/// Reads a little-endian 16-bit integer at an offset already known to
/// leave both bytes in bounds.
pub fn read_u16(input: &Vec<u8>, offset: usize) -> (r: u16)
    requires
        offset + 2 <= input@.len(),
    ensures
        r == u16_le_at(input@, offset as int),
{
    let n = input.len();
    proof {
        assert(offset + 2 <= n);
    }
    (input[offset] as u16) + 0x100 * (input[offset + 1] as u16)
}

/// Reads a little-endian 32-bit integer at an offset already known to
/// leave all four bytes in bounds.
pub fn read_u32(input: &Vec<u8>, offset: usize) -> (r: u32)
    requires
        offset + 4 <= input@.len(),
    ensures
        r == u32_le_at(input@, offset as int),
{
    let n = input.len();
    proof {
        assert(offset + 4 <= n);
    }
    (input[offset] as u32) + 0x100 * (input[offset + 1] as u32) + 0x1_0000 * (input[offset
        + 2] as u32) + 0x100_0000 * (input[offset + 3] as u32)
}

/// Reads one byte.
pub fn take_u8(input: &Vec<u8>, offset: usize) -> (r: Result<(u8, usize), ParseError>)
    requires
        offset <= input@.len(),
    ensures
        r is Ok <==> offset + 1 <= input@.len(),
        r is Ok ==> r->Ok_0.0 == input@[offset as int] && r->Ok_0.1 == offset + 1,
        r is Err ==> is_truncation_error(r->Err_0, offset as int),
{
    if input.len() - offset >= 1 {
        Ok((input[offset], offset + 1))
    } else {
        Err(ParseError::truncated(offset))
    }
}

/// Reads a little-endian 16-bit integer.
pub fn take_u16(input: &Vec<u8>, offset: usize) -> (r: Result<(u16, usize), ParseError>)
    requires
        offset <= input@.len(),
    ensures
        r is Ok <==> offset + 2 <= input@.len(),
        r is Ok ==> r->Ok_0.0 == u16_le_at(input@, offset as int) && r->Ok_0.1 == offset + 2,
        r is Err ==> is_truncation_error(r->Err_0, offset as int),
{
    if input.len() - offset >= 2 {
        let b0 = input[offset];
        let b1 = input[offset + 1];
        Ok(((b0 as u16) + 0x100 * (b1 as u16), offset + 2))
    } else {
        Err(ParseError::truncated(offset))
    }
}

/// Reads a little-endian 32-bit integer.
pub fn take_u32(input: &Vec<u8>, offset: usize) -> (r: Result<(u32, usize), ParseError>)
    requires
        offset <= input@.len(),
    ensures
        r is Ok <==> offset + 4 <= input@.len(),
        r is Ok ==> r->Ok_0.0 == u32_le_at(input@, offset as int) && r->Ok_0.1 == offset + 4,
        r is Err ==> is_truncation_error(r->Err_0, offset as int),
{
    if input.len() - offset >= 4 {
        let b0 = input[offset];
        let b1 = input[offset + 1];
        let b2 = input[offset + 2];
        let b3 = input[offset + 3];
        Ok(
            (
                (b0 as u32) + 0x100 * (b1 as u32) + 0x1_0000 * (b2 as u32) + 0x100_0000 * (
                b3 as u32),
                offset + 4,
            ),
        )
    } else {
        Err(ParseError::truncated(offset))
    }
}

/// True when the two-byte literal `[t0, t1]` stands at offset `i` of `b`.
pub open spec fn tag2_at(b: Seq<u8>, i: int, t0: u8, t1: u8) -> bool {
    &&& i + 2 <= b.len()
    &&& b[i] == t0
    &&& b[i + 1] == t1
}

/// Matches a two-byte literal tag.
pub fn expect_tag2(input: &Vec<u8>, offset: usize, t0: u8, t1: u8) -> (r: Result<
    usize,
    ParseError,
>)
    requires
        offset <= input@.len(),
    ensures
        r is Ok <==> tag2_at(input@, offset as int, t0, t1),
        r is Ok ==> r->Ok_0 == offset + 2,
        r is Err ==> if offset + 2 <= input@.len() {
            is_tag_mismatch_error(r->Err_0, offset as int)
        } else {
            is_truncation_error(r->Err_0, offset as int)
        },
{
    if input.len() - offset >= 2 {
        if input[offset] == t0 && input[offset + 1] == t1 {
            Ok(offset + 2)
        } else {
            Err(ParseError::new(ErrorKind::Malformed, Severity::Recoverable, offset))
        }
    } else {
        Err(ParseError::truncated(offset))
    }
}

/// True when the four-byte literal `[t0, t1, t2, t3]` stands at offset
/// `i` of `b`.
pub open spec fn tag4_at(b: Seq<u8>, i: int, t0: u8, t1: u8, t2: u8, t3: u8) -> bool {
    &&& i + 4 <= b.len()
    &&& b[i] == t0
    &&& b[i + 1] == t1
    &&& b[i + 2] == t2
    &&& b[i + 3] == t3
}

/// Matches a four-byte literal tag.
pub fn expect_tag4(input: &Vec<u8>, offset: usize, t0: u8, t1: u8, t2: u8, t3: u8) -> (r: Result<
    usize,
    ParseError,
>)
    requires
        offset <= input@.len(),
    ensures
        r is Ok <==> tag4_at(input@, offset as int, t0, t1, t2, t3),
        r is Ok ==> r->Ok_0 == offset + 4,
        r is Err ==> if offset + 4 <= input@.len() {
            is_tag_mismatch_error(r->Err_0, offset as int)
        } else {
            is_truncation_error(r->Err_0, offset as int)
        },
{
    if input.len() - offset >= 4 {
        if input[offset] == t0 && input[offset + 1] == t1 && input[offset + 2] == t2
            && input[offset + 3] == t3 {
            Ok(offset + 4)
        } else {
            Err(ParseError::new(ErrorKind::Malformed, Severity::Recoverable, offset))
        }
    } else {
        Err(ParseError::truncated(offset))
    }
}

/// Copies `count` bytes out of the buffer.
pub fn take_bytes(input: &Vec<u8>, offset: usize, count: usize) -> (r: Result<
    (Vec<u8>, usize),
    ParseError,
>)
    requires
        offset <= input@.len(),
    ensures
        r is Ok <==> offset + count <= input@.len(),
        r is Ok ==> r->Ok_0.0@ == input@.subrange(offset as int, offset + count)
            && r->Ok_0.1 == offset + count,
        r is Err ==> is_truncation_error(r->Err_0, offset as int),
{
    if input.len() - offset >= count {
        let mut out: Vec<u8> = Vec::new();
        let mut i: usize = 0;
        while i < count
            invariant
                offset + count <= input@.len(),
                offset + count <= usize::MAX,
                i <= count,
                out@ == input@.subrange(offset as int, offset + i),
            decreases count - i,
        {
            out.push(input[offset + i]);
            i = i + 1;
            proof {
                assert(out@ =~= input@.subrange(offset as int, offset + i));
            }
        }
        Ok((out, offset + count))
    } else {
        Err(ParseError::truncated(offset))
    }
}

} // verus!
