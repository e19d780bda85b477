//! The legacy DOS stub header: matched by its two-byte tag, then decoded
//! mechanically as fixed-width little-endian fields.  Its one semantic
//! duty is to carry `e_lfanew`, the offset of the extended header.

use vstd::prelude::*;

use crate::cursor::read_u16;
use crate::cursor::read_u32;
use crate::cursor::tag2_at;
use crate::cursor::u16_le_at;
use crate::cursor::u32_le_at;
use crate::error::ContextLabel;
use crate::error::ErrorKind;
use crate::error::ParseError;
use crate::error::Severity;

verus! {

/// The DOS-era header at the start of every PE image.
#[derive(Debug, PartialEq, Eq)]
pub struct MZHeader {
    /// Bytes on last page of file
    pub e_cblp: u16,
    /// Pages in file
    pub e_cp: u16,
    /// Relocations
    pub e_crlc: u16,
    /// Size of header in paragraphs
    pub e_cparhdr: u16,
    /// Minimum extra paragraphs needed
    pub e_minalloc: u16,
    /// Maximum extra paragraphs needed
    pub e_maxalloc: u16,
    /// Initial (relative) SS value
    pub e_ss: u16,
    /// Initial SP value
    pub e_sp: u16,
    /// Checksum
    pub e_csum: u16,
    /// Initial IP value
    pub e_ip: u16,
    /// Initial (relative) CS value
    pub e_cs: u16,
    /// File address of relocation table
    pub e_lfarlc: u16,
    /// Overlay number
    pub e_ovno: u16,
    /// Reserved words
    pub e_res: [u16; 4],
    /// OEM identifier (for e_oeminfo)
    pub e_oemid: u16,
    /// OEM information; e_oemid specific
    pub e_oeminfo: u16,
    /// Reserved words
    pub e_res2: [u16; 10],
    /// File address of new exe header
    pub e_lfanew: u32,
}

/// Total size in bytes of the encoded DOS header.
pub const MZ_HEADER_SIZE: usize = 64;

/// True when the two-byte tag `"MZ"` stands at offset `i` of `b`.
pub open spec fn mz_tag_at(b: Seq<u8>, i: int) -> bool {
    tag2_at(b, i, 0x4D, 0x5A)
}

/// True when a complete DOS header can be decoded at offset `i` of `b`:
/// the tag matches and all 64 bytes are present.
pub open spec fn spec_mz_ok(b: Seq<u8>, i: int) -> bool {
    &&& mz_tag_at(b, i)
    &&& i + MZ_HEADER_SIZE <= b.len()
}

/// The offset reported when the DOS header cannot be decoded at offset
/// `i`: a tag mismatch points at the tag, running out of bytes points at
/// the end of the buffer.
pub open spec fn spec_mz_fail_offset(b: Seq<u8>, i: int) -> int {
    if i + 2 <= b.len() && !mz_tag_at(b, i) {
        i
    } else {
        b.len() as int
    }
}

/// True when `h` holds exactly the field values encoded at offset `i` of
/// `b`.
pub open spec fn mz_matches(h: MZHeader, b: Seq<u8>, i: int) -> bool {
    &&& h.e_cblp == u16_le_at(b, i + 2)
    &&& h.e_cp == u16_le_at(b, i + 4)
    &&& h.e_crlc == u16_le_at(b, i + 6)
    &&& h.e_cparhdr == u16_le_at(b, i + 8)
    &&& h.e_minalloc == u16_le_at(b, i + 10)
    &&& h.e_maxalloc == u16_le_at(b, i + 12)
    &&& h.e_ss == u16_le_at(b, i + 14)
    &&& h.e_sp == u16_le_at(b, i + 16)
    &&& h.e_csum == u16_le_at(b, i + 18)
    &&& h.e_ip == u16_le_at(b, i + 20)
    &&& h.e_cs == u16_le_at(b, i + 22)
    &&& h.e_lfarlc == u16_le_at(b, i + 24)
    &&& h.e_ovno == u16_le_at(b, i + 26)
    &&& h.e_res@ == Seq::new(4, |j: int| u16_le_at(b, i + 28 + 2 * j))
    &&& h.e_oemid == u16_le_at(b, i + 36)
    &&& h.e_oeminfo == u16_le_at(b, i + 38)
    &&& h.e_res2@ == Seq::new(10, |j: int| u16_le_at(b, i + 40 + 2 * j))
    &&& h.e_lfanew == u32_le_at(b, i + 60)
}

impl MZHeader {
    /// Decodes the DOS header at `offset`.  Succeeds exactly when the
    /// `"MZ"` tag matches and the full 64 bytes are present; the decoded
    /// fields are the little-endian values at their fixed offsets.  A tag
    /// mismatch and a truncated buffer are both `Malformed`, and fatal.
    pub fn try_parse(input: &Vec<u8>, offset: usize) -> (r: Result<(MZHeader, usize), ParseError>)
        requires
            offset <= input@.len(),
        ensures
            r is Ok <==> spec_mz_ok(input@, offset as int),
            r is Ok ==> mz_matches(r->Ok_0.0, input@, offset as int) && r->Ok_0.1 == offset
                + MZ_HEADER_SIZE,
            r is Err ==> {
                &&& r->Err_0.kind == ErrorKind::Malformed
                &&& r->Err_0.severity == Severity::Fatal
                &&& r->Err_0.offset == spec_mz_fail_offset(input@, offset as int)
                &&& r->Err_0.context@ == seq![ContextLabel::MZHeader]
            },
    {
        if input.len() - offset < 2 || !(input[offset] == 0x4D && input[offset + 1] == 0x5A) {
            let at = if input.len() - offset < 2 {
                input.len()
            } else {
                offset
            };
            return Err(
                ParseError::new(ErrorKind::Malformed, Severity::Fatal, at).with_context(
                    ContextLabel::MZHeader,
                ),
            );
        }
        if input.len() - offset < MZ_HEADER_SIZE {
            return Err(ParseError::truncated(input.len()).with_context(ContextLabel::MZHeader));
        }
        let e_res: [u16; 4] = [
            read_u16(input, offset + 28),
            read_u16(input, offset + 30),
            read_u16(input, offset + 32),
            read_u16(input, offset + 34),
        ];
        let e_res2: [u16; 10] = [
            read_u16(input, offset + 40),
            read_u16(input, offset + 42),
            read_u16(input, offset + 44),
            read_u16(input, offset + 46),
            read_u16(input, offset + 48),
            read_u16(input, offset + 50),
            read_u16(input, offset + 52),
            read_u16(input, offset + 54),
            read_u16(input, offset + 56),
            read_u16(input, offset + 58),
        ];
        proof {
            assert(e_res@ =~= Seq::new(4, |j: int| u16_le_at(input@, offset + 28 + 2 * j)));
            assert(e_res2@ =~= Seq::new(10, |j: int| u16_le_at(input@, offset + 40 + 2 * j)));
        }
        let header = MZHeader {
            e_cblp: read_u16(input, offset + 2),
            e_cp: read_u16(input, offset + 4),
            e_crlc: read_u16(input, offset + 6),
            e_cparhdr: read_u16(input, offset + 8),
            e_minalloc: read_u16(input, offset + 10),
            e_maxalloc: read_u16(input, offset + 12),
            e_ss: read_u16(input, offset + 14),
            e_sp: read_u16(input, offset + 16),
            e_csum: read_u16(input, offset + 18),
            e_ip: read_u16(input, offset + 20),
            e_cs: read_u16(input, offset + 22),
            e_lfarlc: read_u16(input, offset + 24),
            e_ovno: read_u16(input, offset + 26),
            e_res,
            e_oemid: read_u16(input, offset + 36),
            e_oeminfo: read_u16(input, offset + 38),
            e_res2,
            e_lfanew: read_u32(input, offset + 60),
        };
        Ok((header, offset + MZ_HEADER_SIZE))
    }
}

} // verus!
