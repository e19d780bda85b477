//! Section headers and materialized sections.  The header's 8-byte name
//! field is interpreted as text truncated at the first embedded null
//! byte — bytes that are not valid text fail the parse, unlike the
//! numeric fields, which never fail on content.  Validation of the
//! alignment rules and of the section ordering are separate predicates,
//! applied by the image pipeline against the already-parsed alignment
//! values.

use vstd::prelude::*;
use vstd::utf8::decode_utf8;
use vstd::utf8::encode_utf8;
use vstd::utf8::valid_utf8;

use crate::cursor::read_u16;
use crate::cursor::read_u32;
use crate::cursor::u16_le_at;
use crate::cursor::u32_le_at;
use crate::error::ContextLabel;
use crate::error::ErrorKind;
use crate::error::ParseError;
use crate::error::Severity;
use crate::utf8_check::string_from_utf8_bytes;
use crate::utf8_check::utf8_valid;

verus! {

/// The section should not be padded to the next boundary.  Obsolete,
/// replaced by `ALIGN_1BYTES`.  Valid only for object files.
pub const TYPE_NO_PAD: u32 = 0x0000_0008;

/// The section contains executable code.
pub const CNT_CODE: u32 = 0x0000_0020;

/// The section contains initialized data.
pub const CNT_INITIALIZED_DATA: u32 = 0x0000_0040;

/// The section contains uninitialized data.
pub const CNT_UNINITIALIZED_DATA: u32 = 0x0000_0080;

/// Reserved for future use.
pub const LNK_OTHER: u32 = 0x0000_0100;

/// The section contains comments or other information.  Valid for object
/// files only.
pub const LNK_INFO: u32 = 0x0000_0200;

/// The section will not become part of the image.  Valid only for object
/// files.
pub const LNK_REMOVE: u32 = 0x0000_0800;

/// The section contains COMDAT data.  Valid only for object files.
pub const LNK_COMDAT: u32 = 0x0000_1000;

/// The section contains data referenced through the global pointer (GP).
pub const GPREL: u32 = 0x0000_8000;

/// Reserved for future use.
pub const MEM_PURGEABLE: u32 = 0x0002_0000;

/// Reserved for future use.
pub const MEM_16BIT: u32 = 0x0002_0000;

/// Reserved for future use.
pub const MEM_LOCKED: u32 = 0x0004_0000;

/// Reserved for future use.
pub const MEM_PRELOAD: u32 = 0x0008_0000;

/// Align data on a 1-byte boundary.  Valid only for object files.
pub const ALIGN_1BYTES: u32 = 0x0010_0000;

/// Align data on a 2-byte boundary.  Valid only for object files.
pub const ALIGN_2BYTES: u32 = 0x0020_0000;

/// Align data on a 4-byte boundary.  Valid only for object files.
pub const ALIGN_4BYTES: u32 = 0x0030_0000;

/// Align data on an 8-byte boundary.  Valid only for object files.
pub const ALIGN_8BYTES: u32 = 0x0040_0000;

/// Align data on a 16-byte boundary.  Valid only for object files.
pub const ALIGN_16BYTES: u32 = 0x0050_0000;

/// Align data on a 32-byte boundary.  Valid only for object files.
pub const ALIGN_32BYTES: u32 = 0x0060_0000;

/// Align data on a 64-byte boundary.  Valid only for object files.
pub const ALIGN_64BYTES: u32 = 0x0070_0000;

/// Align data on a 128-byte boundary.  Valid only for object files.
pub const ALIGN_128BYTES: u32 = 0x0080_0000;

/// Align data on a 256-byte boundary.  Valid only for object files.
pub const ALIGN_256BYTES: u32 = 0x0090_0000;

/// Align data on a 512-byte boundary.  Valid only for object files.
pub const ALIGN_512BYTES: u32 = 0x00A0_0000;

/// Align data on a 1024-byte boundary.  Valid only for object files.
pub const ALIGN_1024BYTES: u32 = 0x00B0_0000;

/// Align data on a 2048-byte boundary.  Valid only for object files.
pub const ALIGN_2048BYTES: u32 = 0x00C0_0000;

/// Align data on a 4096-byte boundary.  Valid only for object files.
pub const ALIGN_4096BYTES: u32 = 0x00D0_0000;

/// Align data on an 8192-byte boundary.  Valid only for object files.
pub const ALIGN_8192BYTES: u32 = 0x00E0_0000;

/// The section contains extended relocations.
pub const LNK_NRELOC_OVFL: u32 = 0x0100_0000;

/// The section can be discarded as needed.
pub const MEM_DISCARDABLE: u32 = 0x0200_0000;

/// The section cannot be cached.
pub const MEM_NOT_CACHED: u32 = 0x0400_0000;

/// The section is not pageable.
pub const MEM_NOT_PAGED: u32 = 0x0800_0000;

/// The section can be shared in memory.
pub const MEM_SHARED: u32 = 0x1000_0000;

/// The section can be executed as code.
pub const MEM_EXECUTE: u32 = 0x2000_0000;

/// The section can be read.
pub const MEM_READ: u32 = 0x4000_0000;

/// The section can be written to.
pub const MEM_WRITE: u32 = 0x8000_0000;

/// Union of all defined section-characteristics bits (the thirteen
/// alignment levels share the bits of one sub-field); decoding drops
/// everything outside this mask.
pub const SECTION_CHARACTERISTICS_MASK: u32 = TYPE_NO_PAD | CNT_CODE | CNT_INITIALIZED_DATA
    | CNT_UNINITIALIZED_DATA | LNK_OTHER | LNK_INFO | LNK_REMOVE | LNK_COMDAT | GPREL
    | MEM_PURGEABLE | MEM_16BIT | MEM_LOCKED | MEM_PRELOAD | ALIGN_1BYTES | ALIGN_2BYTES
    | ALIGN_4BYTES | ALIGN_8BYTES | ALIGN_16BYTES | ALIGN_32BYTES | ALIGN_64BYTES
    | ALIGN_128BYTES | ALIGN_256BYTES | ALIGN_512BYTES | ALIGN_1024BYTES | ALIGN_2048BYTES
    | ALIGN_4096BYTES | ALIGN_8192BYTES | LNK_NRELOC_OVFL | MEM_DISCARDABLE | MEM_NOT_CACHED
    | MEM_NOT_PAGED | MEM_SHARED | MEM_EXECUTE | MEM_READ | MEM_WRITE;

/// The flags that describe the characteristics of a section, as a
/// truncating bit set: decoding a raw integer keeps the defined bits and
/// silently drops the rest.
#[derive(Clone, Copy, Debug, PartialEq, Eq, Structural, Default)]
pub struct SectionCharacteristics {
    pub bits: u32,
}

impl SectionCharacteristics {
    /// Decodes a raw integer, dropping undefined bits.
    pub fn from_bits_truncate(raw: u32) -> (r: SectionCharacteristics)
        ensures
            r.bits == raw & SECTION_CHARACTERISTICS_MASK,
    {
        SectionCharacteristics { bits: raw & SECTION_CHARACTERISTICS_MASK }
    }

    /// True when every bit of `mask` is set.
    pub fn contains(&self, mask: u32) -> (r: bool)
        ensures
            r == ((self.bits & mask) == mask),
    {
        (self.bits & mask) == mask
    }
}

/// A section header: the fixed 40-byte record that follows the optional
/// header, one per section.
#[derive(Debug, PartialEq, Eq)]
pub struct SectionHeader {
    /// An 8-byte, null-padded UTF-8 encoded string. If the string is exactly 8 characters long,
    /// there is no terminating null.
    ///
    /// Executable images do not use a string table and do not support section names longer
    /// than 8 characters.
    pub name: String,
    /// The total size of the section when loaded into memory.
    ///
    /// If this value is greater than SizeOfRawData, the section is zero-padded.
    /// This field is valid only for executable images and should be set to zero for object files.
    pub virtual_size: u32,
    /// For executable images, the address of the first byte of the section relative to the image
    /// base when the section is loaded into memory.
    pub virtual_address: u32,
    /// The size of the section (for object files) or the size of the initialized data
    /// on disk (for image files).
    ///
    /// For executable images, this must be a multiple of FileAlignment from the optional header.
    /// If this is less than VirtualSize, the remainder of the section is zero-filled.
    pub size_of_raw_data: u32,
    /// The file pointer to the first page of the section within the COFF file.
    ///
    /// For executable images, this must be a multiple of FileAlignment from the optional header.
    pub pointer_to_raw_data: u32,
    /// The file pointer to the beginning of relocation entries for the section.
    ///
    /// This is set to zero for executable images or if there are no relocations.
    pub pointer_to_relocations: u32,
    /// The file pointer to the beginning of line-number entries for the section.
    ///
    /// This is set to zero if there are no COFF line numbers.
    pub pointer_to_linenumbers: u32,
    /// The number of relocation entries for the section. This is set to zero for executable images.
    pub number_of_relocations: u16,
    /// The number of line-number entries for the section.
    pub number_of_linenumbers: u16,
    /// The flags that describe the characteristics of the section.
    pub characteristics: SectionCharacteristics,
}

/// Total size in bytes of an encoded section header.
pub const SECTION_HEADER_SIZE: usize = 40;

/// Length of the prefix of `s` that stands before the first embedded
/// null byte (the whole sequence when no null occurs).
pub open spec fn spec_nul_prefix_len(s: Seq<u8>) -> int
    decreases s.len(),
{
    if s.len() == 0 {
        0
    } else if s[0] == 0 {
        0
    } else {
        1 + spec_nul_prefix_len(s.drop_first())
    }
}

/// The prefix length is characterized by its first-null position: if the
/// first `j` bytes are nonzero and byte `j` (when it exists) is zero,
/// the prefix length is exactly `j`.
pub proof fn lemma_nul_prefix_len_characterize(s: Seq<u8>, j: int)
    requires
        0 <= j <= s.len(),
        forall|k: int| 0 <= k < j ==> s[k] != 0,
        j < s.len() ==> s[j] == 0,
    ensures
        spec_nul_prefix_len(s) == j,
    decreases j,
{
    if j == 0 {
    } else {
        lemma_nul_prefix_len_characterize(s.drop_first(), j - 1);
    }
}

/// The bytes of the section name encoded at offset `i` of `b`: the fixed
/// 8-byte field truncated at its first embedded null byte.
pub open spec fn spec_name_bytes(b: Seq<u8>, i: int) -> Seq<u8> {
    let field = b.subrange(i, i + 8);
    field.subrange(0, spec_nul_prefix_len(field))
}

/// Sequences of plain (7-bit) bytes are always valid text, one character
/// per byte.
pub proof fn lemma_ascii_valid_utf8(s: Seq<u8>)
    requires
        forall|k: int| 0 <= k < s.len() ==> s[k] < 0x80,
    ensures
        valid_utf8(s),
        decode_utf8(s).len() == s.len(),
    decreases s.len(),
{
    if s.len() > 0 {
        let b0 = s[0];
        assert(b0 & 0x7F <= 0x7F) by (bit_vector)
            requires
                b0 < 0x80,
        ;
        assert(vstd::utf8::valid_first_scalar(s));
        assert(vstd::utf8::length_of_first_scalar(s) == 1);
        let rest = vstd::utf8::pop_first_scalar(s);
        assert(rest =~= s.drop_first());
        assert forall|k: int| 0 <= k < rest.len() implies rest[k] < 0x80 by {
            assert(rest[k] == s[k + 1]);
        }
        lemma_ascii_valid_utf8(rest);
    }
}

/// A name field with no embedded null and eight bytes of plain content
/// decodes to a name of exactly eight characters: nothing is truncated
/// and each byte stands for one character.
pub proof fn lemma_name_eight_ascii_bytes(b: Seq<u8>, i: int)
    requires
        0 <= i,
        i + 8 <= b.len(),
        forall|k: int| 0 <= k < 8 ==> 0 < #[trigger] b[i + k] < 0x80,
    ensures
        valid_utf8(spec_name_bytes(b, i)),
        decode_utf8(spec_name_bytes(b, i)).len() == 8,
{
    let field = b.subrange(i, i + 8);
    assert forall|k: int| 0 <= k < 8 implies field[k] != 0 && field[k] < 0x80 by {
        assert(field[k] == b[i + k]);
    }
    lemma_nul_prefix_len_characterize(field, 8);
    assert(spec_name_bytes(b, i) =~= field);
    lemma_ascii_valid_utf8(field);
}

/// True when a complete section header can be decoded at offset `i` of
/// `b`: all 40 bytes are present and the truncated name bytes are valid
/// text.
pub open spec fn spec_section_header_ok(b: Seq<u8>, i: int) -> bool {
    &&& i + SECTION_HEADER_SIZE <= b.len()
    &&& valid_utf8(spec_name_bytes(b, i))
}

/// The offset reported when a section header cannot be decoded at offset
/// `i`: invalid name bytes point at the name field, running out of bytes
/// points at the end of the buffer.
pub open spec fn spec_section_header_fail_offset(b: Seq<u8>, i: int) -> int {
    if i + SECTION_HEADER_SIZE <= b.len() {
        i
    } else {
        b.len() as int
    }
}

/// True when `h` holds exactly the field values encoded at offset `i` of
/// `b`: the name is the text whose UTF-8 encoding is the truncated name
/// bytes, and the numeric fields are the little-endian values at their
/// fixed offsets.
pub open spec fn section_header_matches(h: SectionHeader, b: Seq<u8>, i: int) -> bool {
    &&& encode_utf8(h.name@) == spec_name_bytes(b, i)
    &&& h.name@ == decode_utf8(spec_name_bytes(b, i))
    &&& h.virtual_size == u32_le_at(b, i + 8)
    &&& h.virtual_address == u32_le_at(b, i + 12)
    &&& h.size_of_raw_data == u32_le_at(b, i + 16)
    &&& h.pointer_to_raw_data == u32_le_at(b, i + 20)
    &&& h.pointer_to_relocations == u32_le_at(b, i + 24)
    &&& h.pointer_to_linenumbers == u32_le_at(b, i + 28)
    &&& h.number_of_relocations == u16_le_at(b, i + 32)
    &&& h.number_of_linenumbers == u16_le_at(b, i + 34)
    &&& h.characteristics.bits == u32_le_at(b, i + 36) & SECTION_CHARACTERISTICS_MASK
}

/// True when the header meets the alignment rules parsed earlier from the
/// optional header: the virtual address is a multiple of the section
/// alignment, and the raw-data size and raw-data pointer are multiples of
/// the file alignment.
pub open spec fn spec_section_header_valid(h: SectionHeader, file_alignment: u32, section_alignment: u32) -> bool
    recommends
        file_alignment > 0,
        section_alignment > 0,
{
    &&& (h.virtual_address as int) % (section_alignment as int) == 0
    &&& (h.size_of_raw_data as int) % (file_alignment as int) == 0
    &&& (h.pointer_to_raw_data as int) % (file_alignment as int) == 0
}

impl SectionHeader {
    /// Decodes the section header at `offset`.  Succeeds exactly when all
    /// 40 bytes are present and the name bytes, truncated at the first
    /// null, are valid text; both truncation and invalid name bytes are
    /// `Malformed`.  Undefined characteristics bits are dropped, never
    /// rejected.
    pub fn try_parse(input: &Vec<u8>, offset: usize) -> (r: Result<
        (SectionHeader, usize),
        ParseError,
    >)
        requires
            offset <= input@.len(),
        ensures
            r is Ok <==> spec_section_header_ok(input@, offset as int),
            r is Ok ==> section_header_matches(r->Ok_0.0, input@, offset as int) && r->Ok_0.1
                == offset + SECTION_HEADER_SIZE,
            r is Err ==> {
                &&& r->Err_0.kind == ErrorKind::Malformed
                &&& r->Err_0.severity == Severity::Fatal
                &&& r->Err_0.offset == spec_section_header_fail_offset(input@, offset as int)
                &&& r->Err_0.context@.len() > 0
                &&& r->Err_0.context@[0] == ContextLabel::SectionHeader
            },
    {
        if input.len() - offset < SECTION_HEADER_SIZE {
            return Err(
                ParseError::truncated(input.len()).with_context(ContextLabel::SectionHeader),
            );
        }
        let ghost field = input@.subrange(offset as int, offset + 8);
        let mut j: usize = 0;
        while j < 8 && input[offset + j] != 0
            invariant
                offset + SECTION_HEADER_SIZE <= input@.len(),
                input@.len() <= usize::MAX,
                j <= 8,
                forall|k: int| 0 <= k < j ==> #[trigger] input@[offset + k] != 0,
            decreases 8 - j,
        {
            j = j + 1;
        }
        proof {
            assert forall|k: int| 0 <= k < j implies field[k] != 0 by {
                assert(field[k] == input@[offset + k]);
            }
            if j < 8 {
                assert(field[j as int] == input@[offset + j]);
            }
            lemma_nul_prefix_len_characterize(field, j as int);
        }
        let mut name_bytes: Vec<u8> = Vec::new();
        let mut k: usize = 0;
        while k < j
            invariant
                offset + SECTION_HEADER_SIZE <= input@.len(),
                input@.len() <= usize::MAX,
                j <= 8,
                k <= j,
                name_bytes@ == input@.subrange(offset as int, offset + k),
            decreases j - k,
        {
            name_bytes.push(input[offset + k]);
            k = k + 1;
            proof {
                assert(name_bytes@ =~= input@.subrange(offset as int, offset + k));
            }
        }
        proof {
            assert(name_bytes@ =~= spec_name_bytes(input@, offset as int));
        }
        if !utf8_valid(&name_bytes) {
            return Err(
                ParseError::new(ErrorKind::Malformed, Severity::Fatal, offset).with_context(
                    ContextLabel::SectionName,
                ).with_context(ContextLabel::SectionHeader),
            );
        }
        let name = string_from_utf8_bytes(name_bytes);
        proof {
            broadcast use vstd::utf8::encode_utf8_decode_utf8;

        }
        let header = SectionHeader {
            name,
            virtual_size: read_u32(input, offset + 8),
            virtual_address: read_u32(input, offset + 12),
            size_of_raw_data: read_u32(input, offset + 16),
            pointer_to_raw_data: read_u32(input, offset + 20),
            pointer_to_relocations: read_u32(input, offset + 24),
            pointer_to_linenumbers: read_u32(input, offset + 28),
            number_of_relocations: read_u16(input, offset + 32),
            number_of_linenumbers: read_u16(input, offset + 34),
            characteristics: SectionCharacteristics::from_bits_truncate(
                read_u32(input, offset + 36),
            ),
        };
        Ok((header, offset + SECTION_HEADER_SIZE))
    }

    /// True exactly when this header meets the alignment rules: the
    /// virtual address is a multiple of the section alignment, and the
    /// raw-data size and raw-data pointer are multiples of the file
    /// alignment.
    pub fn verify(&self, file_alignment: u32, section_alignment: u32) -> (r: bool)
        requires
            file_alignment > 0,
            section_alignment > 0,
        ensures
            r == spec_section_header_valid(*self, file_alignment, section_alignment),
    {
        self.virtual_address % section_alignment == 0 && self.size_of_raw_data % file_alignment
            == 0 && self.pointer_to_raw_data % file_alignment == 0
    }
}

/// The size of the loader-applied zero padding that follows the copied
/// raw bytes when a section's virtual size exceeds its raw data size.
pub open spec fn spec_uninitialized_size(virtual_size: u32, size_of_raw_data: u32) -> u32 {
    if size_of_raw_data < virtual_size {
        (virtual_size - size_of_raw_data) as u32
    } else {
        0
    }
}

/// A materialized section: its header, a copy of its raw on-disk bytes,
/// and the derived size of the zero padding the loader would apply (the
/// padding bytes themselves are never materialized).
#[derive(Debug, PartialEq, Eq)]
pub struct Section {
    pub header: SectionHeader,
    pub data: Vec<u8>,
    pub uninitialized_data_size: u32,
}

impl Section {
    /// Copies the section's raw bytes out of the full original buffer:
    /// exactly `size_of_raw_data` bytes starting at `pointer_to_raw_data`.
    /// Returns `None` exactly when that range exceeds the buffer bounds.
    pub fn from_file_and_header(file: &Vec<u8>, header: SectionHeader) -> (r: Option<Section>)
        ensures
            r is Some <==> header.pointer_to_raw_data + header.size_of_raw_data <= file@.len(),
            r is Some ==> {
                let s = r->0;
                &&& s.header == header
                &&& s.data@ == file@.subrange(
                    header.pointer_to_raw_data as int,
                    header.pointer_to_raw_data + header.size_of_raw_data,
                )
                &&& s.uninitialized_data_size == spec_uninitialized_size(
                    header.virtual_size,
                    header.size_of_raw_data,
                )
            },
    {
        let len = file.len();
        let start = header.pointer_to_raw_data;
        let count = header.size_of_raw_data;
        if (start as u64) + (count as u64) > (len as u64) {
            return None;
        }
        let mut data: Vec<u8> = Vec::new();
        let mut i: usize = 0;
        let start_us = start as usize;
        let count_us = count as usize;
        while i < count_us
            invariant
                start_us + count_us <= file@.len(),
                file@.len() <= usize::MAX,
                i <= count_us,
                data@ == file@.subrange(start_us as int, start_us + i),
            decreases count_us - i,
        {
            data.push(file[start_us + i]);
            i = i + 1;
            proof {
                assert(data@ =~= file@.subrange(start_us as int, start_us + i));
            }
        }
        let uninitialized_data_size = if count < header.virtual_size {
            header.virtual_size - count
        } else {
            0
        };
        Some(Section { header, data, uninitialized_data_size })
    }

    /// Returns whether the sections, walked in table order with a running
    /// next-allowed address that starts at zero, never step backwards:
    /// each section's virtual address must be at least the previous
    /// section's virtual address plus its virtual size.
    pub fn verify_section_order(sections: &Vec<Section>) -> (r: bool)
        ensures
            r == spec_sections_ordered(sections@),
    {
        let n = sections.len();
        let mut next: u64 = 0;
        let mut i: usize = 0;
        proof {
            assert(sections@.subrange(0, n as int) =~= sections@);
        }
        while i < n
            invariant
                i <= n,
                n == sections@.len(),
                spec_sections_ordered(sections@) == spec_sections_ordered_from(
                    sections@.subrange(i as int, n as int),
                    next as int,
                ),
            decreases n - i,
        {
            let ghost pre = sections@.subrange(i as int, n as int);
            proof {
                assert(pre[0] == sections@[i as int]);
            }
            let header = &sections[i].header;
            if (header.virtual_address as u64) < next {
                return false;
            }
            next = (header.virtual_address as u64) + (header.virtual_size as u64);
            i = i + 1;
            proof {
                assert(pre.drop_first() =~= sections@.subrange(i as int, n as int));
            }
        }
        proof {
            assert(sections@.subrange(n as int, n as int) =~= Seq::<Section>::empty());
        }
        true
    }
}

/// True when the sections from the head of `s` onwards, with the running
/// next-allowed address `next`, never step backwards.
pub open spec fn spec_sections_ordered_from(s: Seq<Section>, next: int) -> bool
    decreases s.len(),
{
    if s.len() == 0 {
        true
    } else {
        &&& s[0].header.virtual_address >= next
        &&& spec_sections_ordered_from(
            s.drop_first(),
            s[0].header.virtual_address + s[0].header.virtual_size,
        )
    }
}

/// True when the sections, walked in table order starting from address
/// zero, never overlap and never step backwards.
pub open spec fn spec_sections_ordered(s: Seq<Section>) -> bool {
    spec_sections_ordered_from(s, 0)
}

} // verus!
