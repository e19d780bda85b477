//! The standard COFF optional header: a magic discriminant over a closed
//! table (ROM, PE32, PE32+), linker version, code/data sizes and entry
//! point.  The discriminant gate that rejects everything but PE32 is
//! applied by the image pipeline, not here.

use vstd::prelude::*;

use crate::cursor::read_u16;
use crate::cursor::read_u32;
use crate::cursor::read_u8;
use crate::cursor::u16_le_at;
use crate::cursor::u32_le_at;
use crate::error::ContextLabel;
use crate::error::ErrorKind;
use crate::error::ParseError;
use crate::error::Severity;

verus! {

/// The state of the image file, identified by the optional header's magic
/// number.
#[derive(Clone, Copy, Debug, PartialEq, Eq, Structural)]
pub enum COFFImageOptionalHeaderType {
    /// 0x107: ROM image
    ROM,
    /// 0x10B: PE32 executable
    PE32,
    /// 0x20B: PE32+ executable (64-bit)
    PE32Plus,
}

/// The closed magic-number table: 0x107, 0x10B and 0x20B decode to their
/// variants, every other code to `None`.
pub open spec fn spec_optional_header_type_from_u16(code: u16) -> Option<
    COFFImageOptionalHeaderType,
> {
    if code == 0x107 {
        Some(COFFImageOptionalHeaderType::ROM)
    } else if code == 0x10B {
        Some(COFFImageOptionalHeaderType::PE32)
    } else if code == 0x20B {
        Some(COFFImageOptionalHeaderType::PE32Plus)
    } else {
        None
    }
}

impl COFFImageOptionalHeaderType {
    /// Looks a raw magic number up in the closed table.
    pub fn from_u16(code: u16) -> (r: Option<COFFImageOptionalHeaderType>)
        ensures
            r == spec_optional_header_type_from_u16(code),
    {
        if code == 0x107 {
            Some(COFFImageOptionalHeaderType::ROM)
        } else if code == 0x10B {
            Some(COFFImageOptionalHeaderType::PE32)
        } else if code == 0x20B {
            Some(COFFImageOptionalHeaderType::PE32Plus)
        } else {
            None
        }
    }
}

/// The standard fields of the COFF optional header.
#[derive(Debug, PartialEq, Eq)]
pub struct COFFImageStandardOptionalHeader {
    /// The unsigned integer that identifies the state of the image file.
    /// The most common number is 0x10B, which identifies it as a normal executable file.
    /// 0x107 identifies it as a ROM image, and 0x20B identifies it as a PE32+ executable.
    pub magic: COFFImageOptionalHeaderType,
    /// The linker major version number.
    pub major_linker_version: u8,
    /// The linker minor version number.
    pub minor_linker_version: u8,
    /// The size of the code (text) section,
    /// or the sum of all code sections if there are multiple sections.
    pub size_of_code: u32,
    /// The size of the initialized data section,
    /// or the sum of all such sections if there are multiple data sections.
    pub size_of_initialized_data: u32,
    /// The size of the uninitialized data section (BSS),
    /// or the sum of all such sections if there are multiple BSS sections.
    pub size_of_uninitialized_data: u32,
    /// The address of the entry point relative to the image base when
    /// the executable file is loaded into memory.
    /// For program images, this is the starting address.
    /// For device drivers, this is the address of the initialization function.
    /// An entry point is optional for DLLs.
    /// When no entry point is present, this field must be zero.
    pub address_of_entry_point: u32,
    /// The address that is relative to the image base of the
    /// beginning-of-code section when it is loaded into memory.
    pub base_of_code: u32,
}

/// Total size in bytes of the encoded standard optional header.
pub const STANDARD_OPTIONAL_HEADER_SIZE: usize = 24;

/// True when a complete standard optional header can be decoded at offset
/// `i` of `b`: all 24 bytes are present and the magic is in the closed
/// table.
pub open spec fn spec_standard_optional_ok(b: Seq<u8>, i: int) -> bool {
    &&& i + STANDARD_OPTIONAL_HEADER_SIZE <= b.len()
    &&& spec_optional_header_type_from_u16(u16_le_at(b, i)) is Some
}

/// The failure class when a standard optional header cannot be decoded at
/// offset `i`: a magic outside the closed table is `Unsupported`, running
/// out of bytes is `Malformed`.
pub open spec fn spec_standard_optional_fail_kind(b: Seq<u8>, i: int) -> ErrorKind {
    if i + 2 > b.len() {
        ErrorKind::Malformed
    } else if spec_optional_header_type_from_u16(u16_le_at(b, i)) is None {
        ErrorKind::Unsupported
    } else {
        ErrorKind::Malformed
    }
}

/// The offset reported when a standard optional header cannot be decoded
/// at offset `i`: a magic outside the closed table points at the magic
/// field, running out of bytes points at the end of the buffer.
pub open spec fn spec_standard_optional_fail_offset(b: Seq<u8>, i: int) -> int {
    if i + 2 <= b.len() && spec_optional_header_type_from_u16(u16_le_at(b, i)) is None {
        i
    } else {
        b.len() as int
    }
}

/// True when `h` holds exactly the field values encoded at offset `i` of
/// `b`.
pub open spec fn standard_optional_matches(
    h: COFFImageStandardOptionalHeader,
    b: Seq<u8>,
    i: int,
) -> bool {
    &&& Some(h.magic) == spec_optional_header_type_from_u16(u16_le_at(b, i))
    &&& h.major_linker_version == b[i + 2]
    &&& h.minor_linker_version == b[i + 3]
    &&& h.size_of_code == u32_le_at(b, i + 4)
    &&& h.size_of_initialized_data == u32_le_at(b, i + 8)
    &&& h.size_of_uninitialized_data == u32_le_at(b, i + 12)
    &&& h.address_of_entry_point == u32_le_at(b, i + 16)
    &&& h.base_of_code == u32_le_at(b, i + 20)
}

impl COFFImageStandardOptionalHeader {
    /// Decodes the standard optional header at `offset`.  Succeeds
    /// exactly when all 24 bytes are present and the magic is one of the
    /// three known discriminants; an unknown magic is `Unsupported`,
    /// truncation is `Malformed`.
    pub fn try_parse(input: &Vec<u8>, offset: usize) -> (r: Result<
        (COFFImageStandardOptionalHeader, usize),
        ParseError,
    >)
        requires
            offset <= input@.len(),
        ensures
            r is Ok <==> spec_standard_optional_ok(input@, offset as int),
            r is Ok ==> standard_optional_matches(r->Ok_0.0, input@, offset as int) && r->Ok_0.1
                == offset + STANDARD_OPTIONAL_HEADER_SIZE,
            r is Err ==> {
                &&& r->Err_0.kind == spec_standard_optional_fail_kind(input@, offset as int)
                &&& r->Err_0.severity == Severity::Fatal
                &&& r->Err_0.offset == spec_standard_optional_fail_offset(input@, offset as int)
                &&& r->Err_0.context@.len() > 0
                &&& r->Err_0.context@[0] == ContextLabel::COFFImageStandardOptionalHeader
            },
    {
        if input.len() - offset < 2 {
            return Err(
                ParseError::truncated(input.len()).with_context(
                    ContextLabel::COFFImageOptionalHeaderType,
                ).with_context(ContextLabel::COFFImageStandardOptionalHeader),
            );
        }
        let magic = match COFFImageOptionalHeaderType::from_u16(read_u16(input, offset)) {
            Some(m) => m,
            None => {
                return Err(
                    ParseError::new(ErrorKind::Unsupported, Severity::Fatal, offset).with_context(
                        ContextLabel::COFFImageOptionalHeaderType,
                    ).with_context(ContextLabel::COFFImageStandardOptionalHeader),
                );
            },
        };
        if input.len() - offset < STANDARD_OPTIONAL_HEADER_SIZE {
            return Err(
                ParseError::truncated(input.len()).with_context(
                    ContextLabel::COFFImageStandardOptionalHeader,
                ),
            );
        }
        let header = COFFImageStandardOptionalHeader {
            magic,
            major_linker_version: read_u8(input, offset + 2),
            minor_linker_version: read_u8(input, offset + 3),
            size_of_code: read_u32(input, offset + 4),
            size_of_initialized_data: read_u32(input, offset + 8),
            size_of_uninitialized_data: read_u32(input, offset + 12),
            address_of_entry_point: read_u32(input, offset + 16),
            base_of_code: read_u32(input, offset + 20),
        };
        Ok((header, offset + STANDARD_OPTIONAL_HEADER_SIZE))
    }
}

} // verus!
