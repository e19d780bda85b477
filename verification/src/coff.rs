//! The COFF file header: machine type over a closed code table (an
//! unrecognized code is rejected as unsupported), section count, symbol
//! table pointers, and a truncating set of characteristics flags.

use vstd::prelude::*;

use crate::cursor::read_u16;
use crate::cursor::read_u32;
use crate::cursor::u16_le_at;
use crate::cursor::u32_le_at;
use crate::error::ContextLabel;
use crate::error::ErrorKind;
use crate::error::ParseError;
use crate::error::Severity;

verus! {

/// The number that identifies the type of target machine.
#[derive(Clone, Copy, Debug, PartialEq, Eq, Structural)]
pub enum MachineType {
    /// The contents of this field are assumed to be applicable to any machine type
    Unknown,
    /// Useful for indicating we want to interact with the host and not a WoW guest.
    TargetHost,
    /// x64
    AMD64,
    /// Intel 386 or later processors and compatible processors
    I386,
    /// RISC-V 32-bit address space
    RISCV32,
    /// RISC-V 64-bit address space
    RISCV64,
    /// RISC-V 128-bit address space
    RISCV128,
    /// Matsushita AM33
    AM33,
    /// ARM little endian
    ARM,
    /// ARM64 little endian
    ARM64,
    /// ARM Thumb-2 little endian
    ARMNT,
    /// EFI byte code
    EBC,
    /// Intel Itanium processor family
    IA64,
    /// Mitsubishi M32R little endian
    M32R,
    /// MIPS16
    MIPS16,
    /// MIPS with FPU
    MIPSFPU,
    /// MIPS16 with FPU
    MIPSFPU16,
    /// Power PC little endian
    POWERPC,
    /// Power PC with floating point support
    POWERPCFP,
    /// MIPS big-endian
    R3000BigEndian,
    /// MIPS little-endian
    R3000LittleEndian,
    /// MIPS little endian
    R4000,
    /// MIPS little-endian
    R10000,
    /// Hitachi SH3 little-endian
    SH3,
    /// Hitachi SH3 DSP
    SH3DSP,
    /// SH3E little-endian
    SH3E,
    /// Hitachi SH4 little-endian
    SH4,
    /// Hitachi SH5
    SH5,
    /// ARM Thumb/Thumb-2 Little-Endian
    THUMB,
    /// MIPS little-endian WCE v2
    WCEMIPSV2,
    /// Alpha_AXP
    ALPHA,
    /// ALPHA64
    ALPHA64,
    /// Infineon
    TRICORE,
    CEF,
    CEE,
}

/// The closed machine-code table: the variant a code decodes to, or
/// `None` for every code outside the table.
pub open spec fn spec_machine_type_from_u16(code: u16) -> Option<MachineType> {
    if code == 0x0 {
        Some(MachineType::Unknown)
    } else if code == 0x0001 {
        Some(MachineType::TargetHost)
    } else if code == 0x8664 {
        Some(MachineType::AMD64)
    } else if code == 0x14c {
        Some(MachineType::I386)
    } else if code == 0x5032 {
        Some(MachineType::RISCV32)
    } else if code == 0x5064 {
        Some(MachineType::RISCV64)
    } else if code == 0x5128 {
        Some(MachineType::RISCV128)
    } else if code == 0x1d3 {
        Some(MachineType::AM33)
    } else if code == 0x1c0 {
        Some(MachineType::ARM)
    } else if code == 0xaa64 {
        Some(MachineType::ARM64)
    } else if code == 0x1c4 {
        Some(MachineType::ARMNT)
    } else if code == 0xebc {
        Some(MachineType::EBC)
    } else if code == 0x200 {
        Some(MachineType::IA64)
    } else if code == 0x9041 {
        Some(MachineType::M32R)
    } else if code == 0x266 {
        Some(MachineType::MIPS16)
    } else if code == 0x366 {
        Some(MachineType::MIPSFPU)
    } else if code == 0x466 {
        Some(MachineType::MIPSFPU16)
    } else if code == 0x1f0 {
        Some(MachineType::POWERPC)
    } else if code == 0x1f1 {
        Some(MachineType::POWERPCFP)
    } else if code == 0x0160 {
        Some(MachineType::R3000BigEndian)
    } else if code == 0x0162 {
        Some(MachineType::R3000LittleEndian)
    } else if code == 0x166 {
        Some(MachineType::R4000)
    } else if code == 0x0168 {
        Some(MachineType::R10000)
    } else if code == 0x1a2 {
        Some(MachineType::SH3)
    } else if code == 0x1a3 {
        Some(MachineType::SH3DSP)
    } else if code == 0x01a4 {
        Some(MachineType::SH3E)
    } else if code == 0x1a6 {
        Some(MachineType::SH4)
    } else if code == 0x1a8 {
        Some(MachineType::SH5)
    } else if code == 0x1c2 {
        Some(MachineType::THUMB)
    } else if code == 0x169 {
        Some(MachineType::WCEMIPSV2)
    } else if code == 0x0184 {
        Some(MachineType::ALPHA)
    } else if code == 0x0284 {
        Some(MachineType::ALPHA64)
    } else if code == 0x0520 {
        Some(MachineType::TRICORE)
    } else if code == 0x0CEF {
        Some(MachineType::CEF)
    } else if code == 0xC0EE {
        Some(MachineType::CEE)
    } else {
        None
    }
}

impl MachineType {
    /// Looks a raw machine code up in the closed table.
    pub fn from_u16(code: u16) -> (r: Option<MachineType>)
        ensures
            r == spec_machine_type_from_u16(code),
    {
        if code == 0x0 {
            Some(MachineType::Unknown)
        } else if code == 0x0001 {
            Some(MachineType::TargetHost)
        } else if code == 0x8664 {
            Some(MachineType::AMD64)
        } else if code == 0x14c {
            Some(MachineType::I386)
        } else if code == 0x5032 {
            Some(MachineType::RISCV32)
        } else if code == 0x5064 {
            Some(MachineType::RISCV64)
        } else if code == 0x5128 {
            Some(MachineType::RISCV128)
        } else if code == 0x1d3 {
            Some(MachineType::AM33)
        } else if code == 0x1c0 {
            Some(MachineType::ARM)
        } else if code == 0xaa64 {
            Some(MachineType::ARM64)
        } else if code == 0x1c4 {
            Some(MachineType::ARMNT)
        } else if code == 0xebc {
            Some(MachineType::EBC)
        } else if code == 0x200 {
            Some(MachineType::IA64)
        } else if code == 0x9041 {
            Some(MachineType::M32R)
        } else if code == 0x266 {
            Some(MachineType::MIPS16)
        } else if code == 0x366 {
            Some(MachineType::MIPSFPU)
        } else if code == 0x466 {
            Some(MachineType::MIPSFPU16)
        } else if code == 0x1f0 {
            Some(MachineType::POWERPC)
        } else if code == 0x1f1 {
            Some(MachineType::POWERPCFP)
        } else if code == 0x0160 {
            Some(MachineType::R3000BigEndian)
        } else if code == 0x0162 {
            Some(MachineType::R3000LittleEndian)
        } else if code == 0x166 {
            Some(MachineType::R4000)
        } else if code == 0x0168 {
            Some(MachineType::R10000)
        } else if code == 0x1a2 {
            Some(MachineType::SH3)
        } else if code == 0x1a3 {
            Some(MachineType::SH3DSP)
        } else if code == 0x01a4 {
            Some(MachineType::SH3E)
        } else if code == 0x1a6 {
            Some(MachineType::SH4)
        } else if code == 0x1a8 {
            Some(MachineType::SH5)
        } else if code == 0x1c2 {
            Some(MachineType::THUMB)
        } else if code == 0x169 {
            Some(MachineType::WCEMIPSV2)
        } else if code == 0x0184 {
            Some(MachineType::ALPHA)
        } else if code == 0x0284 {
            Some(MachineType::ALPHA64)
        } else if code == 0x0520 {
            Some(MachineType::TRICORE)
        } else if code == 0x0CEF {
            Some(MachineType::CEF)
        } else if code == 0xC0EE {
            Some(MachineType::CEE)
        } else {
            None
        }
    }
}

/// Image only, Windows CE, and Microsoft Windows NT and later.  The file
/// does not contain base relocations.
pub const IMAGE_FILE_RELOCS_STRIPPED: u16 = 0x0001;

/// Image only.  The image file is valid and can be run.
pub const IMAGE_FILE_EXECUTABLE_IMAGE: u16 = 0x0002;

/// COFF line numbers have been removed.  Deprecated, should be zero.
pub const IMAGE_FILE_LINE_NUMS_STRIPPED: u16 = 0x0004;

/// COFF symbol table entries for local symbols have been removed.
/// Deprecated, should be zero.
pub const IMAGE_FILE_LOCAL_SYMS_STRIPPED: u16 = 0x0008;

/// Obsolete.  Aggressively trim working set.
pub const IMAGE_FILE_AGGRESSIVE_WS_TRIM: u16 = 0x0010;

/// Application can handle > 2-GB addresses.
pub const IMAGE_FILE_LARGE_ADDRESS_AWARE: u16 = 0x0020;

/// Little endian.  Deprecated, should be zero.
pub const IMAGE_FILE_BYTES_REVERSED_LO: u16 = 0x0080;

/// Machine is based on a 32-bit-word architecture.
pub const IMAGE_FILE_32BIT_MACHINE: u16 = 0x0100;

/// Debugging information is removed from the image file.
pub const IMAGE_FILE_DEBUG_STRIPPED: u16 = 0x0200;

/// If the image is on removable media, fully load it and copy it to the
/// swap file.
pub const IMAGE_FILE_REMOVABLE_RUN_FROM_SWAP: u16 = 0x0400;

/// If the image is on network media, fully load it and copy it to the
/// swap file.
pub const IMAGE_FILE_NET_RUN_FROM_SWAP: u16 = 0x0800;

/// The image file is a system file, not a user program.
pub const IMAGE_FILE_SYSTEM: u16 = 0x1000;

/// The image file is a dynamic-link library (DLL).
pub const IMAGE_FILE_DLL: u16 = 0x2000;

/// The file should be run only on a uniprocessor machine.
pub const IMAGE_FILE_UP_SYSTEM_ONLY: u16 = 0x4000;

/// Big endian.  Deprecated, should be zero.
pub const IMAGE_FILE_BYTES_REVERSED_HI: u16 = 0x8000;

/// Union of all defined file-characteristics bits; decoding drops
/// everything outside this mask.
pub const CHARACTERISTICS_MASK: u16 = IMAGE_FILE_RELOCS_STRIPPED | IMAGE_FILE_EXECUTABLE_IMAGE
    | IMAGE_FILE_LINE_NUMS_STRIPPED | IMAGE_FILE_LOCAL_SYMS_STRIPPED
    | IMAGE_FILE_AGGRESSIVE_WS_TRIM | IMAGE_FILE_LARGE_ADDRESS_AWARE
    | IMAGE_FILE_BYTES_REVERSED_LO | IMAGE_FILE_32BIT_MACHINE | IMAGE_FILE_DEBUG_STRIPPED
    | IMAGE_FILE_REMOVABLE_RUN_FROM_SWAP | IMAGE_FILE_NET_RUN_FROM_SWAP | IMAGE_FILE_SYSTEM
    | IMAGE_FILE_DLL | IMAGE_FILE_UP_SYSTEM_ONLY | IMAGE_FILE_BYTES_REVERSED_HI;

/// The flags that indicate the attributes of the file, as a truncating
/// bit set: decoding a raw integer keeps the defined bits and silently
/// drops the rest.
#[derive(Clone, Copy, Debug, PartialEq, Eq, Structural, Default)]
pub struct Characteristics {
    pub bits: u16,
}

impl Characteristics {
    /// Decodes a raw integer, dropping undefined bits.
    pub fn from_bits_truncate(raw: u16) -> (r: Characteristics)
        ensures
            r.bits == raw & CHARACTERISTICS_MASK,
    {
        Characteristics { bits: raw & CHARACTERISTICS_MASK }
    }

    /// True when every bit of `mask` is set.
    pub fn contains(&self, mask: u16) -> (r: bool)
        ensures
            r == ((self.bits & mask) == mask),
    {
        (self.bits & mask) == mask
    }
}

/// Characteristics decoding is truncating, never failing: whatever raw
/// integer a decoded COFF header was built from, every bit outside the
/// defined mask has been dropped and every defined bit has been kept.
pub proof fn lemma_characteristics_unknown_bits_dropped(h: COFFHeader, b: Seq<u8>, i: int)
    requires
        coff_matches(h, b, i),
    ensures
        h.characteristics.bits & !CHARACTERISTICS_MASK == 0,
        h.characteristics.bits & CHARACTERISTICS_MASK == u16_le_at(b, i + 18)
            & CHARACTERISTICS_MASK,
{
    let raw = u16_le_at(b, i + 18);
    assert((raw & CHARACTERISTICS_MASK) & !CHARACTERISTICS_MASK == 0) by (bit_vector);
    assert((raw & CHARACTERISTICS_MASK) & CHARACTERISTICS_MASK == raw
        & CHARACTERISTICS_MASK) by (bit_vector);
}

/// The characteristics bytes can never cause a rejection: whether a COFF
/// header decodes is unchanged under any rewrite of the two bytes that
/// hold the characteristics field.
pub proof fn lemma_characteristics_never_reject(b1: Seq<u8>, b2: Seq<u8>, i: int)
    requires
        b1.len() == b2.len(),
        0 <= i,
        forall|k: int| 0 <= k < b1.len() && !(i + 18 <= k < i + 20) ==> b1[k] == b2[k],
    ensures
        spec_coff_ok(b1, i) == spec_coff_ok(b2, i),
{
    if i + COFF_HEADER_SIZE <= b1.len() {
        assert(b1[i] == b2[i]);
        assert(b1[i + 1] == b2[i + 1]);
    }
}

/// The COFF file header.
#[derive(Debug, PartialEq, Eq)]
pub struct COFFHeader {
    /// The number that identifies the type of target machine.
    pub machine_type: MachineType,
    /// The number of sections. This indicates the size of the section table,
    /// which immediately follows the headers.
    ///
    /// Note that the Windows loader limits the number of sections to 96.
    pub number_of_sections: u16,
    /// The low 32 bits of the number of seconds since 00:00 January 1, 1970 (a C run-time time_t value),
    /// that indicates when the file was created.
    pub time_date_stamp: u32,
    /// The file offset of the COFF symbol table, or zero if no COFF symbol table is present.
    /// This value should be zero for an image because COFF debugging information is deprecated.
    pub pointer_to_symbol_table: u32,
    /// The number of entries in the symbol table.
    /// This data can be used to locate the string table, which immediately follows the symbol table.
    /// This value should be zero for an image because COFF debugging information is deprecated.
    pub number_of_symbols: u32,
    /// The size of the optional header, which is required for executable files but not for object files.
    /// This value should be zero for an object file.
    pub size_of_optional_header: u16,
    /// The flags that indicate the attributes of the file.
    pub characteristics: Characteristics,
}

/// Total size in bytes of the encoded COFF header.
pub const COFF_HEADER_SIZE: usize = 20;

/// True when a complete COFF header can be decoded at offset `i` of `b`:
/// all 20 bytes are present and the machine code is in the closed table.
pub open spec fn spec_coff_ok(b: Seq<u8>, i: int) -> bool {
    &&& i + COFF_HEADER_SIZE <= b.len()
    &&& spec_machine_type_from_u16(u16_le_at(b, i)) is Some
}

/// The failure class when a COFF header cannot be decoded at offset `i`:
/// an unrecognized machine code is `Unsupported`, running out of bytes is
/// `Malformed`.
pub open spec fn spec_coff_fail_kind(b: Seq<u8>, i: int) -> ErrorKind {
    if i + 2 > b.len() {
        ErrorKind::Malformed
    } else if spec_machine_type_from_u16(u16_le_at(b, i)) is None {
        ErrorKind::Unsupported
    } else {
        ErrorKind::Malformed
    }
}

/// The offset reported when a COFF header cannot be decoded at offset
/// `i`: an unrecognized machine code points at the machine field, running
/// out of bytes points at the end of the buffer.
pub open spec fn spec_coff_fail_offset(b: Seq<u8>, i: int) -> int {
    if i + 2 <= b.len() && spec_machine_type_from_u16(u16_le_at(b, i)) is None {
        i
    } else {
        b.len() as int
    }
}

/// True when `h` holds exactly the field values encoded at offset `i` of
/// `b`.
pub open spec fn coff_matches(h: COFFHeader, b: Seq<u8>, i: int) -> bool {
    &&& Some(h.machine_type) == spec_machine_type_from_u16(u16_le_at(b, i))
    &&& h.number_of_sections == u16_le_at(b, i + 2)
    &&& h.time_date_stamp == u32_le_at(b, i + 4)
    &&& h.pointer_to_symbol_table == u32_le_at(b, i + 8)
    &&& h.number_of_symbols == u32_le_at(b, i + 12)
    &&& h.size_of_optional_header == u16_le_at(b, i + 16)
    &&& h.characteristics.bits == u16_le_at(b, i + 18) & CHARACTERISTICS_MASK
}

impl COFFHeader {
    /// Decodes the COFF header at `offset`.  Succeeds exactly when all 20
    /// bytes are present and the machine code is in the closed table; an
    /// unrecognized machine code is `Unsupported`, truncation is
    /// `Malformed`.  Undefined characteristics bits are dropped, never
    /// rejected.
    pub fn try_parse(input: &Vec<u8>, offset: usize) -> (r: Result<(COFFHeader, usize), ParseError>)
        requires
            offset <= input@.len(),
        ensures
            r is Ok <==> spec_coff_ok(input@, offset as int),
            r is Ok ==> coff_matches(r->Ok_0.0, input@, offset as int) && r->Ok_0.1 == offset
                + COFF_HEADER_SIZE,
            r is Err ==> {
                &&& r->Err_0.kind == spec_coff_fail_kind(input@, offset as int)
                &&& r->Err_0.severity == Severity::Fatal
                &&& r->Err_0.offset == spec_coff_fail_offset(input@, offset as int)
                &&& r->Err_0.context@.len() > 0
                &&& r->Err_0.context@[0] == ContextLabel::COFFHeader
            },
    {
        if input.len() - offset < 2 {
            return Err(
                ParseError::truncated(input.len()).with_context(ContextLabel::MachineType)
                    .with_context(ContextLabel::COFFHeader),
            );
        }
        let machine_type = match MachineType::from_u16(read_u16(input, offset)) {
            Some(m) => m,
            None => {
                return Err(
                    ParseError::new(ErrorKind::Unsupported, Severity::Fatal, offset).with_context(
                        ContextLabel::MachineType,
                    ).with_context(ContextLabel::COFFHeader),
                );
            },
        };
        if input.len() - offset < COFF_HEADER_SIZE {
            return Err(ParseError::truncated(input.len()).with_context(ContextLabel::COFFHeader));
        }
        let header = COFFHeader {
            machine_type,
            number_of_sections: read_u16(input, offset + 2),
            time_date_stamp: read_u32(input, offset + 4),
            pointer_to_symbol_table: read_u32(input, offset + 8),
            number_of_symbols: read_u32(input, offset + 12),
            size_of_optional_header: read_u16(input, offset + 16),
            characteristics: Characteristics::from_bits_truncate(read_u16(input, offset + 18)),
        };
        Ok((header, offset + COFF_HEADER_SIZE))
    }
}

} // verus!
