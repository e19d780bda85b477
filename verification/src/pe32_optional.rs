//! The PE32-specific part of the optional header: the base-of-data field
//! and the Windows-specific extension with alignment values, version
//! numbers, the subsystem over a closed code table, and a truncating set
//! of DLL-characteristics flags.

use vstd::prelude::*;

use crate::cursor::read_u16;
use crate::cursor::read_u32;
use crate::cursor::u16_le_at;
use crate::cursor::u32_le_at;
use crate::error::ContextLabel;
use crate::error::ErrorKind;
use crate::error::ParseError;
use crate::error::Severity;

verus! {

/// The subsystem that is required to run an image.
#[derive(Clone, Copy, Debug, PartialEq, Eq, Structural)]
pub enum ImageSubsystem {
    /// An unknown subsystem
    Unknown,
    /// Device drivers and native Windows processes
    Native,
    /// The Windows graphical user interface (GUI) subsystem
    WindowsGui,
    /// The Windows character subsystem
    WindowsCui,
    /// The OS/2 character subsystem
    Os2Cui,
    /// The Posix character subsystem
    PosixCui,
    /// Native Win9x driver
    NativeWindows,
    /// Windows CE
    WindowsCeGui,
    /// An Extensible Firmware Interface (EFI) application
    EfiApplication,
    /// An EFI driver with boot services
    EfiBootServiceDriver,
    /// An EFI driver with run-time services
    EfiRuntimeDriver,
    /// An EFI ROM image
    EfiRom,
    /// XBOX
    Xbox,
    /// Windows boot application.
    WindowsBootApplication,
}

/// The closed subsystem-code table: the variant a code decodes to, or
/// `None` for every code outside the table.
pub open spec fn spec_subsystem_from_u16(code: u16) -> Option<ImageSubsystem> {
    if code == 0 {
        Some(ImageSubsystem::Unknown)
    } else if code == 1 {
        Some(ImageSubsystem::Native)
    } else if code == 2 {
        Some(ImageSubsystem::WindowsGui)
    } else if code == 3 {
        Some(ImageSubsystem::WindowsCui)
    } else if code == 5 {
        Some(ImageSubsystem::Os2Cui)
    } else if code == 7 {
        Some(ImageSubsystem::PosixCui)
    } else if code == 8 {
        Some(ImageSubsystem::NativeWindows)
    } else if code == 9 {
        Some(ImageSubsystem::WindowsCeGui)
    } else if code == 10 {
        Some(ImageSubsystem::EfiApplication)
    } else if code == 11 {
        Some(ImageSubsystem::EfiBootServiceDriver)
    } else if code == 12 {
        Some(ImageSubsystem::EfiRuntimeDriver)
    } else if code == 13 {
        Some(ImageSubsystem::EfiRom)
    } else if code == 14 {
        Some(ImageSubsystem::Xbox)
    } else if code == 16 {
        Some(ImageSubsystem::WindowsBootApplication)
    } else {
        None
    }
}

impl ImageSubsystem {
    /// Looks a raw subsystem code up in the closed table.
    pub fn from_u16(code: u16) -> (r: Option<ImageSubsystem>)
        ensures
            r == spec_subsystem_from_u16(code),
    {
        if code == 0 {
            Some(ImageSubsystem::Unknown)
        } else if code == 1 {
            Some(ImageSubsystem::Native)
        } else if code == 2 {
            Some(ImageSubsystem::WindowsGui)
        } else if code == 3 {
            Some(ImageSubsystem::WindowsCui)
        } else if code == 5 {
            Some(ImageSubsystem::Os2Cui)
        } else if code == 7 {
            Some(ImageSubsystem::PosixCui)
        } else if code == 8 {
            Some(ImageSubsystem::NativeWindows)
        } else if code == 9 {
            Some(ImageSubsystem::WindowsCeGui)
        } else if code == 10 {
            Some(ImageSubsystem::EfiApplication)
        } else if code == 11 {
            Some(ImageSubsystem::EfiBootServiceDriver)
        } else if code == 12 {
            Some(ImageSubsystem::EfiRuntimeDriver)
        } else if code == 13 {
            Some(ImageSubsystem::EfiRom)
        } else if code == 14 {
            Some(ImageSubsystem::Xbox)
        } else if code == 16 {
            Some(ImageSubsystem::WindowsBootApplication)
        } else {
            None
        }
    }
}

/// Image can handle a high entropy 64-bit virtual address space.
pub const DLL_HIGH_ENTROPY_VA: u16 = 0x0020;

/// DLL can be relocated at load time.
pub const DLL_DYNAMIC_BASE: u16 = 0x0040;

/// Code Integrity checks are enforced.
pub const DLL_FORCE_INTEGRITY: u16 = 0x0080;

/// Image is NX compatible.
pub const DLL_NX_COMPAT: u16 = 0x0100;

/// Isolation aware, but do not isolate the image.
pub const DLL_NO_ISOLATION: u16 = 0x0200;

/// Does not use structured exception (SE) handling.
pub const DLL_NO_SEH: u16 = 0x0400;

/// Do not bind the image.
pub const DLL_NO_BIND: u16 = 0x0800;

/// Image must execute in an AppContainer.
pub const DLL_APPCONTAINER: u16 = 0x1000;

/// A WDM driver.
pub const DLL_WDM_DRIVER: u16 = 0x2000;

/// Image supports Control Flow Guard.
pub const DLL_GUARD_CF: u16 = 0x4000;

/// Terminal Server aware.
pub const DLL_TERMINAL_SERVER_AWARE: u16 = 0x8000;

/// Union of all defined DLL-characteristics bits; decoding drops
/// everything outside this mask.
pub const DLL_CHARACTERISTICS_MASK: u16 = DLL_HIGH_ENTROPY_VA | DLL_DYNAMIC_BASE
    | DLL_FORCE_INTEGRITY | DLL_NX_COMPAT | DLL_NO_ISOLATION | DLL_NO_SEH | DLL_NO_BIND
    | DLL_APPCONTAINER | DLL_WDM_DRIVER | DLL_GUARD_CF | DLL_TERMINAL_SERVER_AWARE;

/// DLL-characteristics flags, as a truncating bit set: decoding a raw
/// integer keeps the defined bits and silently drops the rest.
#[derive(Clone, Copy, Debug, PartialEq, Eq, Structural, Default)]
pub struct DllCharacteristics {
    pub bits: u16,
}

impl DllCharacteristics {
    /// Decodes a raw integer, dropping undefined bits.
    pub fn from_bits_truncate(raw: u16) -> (r: DllCharacteristics)
        ensures
            r.bits == raw & DLL_CHARACTERISTICS_MASK,
    {
        DllCharacteristics { bits: raw & DLL_CHARACTERISTICS_MASK }
    }

    /// True when every bit of `mask` is set.
    pub fn contains(&self, mask: u16) -> (r: bool)
        ensures
            r == ((self.bits & mask) == mask),
    {
        (self.bits & mask) == mask
    }
}

/// The 21 fields that extend the COFF optional header format with
/// information required by the linker and loader in Windows.
#[derive(Debug, PartialEq, Eq)]
pub struct PE32OptionalHeaderWindowsSpecific {
    /// The preferred address of the first byte of image when loaded into memory;
    /// must be a multiple of 64 K.
    pub image_base: u32,
    /// The alignment (in bytes) of sections when they are loaded into memory.
    /// It must be greater than or equal to FileAlignment.
    /// The default is the page size for the architecture.
    pub section_alignment: u32,
    /// The alignment factor (in bytes) that is used to align the raw data
    /// of sections in the image file.
    ///
    /// The value should be a power of 2 between 512 and 64 K, inclusive. The default is 512.
    pub file_alignment: u32,
    /// The major version number of the required operating system.
    pub major_operating_system_version: u16,
    /// The minor version number of the required operating system.
    pub minor_operating_system_version: u16,
    /// The major version number of the image.
    pub major_image_version: u16,
    /// The minor version number of the image.
    pub minor_image_version: u16,
    /// The major version number of the subsystem.
    pub major_subsystem_version: u16,
    /// The minor version number of the subsystem.
    pub minor_subsystem_version: u16,
    /// Reserved, must be zero.
    pub win32_version_value: u32,
    /// The size (in bytes) of the image, including all headers, as the image is loaded in memory.
    /// It must be a multiple of SectionAlignment.
    pub size_of_image: u32,
    /// The combined size of an MS-DOS stub, PE header, and section headers
    /// rounded up to a multiple of FileAlignment.
    pub size_of_headers: u32,
    /// The image file checksum.
    pub check_sum: u32,
    /// The subsystem that is required to run this image.
    pub subsystem: ImageSubsystem,
    /// Flags describing loader behaviour for the image.
    pub dll_characteristics: DllCharacteristics,
    /// The size of the stack to reserve. Only SizeOfStackCommit is committed;
    /// the rest is made available one page at a time until the reserve size is reached.
    pub size_of_stack_reserve: u32,
    /// The size of the stack to commit.
    pub size_of_stack_commit: u32,
    /// The size of the local heap space to reserve.
    /// Only SizeOfHeapCommit is committed; the rest is made available one page at a time
    /// until the reserve size is reached.
    pub size_of_heap_reserve: u32,
    /// The size of the local heap space to commit.
    pub size_of_heap_commit: u32,
    /// Reserved, must be zero.
    pub loader_flags: u32,
    /// The number of data-directory entries in the remainder of the optional header.
    /// Each describes a location and size.
    pub number_of_rva_and_sizes: u32,
}

/// Total size in bytes of the encoded Windows-specific extension.
pub const WINDOWS_SPECIFIC_SIZE: usize = 68;

/// True when a complete Windows-specific extension can be decoded at
/// offset `i` of `b`: all 68 bytes are present and the subsystem code is
/// in the closed table.
pub open spec fn spec_windows_specific_ok(b: Seq<u8>, i: int) -> bool {
    &&& i + WINDOWS_SPECIFIC_SIZE <= b.len()
    &&& spec_subsystem_from_u16(u16_le_at(b, i + 40)) is Some
}

/// The failure class when the Windows-specific extension cannot be
/// decoded at offset `i`: an unrecognized subsystem code is
/// `Unsupported`, running out of bytes is `Malformed`.
pub open spec fn spec_windows_specific_fail_kind(b: Seq<u8>, i: int) -> ErrorKind {
    if i + 42 > b.len() {
        ErrorKind::Malformed
    } else if spec_subsystem_from_u16(u16_le_at(b, i + 40)) is None {
        ErrorKind::Unsupported
    } else {
        ErrorKind::Malformed
    }
}

/// The offset reported when the Windows-specific extension cannot be
/// decoded at offset `i`: an unrecognized subsystem code points at the
/// subsystem field, running out of bytes points at the end of the buffer.
pub open spec fn spec_windows_specific_fail_offset(b: Seq<u8>, i: int) -> int {
    if i + 42 <= b.len() && spec_subsystem_from_u16(u16_le_at(b, i + 40)) is None {
        i + 40
    } else {
        b.len() as int
    }
}

/// True when `h` holds exactly the field values encoded at offset `i` of
/// `b`.
pub open spec fn windows_specific_matches(
    h: PE32OptionalHeaderWindowsSpecific,
    b: Seq<u8>,
    i: int,
) -> bool {
    &&& h.image_base == u32_le_at(b, i)
    &&& h.section_alignment == u32_le_at(b, i + 4)
    &&& h.file_alignment == u32_le_at(b, i + 8)
    &&& h.major_operating_system_version == u16_le_at(b, i + 12)
    &&& h.minor_operating_system_version == u16_le_at(b, i + 14)
    &&& h.major_image_version == u16_le_at(b, i + 16)
    &&& h.minor_image_version == u16_le_at(b, i + 18)
    &&& h.major_subsystem_version == u16_le_at(b, i + 20)
    &&& h.minor_subsystem_version == u16_le_at(b, i + 22)
    &&& h.win32_version_value == u32_le_at(b, i + 24)
    &&& h.size_of_image == u32_le_at(b, i + 28)
    &&& h.size_of_headers == u32_le_at(b, i + 32)
    &&& h.check_sum == u32_le_at(b, i + 36)
    &&& Some(h.subsystem) == spec_subsystem_from_u16(u16_le_at(b, i + 40))
    &&& h.dll_characteristics.bits == u16_le_at(b, i + 42) & DLL_CHARACTERISTICS_MASK
    &&& h.size_of_stack_reserve == u32_le_at(b, i + 44)
    &&& h.size_of_stack_commit == u32_le_at(b, i + 48)
    &&& h.size_of_heap_reserve == u32_le_at(b, i + 52)
    &&& h.size_of_heap_commit == u32_le_at(b, i + 56)
    &&& h.loader_flags == u32_le_at(b, i + 60)
    &&& h.number_of_rva_and_sizes == u32_le_at(b, i + 64)
}

impl PE32OptionalHeaderWindowsSpecific {
    /// Decodes the Windows-specific extension at `offset`.  Succeeds
    /// exactly when all 68 bytes are present and the subsystem code is in
    /// the closed table; an unrecognized subsystem is `Unsupported`,
    /// truncation is `Malformed`.  Undefined DLL-characteristics bits are
    /// dropped, never rejected.
    pub fn try_parse(input: &Vec<u8>, offset: usize) -> (r: Result<
        (PE32OptionalHeaderWindowsSpecific, usize),
        ParseError,
    >)
        requires
            offset <= input@.len(),
        ensures
            r is Ok <==> spec_windows_specific_ok(input@, offset as int),
            r is Ok ==> windows_specific_matches(r->Ok_0.0, input@, offset as int) && r->Ok_0.1
                == offset + WINDOWS_SPECIFIC_SIZE,
            r is Err ==> {
                &&& r->Err_0.kind == spec_windows_specific_fail_kind(input@, offset as int)
                &&& r->Err_0.severity == Severity::Fatal
                &&& r->Err_0.offset == spec_windows_specific_fail_offset(input@, offset as int)
                &&& r->Err_0.context@.len() > 0
                &&& r->Err_0.context@[0] == ContextLabel::PE32OptionalHeaderWindowsSpecific
            },
    {
        if input.len() - offset < 42 {
            return Err(
                ParseError::truncated(input.len()).with_context(
                    ContextLabel::PE32OptionalHeaderWindowsSpecific,
                ),
            );
        }
        let subsystem = match ImageSubsystem::from_u16(read_u16(input, offset + 40)) {
            Some(s) => s,
            None => {
                return Err(
                    ParseError::new(ErrorKind::Unsupported, Severity::Fatal, offset + 40)
                        .with_context(ContextLabel::ImageSubsystem).with_context(
                        ContextLabel::PE32OptionalHeaderWindowsSpecific,
                    ),
                );
            },
        };
        if input.len() - offset < WINDOWS_SPECIFIC_SIZE {
            return Err(
                ParseError::truncated(input.len()).with_context(
                    ContextLabel::PE32OptionalHeaderWindowsSpecific,
                ),
            );
        }
        let header = PE32OptionalHeaderWindowsSpecific {
            image_base: read_u32(input, offset),
            section_alignment: read_u32(input, offset + 4),
            file_alignment: read_u32(input, offset + 8),
            major_operating_system_version: read_u16(input, offset + 12),
            minor_operating_system_version: read_u16(input, offset + 14),
            major_image_version: read_u16(input, offset + 16),
            minor_image_version: read_u16(input, offset + 18),
            major_subsystem_version: read_u16(input, offset + 20),
            minor_subsystem_version: read_u16(input, offset + 22),
            win32_version_value: read_u32(input, offset + 24),
            size_of_image: read_u32(input, offset + 28),
            size_of_headers: read_u32(input, offset + 32),
            check_sum: read_u32(input, offset + 36),
            subsystem,
            dll_characteristics: DllCharacteristics::from_bits_truncate(
                read_u16(input, offset + 42),
            ),
            size_of_stack_reserve: read_u32(input, offset + 44),
            size_of_stack_commit: read_u32(input, offset + 48),
            size_of_heap_reserve: read_u32(input, offset + 52),
            size_of_heap_commit: read_u32(input, offset + 56),
            loader_flags: read_u32(input, offset + 60),
            number_of_rva_and_sizes: read_u32(input, offset + 64),
        };
        Ok((header, offset + WINDOWS_SPECIFIC_SIZE))
    }
}

/// The PE32 optional header past the standard fields: the base-of-data
/// field followed by the Windows-specific extension.
#[derive(Debug, PartialEq, Eq)]
pub struct PE32OptionalHeader {
    /// The address that is relative to the image base of the
    /// beginning-of-data section when it is loaded into memory.
    pub base_of_data: u32,
    /// The Windows-specific extension of the COFF optional header format.
    pub windows_specific: PE32OptionalHeaderWindowsSpecific,
}

/// Total size in bytes of the encoded PE32 optional header part.
pub const PE32_OPTIONAL_HEADER_SIZE: usize = 72;

/// True when a complete PE32 optional header part can be decoded at
/// offset `i` of `b`.
pub open spec fn spec_pe32_optional_ok(b: Seq<u8>, i: int) -> bool {
    &&& i + PE32_OPTIONAL_HEADER_SIZE <= b.len()
    &&& spec_subsystem_from_u16(u16_le_at(b, i + 44)) is Some
}

/// The failure class when the PE32 optional header part cannot be decoded
/// at offset `i`.
pub open spec fn spec_pe32_optional_fail_kind(b: Seq<u8>, i: int) -> ErrorKind {
    if i + 4 > b.len() {
        ErrorKind::Malformed
    } else {
        spec_windows_specific_fail_kind(b, i + 4)
    }
}

/// The offset reported when the PE32 optional header part cannot be
/// decoded at offset `i`.
pub open spec fn spec_pe32_optional_fail_offset(b: Seq<u8>, i: int) -> int {
    if i + 4 > b.len() {
        b.len() as int
    } else {
        spec_windows_specific_fail_offset(b, i + 4)
    }
}

/// True when `h` holds exactly the field values encoded at offset `i` of
/// `b`.
pub open spec fn pe32_optional_matches(h: PE32OptionalHeader, b: Seq<u8>, i: int) -> bool {
    &&& h.base_of_data == u32_le_at(b, i)
    &&& windows_specific_matches(h.windows_specific, b, i + 4)
}

impl PE32OptionalHeader {
    /// Decodes the PE32 optional header part at `offset`: the base-of-data
    /// field, then the Windows-specific extension.  Succeeds exactly when
    /// all 72 bytes are present and the subsystem code is known.
    pub fn try_parse(input: &Vec<u8>, offset: usize) -> (r: Result<
        (PE32OptionalHeader, usize),
        ParseError,
    >)
        requires
            offset <= input@.len(),
        ensures
            r is Ok <==> spec_pe32_optional_ok(input@, offset as int),
            r is Ok ==> pe32_optional_matches(r->Ok_0.0, input@, offset as int) && r->Ok_0.1
                == offset + PE32_OPTIONAL_HEADER_SIZE,
            r is Err ==> {
                &&& r->Err_0.kind == spec_pe32_optional_fail_kind(input@, offset as int)
                &&& r->Err_0.severity == Severity::Fatal
                &&& r->Err_0.offset == spec_pe32_optional_fail_offset(input@, offset as int)
                &&& r->Err_0.context@.len() > 0
                &&& r->Err_0.context@[0] == ContextLabel::PE32OptionalHeader
            },
    {
        if input.len() - offset < 4 {
            return Err(
                ParseError::truncated(input.len()).with_context(ContextLabel::PE32OptionalHeader),
            );
        }
        let base_of_data = read_u32(input, offset);
        match PE32OptionalHeaderWindowsSpecific::try_parse(input, offset + 4) {
            Ok((windows_specific, next)) => {
                Ok((PE32OptionalHeader { base_of_data, windows_specific }, next))
            },
            Err(e) => Err(e.with_context(ContextLabel::PE32OptionalHeader)),
        }
    }
}

} // verus!
