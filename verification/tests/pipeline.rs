use reic_analysis::coff::MachineType;
use reic_analysis::datadir::DataDirectory;
use reic_analysis::datadir::DataDirectoryType;
use reic_analysis::datadir::KnownDataDirectoryType;
use reic_analysis::error::ContextLabel;
use reic_analysis::error::ErrorKind;
use reic_analysis::error::Severity;
use reic_analysis::image::PE32Image;
use reic_analysis::optional::COFFImageOptionalHeaderType;
use reic_analysis::pe32_optional::ImageSubsystem;

fn le16(v: &mut Vec<u8>, x: u16) {
    v.push((x & 0xFF) as u8);
    v.push((x >> 8) as u8);
}

fn le32(v: &mut Vec<u8>, x: u32) {
    v.push((x & 0xFF) as u8);
    v.push(((x >> 8) & 0xFF) as u8);
    v.push(((x >> 16) & 0xFF) as u8);
    v.push(((x >> 24) & 0xFF) as u8);
}

/// One synthetic section: name, virtual size, virtual address, raw data
/// size, raw data pointer.
type SectionSpec = ([u8; 8], u32, u32, u32, u32);

/// Builds a synthetic image: a DOS header whose extended header starts at
/// offset 64, the signature, a COFF header, the optional header with the
/// given knobs, `dirs` data directory entries and the given sections,
/// padded so that every declared raw-data range is in bounds.
fn build_image(
    machine: u16,
    coff_characteristics: u16,
    magic: u16,
    file_alignment: u32,
    section_alignment: u32,
    dirs: &[(u32, u32)],
    sections: &[SectionSpec],
) -> Vec<u8> {
    let mut v: Vec<u8> = Vec::new();
    v.push(b'M');
    v.push(b'Z');
    for _ in 0..29 {
        le16(&mut v, 0);
    }
    le32(&mut v, 64); // e_lfanew
    assert_eq!(v.len(), 64);
    v.extend_from_slice(b"PE\0\0");
    // COFF header
    le16(&mut v, machine);
    le16(&mut v, sections.len() as u16);
    le32(&mut v, 0x5F00_0000); // time stamp
    le32(&mut v, 0);
    le32(&mut v, 0);
    le16(&mut v, 96); // size of optional header
    le16(&mut v, coff_characteristics);
    assert_eq!(v.len(), 88);
    // standard optional header
    le16(&mut v, magic);
    v.push(14);
    v.push(0);
    le32(&mut v, 0x200); // size of code
    le32(&mut v, 0);
    le32(&mut v, 0);
    le32(&mut v, 0x1000); // entry point
    le32(&mut v, 0x1000); // base of code
    assert_eq!(v.len(), 112);
    // PE32 optional header
    le32(&mut v, 0x2000); // base of data
    le32(&mut v, 0x0040_0000); // image base
    le32(&mut v, section_alignment);
    le32(&mut v, file_alignment);
    le16(&mut v, 6);
    le16(&mut v, 0);
    le16(&mut v, 1);
    le16(&mut v, 0);
    le16(&mut v, 6);
    le16(&mut v, 0);
    le32(&mut v, 0); // win32 version value
    le32(&mut v, 0x4000); // size of image
    le32(&mut v, 0x200); // size of headers
    le32(&mut v, 0); // checksum
    le16(&mut v, 3); // subsystem: the Windows character subsystem
    le16(&mut v, 0x0100); // dll characteristics: NX compatible
    le32(&mut v, 0x0010_0000);
    le32(&mut v, 0x1000);
    le32(&mut v, 0x0010_0000);
    le32(&mut v, 0x1000);
    le32(&mut v, 0); // loader flags
    le32(&mut v, dirs.len() as u32);
    assert_eq!(v.len(), 184);
    for (va, size) in dirs {
        le32(&mut v, *va);
        le32(&mut v, *size);
    }
    let mut needed = v.len() + 40 * sections.len();
    for (name, virtual_size, virtual_address, size_of_raw_data, pointer_to_raw_data) in sections {
        v.extend_from_slice(name);
        le32(&mut v, *virtual_size);
        le32(&mut v, *virtual_address);
        le32(&mut v, *size_of_raw_data);
        le32(&mut v, *pointer_to_raw_data);
        le32(&mut v, 0);
        le32(&mut v, 0);
        le16(&mut v, 0);
        le16(&mut v, 0);
        le32(&mut v, 0x6000_0020); // code, executable, readable
        let end = (*pointer_to_raw_data as usize) + (*size_of_raw_data as usize);
        if end > needed {
            needed = end;
        }
    }
    while v.len() < needed {
        v.push(0xCC);
    }
    v
}

fn minimal_image() -> Vec<u8> {
    build_image(
        0x14c,
        0x0102,
        0x10B,
        0x200,
        0x1000,
        &[],
        &[(*b".text\0\0\0", 0x1000, 0x1000, 0x200, 0x200)],
    )
}

#[test]
fn short_buffers_fail_malformed() {
    for n in [0usize, 1, 2, 10, 40, 63] {
        let v: Vec<u8> = vec![0x4D; n];
        let e = PE32Image::try_parse(&v).unwrap_err();
        assert_eq!(e.kind, ErrorKind::Malformed);
        assert_eq!(e.severity, Severity::Fatal);
        assert_eq!(e.context[0], ContextLabel::PE32Image);
    }
}

#[test]
fn minimal_image_assembles() {
    let v = minimal_image();
    let (img, rest) = PE32Image::try_parse(&v).unwrap();
    assert_eq!(rest, 224);
    assert_eq!(img.mz_header.e_lfanew, 64);
    assert_eq!(img.coff_header.machine_type, MachineType::I386);
    assert_eq!(img.coff_header.number_of_sections, 1);
    assert_eq!(
        img.coff_optional_header.magic,
        COFFImageOptionalHeaderType::PE32
    );
    assert_eq!(img.coff_optional_header.address_of_entry_point, 0x1000);
    let win = &img.pe32_optional_header.windows_specific;
    assert_eq!(win.file_alignment, 0x200);
    assert_eq!(win.section_alignment, 0x1000);
    assert_eq!(win.subsystem, ImageSubsystem::WindowsCui);
    assert_eq!(win.dll_characteristics.bits, 0x0100);
    assert!(img.data_directories.is_empty());
    assert_eq!(img.sections.len(), 1);
    let s = &img.sections[0];
    assert_eq!(s.header.name, ".text");
    assert_eq!(s.data.len(), s.header.size_of_raw_data as usize);
    assert_eq!(s.data.len(), 0x200);
    assert_eq!(s.data[0], 0xCC);
    assert_eq!(s.uninitialized_data_size, 0x1000 - 0x200);
}

#[test]
fn pe32_plus_magic_fails_unsupported() {
    let v = build_image(
        0x14c,
        0x0102,
        0x20B,
        0x200,
        0x1000,
        &[],
        &[(*b".text\0\0\0", 0x1000, 0x1000, 0x200, 0x200)],
    );
    let e = PE32Image::try_parse(&v).unwrap_err();
    assert_eq!(e.kind, ErrorKind::Unsupported);
    assert_eq!(e.offset, 88);
    assert_eq!(e.context[0], ContextLabel::PE32Image);
    assert_eq!(e.context[1], ContextLabel::PE32MagicCheck);
}

#[test]
fn rom_magic_fails_unsupported() {
    let v = build_image(0x14c, 0x0102, 0x107, 0x200, 0x1000, &[], &[]);
    let e = PE32Image::try_parse(&v).unwrap_err();
    assert_eq!(e.kind, ErrorKind::Unsupported);
}

#[test]
fn unrecognized_magic_fails_unsupported() {
    let v = build_image(0x14c, 0x0102, 0x10C, 0x200, 0x1000, &[], &[]);
    let e = PE32Image::try_parse(&v).unwrap_err();
    assert_eq!(e.kind, ErrorKind::Unsupported);
}

#[test]
fn unknown_machine_fails_unsupported() {
    let v = build_image(0x9999, 0x0102, 0x10B, 0x200, 0x1000, &[], &[]);
    let e = PE32Image::try_parse(&v).unwrap_err();
    assert_eq!(e.kind, ErrorKind::Unsupported);
    assert_eq!(e.context[0], ContextLabel::PE32Image);
}

#[test]
fn unknown_characteristics_bits_dropped() {
    // All sixteen bits set: 0x0040 is undefined and must be dropped, the
    // image must still parse.
    let v = build_image(
        0x14c,
        0xFFFF,
        0x10B,
        0x200,
        0x1000,
        &[],
        &[(*b".text\0\0\0", 0x1000, 0x1000, 0x200, 0x200)],
    );
    let (img, _) = PE32Image::try_parse(&v).unwrap();
    assert_eq!(img.coff_header.characteristics.bits, 0xFFBF);
}

#[test]
fn overlapping_sections_fail_inconsistent() {
    // Both virtual addresses are multiples of the section alignment, so
    // the only violated gate is the ordering one: the second section
    // starts inside the first.
    let v = build_image(
        0x14c,
        0x0102,
        0x10B,
        0x200,
        0x800,
        &[],
        &[
            (*b".one\0\0\0\0", 0x1000, 0, 0x200, 0x200),
            (*b".two\0\0\0\0", 0x1000, 0x800, 0x200, 0x400),
        ],
    );
    let e = PE32Image::try_parse(&v).unwrap_err();
    assert_eq!(e.kind, ErrorKind::Inconsistent);
    assert_eq!(e.offset, 184);
    assert_eq!(e.context[1], ContextLabel::SectionOrdering);
}

#[test]
fn zero_size_directories_are_dropped() {
    let dirs = [(0u32, 0u32), (0x100, 1), (0x300, 0), (0, 0)];
    let v = build_image(0x14c, 0x0102, 0x10B, 0x200, 0x1000, &dirs, &[]);
    let (img, _) = PE32Image::try_parse(&v).unwrap();
    assert_eq!(img.data_directories.len(), 1);
    assert_eq!(
        img.data_directories[0],
        (
            DataDirectoryType::Known(KnownDataDirectoryType::Import),
            DataDirectory { virtual_address: 0x100, size: 1 }
        )
    );
}

#[test]
fn directory_past_known_indices_keyed_unknown() {
    let mut dirs = [(0u32, 0u32); 17];
    dirs[16] = (0x500, 8);
    let v = build_image(0x14c, 0x0102, 0x10B, 0x200, 0x1000, &dirs, &[]);
    let (img, _) = PE32Image::try_parse(&v).unwrap();
    assert_eq!(img.data_directories.len(), 1);
    assert_eq!(
        img.data_directories[0],
        (
            DataDirectoryType::Unknown(16),
            DataDirectory { virtual_address: 0x500, size: 8 }
        )
    );
}

#[test]
fn file_alignment_not_power_of_two_fails() {
    let v = build_image(0x14c, 0x0102, 0x10B, 300, 0x1000, &[], &[]);
    let e = PE32Image::try_parse(&v).unwrap_err();
    assert_eq!(e.kind, ErrorKind::Inconsistent);
    assert_eq!(e.context[1], ContextLabel::AlignmentCheck);
    // In range but still not a power of two.
    let v2 = build_image(0x14c, 0x0102, 0x10B, 768, 0x1000, &[], &[]);
    let e2 = PE32Image::try_parse(&v2).unwrap_err();
    assert_eq!(e2.kind, ErrorKind::Inconsistent);
}

#[test]
fn section_alignment_below_file_alignment_fails() {
    let v = build_image(0x14c, 0x0102, 0x10B, 1024, 512, &[], &[]);
    let e = PE32Image::try_parse(&v).unwrap_err();
    assert_eq!(e.kind, ErrorKind::Inconsistent);
    assert_eq!(e.context[1], ContextLabel::AlignmentCheck);
}

#[test]
fn small_optional_header_size_fails_inconsistent() {
    let mut v = minimal_image();
    // size_of_optional_header stands at offset 84.
    v[84] = 91;
    v[85] = 0;
    let e = PE32Image::try_parse(&v).unwrap_err();
    assert_eq!(e.kind, ErrorKind::Inconsistent);
    assert_eq!(e.offset, 84);
    assert_eq!(e.context[1], ContextLabel::OptionalHeaderSizeCheck);
}

#[test]
fn extended_header_offset_past_buffer_fails() {
    let mut v = minimal_image();
    let n = v.len() as u32;
    // e_lfanew stands at offset 60.
    v[60] = (n & 0xFF) as u8;
    v[61] = ((n >> 8) & 0xFF) as u8;
    v[62] = ((n >> 16) & 0xFF) as u8;
    v[63] = ((n >> 24) & 0xFF) as u8;
    let e = PE32Image::try_parse(&v).unwrap_err();
    assert_eq!(e.kind, ErrorKind::Malformed);
    assert_eq!(e.offset, 60);
    assert_eq!(e.context[1], ContextLabel::PEOffsetCheck);
}

#[test]
fn bad_signature_fails_malformed() {
    let mut v = minimal_image();
    v[65] = b'X';
    let e = PE32Image::try_parse(&v).unwrap_err();
    assert_eq!(e.kind, ErrorKind::Malformed);
    assert_eq!(e.severity, Severity::Fatal);
}

#[test]
fn unknown_subsystem_fails_unsupported() {
    let mut v = minimal_image();
    // The subsystem field stands at offset 64 + 92 = 156.
    v[156] = 99;
    v[157] = 0;
    let e = PE32Image::try_parse(&v).unwrap_err();
    assert_eq!(e.kind, ErrorKind::Unsupported);
    assert_eq!(e.offset, 156);
}

#[test]
fn misaligned_section_fails_inconsistent() {
    // The virtual address 0x800 is not a multiple of the section
    // alignment 0x1000.
    let v = build_image(
        0x14c,
        0x0102,
        0x10B,
        0x200,
        0x1000,
        &[],
        &[(*b".text\0\0\0", 0x1000, 0x800, 0x200, 0x200)],
    );
    let e = PE32Image::try_parse(&v).unwrap_err();
    assert_eq!(e.kind, ErrorKind::Inconsistent);
    assert_eq!(e.context[1], ContextLabel::ValidateSectionHeader);
}

#[test]
fn section_data_past_buffer_fails_out_of_bounds() {
    let mut v = build_image(
        0x14c,
        0x0102,
        0x10B,
        0x200,
        0x1000,
        &[],
        &[(*b".text\0\0\0", 0x1000, 0x1000, 0x200, 0x200)],
    );
    // Shrink the buffer so the declared raw-data range no longer fits;
    // the headers themselves stay intact.
    v.truncate(0x300);
    let e = PE32Image::try_parse(&v).unwrap_err();
    assert_eq!(e.kind, ErrorKind::OutOfBounds);
    assert_eq!(e.offset, 184);
    assert_eq!(e.context[1], ContextLabel::SectionData);
}

#[test]
fn truncated_section_table_fails_malformed() {
    let mut v = minimal_image();
    v.truncate(200);
    let e = PE32Image::try_parse(&v).unwrap_err();
    assert_eq!(e.kind, ErrorKind::Malformed);
}

#[test]
fn truncated_directory_table_fails_malformed() {
    let v = build_image(0x14c, 0x0102, 0x10B, 0x200, 0x1000, &[(0, 0); 4], &[]);
    let mut v2 = v.clone();
    v2.truncate(190);
    let e = PE32Image::try_parse(&v2).unwrap_err();
    assert_eq!(e.kind, ErrorKind::Malformed);
}

#[test]
fn parse_is_deterministic() {
    let v = minimal_image();
    let a = PE32Image::try_parse(&v).unwrap();
    let b = PE32Image::try_parse(&v).unwrap();
    assert_eq!(a, b);
}
