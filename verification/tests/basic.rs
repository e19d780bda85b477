use reic_analysis::coff::Characteristics;
use reic_analysis::coff::MachineType;
use reic_analysis::coff::CHARACTERISTICS_MASK;
use reic_analysis::coff::IMAGE_FILE_32BIT_MACHINE;
use reic_analysis::coff::IMAGE_FILE_DLL;
use reic_analysis::coff::IMAGE_FILE_EXECUTABLE_IMAGE;
use reic_analysis::cursor::expect_tag2;
use reic_analysis::cursor::expect_tag4;
use reic_analysis::cursor::take_bytes;
use reic_analysis::cursor::take_u16;
use reic_analysis::cursor::take_u32;
use reic_analysis::cursor::take_u8;
use reic_analysis::datadir::DataDirectoryType;
use reic_analysis::datadir::KnownDataDirectoryType;
use reic_analysis::error::ErrorKind;
use reic_analysis::error::Severity;
use reic_analysis::mz::MZHeader;
use reic_analysis::optional::COFFImageOptionalHeaderType;
use reic_analysis::pe32_optional::DllCharacteristics;
use reic_analysis::pe32_optional::ImageSubsystem;
use reic_analysis::section::SectionCharacteristics;

#[test]
fn analysis_it_works() {}

#[test]
fn main_it_works() {
    assert_eq!(2 + 2, 4);
}

#[test]
fn take_primitives_read_little_endian() {
    let v: Vec<u8> = vec![0x01, 0x02, 0x03, 0x04, 0x05];
    assert_eq!(take_u8(&v, 0).unwrap(), (0x01, 1));
    assert_eq!(take_u16(&v, 0).unwrap(), (0x0201, 2));
    assert_eq!(take_u16(&v, 3).unwrap(), (0x0504, 5));
    assert_eq!(take_u32(&v, 1).unwrap(), (0x05040302, 5));
    let e = take_u32(&v, 2).unwrap_err();
    assert_eq!(e.kind, ErrorKind::Malformed);
    assert_eq!(e.offset, 2);
}

#[test]
fn tag_and_slice_primitives() {
    let v: Vec<u8> = vec![b'M', b'Z', b'P', b'E', 0, 0, 7, 8];
    assert_eq!(expect_tag2(&v, 0, b'M', b'Z').unwrap(), 2);
    let e = expect_tag2(&v, 2, b'M', b'Z').unwrap_err();
    assert_eq!(e.kind, ErrorKind::Malformed);
    assert_eq!(e.severity, Severity::Recoverable);
    assert_eq!(expect_tag4(&v, 2, b'P', b'E', 0, 0).unwrap(), 6);
    let e2 = expect_tag4(&v, 6, 7, 8, 9, 10).unwrap_err();
    assert_eq!(e2.kind, ErrorKind::Malformed);
    assert_eq!(e2.severity, Severity::Fatal);
    let (slice, next) = take_bytes(&v, 2, 4).unwrap();
    assert_eq!(slice, vec![b'P', b'E', 0, 0]);
    assert_eq!(next, 6);
    assert!(take_bytes(&v, 6, 3).is_err());
}

#[test]
fn machine_type_table() {
    assert_eq!(MachineType::from_u16(0x0), Some(MachineType::Unknown));
    assert_eq!(MachineType::from_u16(0x8664), Some(MachineType::AMD64));
    assert_eq!(MachineType::from_u16(0x14c), Some(MachineType::I386));
    assert_eq!(MachineType::from_u16(0xaa64), Some(MachineType::ARM64));
    assert_eq!(MachineType::from_u16(0x5032), Some(MachineType::RISCV32));
    assert_eq!(MachineType::from_u16(0x1a6), Some(MachineType::SH4));
    assert_eq!(MachineType::from_u16(0xC0EE), Some(MachineType::CEE));
    assert_eq!(MachineType::from_u16(0x0520), Some(MachineType::TRICORE));
    assert_eq!(MachineType::from_u16(0x1234), None);
    assert_eq!(MachineType::from_u16(0xFFFF), None);
}

#[test]
fn optional_header_type_table() {
    assert_eq!(
        COFFImageOptionalHeaderType::from_u16(0x107),
        Some(COFFImageOptionalHeaderType::ROM)
    );
    assert_eq!(
        COFFImageOptionalHeaderType::from_u16(0x10B),
        Some(COFFImageOptionalHeaderType::PE32)
    );
    assert_eq!(
        COFFImageOptionalHeaderType::from_u16(0x20B),
        Some(COFFImageOptionalHeaderType::PE32Plus)
    );
    assert_eq!(COFFImageOptionalHeaderType::from_u16(0x10C), None);
}

#[test]
fn subsystem_table() {
    assert_eq!(ImageSubsystem::from_u16(0), Some(ImageSubsystem::Unknown));
    assert_eq!(ImageSubsystem::from_u16(1), Some(ImageSubsystem::Native));
    assert_eq!(ImageSubsystem::from_u16(2), Some(ImageSubsystem::WindowsGui));
    assert_eq!(ImageSubsystem::from_u16(3), Some(ImageSubsystem::WindowsCui));
    assert_eq!(ImageSubsystem::from_u16(4), None);
    assert_eq!(ImageSubsystem::from_u16(5), Some(ImageSubsystem::Os2Cui));
    assert_eq!(ImageSubsystem::from_u16(6), None);
    assert_eq!(ImageSubsystem::from_u16(14), Some(ImageSubsystem::Xbox));
    assert_eq!(ImageSubsystem::from_u16(15), None);
    assert_eq!(
        ImageSubsystem::from_u16(16),
        Some(ImageSubsystem::WindowsBootApplication)
    );
    assert_eq!(ImageSubsystem::from_u16(17), None);
}

#[test]
fn known_directory_table() {
    assert_eq!(
        KnownDataDirectoryType::from_usize(0),
        Some(KnownDataDirectoryType::Export)
    );
    assert_eq!(
        KnownDataDirectoryType::from_usize(1),
        Some(KnownDataDirectoryType::Import)
    );
    assert_eq!(
        KnownDataDirectoryType::from_usize(14),
        Some(KnownDataDirectoryType::ComDescriptor)
    );
    assert_eq!(KnownDataDirectoryType::from_usize(15), None);
    assert_eq!(
        DataDirectoryType::of_index(9),
        DataDirectoryType::Known(KnownDataDirectoryType::Tls)
    );
    assert_eq!(DataDirectoryType::of_index(20), DataDirectoryType::Unknown(20));
}

#[test]
fn characteristics_truncate_drops_unknown_bits() {
    // Bit 0x0040 is reserved and undefined; everything else of 0xFFFF is
    // defined.
    assert_eq!(CHARACTERISTICS_MASK, 0xFFBF);
    let c = Characteristics::from_bits_truncate(0xFFFF);
    assert_eq!(c.bits, 0xFFBF);
    assert!(c.contains(IMAGE_FILE_EXECUTABLE_IMAGE));
    assert!(c.contains(IMAGE_FILE_DLL));
    let c2 = Characteristics::from_bits_truncate(0x0040);
    assert_eq!(c2.bits, 0);
    let c3 = Characteristics::from_bits_truncate(IMAGE_FILE_32BIT_MACHINE);
    assert!(c3.contains(IMAGE_FILE_32BIT_MACHINE));
    assert!(!c3.contains(IMAGE_FILE_DLL));
}

#[test]
fn dll_characteristics_truncate_drops_unknown_bits() {
    // The low five bits (0x001F) are reserved and undefined.
    let c = DllCharacteristics::from_bits_truncate(0xFFFF);
    assert_eq!(c.bits, 0xFFE0);
    let c2 = DllCharacteristics::from_bits_truncate(0x001F);
    assert_eq!(c2.bits, 0);
}

#[test]
fn section_characteristics_truncate_drops_unknown_bits() {
    let c = SectionCharacteristics::from_bits_truncate(0xFFFF_FFFF);
    assert_eq!(c.bits, 0xFFFE_9BE8);
    let c2 = SectionCharacteristics::from_bits_truncate(0x0000_0007);
    assert_eq!(c2.bits, 0);
}

fn le16(v: &mut Vec<u8>, x: u16) {
    v.push((x & 0xFF) as u8);
    v.push((x >> 8) as u8);
}

fn le32(v: &mut Vec<u8>, x: u32) {
    v.push((x & 0xFF) as u8);
    v.push(((x >> 8) & 0xFF) as u8);
    v.push(((x >> 16) & 0xFF) as u8);
    v.push(((x >> 24) & 0xFF) as u8);
}

#[test]
fn mz_header_fields_decode() {
    let mut v: Vec<u8> = Vec::new();
    v.push(b'M');
    v.push(b'Z');
    for i in 1..=13u16 {
        le16(&mut v, i);
    }
    for i in 100..104u16 {
        le16(&mut v, i);
    }
    le16(&mut v, 0xAAAA);
    le16(&mut v, 0xBBBB);
    for i in 200..210u16 {
        le16(&mut v, i);
    }
    le32(&mut v, 0xDEADBEEF);
    assert_eq!(v.len(), 64);
    let (h, next) = MZHeader::try_parse(&v, 0).unwrap();
    assert_eq!(next, 64);
    assert_eq!(h.e_cblp, 1);
    assert_eq!(h.e_cp, 2);
    assert_eq!(h.e_crlc, 3);
    assert_eq!(h.e_cparhdr, 4);
    assert_eq!(h.e_minalloc, 5);
    assert_eq!(h.e_maxalloc, 6);
    assert_eq!(h.e_ss, 7);
    assert_eq!(h.e_sp, 8);
    assert_eq!(h.e_csum, 9);
    assert_eq!(h.e_ip, 10);
    assert_eq!(h.e_cs, 11);
    assert_eq!(h.e_lfarlc, 12);
    assert_eq!(h.e_ovno, 13);
    assert_eq!(h.e_res, [100, 101, 102, 103]);
    assert_eq!(h.e_oemid, 0xAAAA);
    assert_eq!(h.e_oeminfo, 0xBBBB);
    assert_eq!(h.e_res2, [200, 201, 202, 203, 204, 205, 206, 207, 208, 209]);
    assert_eq!(h.e_lfanew, 0xDEADBEEF);
}

#[test]
fn mz_header_tag_mismatch_is_malformed() {
    let v: Vec<u8> = vec![b'X', b'Z', 0, 0, 0, 0, 0, 0];
    let e = MZHeader::try_parse(&v, 0).unwrap_err();
    assert_eq!(e.kind, ErrorKind::Malformed);
    assert_eq!(e.offset, 0);
}

#[test]
fn mz_header_truncated_is_malformed() {
    let mut v: Vec<u8> = vec![b'M', b'Z'];
    for _ in 0..30 {
        v.push(0);
    }
    assert_eq!(v.len(), 32);
    let e = MZHeader::try_parse(&v, 0).unwrap_err();
    assert_eq!(e.kind, ErrorKind::Malformed);
}
