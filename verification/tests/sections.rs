use reic_analysis::error::ErrorKind;
use reic_analysis::section::Section;
use reic_analysis::section::SectionCharacteristics;
use reic_analysis::section::SectionHeader;
use reic_analysis::section::CNT_CODE;
use reic_analysis::section::MEM_EXECUTE;
use reic_analysis::section::MEM_READ;

fn le16(v: &mut Vec<u8>, x: u16) {
    v.push((x & 0xFF) as u8);
    v.push((x >> 8) as u8);
}

fn le32(v: &mut Vec<u8>, x: u32) {
    v.push((x & 0xFF) as u8);
    v.push(((x >> 8) & 0xFF) as u8);
    v.push(((x >> 16) & 0xFF) as u8);
    v.push(((x >> 24) & 0xFF) as u8);
}

fn encode_section_header(
    name: &[u8; 8],
    virtual_size: u32,
    virtual_address: u32,
    size_of_raw_data: u32,
    pointer_to_raw_data: u32,
    characteristics: u32,
) -> Vec<u8> {
    let mut v: Vec<u8> = Vec::new();
    v.extend_from_slice(name);
    le32(&mut v, virtual_size);
    le32(&mut v, virtual_address);
    le32(&mut v, size_of_raw_data);
    le32(&mut v, pointer_to_raw_data);
    le32(&mut v, 0);
    le32(&mut v, 0);
    le16(&mut v, 0);
    le16(&mut v, 0);
    le32(&mut v, characteristics);
    assert_eq!(v.len(), 40);
    v
}

fn make_header(
    name: &str,
    virtual_size: u32,
    virtual_address: u32,
    size_of_raw_data: u32,
    pointer_to_raw_data: u32,
) -> SectionHeader {
    SectionHeader {
        name: String::from(name),
        virtual_size,
        virtual_address,
        size_of_raw_data,
        pointer_to_raw_data,
        pointer_to_relocations: 0,
        pointer_to_linenumbers: 0,
        number_of_relocations: 0,
        number_of_linenumbers: 0,
        characteristics: SectionCharacteristics::from_bits_truncate(CNT_CODE | MEM_READ),
    }
}

#[test]
fn section_name_truncated_at_first_nul() {
    let v = encode_section_header(b"abc\0\0\0\0\0", 0x1000, 0x1000, 0x200, 0x200, CNT_CODE);
    let (h, next) = SectionHeader::try_parse(&v, 0).unwrap();
    assert_eq!(next, 40);
    assert_eq!(h.name, "abc");
    assert_eq!(h.virtual_size, 0x1000);
    assert_eq!(h.virtual_address, 0x1000);
    assert_eq!(h.size_of_raw_data, 0x200);
    assert_eq!(h.pointer_to_raw_data, 0x200);
    assert_eq!(h.characteristics.bits, CNT_CODE);
}

#[test]
fn section_name_content_after_nul_is_ignored() {
    let v = encode_section_header(b"ab\0cdefg", 0, 0, 0, 0, 0);
    let (h, _) = SectionHeader::try_parse(&v, 0).unwrap();
    assert_eq!(h.name, "ab");
}

#[test]
fn section_name_eight_bytes_without_nul() {
    let v = encode_section_header(b"abcdefgh", 0, 0, 0, 0, 0);
    let (h, _) = SectionHeader::try_parse(&v, 0).unwrap();
    assert_eq!(h.name, "abcdefgh");
    assert_eq!(h.name.chars().count(), 8);
}

#[test]
fn section_name_invalid_text_fails() {
    let v = encode_section_header(&[0xFF, 0xFE, b'a', 0, 0, 0, 0, 0], 0, 0, 0, 0, 0);
    let e = SectionHeader::try_parse(&v, 0).unwrap_err();
    assert_eq!(e.kind, ErrorKind::Malformed);
}

#[test]
fn section_name_two_byte_text_decodes() {
    // 0xC3 0xA9 is the two-byte encoding of 'é'.
    let v = encode_section_header(&[0xC3, 0xA9, b'x', 0, 0, 0, 0, 0], 0, 0, 0, 0, 0);
    let (h, _) = SectionHeader::try_parse(&v, 0).unwrap();
    assert_eq!(h.name, "\u{e9}x");
}

#[test]
fn section_header_truncated_fails() {
    let v = encode_section_header(b".text\0\0\0", 0, 0, 0, 0, 0);
    let e = SectionHeader::try_parse(&v, 24).unwrap_err();
    assert_eq!(e.kind, ErrorKind::Malformed);
}

#[test]
fn section_characteristics_unknown_bits_dropped_in_parse() {
    // 0x00000007 is undefined and must be silently dropped.
    let v = encode_section_header(b".x\0\0\0\0\0\0", 0, 0, 0, 0, CNT_CODE | MEM_EXECUTE | 0x7);
    let (h, _) = SectionHeader::try_parse(&v, 0).unwrap();
    assert_eq!(h.characteristics.bits, CNT_CODE | MEM_EXECUTE);
}

#[test]
fn section_header_verify_alignments() {
    let h = make_header(".text", 0x1000, 0x2000, 0x400, 0x800);
    assert!(h.verify(0x200, 0x1000));
    // virtual address not a multiple of the section alignment
    let h2 = make_header(".text", 0x1000, 0x2100, 0x400, 0x800);
    assert!(!h2.verify(0x200, 0x1000));
    // raw data size not a multiple of the file alignment
    let h3 = make_header(".text", 0x1000, 0x2000, 0x300, 0x800);
    assert!(!h3.verify(0x200, 0x1000));
    // raw data pointer not a multiple of the file alignment
    let h4 = make_header(".text", 0x1000, 0x2000, 0x400, 0x900);
    assert!(!h4.verify(0x200, 0x1000));
}

#[test]
fn from_file_and_header_copies_declared_range() {
    let mut file: Vec<u8> = Vec::new();
    for i in 0..100u32 {
        file.push(i as u8);
    }
    let h = make_header(".data", 80, 0, 50, 40);
    let s = Section::from_file_and_header(&file, h).unwrap();
    assert_eq!(s.data.len(), 50);
    assert_eq!(s.data[0], 40);
    assert_eq!(s.data[49], 89);
    // virtual size 80 exceeds raw size 50: 30 bytes of zero padding.
    assert_eq!(s.uninitialized_data_size, 30);
}

#[test]
fn from_file_and_header_out_of_bounds_is_none() {
    let file: Vec<u8> = vec![0; 100];
    let h = make_header(".data", 80, 0, 50, 60);
    assert!(Section::from_file_and_header(&file, h).is_none());
}

#[test]
fn uninitialized_size_zero_when_raw_covers_virtual() {
    let file: Vec<u8> = vec![0; 100];
    let h = make_header(".data", 10, 0, 50, 0);
    let s = Section::from_file_and_header(&file, h).unwrap();
    assert_eq!(s.uninitialized_data_size, 0);
}

#[test]
fn section_order_accepts_ordered_layout() {
    let file: Vec<u8> = vec![0; 16];
    let a = Section::from_file_and_header(&file, make_header(".a", 0x1000, 0, 0, 0)).unwrap();
    let b = Section::from_file_and_header(&file, make_header(".b", 0x1000, 0x1000, 0, 0)).unwrap();
    let c = Section::from_file_and_header(&file, make_header(".c", 0x1000, 0x3000, 0, 0)).unwrap();
    let sections = vec![a, b, c];
    assert!(Section::verify_section_order(&sections));
}

#[test]
fn section_order_rejects_overlap() {
    let file: Vec<u8> = vec![0; 16];
    let a = Section::from_file_and_header(&file, make_header(".a", 0x1000, 0, 0, 0)).unwrap();
    let b = Section::from_file_and_header(&file, make_header(".b", 0x1000, 0x800, 0, 0)).unwrap();
    let sections = vec![a, b];
    assert!(!Section::verify_section_order(&sections));
}

#[test]
fn section_order_empty_is_ordered() {
    let sections: Vec<Section> = Vec::new();
    assert!(Section::verify_section_order(&sections));
}
