//! The image assembler: a linear pipeline of parses and cross-structure
//! validation gates.  Each gate is a commitment point; the first failing
//! gate aborts the whole parse with its context chain attached.  The only
//! two outcomes are a complete, validated image or a tagged failure — no
//! partial image is ever returned.

use vstd::arithmetic::power2::is_pow2;
use vstd::prelude::*;

use crate::coff::spec_coff_fail_kind;
use crate::coff::spec_coff_ok;
use crate::coff::coff_matches;
use crate::coff::COFFHeader;
use crate::cursor::expect_tag4;
use crate::cursor::tag4_at;
use crate::cursor::u16_le_at;
use crate::cursor::u32_le_at;
use crate::datadir::spec_directory_entries;
use crate::datadir::parse_data_directories;
use crate::datadir::DataDirectory;
use crate::datadir::DataDirectoryType;
use crate::error::ContextLabel;
use crate::error::ErrorKind;
use crate::error::ParseError;
use crate::error::Severity;
use crate::mz::spec_mz_ok;
use crate::mz::mz_matches;
use crate::mz::MZHeader;
use crate::optional::spec_standard_optional_fail_kind;
use crate::optional::spec_standard_optional_ok;
use crate::optional::standard_optional_matches;
use crate::optional::COFFImageOptionalHeaderType;
use crate::optional::COFFImageStandardOptionalHeader;
use crate::pe32_optional::spec_pe32_optional_fail_kind;
use crate::pe32_optional::spec_pe32_optional_ok;
use crate::pe32_optional::pe32_optional_matches;
use crate::pe32_optional::PE32OptionalHeader;
use crate::section::spec_section_header_ok;
use crate::section::spec_sections_ordered;
use crate::section::spec_sections_ordered_from;
use crate::section::spec_uninitialized_size;
use crate::section::section_header_matches;
use crate::section::Section;
use crate::section::SectionHeader;

verus! {

/// The byte offset of the extended header, as stored in the DOS header's
/// `e_lfanew` field.
pub open spec fn spec_pe_offset(b: Seq<u8>) -> int {
    u32_le_at(b, 60) as int
}

/// The file alignment declared by the optional header.
pub open spec fn spec_file_alignment(b: Seq<u8>) -> u32 {
    u32_le_at(b, spec_pe_offset(b) + 60)
}

/// The section alignment declared by the optional header.
pub open spec fn spec_section_alignment(b: Seq<u8>) -> u32 {
    u32_le_at(b, spec_pe_offset(b) + 56)
}

/// The declared number of data-directory entries.
pub open spec fn spec_number_of_rva_and_sizes(b: Seq<u8>) -> u32 {
    u32_le_at(b, spec_pe_offset(b) + 116)
}

/// The declared number of sections.
pub open spec fn spec_number_of_sections(b: Seq<u8>) -> u16 {
    u16_le_at(b, spec_pe_offset(b) + 6)
}

/// The byte offset of the section header table.
pub open spec fn spec_section_table_start(b: Seq<u8>) -> int {
    spec_pe_offset(b) + 120 + 8 * spec_number_of_rva_and_sizes(b)
}

/// The byte offset just past the section header table, where the parse
/// leaves its cursor.
pub open spec fn spec_image_end(b: Seq<u8>) -> int {
    spec_section_table_start(b) + 40 * spec_number_of_sections(b)
}

/// The alignment gate: the file alignment must be a power of two between
/// 512 and 65536 inclusive, and the section alignment must be at least
/// the file alignment.
pub open spec fn spec_alignment_ok(file_alignment: u32, section_alignment: u32) -> bool {
    &&& 512 <= file_alignment <= 65536
    &&& is_pow2(file_alignment as int)
    &&& section_alignment >= file_alignment
}

/// True when every header up to and including the Windows-specific
/// optional header decodes at its place and every header gate passes:
/// the DOS header with its in-bounds extended-header offset, the
/// `"PE\0\0"` signature, the COFF header with a large enough declared
/// optional-header size, the standard optional header with the PE32
/// magic, the Windows-specific extension, and the alignment gate.
pub open spec fn spec_headers_ok(b: Seq<u8>) -> bool {
    let pe = spec_pe_offset(b);
    &&& spec_mz_ok(b, 0)
    &&& pe < b.len()
    &&& tag4_at(b, pe, 0x50, 0x45, 0x00, 0x00)
    &&& spec_coff_ok(b, pe + 4)
    &&& u16_le_at(b, pe + 20) >= 92
    &&& spec_standard_optional_ok(b, pe + 24)
    &&& u16_le_at(b, pe + 24) == 0x10B
    &&& spec_pe32_optional_ok(b, pe + 48)
    &&& spec_alignment_ok(spec_file_alignment(b), spec_section_alignment(b))
}

/// True when the declared data directory table fits in the buffer.
pub open spec fn spec_directories_fit(b: Seq<u8>) -> bool {
    spec_section_table_start(b) <= b.len()
}

/// True when the section at header offset `i` passes all of its gates:
/// its header decodes (including the name-bytes text check), it meets
/// the alignment rules, and its declared raw-data range lies inside the
/// buffer.
pub open spec fn spec_image_section_ok(b: Seq<u8>, i: int, fa: u32, sa: u32) -> bool {
    &&& spec_section_header_ok(b, i)
    &&& (u32_le_at(b, i + 12) as int) % (sa as int) == 0
    &&& (u32_le_at(b, i + 16) as int) % (fa as int) == 0
    &&& (u32_le_at(b, i + 20) as int) % (fa as int) == 0
    &&& u32_le_at(b, i + 20) + u32_le_at(b, i + 16) <= b.len()
}

/// The failure class of the section at header offset `i`: a header that
/// does not decode is `Malformed`, an alignment violation is
/// `Inconsistent`, a raw-data range outside the buffer is `OutOfBounds`.
pub open spec fn spec_image_section_fail_kind(b: Seq<u8>, i: int, fa: u32, sa: u32) -> ErrorKind {
    if !spec_section_header_ok(b, i) {
        ErrorKind::Malformed
    } else if !((u32_le_at(b, i + 12) as int) % (sa as int) == 0 && (u32_le_at(b, i + 16) as int)
        % (fa as int) == 0 && (u32_le_at(b, i + 20) as int) % (fa as int) == 0) {
        ErrorKind::Inconsistent
    } else {
        ErrorKind::OutOfBounds
    }
}

/// True when every section with table index in `[k, n)` passes its gates.
pub open spec fn spec_sections_ok_from(
    b: Seq<u8>,
    st: int,
    k: int,
    n: int,
    fa: u32,
    sa: u32,
) -> bool
    decreases n - k,
{
    if k >= n {
        true
    } else {
        &&& spec_image_section_ok(b, st + 40 * k, fa, sa)
        &&& spec_sections_ok_from(b, st, k + 1, n, fa, sa)
    }
}

/// The failure class of the first failing section with table index in
/// `[k, n)`.
pub open spec fn spec_sections_fail_kind_from(
    b: Seq<u8>,
    st: int,
    k: int,
    n: int,
    fa: u32,
    sa: u32,
) -> ErrorKind
    decreases n - k,
{
    if k >= n {
        ErrorKind::Malformed
    } else if !spec_image_section_ok(b, st + 40 * k, fa, sa) {
        spec_image_section_fail_kind(b, st + 40 * k, fa, sa)
    } else {
        spec_sections_fail_kind_from(b, st, k + 1, n, fa, sa)
    }
}

/// True when the sections with table index in `[k, n)`, walked in table
/// order with the running next-allowed address `next`, never step
/// backwards.
pub open spec fn spec_order_ok_from(b: Seq<u8>, st: int, k: int, n: int, next: int) -> bool
    decreases n - k,
{
    if k >= n {
        true
    } else {
        let va = u32_le_at(b, st + 40 * k + 12);
        let vs = u32_le_at(b, st + 40 * k + 8);
        &&& va >= next
        &&& spec_order_ok_from(b, st, k + 1, n, va + vs)
    }
}

/// True when the whole image is well formed: every header gate passes,
/// the data directory table fits, every section passes its gates, and
/// the section layout is ordered.  The parse succeeds exactly on such
/// buffers.
pub open spec fn spec_image_ok(b: Seq<u8>) -> bool {
    let st = spec_section_table_start(b);
    let n = spec_number_of_sections(b) as int;
    let fa = spec_file_alignment(b);
    let sa = spec_section_alignment(b);
    &&& spec_headers_ok(b)
    &&& spec_directories_fit(b)
    &&& spec_sections_ok_from(b, st, 0, n, fa, sa)
    &&& spec_order_ok_from(b, st, 0, n, 0)
}

/// The failure class of the first failing pipeline gate, for a buffer on
/// which the parse fails.
pub open spec fn spec_image_fail_kind(b: Seq<u8>) -> ErrorKind {
    let pe = spec_pe_offset(b);
    let st = spec_section_table_start(b);
    let n = spec_number_of_sections(b) as int;
    let fa = spec_file_alignment(b);
    let sa = spec_section_alignment(b);
    if !spec_mz_ok(b, 0) {
        ErrorKind::Malformed
    } else if !(pe < b.len()) {
        ErrorKind::Malformed
    } else if !tag4_at(b, pe, 0x50, 0x45, 0x00, 0x00) {
        ErrorKind::Malformed
    } else if !spec_coff_ok(b, pe + 4) {
        spec_coff_fail_kind(b, pe + 4)
    } else if !(u16_le_at(b, pe + 20) >= 92) {
        ErrorKind::Inconsistent
    } else if !spec_standard_optional_ok(b, pe + 24) {
        spec_standard_optional_fail_kind(b, pe + 24)
    } else if !(u16_le_at(b, pe + 24) == 0x10B) {
        ErrorKind::Unsupported
    } else if !spec_pe32_optional_ok(b, pe + 48) {
        spec_pe32_optional_fail_kind(b, pe + 48)
    } else if !spec_alignment_ok(fa, sa) {
        ErrorKind::Inconsistent
    } else if !spec_directories_fit(b) {
        ErrorKind::Malformed
    } else if !spec_sections_ok_from(b, st, 0, n, fa, sa) {
        spec_sections_fail_kind_from(b, st, 0, n, fa, sa)
    } else {
        ErrorKind::Inconsistent
    }
}

/// The offset reported for the section at header offset `i` when it
/// fails one of its gates: a header that does not decode reports as the
/// header parse does; the alignment and bounds gates point at the start
/// of the header.
pub open spec fn spec_image_section_fail_offset(b: Seq<u8>, i: int) -> int {
    if !spec_section_header_ok(b, i) {
        crate::section::spec_section_header_fail_offset(b, i)
    } else {
        i
    }
}

/// The offset reported for the first failing section with table index in
/// `[k, n)`.
pub open spec fn spec_sections_fail_offset_from(
    b: Seq<u8>,
    st: int,
    k: int,
    n: int,
    fa: u32,
    sa: u32,
) -> int
    decreases n - k,
{
    if k >= n {
        b.len() as int
    } else if !spec_image_section_ok(b, st + 40 * k, fa, sa) {
        spec_image_section_fail_offset(b, st + 40 * k)
    } else {
        spec_sections_fail_offset_from(b, st, k + 1, n, fa, sa)
    }
}

/// The offset reported by the first failing pipeline gate, for a buffer
/// on which the parse fails.
pub open spec fn spec_image_fail_offset(b: Seq<u8>) -> int {
    let pe = spec_pe_offset(b);
    let st = spec_section_table_start(b);
    let n = spec_number_of_sections(b) as int;
    let fa = spec_file_alignment(b);
    let sa = spec_section_alignment(b);
    if !spec_mz_ok(b, 0) {
        crate::mz::spec_mz_fail_offset(b, 0)
    } else if !(pe < b.len()) {
        60
    } else if !tag4_at(b, pe, 0x50, 0x45, 0x00, 0x00) {
        pe
    } else if !spec_coff_ok(b, pe + 4) {
        crate::coff::spec_coff_fail_offset(b, pe + 4)
    } else if !(u16_le_at(b, pe + 20) >= 92) {
        pe + 20
    } else if !spec_standard_optional_ok(b, pe + 24) {
        crate::optional::spec_standard_optional_fail_offset(b, pe + 24)
    } else if !(u16_le_at(b, pe + 24) == 0x10B) {
        pe + 24
    } else if !spec_pe32_optional_ok(b, pe + 48) {
        crate::pe32_optional::spec_pe32_optional_fail_offset(b, pe + 48)
    } else if !spec_alignment_ok(fa, sa) {
        pe + 60
    } else if !spec_directories_fit(b) {
        b.len() as int
    } else if !spec_sections_ok_from(b, st, 0, n, fa, sa) {
        spec_sections_fail_offset_from(b, st, 0, n, fa, sa)
    } else {
        st
    }
}

/// True when the materialized section `s` holds exactly what the bytes
/// at header offset `i` declare: its header fields, a copy of the
/// declared raw-data range, and the derived zero-padding size.
pub open spec fn section_matches(s: Section, b: Seq<u8>, i: int) -> bool {
    &&& section_header_matches(s.header, b, i)
    &&& s.data@ == b.subrange(
        u32_le_at(b, i + 20) as int,
        u32_le_at(b, i + 20) + u32_le_at(b, i + 16),
    )
    &&& s.uninitialized_data_size == spec_uninitialized_size(
        u32_le_at(b, i + 8),
        u32_le_at(b, i + 16),
    )
}

/// A complete decoded PE32 image: every header, the keyed data directory
/// map, and the materialized sections in table order.  Once constructed
/// it is immutable and owns all of its data; it does not retain the
/// original input buffer.
#[derive(Debug, PartialEq, Eq)]
pub struct PE32Image {
    pub mz_header: MZHeader,
    pub coff_header: COFFHeader,
    pub coff_optional_header: COFFImageStandardOptionalHeader,
    pub pe32_optional_header: PE32OptionalHeader,
    pub data_directories: Vec<(DataDirectoryType, DataDirectory)>,
    pub sections: Vec<Section>,
}

/// True when every part of `img` holds exactly what the bytes declare.
pub open spec fn image_matches(img: PE32Image, b: Seq<u8>) -> bool {
    let pe = spec_pe_offset(b);
    let st = spec_section_table_start(b);
    let n = spec_number_of_sections(b) as int;
    &&& mz_matches(img.mz_header, b, 0)
    &&& coff_matches(img.coff_header, b, pe + 4)
    &&& standard_optional_matches(img.coff_optional_header, b, pe + 24)
    &&& pe32_optional_matches(img.pe32_optional_header, b, pe + 48)
    &&& img.data_directories@ == spec_directory_entries(
        b,
        pe + 120,
        spec_number_of_rva_and_sizes(b) as int,
    )
    &&& img.sections@.len() == n
    &&& forall|j: int| 0 <= j < n ==> section_matches(#[trigger] img.sections@[j], b, st + 40 * j)
}

/// Any buffer shorter than the DOS header — the minimum header size —
/// fails the parse, and the failure class is `Malformed`.
pub proof fn lemma_short_buffer_malformed(b: Seq<u8>)
    requires
        b.len() < crate::mz::MZ_HEADER_SIZE,
    ensures
        !spec_image_ok(b),
        spec_image_fail_kind(b) == ErrorKind::Malformed,
{
}

/// A buffer whose DOS, signature and COFF stages all pass, but whose
/// optional-header magic declares a PE32+ image (0x20B), fails the
/// parse, and the failure class is `Unsupported`: the image is
/// recognized and deliberately rejected, never silently coerced.
pub proof fn lemma_pe32_plus_unsupported(b: Seq<u8>)
    requires
        spec_mz_ok(b, 0),
        spec_pe_offset(b) < b.len(),
        tag4_at(b, spec_pe_offset(b), 0x50, 0x45, 0x00, 0x00),
        spec_coff_ok(b, spec_pe_offset(b) + 4),
        u16_le_at(b, spec_pe_offset(b) + 20) >= 92,
        spec_standard_optional_ok(b, spec_pe_offset(b) + 24),
        u16_le_at(b, spec_pe_offset(b) + 24) == 0x20B,
    ensures
        !spec_image_ok(b),
        spec_image_fail_kind(b) == ErrorKind::Unsupported,
{
}

/// A buffer whose DOS and signature stages pass but whose machine-type
/// code is outside the closed table fails the parse, and the failure
/// class is `Unsupported`.
pub proof fn lemma_unknown_machine_unsupported(b: Seq<u8>)
    requires
        spec_mz_ok(b, 0),
        spec_pe_offset(b) < b.len(),
        tag4_at(b, spec_pe_offset(b), 0x50, 0x45, 0x00, 0x00),
        spec_pe_offset(b) + 6 <= b.len(),
        crate::coff::spec_machine_type_from_u16(u16_le_at(b, spec_pe_offset(b) + 4)) is None,
    ensures
        !spec_image_ok(b),
        spec_image_fail_kind(b) == ErrorKind::Unsupported,
{
}

/// No entry of a decoded image's directory map has size zero: an encoded
/// entry with size zero means "directory absent" and never appears, at
/// any index.
pub proof fn lemma_image_directories_nonzero(img: PE32Image, b: Seq<u8>)
    requires
        image_matches(img, b),
    ensures
        forall|j: int|
            0 <= j < img.data_directories@.len() ==> (#[trigger] img.data_directories@[j]).1.size
                != 0,
{
    crate::datadir::lemma_directory_entries_all_nonzero(
        b,
        spec_pe_offset(b) + 120,
        spec_number_of_rva_and_sizes(b) as int,
    );
}

/// Extending the checked prefix of the section table by one section.
proof fn lemma_sections_ok_from_snoc(b: Seq<u8>, st: int, m: int, k: int, fa: u32, sa: u32)
    requires
        m <= k,
    ensures
        spec_sections_ok_from(b, st, m, k + 1, fa, sa) == (spec_sections_ok_from(b, st, m, k, fa, sa)
            && spec_image_section_ok(b, st + 40 * k, fa, sa)),
    decreases k - m,
{
    if m < k {
        lemma_sections_ok_from_snoc(b, st, m + 1, k, fa, sa);
    } else {
        assert(spec_sections_ok_from(b, st, k + 1, k + 1, fa, sa));
        assert(spec_sections_ok_from(b, st, k, k, fa, sa));
    }
}

/// When the sections before index `k` pass their gates and section `k`
/// fails, the whole table fails with section `k`'s failure class.
proof fn lemma_sections_fail_at(b: Seq<u8>, st: int, m: int, k: int, n: int, fa: u32, sa: u32)
    requires
        m <= k < n,
        spec_sections_ok_from(b, st, m, k, fa, sa),
        !spec_image_section_ok(b, st + 40 * k, fa, sa),
    ensures
        !spec_sections_ok_from(b, st, m, n, fa, sa),
        spec_sections_fail_kind_from(b, st, m, n, fa, sa) == spec_image_section_fail_kind(
            b,
            st + 40 * k,
            fa,
            sa,
        ),
        spec_sections_fail_offset_from(b, st, m, n, fa, sa) == spec_image_section_fail_offset(
            b,
            st + 40 * k,
        ),
    decreases k - m,
{
    if m < k {
        lemma_sections_fail_at(b, st, m + 1, k, n, fa, sa);
    }
}

/// The ordering of materialized sections agrees with the ordering of the
/// virtual address and size fields as read directly from the bytes.
proof fn lemma_order_bridge(s: Seq<Section>, b: Seq<u8>, st: int, k: int, n: int, next: int)
    requires
        s.len() == n,
        0 <= k <= n,
        forall|j: int| 0 <= j < n ==> section_matches(#[trigger] s[j], b, st + 40 * j),
    ensures
        spec_sections_ordered_from(s.subrange(k, n), next) == spec_order_ok_from(b, st, k, n, next),
    decreases n - k,
{
    if k < n {
        assert(s.subrange(k, n)[0] == s[k]);
        assert(section_matches(s[k], b, st + 40 * k));
        let va = u32_le_at(b, st + 40 * k + 12);
        let vs = u32_le_at(b, st + 40 * k + 8);
        lemma_order_bridge(s, b, st, k + 1, n, va + vs);
        assert(s.subrange(k, n).drop_first() =~= s.subrange(k + 1, n));
    }
}

/// Checks whether `x` is a power of two by halving out its even part.
fn is_power_of_two_u32(x: u32) -> (r: bool)
    ensures
        r == is_pow2(x as int),
{
    if x == 0 {
        proof {
            reveal(is_pow2);
        }
        return false;
    }
    let mut v: u32 = x;
    while v % 2 == 0
        invariant
            v >= 1,
            is_pow2(x as int) == is_pow2(v as int),
        decreases v,
    {
        proof {
            reveal(is_pow2);
            assert(is_pow2(v as int) == is_pow2((v / 2) as int));
        }
        v = v / 2;
    }
    proof {
        reveal(is_pow2);
    }
    v == 1
}

impl PE32Image {
    /// Decodes a whole PE32 image from the start of `input`, returning
    /// the image together with the offset of the first byte past the
    /// section header table.
    ///
    /// The parse succeeds exactly on well-formed buffers
    /// (`spec_image_ok`), and the decoded image then holds exactly the
    /// values the bytes declare (`image_matches`).  On any other buffer
    /// it fails with the failure class of the first failing gate
    /// (`spec_image_fail_kind`), fatally, with a context chain that
    /// starts at the image itself.
    pub fn try_parse(input: &Vec<u8>) -> (r: Result<(PE32Image, usize), ParseError>)
        ensures
            r is Ok <==> spec_image_ok(input@),
            r is Ok ==> image_matches(r->Ok_0.0, input@) && r->Ok_0.1 == spec_image_end(input@),
            r is Err ==> {
                &&& r->Err_0.kind == spec_image_fail_kind(input@)
                &&& r->Err_0.severity == Severity::Fatal
                &&& r->Err_0.offset == spec_image_fail_offset(input@)
                &&& r->Err_0.context@.len() > 0
                &&& r->Err_0.context@[0] == ContextLabel::PE32Image
            },
    {
        let ghost b = input@;
        // DOS header, wrapped in the extended-header offset sanity check.
        let (mz_header, _) = match MZHeader::try_parse(input, 0) {
            Ok(v) => v,
            Err(e) => {
                return Err(
                    e.with_context(ContextLabel::PEOffsetCheck).with_context(
                        ContextLabel::PE32Image,
                    ),
                );
            },
        };
        let pe_offset = mz_header.e_lfanew as usize;
        if !(pe_offset < input.len()) {
            return Err(
                ParseError::new(ErrorKind::Malformed, Severity::Fatal, 60).with_context(
                    ContextLabel::PEOffsetCheck,
                ).with_context(ContextLabel::PE32Image),
            );
        }
        // The "PE\0\0" signature at the extended-header offset.
        let coff_start = match expect_tag4(input, pe_offset, 0x50, 0x45, 0x00, 0x00) {
            Ok(next) => next,
            Err(e) => {
                return Err(e.into_fatal().with_context(ContextLabel::PE32Image));
            },
        };
        // COFF header, gated on its declared optional-header size.
        let (coff_header, std_start) = match COFFHeader::try_parse(input, coff_start) {
            Ok(v) => v,
            Err(e) => {
                return Err(
                    e.with_context(ContextLabel::OptionalHeaderSizeCheck).with_context(
                        ContextLabel::PE32Image,
                    ),
                );
            },
        };
        if coff_header.size_of_optional_header < 92 {
            return Err(
                ParseError::new(ErrorKind::Inconsistent, Severity::Fatal, coff_start + 16)
                    .with_context(ContextLabel::OptionalHeaderSizeCheck).with_context(
                    ContextLabel::PE32Image,
                ),
            );
        }
        // Standard optional header, gated on the PE32 magic.
        let (coff_optional_header, pe32_start) =
            match COFFImageStandardOptionalHeader::try_parse(input, std_start) {
            Ok(v) => v,
            Err(e) => {
                return Err(
                    e.with_context(ContextLabel::PE32MagicCheck).with_context(
                        ContextLabel::PE32Image,
                    ),
                );
            },
        };
        if !(coff_optional_header.magic == COFFImageOptionalHeaderType::PE32) {
            return Err(
                ParseError::new(ErrorKind::Unsupported, Severity::Fatal, std_start).with_context(
                    ContextLabel::PE32MagicCheck,
                ).with_context(ContextLabel::PE32Image),
            );
        }
        // PE32 optional header, gated on the alignment rules.
        let (pe32_optional_header, dirs_start) = match PE32OptionalHeader::try_parse(
            input,
            pe32_start,
        ) {
            Ok(v) => v,
            Err(e) => {
                return Err(
                    e.with_context(ContextLabel::AlignmentCheck).with_context(
                        ContextLabel::PE32Image,
                    ),
                );
            },
        };
        let file_alignment = pe32_optional_header.windows_specific.file_alignment;
        let section_alignment = pe32_optional_header.windows_specific.section_alignment;
        if !(file_alignment >= 512 && file_alignment <= 65536 && is_power_of_two_u32(
            file_alignment,
        ) && section_alignment >= file_alignment) {
            return Err(
                ParseError::new(ErrorKind::Inconsistent, Severity::Fatal, pe32_start + 12)
                    .with_context(ContextLabel::AlignmentCheck).with_context(
                    ContextLabel::PE32Image,
                ),
            );
        }
        // The data directory table.
        let (data_directories, table_start) = match parse_data_directories(
            input,
            dirs_start,
            pe32_optional_header.windows_specific.number_of_rva_and_sizes,
        ) {
            Ok(v) => v,
            Err(e) => {
                return Err(e.with_context(ContextLabel::PE32Image));
            },
        };
        proof {
            assert(table_start == spec_section_table_start(b));
            assert(spec_headers_ok(b));
            assert(spec_directories_fit(b));
        }
        // The section header table: parse, validate and materialize each
        // section in turn.
        let number_of_sections = coff_header.number_of_sections;
        let ghost st = spec_section_table_start(b);
        let ghost n = spec_number_of_sections(b) as int;
        let mut sections: Vec<Section> = Vec::new();
        let mut k: u16 = 0;
        let mut cursor: usize = table_start;
        while k < number_of_sections
            invariant
                spec_headers_ok(b),
                spec_directories_fit(b),
                b == input@,
                st == spec_section_table_start(b),
                n == spec_number_of_sections(b) as int,
                number_of_sections as int == n,
                file_alignment == spec_file_alignment(b),
                section_alignment == spec_section_alignment(b),
                k <= number_of_sections,
                cursor == st + 40 * k,
                cursor <= input@.len(),
                sections@.len() == k as int,
                spec_sections_ok_from(b, st, 0, k as int, file_alignment, section_alignment),
                forall|j: int|
                    0 <= j < k ==> section_matches(#[trigger] sections@[j], b, st + 40 * j),
            decreases number_of_sections - k,
        {
            let (header, next) = match SectionHeader::try_parse(input, cursor) {
                Ok(v) => v,
                Err(e) => {
                    proof {
                        lemma_sections_fail_at(
                            b,
                            st,
                            0,
                            k as int,
                            n,
                            file_alignment,
                            section_alignment,
                        );
                    }
                    return Err(e.with_context(ContextLabel::PE32Image));
                },
            };
            if !header.verify(file_alignment, section_alignment) {
                proof {
                    lemma_sections_fail_at(
                        b,
                        st,
                        0,
                        k as int,
                        n,
                        file_alignment,
                        section_alignment,
                    );
                }
                return Err(
                    ParseError::new(ErrorKind::Inconsistent, Severity::Fatal, cursor).with_context(
                        ContextLabel::ValidateSectionHeader,
                    ).with_context(ContextLabel::PE32Image),
                );
            }
            let section = match Section::from_file_and_header(input, header) {
                Some(s) => s,
                None => {
                    proof {
                        lemma_sections_fail_at(
                            b,
                            st,
                            0,
                            k as int,
                            n,
                            file_alignment,
                            section_alignment,
                        );
                    }
                    return Err(
                        ParseError::new(ErrorKind::OutOfBounds, Severity::Fatal, cursor)
                            .with_context(ContextLabel::SectionData).with_context(
                            ContextLabel::PE32Image,
                        ),
                    );
                },
            };
            sections.push(section);
            k = k + 1;
            cursor = next;
            proof {
                lemma_sections_ok_from_snoc(
                    b,
                    st,
                    0,
                    k as int - 1,
                    file_alignment,
                    section_alignment,
                );
            }
        }
        // The section ordering gate.
        if !Section::verify_section_order(&sections) {
            proof {
                assert(sections@.subrange(0, n) =~= sections@);
                lemma_order_bridge(sections@, b, st, 0, n, 0);
            }
            return Err(
                ParseError::new(ErrorKind::Inconsistent, Severity::Fatal, table_start)
                    .with_context(ContextLabel::SectionOrdering).with_context(
                    ContextLabel::PE32Image,
                ),
            );
        }
        proof {
            assert(sections@.subrange(0, n) =~= sections@);
            lemma_order_bridge(sections@, b, st, 0, n, 0);
        }
        let image = PE32Image {
            mz_header,
            coff_header,
            coff_optional_header,
            pe32_optional_header,
            data_directories,
            sections,
        };
        Ok((image, cursor))
    }
}

} // verus!
