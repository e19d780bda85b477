//! The data directory table: a fixed-format array of (address, size)
//! pairs.  Known indices 0 to 14 are keyed by name, any other index by an
//! explicit unknown-index fallback — the keying never fails.  Entries
//! with size zero mean "directory absent" and are dropped from the
//! resulting map.

use vstd::prelude::*;

use crate::cursor::read_u32;
use crate::cursor::u32_le_at;
use crate::error::ContextLabel;
use crate::error::ErrorKind;
use crate::error::ParseError;
use crate::error::Severity;

verus! {

/// Each data directory gives the address and size of a table or string
/// that Windows uses.  The first field is the RVA of the table; the
/// second gives its size in bytes.
#[derive(Clone, Copy, Debug, PartialEq, Eq, Structural)]
pub struct DataDirectory {
    pub virtual_address: u32,
    pub size: u32,
}

/// The well-known data directory indices.
#[derive(Clone, Copy, Debug, PartialEq, Eq, Structural, Hash)]
pub enum KnownDataDirectoryType {
    /// Export Directory
    Export,
    /// Import Directory
    Import,
    /// Resource Directory
    Resource,
    /// Exception Directory
    Exception,
    /// Security Directory
    Security,
    /// Base Relocation Table
    Basereloc,
    /// Debug Directory
    Debug,
    /// Architecture Specific Data, COPYRIGHT (X86 usage)
    Architecture,
    /// RVA of GP
    Globalptr,
    /// TLS Directory
    Tls,
    /// Load Configuration Directory
    LoadConfig,
    /// Bound Import Directory in headers
    BoundImport,
    /// Import Address Table
    Iat,
    /// Delay Load Import Descriptors
    DelayImport,
    /// COM Runtime descriptor
    ComDescriptor,
}

/// A data directory key: one of the fifteen known indices, or an
/// explicit fallback that records the unrecognized index itself.
#[derive(Clone, Copy, Debug, PartialEq, Eq, Structural, Hash)]
pub enum DataDirectoryType {
    Known(KnownDataDirectoryType),
    Unknown(usize),
}

/// The closed index table: indices 0 to 14 decode to their named
/// variants, every other index to `None`.
pub open spec fn spec_known_directory_from_index(index: int) -> Option<KnownDataDirectoryType> {
    if index == 0 {
        Some(KnownDataDirectoryType::Export)
    } else if index == 1 {
        Some(KnownDataDirectoryType::Import)
    } else if index == 2 {
        Some(KnownDataDirectoryType::Resource)
    } else if index == 3 {
        Some(KnownDataDirectoryType::Exception)
    } else if index == 4 {
        Some(KnownDataDirectoryType::Security)
    } else if index == 5 {
        Some(KnownDataDirectoryType::Basereloc)
    } else if index == 6 {
        Some(KnownDataDirectoryType::Debug)
    } else if index == 7 {
        Some(KnownDataDirectoryType::Architecture)
    } else if index == 8 {
        Some(KnownDataDirectoryType::Globalptr)
    } else if index == 9 {
        Some(KnownDataDirectoryType::Tls)
    } else if index == 10 {
        Some(KnownDataDirectoryType::LoadConfig)
    } else if index == 11 {
        Some(KnownDataDirectoryType::BoundImport)
    } else if index == 12 {
        Some(KnownDataDirectoryType::Iat)
    } else if index == 13 {
        Some(KnownDataDirectoryType::DelayImport)
    } else if index == 14 {
        Some(KnownDataDirectoryType::ComDescriptor)
    } else {
        None
    }
}

impl KnownDataDirectoryType {
    /// Looks a directory index up in the closed table.
    pub fn from_usize(index: usize) -> (r: Option<KnownDataDirectoryType>)
        ensures
            r == spec_known_directory_from_index(index as int),
    {
        if index == 0 {
            Some(KnownDataDirectoryType::Export)
        } else if index == 1 {
            Some(KnownDataDirectoryType::Import)
        } else if index == 2 {
            Some(KnownDataDirectoryType::Resource)
        } else if index == 3 {
            Some(KnownDataDirectoryType::Exception)
        } else if index == 4 {
            Some(KnownDataDirectoryType::Security)
        } else if index == 5 {
            Some(KnownDataDirectoryType::Basereloc)
        } else if index == 6 {
            Some(KnownDataDirectoryType::Debug)
        } else if index == 7 {
            Some(KnownDataDirectoryType::Architecture)
        } else if index == 8 {
            Some(KnownDataDirectoryType::Globalptr)
        } else if index == 9 {
            Some(KnownDataDirectoryType::Tls)
        } else if index == 10 {
            Some(KnownDataDirectoryType::LoadConfig)
        } else if index == 11 {
            Some(KnownDataDirectoryType::BoundImport)
        } else if index == 12 {
            Some(KnownDataDirectoryType::Iat)
        } else if index == 13 {
            Some(KnownDataDirectoryType::DelayImport)
        } else if index == 14 {
            Some(KnownDataDirectoryType::ComDescriptor)
        } else {
            None
        }
    }
}

/// The key under which the entry at `index` is stored: its named variant
/// for the known indices, the explicit unknown-index fallback otherwise.
/// This keying is total and never fails.
pub open spec fn spec_directory_type_of_index(index: int) -> DataDirectoryType {
    match spec_known_directory_from_index(index) {
        Some(t) => DataDirectoryType::Known(t),
        None => DataDirectoryType::Unknown(index as usize),
    }
}

impl DataDirectoryType {
    /// The key under which the entry at `index` is stored.
    pub fn of_index(index: usize) -> (r: DataDirectoryType)
        ensures
            r == spec_directory_type_of_index(index as int),
    {
        match KnownDataDirectoryType::from_usize(index) {
            Some(t) => DataDirectoryType::Known(t),
            None => DataDirectoryType::Unknown(index),
        }
    }
}

/// The raw (address, size) pair encoded as entry `k` of a table that
/// starts at offset `off` of `b`.
pub open spec fn spec_directory_at(b: Seq<u8>, off: int, k: int) -> DataDirectory {
    DataDirectory {
        virtual_address: u32_le_at(b, off + 8 * k),
        size: u32_le_at(b, off + 8 * k + 4),
    }
}

/// The keyed directory map built from the first `n` entries of the table
/// at offset `off` of `b`, in table order: entries with size zero are
/// dropped, all others are keyed by their index.
pub open spec fn spec_directory_entries(b: Seq<u8>, off: int, n: int) -> Seq<
    (DataDirectoryType, DataDirectory),
>
    decreases n,
{
    if n <= 0 {
        Seq::empty()
    } else {
        let prior = spec_directory_entries(b, off, n - 1);
        let entry = spec_directory_at(b, off, n - 1);
        if entry.size != 0 {
            prior + seq![(spec_directory_type_of_index(n - 1), entry)]
        } else {
            prior
        }
    }
}

/// No entry of the directory map has size zero: an entry whose encoded
/// size is zero means "directory absent" and is dropped, at every index.
pub proof fn lemma_directory_entries_all_nonzero(b: Seq<u8>, off: int, n: int)
    ensures
        forall|j: int|
            0 <= j < spec_directory_entries(b, off, n).len() ==> (#[trigger] spec_directory_entries(
                b,
                off,
                n,
            )[j]).1.size != 0,
    decreases n,
{
    if n > 0 {
        lemma_directory_entries_all_nonzero(b, off, n - 1);
        let prior = spec_directory_entries(b, off, n - 1);
        let whole = spec_directory_entries(b, off, n);
        assert forall|j: int| 0 <= j < whole.len() implies (#[trigger] whole[j]).1.size != 0 by {
            if j < prior.len() {
                assert(whole[j] == prior[j]);
            }
        }
    }
}

/// Decodes exactly `count` (address, size) pairs starting at `offset` and
/// builds the keyed directory map: entries with size zero are dropped,
/// all others appear in table order, keyed by their index.  Succeeds
/// exactly when all `8 * count` bytes are present; the pairs themselves
/// never fail on content.
pub fn parse_data_directories(input: &Vec<u8>, offset: usize, count: u32) -> (r: Result<
    (Vec<(DataDirectoryType, DataDirectory)>, usize),
    ParseError,
>)
    requires
        offset <= input@.len(),
    ensures
        r is Ok <==> offset + 8 * (count as int) <= input@.len(),
        r is Ok ==> r->Ok_0.0@ == spec_directory_entries(input@, offset as int, count as int)
            && r->Ok_0.1 == offset + 8 * (count as int),
        r is Err ==> {
            &&& r->Err_0.kind == ErrorKind::Malformed
            &&& r->Err_0.severity == Severity::Fatal
            &&& r->Err_0.offset == input@.len()
            &&& r->Err_0.context@ == seq![ContextLabel::DataDirectories]
        },
{
    let len = input.len();
    if ((len - offset) as u64) < 8 * (count as u64) {
        return Err(ParseError::truncated(len).with_context(ContextLabel::DataDirectories));
    }
    let mut entries: Vec<(DataDirectoryType, DataDirectory)> = Vec::new();
    let mut k: u32 = 0;
    let mut cur: usize = offset;
    while k < count
        invariant
            offset + 8 * (count as int) <= input@.len(),
            input@.len() <= usize::MAX,
            k <= count,
            cur == offset + 8 * (k as int),
            entries@ == spec_directory_entries(input@, offset as int, k as int),
        decreases count - k,
    {
        let virtual_address = read_u32(input, cur);
        let size = read_u32(input, cur + 4);
        if size != 0 {
            let key = DataDirectoryType::of_index(k as usize);
            entries.push((key, DataDirectory { virtual_address, size }));
        }
        k = k + 1;
        cur = cur + 8;
        proof {
            assert(entries@ =~= spec_directory_entries(input@, offset as int, k as int));
        }
    }
    Ok((entries, cur))
}

} // verus!
