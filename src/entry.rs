use vstd::prelude::*;

use crate::error::UdfError;

verus! {

/// The logical block size of a UDF volume, in bytes.
pub const UDF_BLOCKSIZE: usize = 2048;

/// The raw length the native library reports when it cannot determine one.
pub const LENGTH_SENTINEL: u64 = 2147483647;

/// The kind of a directory entry.
#[derive(Debug, Clone, Copy, PartialEq, Eq, Structural)]
pub enum UdfDirType {
    File,
    Directory,
}

impl UdfDirType {
    /// The kind of an entry from the native directory flag.
    pub fn from_is_dir(is_dir: bool) -> (r: UdfDirType)
        ensures
            r == (if is_dir { UdfDirType::Directory } else { UdfDirType::File }),
    {
        if is_dir {
            UdfDirType::Directory
        } else {
            UdfDirType::File
        }
    }

    pub fn is_dir(&self) -> (r: bool)
        ensures
            r == (*self == UdfDirType::Directory),
    {
        match self {
            UdfDirType::Directory => true,
            UdfDirType::File => false,
        }
    }
}

/// What a raw link count means: `0` is the native "unknown" marker.
pub open spec fn link_count_spec(raw: u16) -> Option<u16> {
    if raw == 0 {
        None
    } else {
        Some(raw)
    }
}

/// The hard-link count of an entry from the native value; `0` is no count.
pub fn link_count_from_raw(raw: u16) -> (r: Option<u16>)
    ensures
        r == link_count_spec(raw),
        r != Some(0u16),
{
    if raw == 0 {
        None
    } else {
        Some(raw)
    }
}

/// What a raw byte length means: the sentinel, and any value that does not
/// fit the reported width, is no length.
pub open spec fn file_length_spec(raw: u64) -> Option<u32> {
    if raw == LENGTH_SENTINEL || raw > u32::MAX {
        None
    } else {
        Some(raw as u32)
    }
}

/// The byte length of an entry from the native value.
pub fn file_length_from_raw(raw: u64) -> (r: Option<u32>)
    ensures
        r == file_length_spec(raw),
        r != Some(2147483647u32),
{
    if raw == LENGTH_SENTINEL || raw > u32::MAX as u64 {
        None
    } else {
        Some(raw as u32)
    }
}

/// POSIX permission and type bits of an entry.
#[derive(Debug, Clone, Copy, PartialEq, Eq, Structural)]
pub struct FileMode {
    mode: u32,
}

impl FileMode {
    pub closed spec fn spec_mode(&self) -> u32 {
        self.mode
    }

    /// The mode from the raw bits that the native library reports.
    pub fn from_mode(mode: u32) -> (r: FileMode)
        ensures
            r.spec_mode() == mode,
    {
        FileMode { mode }
    }

    pub fn mode(&self) -> (r: u32)
        ensures
            r == self.spec_mode(),
    {
        self.mode
    }

    /// No write bit is set, for owner, group or others.
    pub fn readonly(&self) -> (r: bool)
        ensures
            r == (self.spec_mode() & 0o222u32 == 0),
    {
        self.mode & 0o222u32 == 0
    }
}

/// The size in bytes of a buffer that holds `block_count` blocks, where it
/// fits in memory.
pub fn block_buffer_len(block_count: usize) -> (r: Option<usize>)
    ensures
        block_count * UDF_BLOCKSIZE <= usize::MAX ==> r == Some((block_count * UDF_BLOCKSIZE) as usize),
        block_count * UDF_BLOCKSIZE > usize::MAX ==> r is None,
{
    block_count.checked_mul(UDF_BLOCKSIZE)
}

/// What a raw block-read result means for a buffer of `buf_len` bytes: a
/// non-negative count no larger than the buffer is the number of bytes read;
/// anything else is a failed read.
pub open spec fn read_result_spec(raw: i64, buf_len: usize) -> Result<usize, UdfError> {
    if 0 <= raw && raw <= buf_len {
        Ok(raw as usize)
    } else {
        Err(UdfError::Io(raw))
    }
}

/// Translates the native block reader's return value.
pub fn read_result_from_raw(raw: i64, buf_len: usize) -> (r: Result<usize, UdfError>)
    ensures
        r == read_result_spec(raw, buf_len),
{
    if 0 <= raw && raw as u64 <= buf_len as u64 {
        Ok(raw as usize)
    } else {
        Err(UdfError::Io(raw))
    }
}

/// What the native library reports of one directory entry, read once; the
/// accessors translate its sentinel values.
pub struct DirentInfo {
    name: Option<Vec<u8>>,
    is_dir: bool,
    raw_link_count: u16,
    raw_length: u64,
    raw_mode: u32,
    loc: u32,
}

impl DirentInfo {
    pub closed spec fn spec_name(&self) -> Option<Vec<u8>> {
        self.name
    }

    pub closed spec fn spec_is_dir(&self) -> bool {
        self.is_dir
    }

    pub closed spec fn spec_raw_link_count(&self) -> u16 {
        self.raw_link_count
    }

    pub closed spec fn spec_raw_length(&self) -> u64 {
        self.raw_length
    }

    pub closed spec fn spec_raw_mode(&self) -> u32 {
        self.raw_mode
    }

    pub closed spec fn spec_loc(&self) -> u32 {
        self.loc
    }

    /// The entry's name (raw bytes, `None` where the library gives none), its
    /// directory flag, and its raw link count, length, mode bits and location.
    pub fn new(
        name: Option<Vec<u8>>,
        is_dir: bool,
        raw_link_count: u16,
        raw_length: u64,
        raw_mode: u32,
        loc: u32,
    ) -> (r: DirentInfo)
        ensures
            r.spec_name() == name,
            r.spec_is_dir() == is_dir,
            r.spec_raw_link_count() == raw_link_count,
            r.spec_raw_length() == raw_length,
            r.spec_raw_mode() == raw_mode,
            r.spec_loc() == loc,
    {
        DirentInfo { name, is_dir, raw_link_count, raw_length, raw_mode, loc }
    }

    /// The entry's name as raw bytes, not assumed to be text.
    pub fn file_name(&self) -> (r: &Option<Vec<u8>>)
        ensures
            *r == self.spec_name(),
    {
        &self.name
    }

    pub fn is_dir(&self) -> (r: bool)
        ensures
            r == self.spec_is_dir(),
    {
        self.is_dir
    }

    pub fn file_type(&self) -> (r: UdfDirType)
        ensures
            r == (if self.spec_is_dir() { UdfDirType::Directory } else { UdfDirType::File }),
    {
        UdfDirType::from_is_dir(self.is_dir)
    }

    /// The number of hard links; `None` where the library reports none.
    pub fn link_count(&self) -> (r: Option<u16>)
        ensures
            r == link_count_spec(self.spec_raw_link_count()),
            r != Some(0u16),
    {
        link_count_from_raw(self.raw_link_count)
    }

    /// The byte length; `None` where the library cannot determine it.
    pub fn file_length(&self) -> (r: Option<u32>)
        ensures
            r == file_length_spec(self.spec_raw_length()),
            r != Some(2147483647u32),
    {
        file_length_from_raw(self.raw_length)
    }

    pub fn posix_filemode(&self) -> (r: FileMode)
        ensures
            r.spec_mode() == self.spec_raw_mode(),
    {
        FileMode::from_mode(self.raw_mode)
    }

    /// The entry's raw location on the volume.
    pub fn idx(&self) -> (r: u32)
        ensures
            r == self.spec_loc(),
    {
        self.loc
    }
}

} // verus!
