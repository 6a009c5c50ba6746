use vstd::prelude::*;

verus! {

/// The errors that operations on a UDF volume report.
#[derive(Debug, Clone, Copy, PartialEq, Eq, Structural)]
pub enum UdfError {
    /// The image could not be opened as a UDF volume.
    VolumeOpen,
    /// A path component does not resolve.
    FileNotFound,
    /// A file operation was asked of a directory.
    NotAFile,
    /// The medium is read-only: nothing can be created, appended or removed.
    NotSupported,
    /// The entry reports no usable byte length.
    UnknownLength,
    /// The block reader returned no data before the end of the file.
    ShortRead,
    /// The block reader failed; the native return code is kept.
    Io(i64),
}

} // verus!
