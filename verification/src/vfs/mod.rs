//! Virtual file system pieces: paths, and the read-only initial RAM disk.
use vstd::prelude::*;

pub mod fs_initrd;
pub mod node_cache;
pub mod path;

verus! {

/// File system errors.
#[derive(Copy, Clone, Debug, PartialEq, Eq, Structural)]
pub enum Error {
    /// The named item does not exist
    NotFound,
    /// The on-disk structures are not consistent
    InconsistentFilesystem,
    /// The file system cannot be written
    ReadOnlyFilesystem,
    /// A parameter is out of range
    InvalidParameter,
    /// A block index past the end of the volume
    BadBlock,
    /// A path that cannot be walked (an absolute one was expected)
    MalformedPath,
    /// A component of the path names something that is not a directory
    NonDirComponent,
    /// The node is not of the kind asked for
    TypeMismatch,
}

} // verus!
