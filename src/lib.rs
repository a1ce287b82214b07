//! Chunked XZ payload streams (pbzx) and the package payload pipeline
//! built on top of them, with the archive format vocabulary they use.

use vstd::prelude::*;

pub mod acl_xattr;
pub mod be64;
pub mod callbacks;
pub mod entry;
pub mod error;
pub mod extract;
pub mod format;
pub mod pbzx;
pub mod pkg;
pub mod read_disk;
pub mod xz;

pub use acl_xattr::{AclEntry, AclPermissions, AclTag, AclType, Xattr};
pub use callbacks::{ProgressCallback, ProgressTracker};
pub use entry::FileType;
pub use error::{Error, Result};
pub use extract::ExtractFlags;
pub use format::{
    ArchiveFormat, CompressionFormat, CompressionLevel, FilterOption, FormatOption, ReadFormat,
    ZipCompressionMethod,
};
pub use pkg::{PackageEntry, PkgWriter};
pub use read_disk::{ReadDiskFlags, SymlinkMode};

verus! {

} // verus!
