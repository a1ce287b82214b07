//! Entry file types and their mode bits.

use vstd::prelude::*;

verus! {

/// Mask of the file type bits of a mode.
pub const S_IFMT: u32 = 0o170000;
/// Regular file.
pub const S_IFREG: u32 = 0o100000;
/// Directory.
pub const S_IFDIR: u32 = 0o040000;
/// Symbolic link.
pub const S_IFLNK: u32 = 0o120000;
/// Block device.
pub const S_IFBLK: u32 = 0o060000;
/// Character device.
pub const S_IFCHR: u32 = 0o020000;
/// FIFO.
pub const S_IFIFO: u32 = 0o010000;
/// Socket.
pub const S_IFSOCK: u32 = 0o140000;

/// File type of an archive entry.
#[derive(Debug, Clone, Copy, PartialEq, Eq)]
pub enum FileType {
    /// Regular file
    RegularFile,
    /// Directory
    Directory,
    /// Symbolic link
    SymbolicLink,
    /// Block device
    BlockDevice,
    /// Character device
    CharacterDevice,
    /// FIFO/named pipe
    Fifo,
    /// Socket
    Socket,
    /// Unknown type
    Unknown,
}

/// The file type bits that stand for `t`; 0 for an unknown type.
pub open spec fn type_bits(t: FileType) -> u32 {
    match t {
        FileType::RegularFile => S_IFREG,
        FileType::Directory => S_IFDIR,
        FileType::SymbolicLink => S_IFLNK,
        FileType::BlockDevice => S_IFBLK,
        FileType::CharacterDevice => S_IFCHR,
        FileType::Fifo => S_IFIFO,
        FileType::Socket => S_IFSOCK,
        FileType::Unknown => 0,
    }
}

impl FileType {
    /// The file type that the type bits of `mode` name; `Unknown` where they
    /// name none.
    pub fn from_mode(mode: u32) -> (r: Self)
        ensures
            r != FileType::Unknown ==> type_bits(r) == mode & S_IFMT,
            r == FileType::Unknown ==> forall|t: FileType|
                t != FileType::Unknown ==> type_bits(t) != mode & S_IFMT,
    {
        let bits = mode & S_IFMT;
        if bits == S_IFREG {
            FileType::RegularFile
        } else if bits == S_IFDIR {
            FileType::Directory
        } else if bits == S_IFLNK {
            FileType::SymbolicLink
        } else if bits == S_IFBLK {
            FileType::BlockDevice
        } else if bits == S_IFCHR {
            FileType::CharacterDevice
        } else if bits == S_IFIFO {
            FileType::Fifo
        } else if bits == S_IFSOCK {
            FileType::Socket
        } else {
            FileType::Unknown
        }
    }

    /// The file type bits of a mode for this type; 0 for `Unknown`.
    pub fn to_mode(self) -> (r: u32)
        ensures
            r == type_bits(self),
    {
        match self {
            FileType::RegularFile => S_IFREG,
            FileType::Directory => S_IFDIR,
            FileType::SymbolicLink => S_IFLNK,
            FileType::BlockDevice => S_IFBLK,
            FileType::CharacterDevice => S_IFCHR,
            FileType::Fifo => S_IFIFO,
            FileType::Socket => S_IFSOCK,
            FileType::Unknown => 0,
        }
    }
}

} // verus!
