//! Options for walking a file tree on disk.

use vstd::prelude::*;

verus! {

/// Behavior flags for reading from disk.
#[derive(Debug, Clone, Copy, PartialEq, Eq)]
pub struct ReadDiskFlags {
    bits: i32,
}

impl ReadDiskFlags {
    /// The raw bits, as a specification value.
    pub closed spec fn spec_bits(&self) -> i32 {
        self.bits
    }

    /// No special behavior
    pub fn none() -> (r: Self)
        ensures
            r.spec_bits() == 0x0000i32,
    {
        ReadDiskFlags { bits: 0x0000 }
    }

    /// Restore access time after reading
    pub fn restore_atime() -> (r: Self)
        ensures
            r.spec_bits() == 0x0001i32,
    {
        ReadDiskFlags { bits: 0x0001 }
    }

    /// Honor nodump flag (skip files marked with nodump)
    pub fn honor_nodump() -> (r: Self)
        ensures
            r.spec_bits() == 0x0002i32,
    {
        ReadDiskFlags { bits: 0x0002 }
    }

    /// Use Mac copyfile for resource forks
    pub fn mac_copyfile() -> (r: Self)
        ensures
            r.spec_bits() == 0x0004i32,
    {
        ReadDiskFlags { bits: 0x0004 }
    }

    /// Don't traverse mount points
    pub fn no_traverse_mounts() -> (r: Self)
        ensures
            r.spec_bits() == 0x0008i32,
    {
        ReadDiskFlags { bits: 0x0008 }
    }

    /// Don't read extended attributes
    pub fn no_xattr() -> (r: Self)
        ensures
            r.spec_bits() == 0x0010i32,
    {
        ReadDiskFlags { bits: 0x0010 }
    }

    /// Don't read ACLs
    pub fn no_acl() -> (r: Self)
        ensures
            r.spec_bits() == 0x0020i32,
    {
        ReadDiskFlags { bits: 0x0020 }
    }

    /// Don't read file flags
    pub fn no_fflags() -> (r: Self)
        ensures
            r.spec_bits() == 0x0040i32,
    {
        ReadDiskFlags { bits: 0x0040 }
    }

    /// Don't read sparse file information
    pub fn no_sparse() -> (r: Self)
        ensures
            r.spec_bits() == 0x0080i32,
    {
        ReadDiskFlags { bits: 0x0080 }
    }

    /// The raw integer value of the flags.
    pub fn bits(&self) -> (r: i32)
        ensures
            r == self.spec_bits(),
    {
        self.bits
    }

    /// The flags set in `self` or in `other`.
    pub fn union(self, other: Self) -> (r: Self)
        ensures
            r.spec_bits() == self.spec_bits() | other.spec_bits(),
    {
        ReadDiskFlags { bits: self.bits | other.bits }
    }
}

impl core::ops::BitOr for ReadDiskFlags {
    type Output = Self;

    fn bitor(self, rhs: Self) -> Self {
        self.union(rhs)
    }
}

impl vstd::std_specs::ops::BitOrSpecImpl for ReadDiskFlags {
    open spec fn obeys_bitor_spec() -> bool {
        true
    }

    open spec fn bitor_req(self, rhs: Self) -> bool {
        true
    }

    closed spec fn bitor_spec(self, rhs: Self) -> Self {
        ReadDiskFlags { bits: self.bits | rhs.bits }
    }
}

impl core::ops::BitOrAssign for ReadDiskFlags {
    fn bitor_assign(&mut self, rhs: Self) {
        *self = self.union(rhs);
    }
}

/// How symbolic links are followed while walking a tree.
#[derive(Debug, Clone, Copy, PartialEq, Eq)]
pub enum SymlinkMode {
    /// Follow all symlinks (like -L)
    Logical,
    /// Follow no symlinks (like -P)
    Physical,
    /// Follow symlinks on command line only (like -H)
    Hybrid,
}

} // verus!
