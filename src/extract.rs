//! Flags that control extraction to disk.

use vstd::prelude::*;

verus! {

/// Flags for controlling extraction behavior.
#[derive(Debug, Clone, Copy, PartialEq, Eq)]
pub struct ExtractFlags {
    bits: i32,
}

impl ExtractFlags {
    /// The raw bits, as a specification value.
    pub closed spec fn spec_bits(&self) -> i32 {
        self.bits
    }

    /// No special extraction flags
    pub fn none() -> (r: Self)
        ensures
            r.spec_bits() == 0x0000i32,
    {
        ExtractFlags { bits: 0x0000 }
    }

    /// Set owner/group on extracted files
    pub fn owner() -> (r: Self)
        ensures
            r.spec_bits() == 0x0001i32,
    {
        ExtractFlags { bits: 0x0001 }
    }

    /// Restore file permissions
    pub fn perm() -> (r: Self)
        ensures
            r.spec_bits() == 0x0002i32,
    {
        ExtractFlags { bits: 0x0002 }
    }

    /// Restore modification time
    pub fn time() -> (r: Self)
        ensures
            r.spec_bits() == 0x0004i32,
    {
        ExtractFlags { bits: 0x0004 }
    }

    /// Don't overwrite existing files
    pub fn no_overwrite() -> (r: Self)
        ensures
            r.spec_bits() == 0x0008i32,
    {
        ExtractFlags { bits: 0x0008 }
    }

    /// Unlink file before creating
    pub fn unlink() -> (r: Self)
        ensures
            r.spec_bits() == 0x0010i32,
    {
        ExtractFlags { bits: 0x0010 }
    }

    /// Restore ACLs (Access Control Lists)
    pub fn acl() -> (r: Self)
        ensures
            r.spec_bits() == 0x0020i32,
    {
        ExtractFlags { bits: 0x0020 }
    }

    /// Restore file flags (e.g., immutable, append-only)
    pub fn fflags() -> (r: Self)
        ensures
            r.spec_bits() == 0x0040i32,
    {
        ExtractFlags { bits: 0x0040 }
    }

    /// Restore extended attributes
    pub fn xattr() -> (r: Self)
        ensures
            r.spec_bits() == 0x0080i32,
    {
        ExtractFlags { bits: 0x0080 }
    }

    /// Guard against symlink attacks
    pub fn secure_symlinks() -> (r: Self)
        ensures
            r.spec_bits() == 0x0100i32,
    {
        ExtractFlags { bits: 0x0100 }
    }

    /// Reject entries with '..' in path
    pub fn secure_nodotdot() -> (r: Self)
        ensures
            r.spec_bits() == 0x0200i32,
    {
        ExtractFlags { bits: 0x0200 }
    }

    /// Don't create parent directories automatically
    pub fn no_autodir() -> (r: Self)
        ensures
            r.spec_bits() == 0x0400i32,
    {
        ExtractFlags { bits: 0x0400 }
    }

    /// Don't overwrite newer files
    pub fn no_overwrite_newer() -> (r: Self)
        ensures
            r.spec_bits() == 0x0800i32,
    {
        ExtractFlags { bits: 0x0800 }
    }

    /// Write sparse files with holes
    pub fn sparse() -> (r: Self)
        ensures
            r.spec_bits() == 0x1000i32,
    {
        ExtractFlags { bits: 0x1000 }
    }

    /// Restore Mac OS metadata
    pub fn mac_metadata() -> (r: Self)
        ensures
            r.spec_bits() == 0x2000i32,
    {
        ExtractFlags { bits: 0x2000 }
    }

    /// Don't use HFS+ compression
    pub fn no_hfs_compression() -> (r: Self)
        ensures
            r.spec_bits() == 0x4000i32,
    {
        ExtractFlags { bits: 0x4000 }
    }

    /// Force HFS+ compression
    pub fn hfs_compression_forced() -> (r: Self)
        ensures
            r.spec_bits() == 0x8000i32,
    {
        ExtractFlags { bits: 0x8000 }
    }

    /// Reject absolute paths
    pub fn secure_noabsolutepaths() -> (r: Self)
        ensures
            r.spec_bits() == 0x10000i32,
    {
        ExtractFlags { bits: 0x10000 }
    }

    /// Clear no-change flags when unlinking
    pub fn clear_nochange_fflags() -> (r: Self)
        ensures
            r.spec_bits() == 0x20000i32,
    {
        ExtractFlags { bits: 0x20000 }
    }

    /// Use safe writes (rename after extraction)
    pub fn safe_writes() -> (r: Self)
        ensures
            r.spec_bits() == 0x40000i32,
    {
        ExtractFlags { bits: 0x40000 }
    }

    /// The raw integer value of the flags.
    pub fn bits(&self) -> (r: i32)
        ensures
            r == self.spec_bits(),
    {
        self.bits
    }

    /// The flags set in `self` or in `other`.
    pub fn union(self, other: Self) -> (r: Self)
        ensures
            r.spec_bits() == self.spec_bits() | other.spec_bits(),
    {
        ExtractFlags { bits: self.bits | other.bits }
    }
}

impl core::ops::BitOr for ExtractFlags {
    type Output = Self;

    fn bitor(self, rhs: Self) -> Self {
        self.union(rhs)
    }
}

impl vstd::std_specs::ops::BitOrSpecImpl for ExtractFlags {
    open spec fn obeys_bitor_spec() -> bool {
        true
    }

    open spec fn bitor_req(self, rhs: Self) -> bool {
        true
    }

    closed spec fn bitor_spec(self, rhs: Self) -> Self {
        ExtractFlags { bits: self.bits | rhs.bits }
    }
}

impl core::ops::BitOrAssign for ExtractFlags {
    fn bitor_assign(&mut self, rhs: Self) {
        *self = self.union(rhs);
    }
}

} // verus!
