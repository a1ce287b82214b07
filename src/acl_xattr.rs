//! Access control list entries and extended attributes, as values.

use vstd::prelude::*;

verus! {

/// Read permission bit of an ACL entry.
pub const PERM_READ: i32 = 0x04;
/// Write permission bit of an ACL entry.
pub const PERM_WRITE: i32 = 0x02;
/// Execute permission bit of an ACL entry.
pub const PERM_EXEC: i32 = 0x01;

/// ACL entry type.
#[derive(Debug, Clone, Copy, PartialEq, Eq)]
pub enum AclType {
    /// Access ACL
    Access,
    /// Default ACL
    Default,
}

/// ACL permission flags.
#[derive(Debug, Clone, Copy, PartialEq, Eq)]
pub struct AclPermissions {
    /// Read permission
    pub read: bool,
    /// Write permission
    pub write: bool,
    /// Execute permission
    pub execute: bool,
}

/// The bit mask that stands for `p`.
pub open spec fn permission_bits(p: AclPermissions) -> i32 {
    (if p.read { PERM_READ } else { 0i32 }) | (if p.write { PERM_WRITE } else { 0i32 }) | (
    if p.execute { PERM_EXEC } else { 0i32 })
}

impl AclPermissions {
    /// The permissions whose bits are set in `bits`; other bits are ignored.
    pub fn from_bits(bits: i32) -> (r: Self)
        ensures
            r.read == (bits & PERM_READ != 0),
            r.write == (bits & PERM_WRITE != 0),
            r.execute == (bits & PERM_EXEC != 0),
    {
        AclPermissions {
            read: (bits & PERM_READ) != 0,
            write: (bits & PERM_WRITE) != 0,
            execute: (bits & PERM_EXEC) != 0,
        }
    }

    /// The bit mask of these permissions.
    pub fn to_bits(&self) -> (r: i32)
        ensures
            r == permission_bits(*self),
    {
        let mut bits: i32 = 0;
        if self.read {
            bits = bits | PERM_READ;
        }
        if self.write {
            bits = bits | PERM_WRITE;
        }
        if self.execute {
            bits = bits | PERM_EXEC;
        }
        proof {
            assert(forall|x: i32| 0i32 | x == x) by (bit_vector);
            assert(forall|x: i32| x | 0i32 == x) by (bit_vector);
        }
        bits
    }
}

/// ACL tag type.
#[derive(Debug, Clone, Copy, PartialEq, Eq)]
pub enum AclTag {
    /// User owner
    User,
    /// Group owner
    Group,
    /// Other
    Other,
    /// Mask
    Mask,
    /// Named user
    NamedUser,
    /// Named group
    NamedGroup,
}

/// ACL entry.
#[derive(Debug, Clone)]
pub struct AclEntry {
    /// ACL type (access or default)
    pub acl_type: AclType,
    /// Tag type
    pub tag: AclTag,
    /// Permissions
    pub permissions: AclPermissions,
    /// Name (for named user/group)
    pub name: Option<String>,
    /// ID (for named user/group)
    pub id: Option<i32>,
}

/// Extended attribute (xattr).
#[derive(Debug, Clone)]
pub struct Xattr {
    /// Attribute name
    pub name: String,
    /// Attribute value
    pub value: Vec<u8>,
}

} // verus!
