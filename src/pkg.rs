//! The installer package pipeline: an outer XAR container holds one entry
//! named `Payload`, a pbzx chunk stream whose decoded body is a CPIO archive
//! of the real files.
//!
//! This module holds the pipeline's own decisions: which outer entry is the
//! payload, and the ordered list of entries a package is written from. The
//! containers themselves are read and written by the archive engine.

use vstd::prelude::*;
use vstd::slice::slice_to_vec;
use vstd::string::StringSliceAdditionalSpecFns;
use crate::entry::FileType;
use crate::error::{Error, Result};

verus! {

/// Permission bits of a file added without explicit ones.
pub const DEFAULT_FILE_PERM: u32 = 0o644;

/// Permission bits of an added directory.
pub const DEFAULT_DIR_PERM: u32 = 0o755;

/// Permission bits of an added symbolic link.
pub const DEFAULT_SYMLINK_PERM: u32 = 0o777;

/// Bytes of the name `Payload`.
pub open spec fn payload_bytes() -> Seq<u8> {
    seq![0x50u8, 0x61u8, 0x79u8, 0x6cu8, 0x6fu8, 0x61u8, 0x64u8]
}

/// Whether an outer entry named with the bytes `name` is the payload: its name
/// is exactly `Payload` or ends with `/Payload`.
pub open spec fn is_payload_bytes(name: Seq<u8>) -> bool {
    name == payload_bytes() || (name.len() >= 8 && name[name.len() - 8] == 0x2fu8
        && name.subrange(name.len() - 7, name.len() as int) == payload_bytes())
}

/// Whether the bytes of `s` hold a NUL.
pub open spec fn has_nul(s: Seq<u8>) -> bool {
    s.contains(0u8)
}

/// Whether `b[at..at + 7]` spells `Payload`.
fn spells_payload(b: &[u8], at: usize) -> (r: bool)
    requires
        at + 7 <= b@.len(),
    ensures
        r == (b@.subrange(at as int, at + 7) == payload_bytes()),
{
    let r = b[at] == 0x50u8 && b[at + 1] == 0x61u8 && b[at + 2] == 0x79u8 && b[at + 3] == 0x6cu8
        && b[at + 4] == 0x6fu8 && b[at + 5] == 0x61u8 && b[at + 6] == 0x64u8;
    proof {
        let s = b@.subrange(at as int, at + 7);
        if r {
            assert(s =~= payload_bytes());
        } else {
            assert(s[0] == b@[at as int] && s[1] == b@[at + 1] && s[2] == b@[at + 2]);
            assert(s[3] == b@[at + 3] && s[4] == b@[at + 4] && s[5] == b@[at + 5]);
            assert(s[6] == b@[at + 6]);
        }
    }
    r
}

/// Whether the outer entry named `name` is the payload: its name is exactly
/// `Payload` or ends with `/Payload`.
pub fn is_payload_name(name: &str) -> (r: bool)
    ensures
        r == is_payload_bytes(name.spec_bytes()),
{
    let b = name.as_bytes();
    let n = b.len();
    if n == 7 {
        let r = spells_payload(b, 0);
        proof {
            assert(b@.subrange(0, 7) =~= b@);
        }
        r
    } else if n >= 8 {
        b[n - 8] == 0x2fu8 && spells_payload(b, n - 7)
    } else {
        proof {
            assert(b@.len() != payload_bytes().len());
        }
        false
    }
}

/// Whether `s` holds a NUL byte.
fn contains_nul(s: &str) -> (r: bool)
    ensures
        r == has_nul(s.spec_bytes()),
{
    let b = s.as_bytes();
    let mut i: usize = 0;
    while i < b.len()
        invariant
            b@ == s.spec_bytes(),
            i <= b@.len(),
            forall|k: int| 0 <= k < i ==> b@[k] != 0u8,
        decreases b@.len() - i,
    {
        if b[i] == 0u8 {
            return true;
        }
        i = i + 1;
    }
    false
}

#[verifier::external_type_specification]
#[verifier::external_body]
pub struct ExSystemTime(std::time::SystemTime);

/// Relies on `std::time::SystemTime::now`: the current time of the system
/// clock. Nothing is known of its value.
#[verifier::external_body]
fn now() -> std::time::SystemTime {
    std::time::SystemTime::now()
}

/// One entry of a package being written.
#[derive(Debug)]
pub struct PackageEntry {
    /// Path inside the package.
    pub path: String,
    /// Regular file, directory or symbolic link.
    pub kind: FileType,
    /// Contents; empty for anything but a regular file.
    pub data: Vec<u8>,
    /// Permission bits.
    pub perm: u32,
    /// Target of a symbolic link.
    pub symlink: Option<String>,
    /// Modification time: when the entry was added.
    pub mtime: std::time::SystemTime,
}

/// `e` is the entry with these values.
pub open spec fn entry_is(
    e: PackageEntry,
    path: Seq<char>,
    kind: FileType,
    data: Seq<u8>,
    perm: u32,
    symlink: Option<Seq<char>>,
) -> bool {
    &&& e.path@ == path
    &&& e.kind == kind
    &&& e.data@ == data
    &&& e.perm == perm
    &&& match e.symlink {
        Some(t) => symlink == Some(t@),
        None => symlink is None,
    }
}

/// The single entry of the outer container: a regular file named `Payload`,
/// with permissions 0o644, holding the encoded payload.
pub fn payload_entry(payload: &[u8]) -> (r: PackageEntry)
    ensures
        entry_is(r, "Payload"@, FileType::RegularFile, payload@, DEFAULT_FILE_PERM, None),
{
    PackageEntry {
        path: "Payload".to_owned(),
        kind: FileType::RegularFile,
        data: slice_to_vec(payload),
        perm: DEFAULT_FILE_PERM,
        symlink: None,
        mtime: now(),
    }
}

/// `after` is `before` with one more entry at the end.
pub open spec fn appended(before: Seq<PackageEntry>, after: Seq<PackageEntry>) -> bool {
    after.len() == before.len() + 1 && after.subrange(0, before.len() as int) == before
}

/// Collects the entries of a package, in the order they are added.
pub struct PkgWriter {
    entries: Vec<PackageEntry>,
}

impl View for PkgWriter {
    type V = Seq<PackageEntry>;

    closed spec fn view(&self) -> Seq<PackageEntry> {
        self.entries@
    }
}

impl PkgWriter {
    /// A writer with no entries.
    pub fn new() -> (r: Self)
        ensures
            r@.len() == 0,
    {
        PkgWriter { entries: Vec::new() }
    }

    /// The entries added so far, in order.
    pub fn entries(&self) -> (r: &[PackageEntry])
        ensures
            r@ == self@,
    {
        self.entries.as_slice()
    }

    fn push_entry(
        &mut self,
        path: &str,
        kind: FileType,
        data: &[u8],
        perm: u32,
        symlink: Option<&str>,
    ) -> (r: Result<()>)
        ensures
            r is Ok <==> !has_nul(path.spec_bytes()) && match symlink {
                Some(t) => !has_nul(t.spec_bytes()),
                None => true,
            },
            r is Ok ==> appended(old(self)@, final(self)@) && entry_is(
                final(self)@.last(),
                path@,
                kind,
                data@,
                perm,
                match symlink {
                    Some(t) => Some(t@),
                    None => None,
                },
            ),
            r matches Err(e) ==> final(self)@ == old(self)@ && e is InvalidArgument,
    {
        if contains_nul(path) {
            return Err(Error::InvalidArgument("path contains a NUL byte".to_owned()));
        }
        let target = match symlink {
            Some(t) => {
                if contains_nul(t) {
                    return Err(
                        Error::InvalidArgument("symlink target contains a NUL byte".to_owned()),
                    );
                }
                Some(t.to_owned())
            },
            None => None,
        };
        let entry = PackageEntry {
            path: path.to_owned(),
            kind,
            data: slice_to_vec(data),
            perm,
            symlink: target,
            mtime: now(),
        };
        self.entries.push(entry);
        assert(self.entries@.subrange(0, old(self)@.len() as int) =~= old(self)@);
        Ok(())
    }

    /// Adds a regular file holding `data`, with permissions 0o644.
    ///
    /// Fails with `InvalidArgument`, adding nothing, where `path` holds a NUL.
    pub fn add_file(&mut self, path: &str, data: &[u8]) -> (r: Result<()>)
        ensures
            r is Ok <==> !has_nul(path.spec_bytes()),
            r is Ok ==> appended(old(self)@, final(self)@) && entry_is(
                final(self)@.last(),
                path@,
                FileType::RegularFile,
                data@,
                DEFAULT_FILE_PERM,
                None,
            ),
            r matches Err(e) ==> final(self)@ == old(self)@ && e is InvalidArgument,
    {
        self.push_entry(path, FileType::RegularFile, data, DEFAULT_FILE_PERM, None)
    }

    /// Adds a regular file holding `data`, with permissions `perm`.
    ///
    /// Fails with `InvalidArgument`, adding nothing, where `path` holds a NUL.
    pub fn add_file_with_perm(&mut self, path: &str, data: &[u8], perm: u32) -> (r: Result<()>)
        ensures
            r is Ok <==> !has_nul(path.spec_bytes()),
            r is Ok ==> appended(old(self)@, final(self)@) && entry_is(
                final(self)@.last(),
                path@,
                FileType::RegularFile,
                data@,
                perm,
                None,
            ),
            r matches Err(e) ==> final(self)@ == old(self)@ && e is InvalidArgument,
    {
        self.push_entry(path, FileType::RegularFile, data, perm, None)
    }

    /// Adds a directory, with permissions 0o755.
    ///
    /// Fails with `InvalidArgument`, adding nothing, where `path` holds a NUL.
    pub fn add_directory(&mut self, path: &str) -> (r: Result<()>)
        ensures
            r is Ok <==> !has_nul(path.spec_bytes()),
            r is Ok ==> appended(old(self)@, final(self)@) && entry_is(
                final(self)@.last(),
                path@,
                FileType::Directory,
                Seq::empty(),
                DEFAULT_DIR_PERM,
                None,
            ),
            r matches Err(e) ==> final(self)@ == old(self)@ && e is InvalidArgument,
    {
        let empty: [u8; 0] = [];
        let r = self.push_entry(path, FileType::Directory, &empty, DEFAULT_DIR_PERM, None);
        proof {
            assert(empty@ =~= Seq::<u8>::empty());
        }
        r
    }

    /// Adds a symbolic link to `target`, with permissions 0o777.
    ///
    /// Fails with `InvalidArgument`, adding nothing, where `path` or `target`
    /// holds a NUL.
    pub fn add_symlink(&mut self, path: &str, target: &str) -> (r: Result<()>)
        ensures
            r is Ok <==> !has_nul(path.spec_bytes()) && !has_nul(target.spec_bytes()),
            r is Ok ==> appended(old(self)@, final(self)@) && entry_is(
                final(self)@.last(),
                path@,
                FileType::SymbolicLink,
                Seq::empty(),
                DEFAULT_SYMLINK_PERM,
                Some(target@),
            ),
            r matches Err(e) ==> final(self)@ == old(self)@ && e is InvalidArgument,
    {
        let empty: [u8; 0] = [];
        let r = self.push_entry(
            path,
            FileType::SymbolicLink,
            &empty,
            DEFAULT_SYMLINK_PERM,
            Some(target),
        );
        proof {
            assert(empty@ =~= Seq::<u8>::empty());
        }
        r
    }
}

impl Default for PkgWriter {
    fn default() -> (r: Self)
        ensures
            r@.len() == 0,
    {
        PkgWriter::new()
    }
}

} // verus!
