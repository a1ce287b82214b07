use libarchive2::acl_xattr::{PERM_EXEC, PERM_READ, PERM_WRITE};
use libarchive2::{
    AclPermissions, ArchiveFormat, CompressionFormat, CompressionLevel, ExtractFlags, FileType,
    ProgressCallback, ProgressTracker, ReadDiskFlags,
};
use std::cell::RefCell;
use std::rc::Rc;

#[test]
fn test_cpio_extensions_all_same() {
    assert_eq!(ArchiveFormat::Cpio.extension(), "cpio");
    assert_eq!(ArchiveFormat::CpioNewc.extension(), "cpio");
    assert_eq!(ArchiveFormat::CpioOdc.extension(), "cpio");
    assert_eq!(ArchiveFormat::CpioBin.extension(), "cpio");
}

#[test]
fn test_compression_level_constants() {
    assert_eq!(CompressionLevel::NONE.value(), 0);
    assert_eq!(CompressionLevel::FASTEST.value(), 1);
    assert_eq!(CompressionLevel::DEFAULT.value(), 6);
    assert_eq!(CompressionLevel::BEST.value(), 9);
}

#[test]
fn test_compression_level_new() {
    for level in 0..=9 {
        let cl = CompressionLevel::new(level);
        assert_eq!(cl.value(), level);
    }
}

#[test]
fn archive_extensions() {
    assert_eq!(ArchiveFormat::Tar.extension(), "tar");
    assert_eq!(ArchiveFormat::TarPax.extension(), "tar");
    assert_eq!(ArchiveFormat::Zip.extension(), "zip");
    assert_eq!(ArchiveFormat::SevenZip.extension(), "7z");
    assert_eq!(ArchiveFormat::Xar.extension(), "xar");
    assert_eq!(ArchiveFormat::Raw.extension(), "bin");
    assert_eq!(ArchiveFormat::Rar5.extension(), "rar");
}

#[test]
fn compression_extensions() {
    assert_eq!(CompressionFormat::Uncompressed.extension(), "");
    assert_eq!(CompressionFormat::Gzip.extension(), "gz");
    assert_eq!(CompressionFormat::Xz.extension(), "xz");
    assert_eq!(CompressionFormat::Compress.extension(), "Z");
    assert_eq!(CompressionFormat::Grzip.extension(), "grz");
}

#[test]
fn file_type_modes() {
    assert_eq!(FileType::from_mode(0o100644), FileType::RegularFile);
    assert_eq!(FileType::from_mode(0o040755), FileType::Directory);
    assert_eq!(FileType::from_mode(0o120777), FileType::SymbolicLink);
    assert_eq!(FileType::from_mode(0o000644), FileType::Unknown);
    assert_eq!(FileType::SymbolicLink.to_mode(), 0o120000);
    assert_eq!(FileType::Unknown.to_mode(), 0);
    for t in [
        FileType::RegularFile,
        FileType::Directory,
        FileType::SymbolicLink,
        FileType::BlockDevice,
        FileType::CharacterDevice,
        FileType::Fifo,
        FileType::Socket,
    ] {
        assert_eq!(FileType::from_mode(t.to_mode() | 0o755), t);
    }
}

#[test]
fn acl_permission_bits() {
    let p = AclPermissions::from_bits(0x05);
    assert!(p.read && !p.write && p.execute);
    assert_eq!(p.to_bits(), PERM_READ | PERM_EXEC);
    let all = AclPermissions::from_bits(-1);
    assert_eq!(all.to_bits(), PERM_READ | PERM_WRITE | PERM_EXEC);
    let none = AclPermissions::from_bits(0x08);
    assert_eq!(none.to_bits(), 0);
}

struct Log(Rc<RefCell<Vec<(u64, u64)>>>);

impl ProgressCallback for Log {
    fn on_progress(&mut self, bytes_processed: u64, total_bytes: u64) {
        self.0.borrow_mut().push((bytes_processed, total_bytes));
    }
}

#[test]
fn progress_tracker_counts() {
    let seen = Rc::new(RefCell::new(Vec::new()));
    let mut tracker = ProgressTracker::new(Log(seen.clone()));
    tracker.update(3);
    tracker.set_total(100);
    tracker.update(10);
    tracker.update(5);
    tracker.reset();
    tracker.update(1);
    assert_eq!(*seen.borrow(), vec![(3, 0), (13, 100), (18, 100), (1, 100)]);
}

#[test]
fn extract_flags_union() {
    assert_eq!(ExtractFlags::none().bits(), 0);
    assert_eq!(ExtractFlags::safe_writes().bits(), 0x40000);
    let flags = ExtractFlags::owner() | ExtractFlags::perm() | ExtractFlags::time();
    assert_eq!(flags.bits(), 0x0007);
    let mut more = flags;
    more |= ExtractFlags::secure_nodotdot();
    assert_eq!(more.bits(), 0x0207);
    assert_eq!(ExtractFlags::acl().union(ExtractFlags::acl()).bits(), 0x0020);
}

#[test]
fn read_disk_flags_union() {
    assert_eq!(ReadDiskFlags::none().bits(), 0);
    let flags = ReadDiskFlags::restore_atime() | ReadDiskFlags::no_sparse();
    assert_eq!(flags.bits(), 0x0081);
    let mut more = flags;
    more |= ReadDiskFlags::no_acl();
    assert_eq!(more.bits(), 0x00a1);
}
