use libarchive2::pkg::{is_payload_name, PkgWriter};
use libarchive2::{Error, FileType};

#[test]
fn payload_names() {
    assert!(is_payload_name("Payload"));
    assert!(is_payload_name("base.pkg/Payload"));
    assert!(is_payload_name("/Payload"));
    assert!(!is_payload_name("payload"));
    assert!(!is_payload_name("Payload2"));
    assert!(!is_payload_name("xPayload"));
    assert!(!is_payload_name("Payload/"));
    assert!(!is_payload_name(""));
    assert!(!is_payload_name("Bom"));
}

#[test]
fn writer_keeps_entries_in_order() {
    let mut writer = PkgWriter::new();
    writer.add_file("a/b.txt", b"hi").unwrap();
    writer.add_directory("a/c").unwrap();
    writer.add_file_with_perm("a/d", b"bin", 0o755).unwrap();
    let entries = writer.entries();
    assert_eq!(entries.len(), 3);
    assert_eq!(entries[0].path, "a/b.txt");
    assert_eq!(entries[0].kind, FileType::RegularFile);
    assert_eq!(entries[0].data, b"hi");
    assert_eq!(entries[0].perm, 0o644);
    assert_eq!(entries[1].path, "a/c");
    assert_eq!(entries[1].kind, FileType::Directory);
    assert!(entries[1].data.is_empty());
    assert_eq!(entries[1].perm, 0o755);
    assert_eq!(entries[2].path, "a/d");
    assert_eq!(entries[2].data, b"bin");
    assert_eq!(entries[2].perm, 0o755);
}

#[test]
fn writer_starts_empty() {
    let writer = PkgWriter::new();
    assert!(writer.entries().is_empty());
    assert!(PkgWriter::default().entries().is_empty());
}

#[test]
fn writer_keeps_symlink_target() {
    let mut writer = PkgWriter::new();
    writer.add_file("usr/bin/tool", b"content").unwrap();
    writer.add_symlink("link", "target").unwrap();
    let entries = writer.entries();
    assert_eq!(entries.len(), 2);
    assert_eq!(entries[1].kind, FileType::SymbolicLink);
    assert_eq!(entries[1].symlink.as_deref(), Some("target"));
    assert_eq!(entries[1].perm, 0o777);
    assert!(entries[1].data.is_empty());
}

#[test]
fn writer_rejects_nul_bytes() {
    let mut writer = PkgWriter::new();
    assert!(matches!(writer.add_file("a\0b", b"x"), Err(Error::InvalidArgument(_))));
    assert!(matches!(writer.add_symlink("link", "t\0"), Err(Error::InvalidArgument(_))));
    assert!(matches!(writer.add_directory("\0"), Err(Error::InvalidArgument(_))));
    assert!(writer.entries().is_empty());
}

#[test]
fn payload_entry_is_named_payload() {
    let e = libarchive2::pkg::payload_entry(b"pbzx-bytes");
    assert_eq!(e.path, "Payload");
    assert_eq!(e.kind, FileType::RegularFile);
    assert_eq!(e.data, b"pbzx-bytes");
    assert_eq!(e.perm, 0o644);
    assert!(e.symlink.is_none());
}
