//! Archive and compression formats, with their usual file extensions and
//! the options that can be set on them.

use vstd::prelude::*;

verus! {

/// Archive formats.
#[derive(Debug, Clone, Copy, PartialEq, Eq)]
pub enum ArchiveFormat {
    /// TAR format
    Tar,
    /// GNU TAR format with extensions
    TarGnu,
    /// PAX (POSIX TAR) format
    TarPax,
    /// Restricted PAX format
    TarPaxRestricted,
    /// POSIX ustar format
    TarUstar,
    /// ZIP format
    Zip,
    /// 7-Zip format
    SevenZip,
    /// AR (Unix archive) format
    Ar,
    /// CPIO format (POSIX octet-oriented)
    Cpio,
    /// CPIO "new" (SVR4) format
    CpioNewc,
    /// CPIO portable ASCII (odc) format
    CpioOdc,
    /// CPIO old binary format
    CpioBin,
    /// ISO 9660 CD-ROM format
    Iso9660,
    /// XAR format
    Xar,
    /// MTREE format
    Mtree,
    /// RAW format (no formatting)
    Raw,
    /// Shar shell archive format
    Shar,
    /// WARC web archive format
    Warc,
    /// RAR format (read-only)
    Rar,
    /// RAR 5.x format (read-only)
    Rar5,
    /// LHA format (read-only)
    Lha,
    /// CAB format (read-only)
    Cab,
}

/// Compression formats.
#[derive(Debug, Clone, Copy, PartialEq, Eq)]
pub enum CompressionFormat {
    /// No compression
    Uncompressed,
    /// Gzip compression
    Gzip,
    /// Bzip2 compression
    Bzip2,
    /// LZMA/XZ compression
    Xz,
    /// Zstd compression
    Zstd,
    /// LZ4 compression
    Lz4,
    /// Compress (LZW) compression
    Compress,
    /// UUEncode compression
    UuEncode,
    /// LZIP compression
    Lzip,
    /// LRZIP compression
    Lrzip,
    /// LZOP compression
    Lzop,
    /// GRZIP compression
    Grzip,
}

/// The usual file extension of an archive format.
pub open spec fn archive_extension(f: ArchiveFormat) -> Seq<char> {
    match f {
        ArchiveFormat::Tar | ArchiveFormat::TarGnu | ArchiveFormat::TarPax
        | ArchiveFormat::TarPaxRestricted | ArchiveFormat::TarUstar => "tar"@,
        ArchiveFormat::Zip => "zip"@,
        ArchiveFormat::SevenZip => "7z"@,
        ArchiveFormat::Ar => "ar"@,
        ArchiveFormat::Cpio | ArchiveFormat::CpioNewc | ArchiveFormat::CpioOdc
        | ArchiveFormat::CpioBin => "cpio"@,
        ArchiveFormat::Iso9660 => "iso"@,
        ArchiveFormat::Xar => "xar"@,
        ArchiveFormat::Mtree => "mtree"@,
        ArchiveFormat::Raw => "bin"@,
        ArchiveFormat::Shar => "shar"@,
        ArchiveFormat::Warc => "warc"@,
        ArchiveFormat::Rar | ArchiveFormat::Rar5 => "rar"@,
        ArchiveFormat::Lha => "lha"@,
        ArchiveFormat::Cab => "cab"@,
    }
}

/// The usual file extension of a compression format; empty for none.
pub open spec fn compression_extension(f: CompressionFormat) -> Seq<char> {
    match f {
        CompressionFormat::Uncompressed => ""@,
        CompressionFormat::Gzip => "gz"@,
        CompressionFormat::Bzip2 => "bz2"@,
        CompressionFormat::Xz => "xz"@,
        CompressionFormat::Zstd => "zst"@,
        CompressionFormat::Lz4 => "lz4"@,
        CompressionFormat::Compress => "Z"@,
        CompressionFormat::UuEncode => "uu"@,
        CompressionFormat::Lzip => "lz"@,
        CompressionFormat::Lrzip => "lrz"@,
        CompressionFormat::Lzop => "lzo"@,
        CompressionFormat::Grzip => "grz"@,
    }
}

impl ArchiveFormat {
    /// The typical file extension for this format.
    pub fn extension(&self) -> (r: &'static str)
        ensures
            r@ == archive_extension(*self),
    {
        match self {
            ArchiveFormat::Tar => "tar",
            ArchiveFormat::TarGnu => "tar",
            ArchiveFormat::TarPax => "tar",
            ArchiveFormat::TarPaxRestricted => "tar",
            ArchiveFormat::TarUstar => "tar",
            ArchiveFormat::Zip => "zip",
            ArchiveFormat::SevenZip => "7z",
            ArchiveFormat::Ar => "ar",
            ArchiveFormat::Cpio => "cpio",
            ArchiveFormat::CpioNewc => "cpio",
            ArchiveFormat::CpioOdc => "cpio",
            ArchiveFormat::CpioBin => "cpio",
            ArchiveFormat::Iso9660 => "iso",
            ArchiveFormat::Xar => "xar",
            ArchiveFormat::Mtree => "mtree",
            ArchiveFormat::Raw => "bin",
            ArchiveFormat::Shar => "shar",
            ArchiveFormat::Warc => "warc",
            ArchiveFormat::Rar => "rar",
            ArchiveFormat::Rar5 => "rar",
            ArchiveFormat::Lha => "lha",
            ArchiveFormat::Cab => "cab",
        }
    }
}

impl CompressionFormat {
    /// The typical file extension for this compression format.
    pub fn extension(&self) -> (r: &'static str)
        ensures
            r@ == compression_extension(*self),
    {
        match self {
            CompressionFormat::Uncompressed => "",
            CompressionFormat::Gzip => "gz",
            CompressionFormat::Bzip2 => "bz2",
            CompressionFormat::Xz => "xz",
            CompressionFormat::Zstd => "zst",
            CompressionFormat::Lz4 => "lz4",
            CompressionFormat::Compress => "Z",
            CompressionFormat::UuEncode => "uu",
            CompressionFormat::Lzip => "lz",
            CompressionFormat::Lrzip => "lrz",
            CompressionFormat::Lzop => "lzo",
            CompressionFormat::Grzip => "grz",
        }
    }
}

/// Format specifier for reading archives.
#[derive(Debug, Clone, Copy, PartialEq, Eq)]
pub enum ReadFormat {
    /// Auto-detect the format
    All,
    /// Specific format
    Format(ArchiveFormat),
}

/// ZIP compression methods.
#[derive(Debug, Clone, Copy, PartialEq, Eq)]
pub enum ZipCompressionMethod {
    /// Store (no compression)
    Store,
    /// Deflate compression (default)
    Deflate,
}

/// A compression level, from 0 to 9.
#[derive(Debug, Clone, Copy, PartialEq, Eq)]
pub enum CompressionLevel {
    /// Level 0: no compression
    Level0,
    /// Level 1: fastest
    Level1,
    /// Level 2
    Level2,
    /// Level 3
    Level3,
    /// Level 4
    Level4,
    /// Level 5
    Level5,
    /// Level 6: the usual balance
    Level6,
    /// Level 7
    Level7,
    /// Level 8
    Level8,
    /// Level 9: best compression
    Level9,
}

impl CompressionLevel {
    /// The numeric level, as a specification value.
    pub open spec fn spec_value(&self) -> u8 {
        match self {
            CompressionLevel::Level0 => 0,
            CompressionLevel::Level1 => 1,
            CompressionLevel::Level2 => 2,
            CompressionLevel::Level3 => 3,
            CompressionLevel::Level4 => 4,
            CompressionLevel::Level5 => 5,
            CompressionLevel::Level6 => 6,
            CompressionLevel::Level7 => 7,
            CompressionLevel::Level8 => 8,
            CompressionLevel::Level9 => 9,
        }
    }

    /// The compression level `level`, which must be at most 9.
    pub fn new(level: u8) -> (r: Self)
        requires
            level <= 9,
        ensures
            r.spec_value() == level,
    {
        match level {
            0 => CompressionLevel::Level0,
            1 => CompressionLevel::Level1,
            2 => CompressionLevel::Level2,
            3 => CompressionLevel::Level3,
            4 => CompressionLevel::Level4,
            5 => CompressionLevel::Level5,
            6 => CompressionLevel::Level6,
            7 => CompressionLevel::Level7,
            8 => CompressionLevel::Level8,
            _ => CompressionLevel::Level9,
        }
    }

    /// No compression (level 0)
    pub const NONE: CompressionLevel = CompressionLevel::Level0;

    /// Fastest compression (level 1)
    pub const FASTEST: CompressionLevel = CompressionLevel::Level1;

    /// Default/balanced compression (level 6)
    pub const DEFAULT: CompressionLevel = CompressionLevel::Level6;

    /// Best compression (level 9)
    pub const BEST: CompressionLevel = CompressionLevel::Level9;

    /// The numeric level.
    pub fn value(&self) -> (r: u8)
        ensures
            r == self.spec_value(),
            r <= 9,
    {
        match self {
            CompressionLevel::Level0 => 0,
            CompressionLevel::Level1 => 1,
            CompressionLevel::Level2 => 2,
            CompressionLevel::Level3 => 3,
            CompressionLevel::Level4 => 4,
            CompressionLevel::Level5 => 5,
            CompressionLevel::Level6 => 6,
            CompressionLevel::Level7 => 7,
            CompressionLevel::Level8 => 8,
            CompressionLevel::Level9 => 9,
        }
    }
}

/// Format-specific options for archive writing.
#[derive(Debug, Clone, PartialEq, Eq)]
pub enum FormatOption {
    /// ZIP: Set compression method
    ZipCompressionMethod(ZipCompressionMethod),
    /// ZIP: Set compression level (0-9)
    ZipCompressionLevel(CompressionLevel),
    /// ISO9660: Set volume ID
    Iso9660VolumeId(String),
    /// ISO9660: Set publisher
    Iso9660Publisher(String),
    /// ISO9660: Allow lowercase filenames
    Iso9660AllowLowercase(bool),
    /// TAR: Use GNU extensions for long pathnames
    TarGnuLongPathnames(bool),
    /// 7z: Set compression level (0-9)
    SevenZipCompressionLevel(CompressionLevel),
}

/// Filter-specific options for compression.
#[derive(Debug, Clone, PartialEq, Eq)]
pub enum FilterOption {
    /// Gzip: Set compression level (0-9)
    GzipCompressionLevel(CompressionLevel),
    /// Bzip2: Set compression level (0-9)
    Bzip2CompressionLevel(CompressionLevel),
    /// XZ: Set compression level (0-9)
    XzCompressionLevel(CompressionLevel),
    /// Zstd: Set compression level (0-22, but typically 0-9)
    ZstdCompressionLevel(u8),
    /// LZ4: Set compression level (0-9)
    Lz4CompressionLevel(CompressionLevel),
}

} // verus!
