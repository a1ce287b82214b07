use libarchive2::pbzx::{
    compress, compress_with_chunk_size, decompress, is_pbzx, push_chunk, CHUNK_FLAG_XZ,
};
use libarchive2::Error;
use std::io::Cursor;

fn xz(data: &[u8]) -> Vec<u8> {
    let mut out = Vec::new();
    lzma_rs::xz_compress(&mut Cursor::new(data), &mut out).unwrap();
    out
}

fn header(chunk_size: u64) -> Vec<u8> {
    let mut data = Vec::new();
    data.extend_from_slice(b"pbzx");
    data.extend_from_slice(&chunk_size.to_be_bytes());
    data
}

fn be(bytes: &[u8], at: usize) -> u64 {
    let mut word = [0u8; 8];
    word.copy_from_slice(&bytes[at..at + 8]);
    u64::from_be_bytes(word)
}

#[test]
fn test_is_pbzx_valid() {
    let data = b"pbzx\x00\x00\x00\x00\x00\x01\x00\x00";
    assert!(is_pbzx(data));
}

#[test]
fn test_is_pbzx_invalid() {
    assert!(!is_pbzx(b"notpbzx"));
    assert!(!is_pbzx(b""));
    assert!(!is_pbzx(b"pbz"));
}

#[test]
fn test_decompress_too_short() {
    let result = decompress(b"pbzx");
    assert!(result.is_err());
}

#[test]
fn test_decompress_bad_magic() {
    let result = decompress(b"notpbzx_stream!!");
    assert!(result.is_err());
}

#[test]
fn test_decompress_empty_stream() {
    let data = header(0x10000);
    let result = decompress(&data).unwrap();
    assert!(result.is_empty());
}

#[test]
fn test_decompress_raw_chunk() {
    let mut data = header(0x10000);
    let payload = b"Hello, world!";
    data.extend_from_slice(&0u64.to_be_bytes());
    data.extend_from_slice(&(payload.len() as u64).to_be_bytes());
    data.extend_from_slice(payload);

    let result = decompress(&data).unwrap();
    assert_eq!(result, b"Hello, world!");
}

#[test]
fn test_decompress_xz_chunk() {
    let original = b"The quick brown fox jumps over the lazy dog";
    let compressed = xz(original);

    let mut data = header(0x10000);
    data.extend_from_slice(&CHUNK_FLAG_XZ.to_be_bytes());
    data.extend_from_slice(&(compressed.len() as u64).to_be_bytes());
    data.extend_from_slice(&compressed);

    let result = decompress(&data).unwrap();
    assert_eq!(result, original);
}

#[test]
fn test_decompress_mixed_chunks() {
    let part1 = b"Hello, ";
    let part2 = b"world!";
    let compressed_part2 = xz(part2);

    let mut data = header(0x10000);
    data.extend_from_slice(&0u64.to_be_bytes());
    data.extend_from_slice(&(part1.len() as u64).to_be_bytes());
    data.extend_from_slice(part1);
    data.extend_from_slice(&CHUNK_FLAG_XZ.to_be_bytes());
    data.extend_from_slice(&(compressed_part2.len() as u64).to_be_bytes());
    data.extend_from_slice(&compressed_part2);

    let result = decompress(&data).unwrap();
    assert_eq!(result, b"Hello, world!");
}

#[test]
fn test_compress_roundtrip() {
    let original =
        b"The quick brown fox jumps over the lazy dog. Repeated data helps compression!";
    let compressed = compress(original).unwrap();
    assert!(is_pbzx(&compressed));
    let decompressed = decompress(&compressed).unwrap();
    assert_eq!(decompressed, original);
}

#[test]
fn test_compress_roundtrip_large() {
    let original: Vec<u8> = (0..5000).map(|i| (i % 256) as u8).collect();
    let compressed = compress_with_chunk_size(&original, 1024).unwrap();
    let decompressed = decompress(&compressed).unwrap();
    assert_eq!(decompressed, original);
}

#[test]
fn test_compress_empty() {
    let compressed = compress(b"").unwrap();
    let decompressed = decompress(&compressed).unwrap();
    assert!(decompressed.is_empty());
}

#[test]
fn test_compress_zero_chunk_size() {
    let result = compress_with_chunk_size(b"data", 0);
    assert!(result.is_err());
}

#[test]
fn test_decompress_truncated_chunk() {
    let mut data = header(0x10000);
    data.extend_from_slice(&0u64.to_be_bytes());
    data.extend_from_slice(&100u64.to_be_bytes());
    data.extend_from_slice(b"short");

    let result = decompress(&data);
    assert!(result.is_err());
}

#[test]
fn decode_literal_scenario() {
    let mut data = header(0x10000);
    data.extend_from_slice(&0u64.to_be_bytes());
    data.extend_from_slice(&13u64.to_be_bytes());
    data.extend_from_slice(b"Hello, World!");
    assert_eq!(decompress(&data).unwrap(), b"Hello, World!");
}

#[test]
fn decode_errors_by_kind() {
    assert_eq!(decompress(b"pbzx"), Err(Error::TooShort));
    assert_eq!(decompress(b""), Err(Error::TooShort));
    assert_eq!(decompress(b"pbzx\x00\x00\x00\x00\x00\x01\x00"), Err(Error::TooShort));
    assert_eq!(decompress(b"notpbzx_stream!!"), Err(Error::BadMagic));

    let mut truncated = header(0x10000);
    truncated.extend_from_slice(&0u64.to_be_bytes());
    truncated.extend_from_slice(&100u64.to_be_bytes());
    truncated.extend_from_slice(b"short");
    assert_eq!(decompress(&truncated), Err(Error::TruncatedChunk));

    let mut huge = header(0x10000);
    huge.extend_from_slice(&0u64.to_be_bytes());
    huge.extend_from_slice(&u64::MAX.to_be_bytes());
    assert_eq!(decompress(&huge), Err(Error::TruncatedChunk));

    let mut bad_xz = header(0x10000);
    bad_xz.extend_from_slice(&CHUNK_FLAG_XZ.to_be_bytes());
    bad_xz.extend_from_slice(&5u64.to_be_bytes());
    bad_xz.extend_from_slice(b"notxz");
    assert_eq!(decompress(&bad_xz), Err(Error::Codec));
}

#[test]
fn decode_refuses_xz_payload_with_all_ones_footer_word() {
    let mut payload = vec![0u8; 24];
    payload.extend_from_slice(&[0xff, 0xff, 0xff, 0xff]);
    let mut data = header(0x10000);
    data.extend_from_slice(&CHUNK_FLAG_XZ.to_be_bytes());
    data.extend_from_slice(&(payload.len() as u64).to_be_bytes());
    data.extend_from_slice(&payload);
    assert_eq!(decompress(&data), Err(Error::Codec));

    // The same word stored raw is plain data.
    let mut raw = header(0x10000);
    raw.extend_from_slice(&0u64.to_be_bytes());
    raw.extend_from_slice(&(payload.len() as u64).to_be_bytes());
    raw.extend_from_slice(&payload);
    assert_eq!(decompress(&raw).unwrap(), payload);
}

#[test]
fn round_trip_data_with_all_ones_words() {
    let original = vec![0xffu8; 300];
    for chunk_size in [1usize, 4, 64, 300, 1000] {
        let out = compress_with_chunk_size(&original, chunk_size).unwrap();
        assert_eq!(decompress(&out).unwrap(), original);
    }
}

#[test]
fn decode_ignores_short_trailing_bytes() {
    let mut data = header(0x10000);
    data.extend_from_slice(&0u64.to_be_bytes());
    data.extend_from_slice(&3u64.to_be_bytes());
    data.extend_from_slice(b"abc");
    data.extend_from_slice(&[1u8; 15]);
    assert_eq!(decompress(&data).unwrap(), b"abc");
}

#[test]
fn decode_treats_unknown_flags_as_raw() {
    let mut data = header(0x10000);
    data.extend_from_slice(&7u64.to_be_bytes());
    data.extend_from_slice(&2u64.to_be_bytes());
    data.extend_from_slice(b"hi");
    assert_eq!(decompress(&data).unwrap(), b"hi");
}

#[test]
fn decode_zero_length_chunk() {
    let mut data = header(1);
    data.extend_from_slice(&0u64.to_be_bytes());
    data.extend_from_slice(&0u64.to_be_bytes());
    data.extend_from_slice(&0u64.to_be_bytes());
    data.extend_from_slice(&1u64.to_be_bytes());
    data.extend_from_slice(b"z");
    assert_eq!(decompress(&data).unwrap(), b"z");
}

#[test]
fn encode_header_records_chunk_size() {
    let out = compress_with_chunk_size(b"abc", 4096).unwrap();
    assert_eq!(&out[..4], b"pbzx");
    assert_eq!(be(&out, 4), 4096);
    let out = compress(b"abc").unwrap();
    assert_eq!(be(&out, 4), 1024 * 1024);
}

#[test]
fn encode_stores_incompressible_chunks_raw() {
    let out = compress_with_chunk_size(b"abc", 16).unwrap();
    let mut expected = header(16);
    expected.extend_from_slice(&0u64.to_be_bytes());
    expected.extend_from_slice(&3u64.to_be_bytes());
    expected.extend_from_slice(b"abc");
    assert_eq!(out, expected);
}

#[test]
fn encode_never_grows_beyond_chunk_headers() {
    let original = vec![0u8; 4096];
    let out = compress_with_chunk_size(&original, 1024).unwrap();
    assert!(out.len() <= 12 + 4 * (16 + 1024));
    assert_eq!(decompress(&out).unwrap(), original);
}

#[test]
fn encode_cuts_into_chunks_in_order() {
    let original: Vec<u8> = (0..10u8).collect();
    let out = compress_with_chunk_size(&original, 4).unwrap();
    let mut expected = header(4);
    for piece in [&original[0..4], &original[4..8], &original[8..10]] {
        expected.extend_from_slice(&0u64.to_be_bytes());
        expected.extend_from_slice(&(piece.len() as u64).to_be_bytes());
        expected.extend_from_slice(piece);
    }
    assert_eq!(out, expected);
}

#[test]
fn encode_empty_is_header_only() {
    let out = compress_with_chunk_size(b"", 7).unwrap();
    assert_eq!(out, header(7));
}

#[test]
fn round_trip_many_chunk_sizes() {
    let original: Vec<u8> = (0..3000u32).map(|i| ((i * 7) % 13) as u8).collect();
    for chunk_size in [1usize, 2, 5, 16, 999, 1000, 3000, 4096] {
        let out = compress_with_chunk_size(&original, chunk_size).unwrap();
        assert!(is_pbzx(&out));
        assert_eq!(decompress(&out).unwrap(), original);
    }
}

#[test]
fn invalid_chunk_size_error() {
    assert_eq!(compress_with_chunk_size(b"data", 0), Err(Error::InvalidChunkSize));
    assert_eq!(compress_with_chunk_size(b"", 0), Err(Error::InvalidChunkSize));
}

#[test]
fn push_chunk_prefers_shorter_packing() {
    let mut out = Vec::new();
    push_chunk(&mut out, b"abcdef", Some(b"xyz"));
    let mut expected = Vec::new();
    expected.extend_from_slice(&CHUNK_FLAG_XZ.to_be_bytes());
    expected.extend_from_slice(&3u64.to_be_bytes());
    expected.extend_from_slice(b"xyz");
    assert_eq!(out, expected);

    let mut out = Vec::new();
    push_chunk(&mut out, b"abc", Some(b"xyz"));
    let mut expected = Vec::new();
    expected.extend_from_slice(&0u64.to_be_bytes());
    expected.extend_from_slice(&3u64.to_be_bytes());
    expected.extend_from_slice(b"abc");
    assert_eq!(out, expected);

    let mut out = vec![9u8];
    push_chunk(&mut out, b"ab", None);
    let mut expected = vec![9u8];
    expected.extend_from_slice(&0u64.to_be_bytes());
    expected.extend_from_slice(&2u64.to_be_bytes());
    expected.extend_from_slice(b"ab");
    assert_eq!(out, expected);
}

#[test]
fn test_pbzx_decompress_compress_roundtrip() {
    let original = b"Test data for pbzx roundtrip";
    let compressed = compress(original).unwrap();
    assert!(is_pbzx(&compressed));
    let decompressed = decompress(&compressed).unwrap();
    assert_eq!(decompressed, original);
}

#[test]
fn sniff_cases() {
    assert!(!is_pbzx(b"xyz"));
    assert!(is_pbzx(b"pbzx"));
    assert!(!is_pbzx(b"Pbzx"));
    assert!(is_pbzx(&compress(b"anything").unwrap()));
}
