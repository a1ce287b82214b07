//! The XZ codec of `lzma_rs`, as the chunk stream uses it.

use vstd::prelude::*;

verus! {

/// What `lzma_rs::xz_compress` writes for the given bytes.
pub uninterp spec fn xz_packed(data: Seq<u8>) -> Seq<u8>;

/// What `lzma_rs::xz_decompress` writes for the given bytes, when it accepts them.
pub uninterp spec fn xz_unpacked(data: Seq<u8>) -> Option<Seq<u8>>;

/// `s` holds the word `FF FF FF FF` at `s[p..p + 4]`.
pub open spec fn all_ones_at(s: Seq<u8>, p: int) -> bool {
    s[p] == 0xffu8 && s[p + 1] == 0xffu8 && s[p + 2] == 0xffu8 && s[p + 3] == 0xffu8
}

/// `s` holds no `FF FF FF FF` word at an offset that is a multiple of 4 and at
/// least 24.
///
/// `lzma_rs::xz_decompress` reads the stream footer's backward size as a `u32`
/// and adds 1 to it without a check, which panics where overflow checks are on
/// and the field is all ones. The decoder reaches that field only after a
/// 12-byte stream header, blocks and an index that it reads in multiples of 4
/// bytes (the index at least 8), and the footer's 4-byte CRC: at an offset
/// that is a multiple of 4 and at least 24.
///
/// Which of those offsets it is depends on how many packed bytes the LZMA
/// decoder took from each LZMA2 chunk (it stops at the chunk's unpacked size,
/// whatever is left of the packed bytes), so only decoding tells. This test
/// covers every candidate, and so also refuses a valid stream that happens to
/// hold such a word.
pub open spec fn clear_of_footer_trap(s: Seq<u8>) -> bool {
    forall|p: int| 24 <= p && p % 4 == 0 && p + 4 <= s.len() ==> !#[trigger] all_ones_at(s, p)
}

/// Relies on `lzma_rs::xz_compress`: one XZ stream holding `data`, written into
/// a fresh vector. Read from a slice and written into a vector it meets no I/O
/// error, and it has no other error path. It stores `data` in uncompressed
/// LZMA2 chunks inside the XZ framing, so the output is always longer than
/// `data`, and `lzma_rs::xz_decompress` reads it back unchanged.
#[verifier::external_body]
pub(crate) fn xz_pack(data: &[u8]) -> (r: Vec<u8>)
    ensures
        r@ == xz_packed(data@),
        r@.len() > data@.len(),
        xz_unpacked(r@) == Some(data@),
{
    let mut out = Vec::new();
    let _ = lzma_rs::xz_compress(&mut std::io::Cursor::new(data), &mut out);
    out
}

/// Relies on `lzma_rs::xz_decompress`: the bytes that the XZ stream `data`
/// holds, or `None` where it reports an error (`data` is no valid XZ stream).
/// Bytes that could make it overflow on the footer are left out.
#[verifier::external_body]
pub(crate) fn xz_unpack(data: &[u8]) -> (r: Option<Vec<u8>>)
    requires
        clear_of_footer_trap(data@),
    ensures
        r is Some <==> xz_unpacked(data@) is Some,
        r matches Some(v) ==> xz_unpacked(data@) == Some(v@),
{
    let mut out = Vec::new();
    lzma_rs::xz_decompress(&mut std::io::Cursor::new(data), &mut out).ok()?;
    Some(out)
}

} // verus!
