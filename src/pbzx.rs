//! The pbzx chunk stream: Apple's framing of installer payloads as a run of
//! independently XZ-compressed (or stored) chunks.
//!
//! ```text
//! offset 0..4    "pbzx"
//! offset 4..12   nominal chunk size, big-endian u64
//! repeat:
//!   8 bytes      flag word, big-endian u64 (CHUNK_FLAG_XZ = compressed, else stored)
//!   8 bytes      payload length L, big-endian u64
//!   L bytes      payload
//! ```

use vstd::prelude::*;
use vstd::slice::slice_subrange;
use crate::be64::{be_at, be_bytes, lemma_be_round_trip, push_be64, read_be64};
use crate::error::{Error, Result};
use crate::xz::{all_ones_at, clear_of_footer_trap, xz_pack, xz_packed, xz_unpack, xz_unpacked};

verus! {

/// Flag word of a chunk whose payload is one XZ stream.
pub const CHUNK_FLAG_XZ: u64 = 0x0100_0000;

/// Chunk size that `compress` uses: 1 MiB, as Apple's tools do.
pub const DEFAULT_CHUNK_SIZE: usize = 1024 * 1024;

/// Length of the stream header: marker and nominal chunk size.
pub const STREAM_HEADER_LEN: usize = 12;

/// Length of a chunk header: flag word and payload length.
pub const CHUNK_HEADER_LEN: usize = 16;

/// The marker that opens every stream: the ASCII bytes `pbzx`.
pub open spec fn magic() -> Seq<u8> {
    seq![0x70u8, 0x62u8, 0x7au8, 0x78u8]
}

/// `s` starts with the marker.
pub open spec fn has_magic(s: Seq<u8>) -> bool {
    s.len() >= 4 && s.subrange(0, 4) == magic()
}

/// `p` in front of the bytes of `r`, or the error of `r`.
pub open spec fn prepend(p: Seq<u8>, r: Result<Seq<u8>>) -> Result<Seq<u8>> {
    match r {
        Ok(rest) => Ok(p + rest),
        Err(e) => Err(e),
    }
}

/// The byte contents of a result, as a specification value.
pub open spec fn bytes_result(r: Result<Vec<u8>>) -> Result<Seq<u8>> {
    match r {
        Ok(v) => Ok(v@),
        Err(e) => Err(e),
    }
}

// ---------------------------------------------------------------------------
// Decoding
// ---------------------------------------------------------------------------

/// What a chunk with flag word `flag` and payload `payload` decodes to. An XZ
/// payload that could trip the decoder's footer overflow is refused unread.
pub open spec fn chunk_output(flag: u64, payload: Seq<u8>) -> Result<Seq<u8>> {
    if flag == CHUNK_FLAG_XZ {
        if !clear_of_footer_trap(payload) {
            Err(Error::Codec)
        } else {
            match xz_unpacked(payload) {
                Some(p) => Ok(p),
                None => Err(Error::Codec),
            }
        }
    } else {
        Ok(payload)
    }
}

/// What the chunks at the front of `s` decode to. Fewer than 16 bytes end the
/// run and are ignored.
pub open spec fn chunks_output(s: Seq<u8>) -> Result<Seq<u8>>
    decreases s.len(),
{
    if s.len() < 16 {
        Ok(Seq::empty())
    } else {
        let len = be_at(s, 8);
        if s.len() - 16 < len {
            Err(Error::TruncatedChunk)
        } else {
            let end = 16 + len;
            match chunk_output(be_at(s, 0), s.subrange(16, end)) {
                Ok(p) => prepend(p, chunks_output(s.subrange(end, s.len() as int))),
                Err(e) => Err(e),
            }
        }
    }
}

/// What the stream `s` decodes to.
pub open spec fn decoded(s: Seq<u8>) -> Result<Seq<u8>> {
    if s.len() < 12 {
        Err(Error::TooShort)
    } else if !has_magic(s) {
        Err(Error::BadMagic)
    } else {
        chunks_output(s.subrange(12, s.len() as int))
    }
}

proof fn lemma_prepend_assoc(a: Seq<u8>, b: Seq<u8>, r: Result<Seq<u8>>)
    ensures
        prepend(a, prepend(b, r)) == prepend(a + b, r),
{
    if let Ok(rest) = r {
        assert(a + (b + rest) =~= (a + b) + rest);
    }
}

proof fn lemma_be_at_subrange(s: Seq<u8>, lo: int, hi: int, at: int)
    requires
        0 <= lo <= hi <= s.len(),
        0 <= at,
        lo + at + 8 <= hi,
    ensures
        be_at(s.subrange(lo, hi), at) == be_at(s, lo + at),
{
    let t = s.subrange(lo, hi);
    assert(t[at] == s[lo + at] && t[at + 1] == s[lo + at + 1] && t[at + 2] == s[lo + at + 2]);
    assert(t[at + 3] == s[lo + at + 3] && t[at + 4] == s[lo + at + 4]);
    assert(t[at + 5] == s[lo + at + 5] && t[at + 6] == s[lo + at + 6]);
    assert(t[at + 7] == s[lo + at + 7]);
}

/// Whether `data` is clear of an all-ones word at the offsets where the XZ
/// decoder could read its footer's backward size.
fn footer_trap_free(data: &[u8]) -> (r: bool)
    ensures
        r == clear_of_footer_trap(data@),
{
    let mut p: usize = 24;
    while p <= data.len() && data.len() - p >= 4
        invariant
            24 <= p,
            p % 4 == 0,
            forall|q: int| 24 <= q < p && q % 4 == 0 && q + 4 <= data@.len() ==> !#[trigger] all_ones_at(data@, q),
        decreases data@.len() + 4 - p,
    {
        if data[p] == 0xffu8 && data[p + 1] == 0xffu8 && data[p + 2] == 0xffu8 && data[p + 3] == 0xffu8 {
            assert(all_ones_at(data@, p as int));
            return false;
        }
        p = p + 4;
    }
    true
}

/// Whether `data` starts with the `pbzx` marker. Nothing after it is looked at.
pub fn is_pbzx(data: &[u8]) -> (r: bool)
    ensures
        r == has_magic(data@),
{
    let r = data.len() >= 4 && data[0] == 0x70u8 && data[1] == 0x62u8 && data[2] == 0x7au8
        && data[3] == 0x78u8;
    proof {
        if data@.len() >= 4 {
            if r {
                assert(data@.subrange(0, 4) =~= magic());
            } else {
                assert(data@.subrange(0, 4)[0] == data@[0]);
                assert(data@.subrange(0, 4)[1] == data@[1]);
                assert(data@.subrange(0, 4)[2] == data@[2]);
                assert(data@.subrange(0, 4)[3] == data@[3]);
            }
        }
    }
    r
}

/// Decodes a chunk stream into the bytes it carries (typically a CPIO archive).
///
/// Fails with `TooShort` below 12 bytes, `BadMagic` without the marker,
/// `TruncatedChunk` where a payload runs past the end, and `Codec` where an XZ
/// payload does not decompress. A trailing run of fewer than 16 bytes is ignored.
///
/// An XZ payload holding the word `FF FF FF FF` at a 4-aligned offset past its
/// first 24 bytes also gives `Codec`, without being decompressed: there the
/// decoder of `lzma_rs` could read it as its footer's backward size and
/// overflow (see `clear_of_footer_trap`).
pub fn decompress(data: &[u8]) -> (r: Result<Vec<u8>>)
    ensures
        bytes_result(r) == decoded(data@),
{
    if data.len() < STREAM_HEADER_LEN {
        return Err(Error::TooShort);
    }
    if !is_pbzx(data) {
        return Err(Error::BadMagic);
    }
    let mut output: Vec<u8> = Vec::new();
    let mut offset: usize = STREAM_HEADER_LEN;
    proof {
        assert(output@ + Seq::<u8>::empty() =~= Seq::<u8>::empty());
        if let Ok(p) = decoded(data@) {
            assert(output@ + p =~= p);
        }
    }
    while data.len() - offset >= CHUNK_HEADER_LEN
        invariant
            STREAM_HEADER_LEN <= offset <= data@.len(),
            decoded(data@) == prepend(output@, chunks_output(data@.subrange(offset as int, data@.len() as int))),
        decreases data@.len() - offset,
    {
        let ghost rest = data@.subrange(offset as int, data@.len() as int);
        let flags = read_be64(data, offset);
        let len = read_be64(data, offset + 8);
        proof {
            lemma_be_at_subrange(data@, offset as int, data@.len() as int, 0);
            lemma_be_at_subrange(data@, offset as int, data@.len() as int, 8);
        }
        let body_start = offset + CHUNK_HEADER_LEN;
        if ((data.len() - body_start) as u64) < len {
            return Err(Error::TruncatedChunk);
        }
        let end = body_start + len as usize;
        let payload = slice_subrange(data, body_start, end);
        proof {
            assert(payload@ =~= rest.subrange(16, 16 + len));
            assert(rest.subrange(16 + len, rest.len() as int) =~= data@.subrange(end as int, data@.len() as int));
        }
        let ghost before = output@;
        if flags == CHUNK_FLAG_XZ {
            if !footer_trap_free(payload) {
                return Err(Error::Codec);
            }
            match xz_unpack(payload) {
                Some(p) => {
                    output.extend_from_slice(p.as_slice());
                    proof {
                        assert(output@ =~= before + p@);
                        lemma_prepend_assoc(before, p@, chunks_output(data@.subrange(end as int, data@.len() as int)));
                    }
                },
                None => {
                    return Err(Error::Codec);
                },
            }
        } else {
            output.extend_from_slice(payload);
            proof {
                assert(output@ =~= before + payload@);
                lemma_prepend_assoc(before, payload@, chunks_output(data@.subrange(end as int, data@.len() as int)));
            }
        }
        offset = end;
    }
    proof {
        assert(output@ + Seq::<u8>::empty() =~= output@);
    }
    Ok(output)
}

// ---------------------------------------------------------------------------
// Encoding
// ---------------------------------------------------------------------------

/// The chunk written for `raw`, given the compressed form that may stand for
/// it: that form where it is strictly shorter, else `raw` stored with flag 0.
pub open spec fn chunk_frame(raw: Seq<u8>, packed: Option<Seq<u8>>) -> Seq<u8> {
    if packed is Some && packed->0.len() < raw.len() {
        be_bytes(CHUNK_FLAG_XZ) + be_bytes(packed->0.len() as u64) + packed->0
    } else {
        be_bytes(0) + be_bytes(raw.len() as u64) + raw
    }
}

/// The chunks written for `d` cut into slices of `size` bytes (the last one
/// shorter), in order, each with its XZ form where that is strictly shorter.
pub open spec fn chunks_encoded(d: Seq<u8>, size: nat) -> Seq<u8>
    decreases d.len(),
{
    if d.len() == 0 || size == 0 {
        Seq::empty()
    } else {
        let n = if d.len() < size { d.len() as int } else { size as int };
        let head = d.subrange(0, n);
        chunk_frame(head, Some(xz_packed(head))) + chunks_encoded(d.subrange(n, d.len() as int), size)
    }
}

/// The stream that encodes `d` with chunks of `size` bytes.
pub open spec fn encoded(d: Seq<u8>, size: nat) -> Result<Seq<u8>> {
    if size == 0 {
        Err(Error::InvalidChunkSize)
    } else {
        Ok(magic() + be_bytes(size as u64) + chunks_encoded(d, size))
    }
}

/// Every slice of `d` whose XZ form is the shorter, and so is stored
/// compressed, has an XZ form that the decoder does not refuse unread.
spec fn packs_clear(d: Seq<u8>, size: nat) -> bool
    decreases d.len(),
{
    if d.len() == 0 || size == 0 {
        true
    } else {
        let n = if d.len() < size { d.len() as int } else { size as int };
        let head = d.subrange(0, n);
        (xz_packed(head).len() < head.len() ==> clear_of_footer_trap(xz_packed(head)))
            && packs_clear(d.subrange(n, d.len() as int), size)
    }
}

/// Every slice of `d` decompresses back from its XZ form.
pub open spec fn packs_restore(d: Seq<u8>, size: nat) -> bool
    decreases d.len(),
{
    if d.len() == 0 || size == 0 {
        true
    } else {
        let n = if d.len() < size { d.len() as int } else { size as int };
        let head = d.subrange(0, n);
        xz_unpacked(xz_packed(head)) == Some(head) && packs_restore(d.subrange(n, d.len() as int), size)
    }
}

/// Appends to `out` the chunk for `raw`, where `packed` is the compressed form
/// that may stand for it: compressed where that is strictly shorter, else
/// stored raw.
pub fn push_chunk(out: &mut Vec<u8>, raw: &[u8], packed: Option<&[u8]>)
    ensures
        final(out)@ == old(out)@ + chunk_frame(
            raw@,
            match packed {
                Some(c) => Some(c@),
                None => None,
            },
        ),
{
    let ghost start = out@;
    match packed {
        Some(c) if c.len() < raw.len() => {
            push_be64(out, CHUNK_FLAG_XZ);
            push_be64(out, c.len() as u64);
            out.extend_from_slice(c);
            assert(out@ =~= start + (be_bytes(CHUNK_FLAG_XZ) + be_bytes(c@.len() as u64) + c@));
        },
        _ => {
            push_be64(out, 0);
            push_be64(out, raw.len() as u64);
            out.extend_from_slice(raw);
            assert(out@ =~= start + (be_bytes(0) + be_bytes(raw@.len() as u64) + raw@));
        },
    }
}

/// Encodes `data` as a chunk stream, cutting it into slices of `chunk_size`
/// bytes. Each slice is XZ-compressed and stored compressed where that is
/// strictly shorter, else stored raw.
///
/// Fails with `InvalidChunkSize` when `chunk_size` is 0, and only then. The
/// stream decodes back to `data`, and the XZ form of every slice
/// decompresses back to that slice.
pub fn compress_with_chunk_size(data: &[u8], chunk_size: usize) -> (r: Result<Vec<u8>>)
    ensures
        bytes_result(r) == encoded(data@, chunk_size as nat),
        chunk_size == 0 ==> r == Err::<Vec<u8>, Error>(Error::InvalidChunkSize),
        r matches Ok(s) ==> decoded(s@) == Ok::<Seq<u8>, Error>(data@),
        packs_restore(data@, chunk_size as nat),
{
    if chunk_size == 0 {
        return Err(Error::InvalidChunkSize);
    }
    let mut output: Vec<u8> = Vec::new();
    output.push(0x70u8);
    output.push(0x62u8);
    output.push(0x7au8);
    output.push(0x78u8);
    push_be64(&mut output, chunk_size as u64);
    let ghost header = magic() + be_bytes(chunk_size as u64);
    proof {
        assert(output@ =~= header);
        assert(data@.subrange(0, data@.len() as int) =~= data@);
    }
    let mut at: usize = 0;
    while at < data.len()
        invariant
            chunk_size > 0,
            at <= data@.len(),
            header == magic() + be_bytes(chunk_size as u64),
            output@ + chunks_encoded(data@.subrange(at as int, data@.len() as int), chunk_size as nat)
                == header + chunks_encoded(data@, chunk_size as nat),
            packs_restore(data@.subrange(at as int, data@.len() as int), chunk_size as nat)
                ==> packs_restore(data@, chunk_size as nat),
            packs_clear(data@.subrange(at as int, data@.len() as int), chunk_size as nat)
                ==> packs_clear(data@, chunk_size as nat),
        decreases data@.len() - at,
    {
        let ghost rest = data@.subrange(at as int, data@.len() as int);
        let n: usize = if data.len() - at < chunk_size {
            data.len() - at
        } else {
            chunk_size
        };
        let slice = slice_subrange(data, at, at + n);
        let ghost tail = data@.subrange((at + n) as int, data@.len() as int);
        proof {
            assert(slice@ =~= rest.subrange(0, n as int));
            assert(rest.subrange(n as int, rest.len() as int) =~= tail);
        }
        let packed = xz_pack(slice);
        let ghost before = output@;
        push_chunk(&mut output, slice, Some(packed.as_slice()));
        proof {
            let f = chunk_frame(slice@, Some(xz_packed(slice@)));
            assert(chunks_encoded(rest, chunk_size as nat) == f + chunks_encoded(tail, chunk_size as nat));
            assert(output@ + chunks_encoded(tail, chunk_size as nat) =~= before + chunks_encoded(rest, chunk_size as nat));
        }
        at = at + n;
    }
    proof {
        let e = output@;
        assert(data@.subrange(at as int, data@.len() as int) =~= Seq::<u8>::empty());
        assert(e + Seq::<u8>::empty() =~= e);
        lemma_chunks_round_trip(data@, chunk_size as nat);
        let f = chunks_encoded(data@, chunk_size as nat);
        assert(e.subrange(0, 4) =~= magic());
        assert(e.subrange(12, e.len() as int) =~= f);
    }
    Ok(output)
}

/// Encodes `data` as a chunk stream with the default 1 MiB chunk size.
pub fn compress(data: &[u8]) -> (r: Result<Vec<u8>>)
    ensures
        bytes_result(r) == encoded(data@, DEFAULT_CHUNK_SIZE as nat),
{
    compress_with_chunk_size(data, DEFAULT_CHUNK_SIZE)
}

// ---------------------------------------------------------------------------
// What encoding and decoding guarantee together
// ---------------------------------------------------------------------------

/// A chunk with flag word `flag` and payload `body`, followed by `rest`.
pub open spec fn framed(flag: u64, body: Seq<u8>, rest: Seq<u8>) -> Seq<u8> {
    be_bytes(flag) + be_bytes(body.len() as u64) + body + rest
}

/// A well-framed chunk decodes to its own output, then what follows it.
proof fn lemma_one_chunk(flag: u64, body: Seq<u8>, rest: Seq<u8>)
    requires
        body.len() <= u64::MAX,
    ensures
        chunks_output(framed(flag, body, rest)) == match chunk_output(flag, body) {
            Ok(p) => prepend(p, chunks_output(rest)),
            Err(e) => Err(e),
        },
{
    let s = framed(flag, body, rest);
    let len: u64 = body.len() as u64;
    assert(s.subrange(0, 8) =~= be_bytes(flag));
    assert(s.subrange(8, 16) =~= be_bytes(len));
    lemma_be_round_trip(s, 0, flag);
    lemma_be_round_trip(s, 8, len);
    assert(s.subrange(16, 16 + len) =~= body);
    assert(s.subrange(16 + len, s.len() as int) =~= rest);
}

/// A chunk written for `raw` decodes back to `raw`, whatever follows it.
proof fn lemma_frame_decodes(raw: Seq<u8>, rest: Seq<u8>)
    requires
        raw.len() <= u64::MAX,
        xz_unpacked(xz_packed(raw)) == Some(raw),
        xz_packed(raw).len() < raw.len() ==> clear_of_footer_trap(xz_packed(raw)),
    ensures
        chunks_output(chunk_frame(raw, Some(xz_packed(raw))) + rest) == prepend(raw, chunks_output(rest)),
{
    let packed = xz_packed(raw);
    let compressed = packed.len() < raw.len();
    let flag: u64 = if compressed { CHUNK_FLAG_XZ } else { 0 };
    let body = if compressed { packed } else { raw };
    assert(chunk_frame(raw, Some(packed)) + rest =~= framed(flag, body, rest));
    lemma_one_chunk(flag, body, rest);
    assert(chunk_output(flag, body) == Ok::<Seq<u8>, Error>(raw));
}

/// The chunks written for `d` decode back to `d`.
proof fn lemma_chunks_round_trip(d: Seq<u8>, size: nat)
    requires
        size > 0,
        d.len() <= u64::MAX,
        packs_restore(d, size),
        packs_clear(d, size),
    ensures
        chunks_output(chunks_encoded(d, size)) == Ok::<Seq<u8>, Error>(d),
    decreases d.len(),
{
    if d.len() == 0 {
        assert(chunks_output(Seq::empty()) == Ok::<Seq<u8>, Error>(Seq::empty()));
        assert(d =~= Seq::<u8>::empty());
    } else {
        let n = if d.len() < size { d.len() as int } else { size as int };
        let head = d.subrange(0, n);
        let tail = d.subrange(n, d.len() as int);
        let packed = xz_packed(head);
        assert(packs_restore(tail, size) && xz_unpacked(packed) == Some(head));
        assert(packs_clear(tail, size) && (packed.len() < head.len() ==> clear_of_footer_trap(packed)));
        assert(chunks_encoded(d, size) == chunk_frame(head, Some(packed)) + chunks_encoded(tail, size));
        lemma_chunks_round_trip(tail, size);
        lemma_frame_decodes(head, chunks_encoded(tail, size));
        assert(head + tail =~= d);
    }
}

/// A stream of one stored chunk holding `first` and then one XZ chunk `packed`
/// decodes to `first` followed by what `packed` decompresses to, in that order.
pub proof fn lemma_mixed_chunks(chunk_size: u64, first: Seq<u8>, packed: Seq<u8>)
    requires
        first.len() <= u64::MAX,
        packed.len() <= u64::MAX,
    ensures
        ({
            let s = magic() + be_bytes(chunk_size) + framed(0, first, framed(CHUNK_FLAG_XZ, packed, Seq::empty()));
            &&& clear_of_footer_trap(packed) ==> (xz_unpacked(packed) matches Some(second) ==> decoded(s)
                == Ok::<Seq<u8>, Error>(first + second))
            &&& !clear_of_footer_trap(packed) || xz_unpacked(packed) is None ==> decoded(s)
                == Err::<Seq<u8>, Error>(Error::Codec)
        }),
{
    let tail = framed(CHUNK_FLAG_XZ, packed, Seq::empty());
    let s = magic() + be_bytes(chunk_size) + framed(0, first, tail);
    assert(s.subrange(0, 4) =~= magic());
    assert(s.subrange(12, s.len() as int) =~= framed(0, first, tail));
    lemma_one_chunk(0, first, tail);
    lemma_one_chunk(CHUNK_FLAG_XZ, packed, Seq::empty());
    if let Some(second) = xz_unpacked(packed) {
        assert(first + (second + Seq::<u8>::empty()) =~= first + second);
    }
}

/// Every stream the encoder produces starts with the marker.
pub proof fn lemma_encoded_has_magic(d: Seq<u8>, size: nat)
    ensures
        encoded(d, size) matches Ok(e) ==> has_magic(e),
{
    if let Ok(e) = encoded(d, size) {
        assert(e.subrange(0, 4) =~= magic());
    }
}

/// Streams below 12 bytes are too short; a header with no chunk decodes to
/// nothing; a chunk whose declared length runs past the end is truncated.
pub proof fn lemma_truncation(s: Seq<u8>)
    ensures
        s.len() < 12 ==> decoded(s) == Err::<Seq<u8>, Error>(Error::TooShort),
        s.len() == 12 && has_magic(s) ==> decoded(s) == Ok::<Seq<u8>, Error>(Seq::empty()),
        s.len() >= 28 && has_magic(s) && (s.len() - 28) < be_at(s, 20) ==> decoded(s)
            == Err::<Seq<u8>, Error>(Error::TruncatedChunk),
{
    if s.len() >= 28 && has_magic(s) {
        lemma_be_at_subrange(s, 12, s.len() as int, 8);
    }
}

} // verus!
