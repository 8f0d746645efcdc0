//! The codec calls: each wraps one operation of a compression crate.
//!
//! What a decoder yields for given input is a function of that input alone
//! and is named here (`gzip_stream` and its kin; the Snappy header is
//! spelled out); each encoder states that
//! its output decodes to its input, which is what the crates promise of a
//! lossless codec.
use vstd::prelude::*;
use std::io::{Read, Write};
use crate::codec::base_n::power;

verus! {

/// What reading a gzip decoder over `compressed` to the end yields: the
/// decompressed bytes, or `None` when the decoder fails.
pub uninterp spec fn gzip_stream(compressed: Seq<u8>) -> Option<Seq<u8>>;

/// What reading a zlib decoder over `compressed` to the end yields.
pub uninterp spec fn zlib_stream(compressed: Seq<u8>) -> Option<Seq<u8>>;

/// What reading a zstd decoder over `compressed` to the end yields.
pub uninterp spec fn zstd_stream(compressed: Seq<u8>) -> Option<Seq<u8>>;

/// What `lz4_flex::decompress_size_prepended` makes of `compressed`.
pub uninterp spec fn lz4_block(compressed: Seq<u8>) -> Option<Seq<u8>>;

/// What `snap::raw::Decoder::decompress_vec` makes of `compressed`.
pub uninterp spec fn snappy_block(compressed: Seq<u8>) -> Option<Seq<u8>>;

/// Index of the last byte of the varint that starts `c`, looking at the
/// first five bytes from `j` on: the first byte below `0x80`.
pub open spec fn varint_end(c: Seq<u8>, j: nat) -> Option<nat>
    decreases 5 - j,
{
    if j >= 5 || j >= c.len() {
        None
    } else if c[j as int] < 128 {
        Some(j)
    } else {
        varint_end(c, j + 1)
    }
}

/// Value of the first `k` varint bytes of `c`, seven bits each, least
/// significant group first.
pub open spec fn varint_value(c: Seq<u8>, k: nat) -> nat
    decreases k,
{
    if k == 0 || k > c.len() {
        0
    } else {
        varint_value(c, (k - 1) as nat) + (c[k - 1] % 128) as nat * power(128, (k - 1) as nat)
    }
}

/// The decompressed length that a Snappy block's header declares, as
/// `snap::raw::decompress_len` reads it: zero for empty input; else a
/// varint of at most five bytes whose value is at most `u32::MAX`, or
/// `None` when there is no such header.
pub open spec fn snappy_header_len(c: Seq<u8>) -> Option<usize> {
    if c.len() == 0 {
        Some(0)
    } else {
        match varint_end(c, 0) {
            Some(k) => if varint_value(c, k + 1) <= u32::MAX {
                Some(varint_value(c, k + 1) as usize)
            } else {
                None
            },
            None => None,
        }
    }
}

/// What `flate2::write::GzEncoder` at `flate2::Compression::new(level)`
/// writes for `plain` (a deterministic function of the two).
pub uninterp spec fn gzip_compressed(plain: Seq<u8>, level: u32) -> Seq<u8>;

/// What `flate2::write::ZlibEncoder` at `flate2::Compression::new(level)`
/// writes for `plain`.
pub uninterp spec fn zlib_compressed(plain: Seq<u8>, level: u32) -> Seq<u8>;

/// What `zstd::bulk::compress` returns for `plain` at `level`.
pub uninterp spec fn zstd_compressed(plain: Seq<u8>, level: int) -> Seq<u8>;

/// What `lz4_flex::compress_prepend_size` returns for `plain`.
pub uninterp spec fn lz4_compressed(plain: Seq<u8>) -> Seq<u8>;

/// What `snap::raw::Encoder::compress_vec` returns for `plain`.
pub uninterp spec fn snappy_compressed(plain: Seq<u8>) -> Seq<u8>;

/// The first `bound` bytes of a decoder's output.
pub open spec fn capped(x: Seq<u8>, bound: u64) -> Seq<u8> {
    if x.len() <= bound {
        x
    } else {
        x.take(bound as int)
    }
}

/// Whether zstd can compress `n` bytes in one call: fewer than
/// `ZSTD_MAX_INPUT_SIZE`, which on a 64-bit target exceeds every slice.
pub open spec fn zstd_input_fits(n: nat) -> bool {
    usize::BITS == 64 || n < 0xFF00_FF00
}

/// Whether Snappy can compress `n` bytes: its worst-case output,
/// `32 + n + n / 6` bytes, fits in a `u32`.
pub open spec fn snappy_input_fits(n: nat) -> bool {
    32 + n + n / 6 <= u32::MAX
}

/// The little-endian `u32` in the first four bytes of `b`.
pub open spec fn le_u32_prefix(b: Seq<u8>) -> nat {
    b[0] as nat + 256 * (b[1] as nat) + 65536 * (b[2] as nat) + 16777216 * (b[3] as nat)
}

/// Compresses with `flate2::write::GzEncoder` at `flate2::Compression::new(level)`.
///
/// Levels above 10 trip an assertion of the default backend, so the
/// precondition leaves them out. The contract states that the call succeeds
/// (writes into a `Vec` never fail, and the backend fails only on parameters
/// that the encoder never passes) and that the output is a gzip stream of
/// the input. The output is named `gzip_compressed` of the input and the
/// level.
#[verifier::external_body]
pub(crate) fn gzip_encode(plain: &[u8], level: u32) -> (r: Result<Vec<u8>, std::io::Error>)
    requires
        level <= 10,
    ensures
        r is Ok,
        r matches Ok(c) ==> c@ == gzip_compressed(plain@, level) && gzip_stream(c@) == Some(plain@),
{
    let mut encoder = flate2::write::GzEncoder::new(Vec::new(), flate2::Compression::new(level));
    encoder.write_all(plain)?;
    encoder.finish()
}

/// Reads at most `bound` bytes from a `flate2::read::GzDecoder` over `compressed`.
///
/// The contract states what the source shows: never more than `bound`
/// bytes; for a valid stream exactly its first `bound` bytes (all of them
/// when fewer); and fewer than `bound` bytes only when the decoder reached
/// the valid end of the stream. What error an invalid stream gives is left
/// open.
#[verifier::external_body]
pub(crate) fn gzip_decode(compressed: &[u8], bound: u64) -> (r: Result<Vec<u8>, std::io::Error>)
    ensures
        r matches Ok(v) ==> v@.len() <= bound,
        r is Ok || gzip_stream(compressed@) is None,
        r is Ok && gzip_stream(compressed@) is Some ==> r->Ok_0@ == capped(gzip_stream(compressed@)->0, bound),
        r is Ok && r->Ok_0@.len() < bound ==> gzip_stream(compressed@) == Some(r->Ok_0@),
{
    let mut out = Vec::new();
    flate2::read::GzDecoder::new(compressed).take(bound).read_to_end(&mut out)?;
    Ok(out)
}

/// Compresses with `flate2::write::ZlibEncoder` at `flate2::Compression::new(level)`.
///
/// Levels above 10 trip an assertion of the default backend, so the
/// precondition leaves them out. The contract states that the call succeeds
/// (writes into a `Vec` never fail, and the backend fails only on parameters
/// that the encoder never passes) and that the output is a zlib stream of
/// the input. The output is named `zlib_compressed` of the input and the
/// level.
#[verifier::external_body]
pub(crate) fn zlib_encode(plain: &[u8], level: u32) -> (r: Result<Vec<u8>, std::io::Error>)
    requires
        level <= 10,
    ensures
        r is Ok,
        r matches Ok(c) ==> c@ == zlib_compressed(plain@, level) && zlib_stream(c@) == Some(plain@),
{
    let mut encoder = flate2::write::ZlibEncoder::new(Vec::new(), flate2::Compression::new(level));
    encoder.write_all(plain)?;
    encoder.finish()
}

/// Reads at most `bound` bytes from a `flate2::read::ZlibDecoder` over `compressed`.
///
/// The contract states what the source shows: never more than `bound`
/// bytes; for a valid stream exactly its first `bound` bytes (all of them
/// when fewer); and fewer than `bound` bytes only when the decoder reached
/// the valid end of the stream. What error an invalid stream gives is left
/// open.
#[verifier::external_body]
pub(crate) fn zlib_decode(compressed: &[u8], bound: u64) -> (r: Result<Vec<u8>, std::io::Error>)
    ensures
        r matches Ok(v) ==> v@.len() <= bound,
        r is Ok || zlib_stream(compressed@) is None,
        r is Ok && zlib_stream(compressed@) is Some ==> r->Ok_0@ == capped(zlib_stream(compressed@)->0, bound),
        r is Ok && r->Ok_0@.len() < bound ==> zlib_stream(compressed@) == Some(r->Ok_0@),
{
    let mut out = Vec::new();
    flate2::read::ZlibDecoder::new(compressed).take(bound).read_to_end(&mut out)?;
    Ok(out)
}

/// Compresses with `zstd::bulk::compress` at `level`.
///
/// The contract states that the output is a zstd frame of the input, and
/// that the call succeeds on every input that `zstd_input_fits`: the library
/// clamps any level into its supported range, and sizes the output buffer
/// by `ZSTD_compressBound`, which is zero only from `ZSTD_MAX_INPUT_SIZE`
/// bytes on (beyond any slice on a 64-bit target). The output is named
/// `zstd_compressed` of the input and the level.
#[verifier::external_body]
pub(crate) fn zstd_encode(plain: &[u8], level: i32) -> (r: Result<Vec<u8>, std::io::Error>)
    ensures
        zstd_input_fits(plain@.len()) ==> r is Ok,
        r matches Ok(c) ==> c@ == zstd_compressed(plain@, level as int) && zstd_stream(c@) == Some(
            plain@,
        ),
{
    zstd::bulk::compress(plain, level)
}

/// Reads at most `bound` bytes from a `zstd::stream::read::Decoder` over `compressed`.
///
/// The contract states what the source shows: never more than `bound`
/// bytes; for valid input exactly its first `bound` decompressed bytes (all
/// of them when fewer); and fewer than `bound` bytes only when the decoder
/// reached the valid end of its input. What error invalid input gives is
/// left open.
#[verifier::external_body]
pub(crate) fn zstd_decode(compressed: &[u8], bound: u64) -> (r: Result<Vec<u8>, std::io::Error>)
    ensures
        r matches Ok(v) ==> v@.len() <= bound,
        r is Ok || zstd_stream(compressed@) is None,
        r is Ok && zstd_stream(compressed@) is Some ==> r->Ok_0@ == capped(zstd_stream(compressed@)->0, bound),
        r is Ok && r->Ok_0@.len() < bound ==> zstd_stream(compressed@) == Some(r->Ok_0@),
{
    let mut out = Vec::new();
    zstd::stream::read::Decoder::new(compressed)?.take(bound).read_to_end(&mut out)?;
    Ok(out)
}

/// Compresses with `lz4_flex::compress_prepend_size`.
///
/// The contract states what the crate documents: the output starts with the
/// input's length as a little-endian `u32` and decodes back to the input,
/// for inputs whose length fits that field. The output is named
/// `lz4_compressed` of the input.
#[verifier::external_body]
pub(crate) fn lz4_encode(plain: &[u8]) -> (c: Vec<u8>)
    ensures
        c@ == lz4_compressed(plain@),
        plain@.len() <= u32::MAX ==> lz4_block(c@) == Some(plain@),
        plain@.len() <= u32::MAX ==> c@.len() >= 4 && le_u32_prefix(c@) == plain@.len(),
{
    lz4_flex::compress_prepend_size(plain)
}

/// Reads the declared size with `lz4_flex::block::uncompressed_size`.
///
/// The contract states what its source shows: the first four bytes as a
/// little-endian length, or nothing when there are fewer than four.
#[verifier::external_body]
pub(crate) fn lz4_declared_size(compressed: &[u8]) -> (r: Option<usize>)
    ensures
        compressed@.len() < 4 ==> r is None,
        compressed@.len() >= 4 ==> r == Some(le_u32_prefix(compressed@) as usize),
{
    match lz4_flex::block::uncompressed_size(compressed) {
        Ok((size, _)) => Some(size),
        Err(_) => None,
    }
}

/// Decompresses with `lz4_flex::decompress_size_prepended`; its error is
/// reported as invalid data.
#[verifier::external_body]
pub(crate) fn lz4_decode(compressed: &[u8]) -> (r: Result<Vec<u8>, std::io::Error>)
    ensures
        match lz4_block(compressed@) {
            Some(x) => r matches Ok(v) && v@ == x,
            None => r is Err,
        },
{
    lz4_flex::decompress_size_prepended(compressed).map_err(
        |e| std::io::Error::new(std::io::ErrorKind::InvalidData, e),
    )
}

/// Compresses with `snap::raw::Encoder::compress_vec`; its error is
/// reported as invalid data.
///
/// The contract states that the output decodes back to the input and
/// declares its length, and that the call succeeds whenever
/// `snap::raw::max_compress_len` of the input's length is not zero
/// (`snappy_input_fits`), which is the only failure `compress_vec` has. The
/// output is named `snappy_compressed` of the input.
#[verifier::external_body]
pub(crate) fn snappy_encode(plain: &[u8]) -> (r: Result<Vec<u8>, std::io::Error>)
    ensures
        snappy_input_fits(plain@.len()) ==> r is Ok,
        r matches Ok(c) ==> c@ == snappy_compressed(plain@) && snappy_block(c@) == Some(plain@)
            && snappy_header_len(c@) == Some(
            plain@.len() as usize,
        ),
{
    snap::raw::Encoder::new().compress_vec(plain).map_err(
        |e| std::io::Error::new(std::io::ErrorKind::InvalidData, e),
    )
}

/// Reads the declared length with `snap::raw::decompress_len`.
///
/// The contract states what its source shows: the header's varint, as
/// `snappy_header_len` spells it out.
#[verifier::external_body]
pub(crate) fn snappy_declared_len(compressed: &[u8]) -> (r: Option<usize>)
    ensures
        r == snappy_header_len(compressed@),
        compressed@.len() == 0 ==> r == Some(0usize),
{
    snap::raw::decompress_len(compressed).ok()
}

/// Decompresses with `snap::raw::Decoder::decompress_vec`; its error is
/// reported as invalid data.
#[verifier::external_body]
pub(crate) fn snappy_decode(compressed: &[u8]) -> (r: Result<Vec<u8>, std::io::Error>)
    ensures
        match snappy_block(compressed@) {
            Some(x) => r matches Ok(v) && v@ == x,
            None => r is Err,
        },
{
    snap::raw::Decoder::new().decompress_vec(compressed).map_err(
        |e| std::io::Error::new(std::io::ErrorKind::InvalidData, e),
    )
}

} // verus!
