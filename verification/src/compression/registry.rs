//! The compression algorithms, their level policies and their size limits.
use vstd::prelude::*;
use crate::compression::codecs::{
    capped, gzip_compressed, lz4_compressed, snappy_compressed, zlib_compressed,
    zstd_compressed, gzip_decode, gzip_encode, gzip_stream, le_u32_prefix, lz4_block, lz4_declared_size,
    lz4_decode, lz4_encode, snappy_block, snappy_declared_len, snappy_decode, snappy_encode,
    snappy_header_len, snappy_input_fits, zlib_decode, zlib_encode, zlib_stream, zstd_decode, zstd_encode,
    zstd_input_fits, zstd_stream,
};
use crate::compression::config::{default_config, CompressionConfig, CompressionLevel};
use crate::compression::error::CompressionError;

verus! {

/// A compression algorithm.
#[derive(Debug, Clone, Copy, PartialEq, Eq, Structural)]
#[non_exhaustive]
pub enum CompressionAlgorithm {
    /// gzip (RFC 1952) streams.
    Gzip,
    /// zlib (RFC 1950) streams.
    Zlib,
    /// zstd frames.
    Zstd,
    /// LZ4 blocks with a prepended size.
    Lz4,
    /// Snappy raw blocks.
    Snappy,
}

/// The algorithm's name.
pub open spec fn algorithm_name(a: CompressionAlgorithm) -> Seq<char> {
    match a {
        CompressionAlgorithm::Gzip => "gzip"@,
        CompressionAlgorithm::Zlib => "zlib"@,
        CompressionAlgorithm::Zstd => "zstd"@,
        CompressionAlgorithm::Lz4 => "lz4"@,
        CompressionAlgorithm::Snappy => "snappy"@,
    }
}

/// What the algorithm's decoder makes of `c`.
pub open spec fn decoded(a: CompressionAlgorithm, c: Seq<u8>) -> Option<Seq<u8>> {
    match a {
        CompressionAlgorithm::Gzip => gzip_stream(c),
        CompressionAlgorithm::Zlib => zlib_stream(c),
        CompressionAlgorithm::Zstd => zstd_stream(c),
        CompressionAlgorithm::Lz4 => lz4_block(c),
        CompressionAlgorithm::Snappy => snappy_block(c),
    }
}

/// The decompressed size that `c` declares before decoding, for the block
/// formats that declare one.
pub open spec fn declared_size(a: CompressionAlgorithm, c: Seq<u8>) -> Option<nat> {
    match a {
        CompressionAlgorithm::Lz4 => if c.len() >= 4 {
            Some(le_u32_prefix(c))
        } else {
            None
        },
        CompressionAlgorithm::Snappy => match snappy_header_len(c) {
            Some(n) => Some(n as nat),
            None => None,
        },
        _ => None,
    }
}

/// Whether `size` bytes are within the limit.
pub open spec fn within_limit(limit: Option<usize>, size: nat) -> bool {
    match limit {
        Some(l) => size <= l,
        None => true,
    }
}

/// Whether the algorithm accepts the level: the flate codecs take levels up
/// to 10.
pub open spec fn level_accepted(a: CompressionAlgorithm, level: CompressionLevel) -> bool {
    match a {
        CompressionAlgorithm::Gzip | CompressionAlgorithm::Zlib => match level {
            CompressionLevel::Custom(n) => n <= 10,
            _ => true,
        },
        _ => true,
    }
}

/// The flate level for a level: 6 by default, 1 fast, 9 best.
pub open spec fn flate_level_spec(level: CompressionLevel) -> u32 {
    match level {
        CompressionLevel::Default => 6,
        CompressionLevel::Fast => 1,
        CompressionLevel::Best => 9,
        CompressionLevel::Custom(n) => n,
    }
}

/// The number a level stands for in messages of block codecs.
pub open spec fn level_number(level: CompressionLevel) -> u32 {
    match level {
        CompressionLevel::Default => 0,
        CompressionLevel::Fast => 1,
        CompressionLevel::Best => 9,
        CompressionLevel::Custom(n) => n,
    }
}

/// Why a block codec refuses levels.
pub open spec fn block_level_reason(a: CompressionAlgorithm) -> Seq<char> {
    match a {
        CompressionAlgorithm::Lz4 => "lz4 block compression does not expose configurable levels"@,
        _ => "snappy raw block compression does not expose configurable levels"@,
    }
}

/// The level an algorithm refuses, if it refuses this one: block codecs take
/// only the default level, and zstd levels must fit in `i32`.
pub open spec fn refused_level(a: CompressionAlgorithm, level: CompressionLevel) -> Option<(u32, Seq<char>)> {
    match a {
        CompressionAlgorithm::Lz4 | CompressionAlgorithm::Snappy => if level
            == CompressionLevel::Default {
            None
        } else {
            Some((level_number(level), block_level_reason(a)))
        },
        CompressionAlgorithm::Zstd => match level {
            CompressionLevel::Custom(n) => if n > i32::MAX {
                Some((n, "zstd levels must fit in i32"@))
            } else {
                None
            },
            _ => None,
        },
        _ => None,
    }
}

/// The zstd level for a level: 0 by default, 1 fast, 21 best.
pub open spec fn zstd_level_spec(level: CompressionLevel) -> int {
    match level {
        CompressionLevel::Default => 0,
        CompressionLevel::Fast => 1,
        CompressionLevel::Best => 21,
        CompressionLevel::Custom(n) => n as int,
    }
}

/// The flate2 level number for a level.
pub fn flate_level(level: CompressionLevel) -> (n: u32)
    ensures
        n == flate_level_spec(level),
{
    match level {
        CompressionLevel::Default => 6,
        CompressionLevel::Fast => 1,
        CompressionLevel::Best => 9,
        CompressionLevel::Custom(n) => n,
    }
}

/// The zstd level for a level; levels that do not fit in `i32` are refused.
pub fn zstd_level(level: CompressionLevel) -> (r: Result<i32, CompressionError>)
    ensures
        refused_level(CompressionAlgorithm::Zstd, level) matches Some((n, reason)) ==> (r matches Err(
            CompressionError::UnsupportedLevel { algorithm, level: l, reason: why },
        ) && algorithm@ == "zstd"@ && l == n && why@ == reason),
        refused_level(CompressionAlgorithm::Zstd, level) is None ==> (r matches Ok(v) && v
            == zstd_level_spec(level)),
{
    match level {
        CompressionLevel::Default => Ok(0),
        CompressionLevel::Fast => Ok(1),
        CompressionLevel::Best => Ok(21),
        CompressionLevel::Custom(n) => if n > 2147483647 {
            Err(
                CompressionError::UnsupportedLevel {
                    algorithm: "zstd",
                    level: n,
                    reason: "zstd levels must fit in i32",
                },
            )
        } else {
            Ok(n as i32)
        },
    }
}

/// Refuses every level but the default, for the block codecs that have no
/// levels.
pub fn reject_non_default_level(algorithm: CompressionAlgorithm, level: CompressionLevel) -> (r: Result<
    (),
    CompressionError,
>)
    requires
        algorithm == CompressionAlgorithm::Lz4 || algorithm == CompressionAlgorithm::Snappy,
    ensures
        refused_level(algorithm, level) matches Some((n, reason)) ==> (r matches Err(
            CompressionError::UnsupportedLevel { algorithm: name, level: l, reason: why },
        ) && name@ == algorithm_name(algorithm) && l == n && why@ == reason),
        refused_level(algorithm, level) is None ==> r is Ok,
{
    let reason = match algorithm {
        CompressionAlgorithm::Lz4 => "lz4 block compression does not expose configurable levels",
        _ => "snappy raw block compression does not expose configurable levels",
    };
    let number = match level {
        CompressionLevel::Default => {
            return Ok(());
        },
        CompressionLevel::Fast => 1,
        CompressionLevel::Best => 9,
        CompressionLevel::Custom(n) => n,
    };
    Err(CompressionError::UnsupportedLevel { algorithm: algorithm.name(), level: number, reason })
}

/// Checks a decompressed size against the limit.
pub fn enforce_size_limit(algorithm: &'static str, actual: usize, config: CompressionConfig) -> (r: Result<
    (),
    CompressionError,
>)
    ensures
        within_limit(config.max_decompressed_size, actual as nat) ==> r is Ok,
        !within_limit(config.max_decompressed_size, actual as nat) ==> (r matches Err(
            CompressionError::DecompressedSizeLimitExceeded { algorithm: a, limit, actual: n },
        ) && a == algorithm && Some(limit) == config.max_decompressed_size && n == actual),
{
    match config.max_decompressed_size {
        Some(limit) => if actual > limit {
            Err(CompressionError::DecompressedSizeLimitExceeded { algorithm, limit, actual })
        } else {
            Ok(())
        },
        None => Ok(()),
    }
}

/// How many bytes a streaming decoder may yield: one more than the limit,
/// so that going over it shows.
pub open spec fn read_bound(limit: Option<usize>) -> u64 {
    match limit {
        Some(l) => if l as nat >= u64::MAX { u64::MAX } else { (l + 1) as u64 },
        None => u64::MAX,
    }
}

fn read_bound_for(limit: Option<usize>) -> (b: u64)
    ensures
        b == read_bound(limit),
{
    match limit {
        Some(l) => if l as u64 == u64::MAX {
            u64::MAX
        } else {
            l as u64 + 1
        },
        None => u64::MAX,
    }
}

/// The bytes the algorithm's encoder writes for `plain` at `level`: gzip
/// and zlib at the flate level of `level`, zstd at its zstd level; the block
/// codecs have no levels.
pub open spec fn compressed_output(a: CompressionAlgorithm, plain: Seq<u8>, level: CompressionLevel) -> Seq<u8> {
    match a {
        CompressionAlgorithm::Gzip => gzip_compressed(plain, flate_level_spec(level)),
        CompressionAlgorithm::Zlib => zlib_compressed(plain, flate_level_spec(level)),
        CompressionAlgorithm::Zstd => zstd_compressed(plain, zstd_level_spec(level)),
        CompressionAlgorithm::Lz4 => lz4_compressed(plain),
        CompressionAlgorithm::Snappy => snappy_compressed(plain),
    }
}

/// Whether the algorithm's encoder succeeds on `n` bytes: always, but for
/// zstd and Snappy inputs past their codecs' size limits.
pub open spec fn encoder_succeeds(a: CompressionAlgorithm, n: nat) -> bool {
    match a {
        CompressionAlgorithm::Zstd => zstd_input_fits(n),
        CompressionAlgorithm::Snappy => snappy_input_fits(n),
        _ => true,
    }
}

/// Whether a compression outcome is right for `plain`: a level refusal when
/// the algorithm refuses the level; else success whenever the encoder takes
/// inputs of that size (`encoder_succeeds`), with the encoder's output at
/// the configured level (`compressed_output`), which the algorithm
/// decodes back to `plain` (LZ4 and Snappy also declare its size), and
/// otherwise at most a `Compress` error naming the algorithm.
pub open spec fn compression_correct(
    a: CompressionAlgorithm,
    plain: Seq<u8>,
    config: CompressionConfig,
    r: Result<Vec<u8>, CompressionError>,
) -> bool {
    match refused_level(a, config.level) {
        Some((n, reason)) => r matches Err(
            CompressionError::UnsupportedLevel { algorithm, level, reason: why },
        ) && algorithm@ == algorithm_name(a) && level == n && why@ == reason,
        None => {
            &&& r matches Ok(c) ==> c@ == compressed_output(a, plain, config.level)
            &&& r matches Ok(c) ==> (plain.len() <= u32::MAX || a != CompressionAlgorithm::Lz4) ==> (
            decoded(a, c@) == Some(plain) && (a == CompressionAlgorithm::Lz4 || a
                == CompressionAlgorithm::Snappy ==> declared_size(a, c@) == Some(plain.len())))
            &&& r matches Err(e) ==> (e matches CompressionError::Compress { algorithm, .. }
                && algorithm@ == algorithm_name(a))
            &&& encoder_succeeds(a, plain.len()) ==> r is Ok
        },
    }
}

/// How many decompressed bytes a decoder reports when `n` bytes exceed the
/// limit: the stream formats stop reading at `read_bound(limit)` bytes; the
/// block formats decode whole.
pub open spec fn observed_len(a: CompressionAlgorithm, n: nat, limit: Option<usize>) -> nat {
    match a {
        CompressionAlgorithm::Lz4 | CompressionAlgorithm::Snappy => n,
        _ => if n <= read_bound(limit) {
            n
        } else {
            read_bound(limit) as nat
        },
    }
}

/// Whether a decompression outcome is right for `c` under `limit`.
///
/// A success never exceeds the limit and, if shorter than `u64::MAX` bytes,
/// is the full output of a valid payload. A valid payload within the limit
/// (whose declared size, if any, is within it too) decodes to its content;
/// one over the limit is refused with a size error that names the
/// algorithm, the limit, and the size seen: the declared size when that is
/// over the limit, else the decoded size as far as the decoder read it.
pub open spec fn decompression_correct(
    a: CompressionAlgorithm,
    c: Seq<u8>,
    limit: Option<usize>,
    r: Result<Vec<u8>, CompressionError>,
) -> bool {
    &&& r matches Ok(v) ==> (within_limit(limit, v@.len()) && (v@.len() < u64::MAX ==> decoded(a, c)
        == Some(v@)))
    &&& (decoded(a, c) is Some && within_limit(limit, decoded(a, c)->0.len()) && decoded(
        a,
        c,
    )->0.len() < u64::MAX && (declared_size(
        a,
        c,
    ) is Some ==> within_limit(limit, declared_size(a, c)->0))) ==> (r matches Ok(v) && v@
        == decoded(a, c)->0)
    &&& (decoded(a, c) is Some && !within_limit(limit, decoded(a, c)->0.len()) && decoded(a, c)->0.len()
        < u64::MAX) ==> (r matches Err(
        CompressionError::DecompressedSizeLimitExceeded { algorithm, limit: l, actual },
    ) && algorithm@ == algorithm_name(a) && Some(l) == limit && ((declared_size(a, c) is Some
        && !within_limit(limit, declared_size(a, c)->0)) || actual == observed_len(
        a,
        decoded(a, c)->0.len(),
        limit,
    )))
    &&& (declared_size(a, c) is Some && !within_limit(limit, declared_size(a, c)->0)) ==> (r matches Err(
        CompressionError::DecompressedSizeLimitExceeded { algorithm, limit: l, actual },
    ) && algorithm@ == algorithm_name(a) && Some(l) == limit && actual == declared_size(a, c)->0)
}

/// Round trip: an algorithm that accepts the level compresses every input
/// it takes (all inputs but for zstd and Snappy beyond their codecs' size
/// limits), and decompresses the result back to the uncompressed bytes
/// under any limit that their length fits (for LZ4, whose size prefix is 32
/// bits wide, inputs of at most `u32::MAX` bytes).
pub proof fn lemma_compression_round_trip(
    a: CompressionAlgorithm,
    plain: Seq<u8>,
    config: CompressionConfig,
    compressed: Result<Vec<u8>, CompressionError>,
    limit: Option<usize>,
    restored: Result<Vec<u8>, CompressionError>,
)
    requires
        compression_correct(a, plain, config, compressed),
        refused_level(a, config.level) is None,
        encoder_succeeds(a, plain.len()),
        decompression_correct(a, compressed->Ok_0@, limit, restored),
        within_limit(limit, plain.len()),
        plain.len() < u64::MAX,
        a == CompressionAlgorithm::Lz4 ==> plain.len() <= u32::MAX,
    ensures
        compressed is Ok,
        restored matches Ok(v) && v@ == plain,
{
}


/// Every algorithm, in registry order.
pub open spec fn all_algorithms() -> Seq<CompressionAlgorithm> {
    seq![
        CompressionAlgorithm::Gzip,
        CompressionAlgorithm::Zlib,
        CompressionAlgorithm::Zstd,
        CompressionAlgorithm::Lz4,
        CompressionAlgorithm::Snappy,
    ]
}

impl CompressionAlgorithm {
    /// The algorithm's name.
    pub fn name(self) -> (r: &'static str)
        ensures
            r@ == algorithm_name(self),
    {
        match self {
            CompressionAlgorithm::Gzip => "gzip",
            CompressionAlgorithm::Zlib => "zlib",
            CompressionAlgorithm::Zstd => "zstd",
            CompressionAlgorithm::Lz4 => "lz4",
            CompressionAlgorithm::Snappy => "snappy",
        }
    }

    /// Compresses with the default configuration.
    pub fn compress(self, plain: &[u8]) -> (r: Result<Vec<u8>, CompressionError>)
        ensures
            compression_correct(self, plain@, default_config(), r),
    {
        self.compress_with_config(plain, CompressionConfig::new())
    }

    /// Compresses at the configured level.
    ///
    /// LZ4 and Snappy accept only the default level; zstd levels must fit in
    /// `i32`; other refusals are reported as such.
    pub fn compress_with_config(self, plain: &[u8], config: CompressionConfig) -> (r: Result<
        Vec<u8>,
        CompressionError,
    >)
        requires
            level_accepted(self, config.level),
        ensures
            compression_correct(self, plain@, config, r),
    {
        let algorithm = self.name();
        match self {
            CompressionAlgorithm::Gzip => match gzip_encode(plain, flate_level(config.level)) {
                Ok(c) => Ok(c),
                Err(source) => Err(CompressionError::Compress { algorithm, source }),
            },
            CompressionAlgorithm::Zlib => match zlib_encode(plain, flate_level(config.level)) {
                Ok(c) => Ok(c),
                Err(source) => Err(CompressionError::Compress { algorithm, source }),
            },
            CompressionAlgorithm::Zstd => {
                let level = match zstd_level(config.level) {
                    Ok(l) => l,
                    Err(e) => {
                        return Err(e);
                    },
                };
                match zstd_encode(plain, level) {
                    Ok(c) => Ok(c),
                    Err(source) => Err(CompressionError::Compress { algorithm, source }),
                }
            },
            CompressionAlgorithm::Lz4 => {
                match reject_non_default_level(self, config.level) {
                    Err(e) => {
                        return Err(e);
                    },
                    Ok(()) => {},
                }
                Ok(lz4_encode(plain))
            },
            CompressionAlgorithm::Snappy => {
                match reject_non_default_level(self, config.level) {
                    Err(e) => {
                        return Err(e);
                    },
                    Ok(()) => {},
                }
                let plain_len = plain.len();
                assert(plain@.len() == plain_len);
                match snappy_encode(plain) {
                    Ok(c) => Ok(c),
                    Err(source) => Err(CompressionError::Compress { algorithm, source }),
                }
            },
        }
    }

    /// Decompresses under the default 64 MiB limit.
    pub fn decompress(self, compressed: &[u8]) -> (r: Result<Vec<u8>, CompressionError>)
        ensures
            decompression_correct(self, compressed@, default_config().max_decompressed_size, r),
    {
        self.decompress_with_config(compressed, CompressionConfig::new())
    }

    /// Decompresses under the configured limit.
    ///
    /// Stream formats are read up to one byte past the limit; block formats
    /// are refused on a declared size over the limit before they are
    /// decoded. Output over the limit is refused with
    /// `DecompressedSizeLimitExceeded`.
    pub fn decompress_with_config(self, compressed: &[u8], config: CompressionConfig) -> (r: Result<
        Vec<u8>,
        CompressionError,
    >)
        ensures
            decompression_correct(self, compressed@, config.max_decompressed_size, r),
    {
        let algorithm = self.name();
        let limit = config.max_decompressed_size;
        let decoded_bytes = match self {
            CompressionAlgorithm::Gzip => gzip_decode(compressed, read_bound_for(limit)),
            CompressionAlgorithm::Zlib => zlib_decode(compressed, read_bound_for(limit)),
            CompressionAlgorithm::Zstd => zstd_decode(compressed, read_bound_for(limit)),
            CompressionAlgorithm::Lz4 => {
                match lz4_declared_size(compressed) {
                    Some(declared) => match enforce_size_limit(algorithm, declared, config) {
                        Err(e) => {
                            return Err(e);
                        },
                        Ok(()) => {},
                    },
                    None => {},
                }
                lz4_decode(compressed)
            },
            CompressionAlgorithm::Snappy => {
                match snappy_declared_len(compressed) {
                    Some(declared) => match enforce_size_limit(algorithm, declared, config) {
                        Err(e) => {
                            return Err(e);
                        },
                        Ok(()) => {},
                    },
                    None => {},
                }
                snappy_decode(compressed)
            },
        };
        let out = match decoded_bytes {
            Ok(v) => v,
            Err(source) => {
                return Err(CompressionError::Decompress { algorithm, source });
            },
        };
        match enforce_size_limit(algorithm, out.len(), config) {
            Err(e) => Err(e),
            Ok(()) => Ok(out),
        }
    }
}

/// Every algorithm, in registry order.
pub fn algorithms() -> (r: Vec<CompressionAlgorithm>)
    ensures
        r@ == all_algorithms(),
{
    vec![
        CompressionAlgorithm::Gzip,
        CompressionAlgorithm::Zlib,
        CompressionAlgorithm::Zstd,
        CompressionAlgorithm::Lz4,
        CompressionAlgorithm::Snappy,
    ]
}

/// The default algorithm: zstd.
pub fn default_algorithm() -> (r: CompressionAlgorithm)
    ensures
        r == CompressionAlgorithm::Zstd,
{
    CompressionAlgorithm::Zstd
}

} // verus!
