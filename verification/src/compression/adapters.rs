//! The `Compressor` trait and one adapter per algorithm.
use vstd::prelude::*;
use crate::compression::config::{default_config, CompressionConfig, CompressionLevel};
use crate::compression::error::CompressionError;
use crate::compression::registry::{
    compression_correct, decompression_correct, enforce_size_limit, level_accepted, within_limit,
    CompressionAlgorithm,
};

verus! {

/// A block compressor: compresses and decompresses whole buffers.
///
/// Implementations provide `name`, `compress_with_config` and `decompress`;
/// `compress` uses the default configuration, and `decompress_with_config`
/// decompresses and then enforces the configured size limit.
pub trait Compressor: Copy + Sized {
    /// Whether the compressor accepts the level.
    spec fn accepts_level(&self, level: CompressionLevel) -> bool;

    /// The compressor's name.
    spec fn name_spec(&self) -> Seq<char>;

    /// Whether `r` is a right outcome of compressing `plain` under `config`.
    spec fn compresses_to(
        &self,
        plain: Seq<u8>,
        config: CompressionConfig,
        r: Result<Vec<u8>, CompressionError>,
    ) -> bool;

    /// Whether `r` is a right outcome of decompressing `compressed`.
    spec fn decompresses_to(&self, compressed: Seq<u8>, r: Result<Vec<u8>, CompressionError>) -> bool;

    /// The compressor's name.
    fn name(&self) -> (r: &'static str)
        ensures
            r@ == self.name_spec(),
    ;

    /// Compresses with the default configuration: the outcome of
    /// `compress_with_config` under `CompressionConfig::new()`.
    fn compress(&self, plain: &[u8]) -> (r: Result<Vec<u8>, CompressionError>)
        requires
            self.accepts_level(CompressionLevel::Default),
        ensures
            self.compresses_to(plain@, default_config(), r),
    {
        self.compress_with_config(plain, CompressionConfig::new())
    }

    /// Compresses with the given configuration.
    fn compress_with_config(&self, plain: &[u8], config: CompressionConfig) -> (r: Result<
        Vec<u8>,
        CompressionError,
    >)
        requires
            self.accepts_level(config.level),
        ensures
            self.compresses_to(plain@, config, r),
    ;

    /// Decompresses a whole buffer.
    fn decompress(&self, compressed: &[u8]) -> (r: Result<Vec<u8>, CompressionError>)
        ensures
            self.decompresses_to(compressed@, r),
    ;

    /// Decompresses, refusing output over the configured limit.
    ///
    /// By default: the outcome of `decompress`, except that output over the
    /// limit is refused with `DecompressedSizeLimitExceeded`, naming this
    /// compressor, the limit and the output's size.
    fn decompress_with_config(&self, compressed: &[u8], config: CompressionConfig) -> (r: Result<
        Vec<u8>,
        CompressionError,
    >)
        ensures
            r matches Ok(v) ==> within_limit(config.max_decompressed_size, v@.len()),
        default_ensures
            exists|d: Result<Vec<u8>, CompressionError>|
                #[trigger] self.decompresses_to(compressed@, d) && limit_applied(
                    self.name_spec(),
                    config.max_decompressed_size,
                    d,
                    r,
                ),
    {
        let out = match self.decompress(compressed) {
            Ok(v) => v,
            Err(e) => {
                return Err(e);
            },
        };
        match enforce_size_limit(self.name(), out.len(), config) {
            Err(e) => Err(e),
            Ok(()) => Ok(out),
        }
    }
}

/// What applying the size limit to a decompression outcome `d` gives: a
/// failure or output within the limit unchanged; output over it refused
/// with `DecompressedSizeLimitExceeded` naming `name`, the limit and the
/// output's size.
pub open spec fn limit_applied(
    name: Seq<char>,
    limit: Option<usize>,
    d: Result<Vec<u8>, CompressionError>,
    r: Result<Vec<u8>, CompressionError>,
) -> bool {
    match d {
        Ok(v) => if within_limit(limit, v@.len()) {
            r == d
        } else {
            r matches Err(CompressionError::DecompressedSizeLimitExceeded { algorithm, limit: l, actual })
                && algorithm@ == name && Some(l) == limit && actual == v@.len()
        },
        Err(_) => r == d,
    }
}

/// The gzip compressor.
#[derive(Debug, Clone, Copy, Default)]
pub struct Gzip;

/// The zlib compressor.
#[derive(Debug, Clone, Copy, Default)]
pub struct Zlib;

/// The zstd compressor.
#[derive(Debug, Clone, Copy, Default)]
pub struct Zstd;

/// The LZ4 block compressor (size-prepended blocks).
#[derive(Debug, Clone, Copy, Default)]
pub struct Lz4;

/// The Snappy raw block compressor.
#[derive(Debug, Clone, Copy, Default)]
pub struct Snappy;

impl Compressor for Gzip {
    open spec fn accepts_level(&self, level: CompressionLevel) -> bool {
        level_accepted(CompressionAlgorithm::Gzip, level)
    }

    open spec fn name_spec(&self) -> Seq<char> {
        "gzip"@
    }

    open spec fn compresses_to(
        &self,
        plain: Seq<u8>,
        config: CompressionConfig,
        r: Result<Vec<u8>, CompressionError>,
    ) -> bool {
        compression_correct(CompressionAlgorithm::Gzip, plain, config, r)
    }

    open spec fn decompresses_to(&self, compressed: Seq<u8>, r: Result<Vec<u8>, CompressionError>) -> bool {
        decompression_correct(
            CompressionAlgorithm::Gzip,
            compressed,
            default_config().max_decompressed_size,
            r,
        )
    }

    fn name(&self) -> (r: &'static str)
        ensures
            r@ == "gzip"@,
    {
        CompressionAlgorithm::Gzip.name()
    }

    fn compress_with_config(&self, plain: &[u8], config: CompressionConfig) -> (r: Result<
        Vec<u8>,
        CompressionError,
    >)
        ensures
            compression_correct(CompressionAlgorithm::Gzip, plain@, config, r),
    {
        CompressionAlgorithm::Gzip.compress_with_config(plain, config)
    }

    fn decompress(&self, compressed: &[u8]) -> (r: Result<Vec<u8>, CompressionError>)
        ensures
            decompression_correct(
                CompressionAlgorithm::Gzip,
                compressed@,
                default_config().max_decompressed_size,
                r,
            ),
    {
        CompressionAlgorithm::Gzip.decompress(compressed)
    }

    fn decompress_with_config(&self, compressed: &[u8], config: CompressionConfig) -> (r: Result<
        Vec<u8>,
        CompressionError,
    >)
        ensures
            decompression_correct(
                CompressionAlgorithm::Gzip,
                compressed@,
                config.max_decompressed_size,
                r,
            ),
    {
        CompressionAlgorithm::Gzip.decompress_with_config(compressed, config)
    }
}

impl Compressor for Zlib {
    open spec fn accepts_level(&self, level: CompressionLevel) -> bool {
        level_accepted(CompressionAlgorithm::Zlib, level)
    }

    open spec fn name_spec(&self) -> Seq<char> {
        "zlib"@
    }

    open spec fn compresses_to(
        &self,
        plain: Seq<u8>,
        config: CompressionConfig,
        r: Result<Vec<u8>, CompressionError>,
    ) -> bool {
        compression_correct(CompressionAlgorithm::Zlib, plain, config, r)
    }

    open spec fn decompresses_to(&self, compressed: Seq<u8>, r: Result<Vec<u8>, CompressionError>) -> bool {
        decompression_correct(
            CompressionAlgorithm::Zlib,
            compressed,
            default_config().max_decompressed_size,
            r,
        )
    }

    fn name(&self) -> (r: &'static str)
        ensures
            r@ == "zlib"@,
    {
        CompressionAlgorithm::Zlib.name()
    }

    fn compress_with_config(&self, plain: &[u8], config: CompressionConfig) -> (r: Result<
        Vec<u8>,
        CompressionError,
    >)
        ensures
            compression_correct(CompressionAlgorithm::Zlib, plain@, config, r),
    {
        CompressionAlgorithm::Zlib.compress_with_config(plain, config)
    }

    fn decompress(&self, compressed: &[u8]) -> (r: Result<Vec<u8>, CompressionError>)
        ensures
            decompression_correct(
                CompressionAlgorithm::Zlib,
                compressed@,
                default_config().max_decompressed_size,
                r,
            ),
    {
        CompressionAlgorithm::Zlib.decompress(compressed)
    }

    fn decompress_with_config(&self, compressed: &[u8], config: CompressionConfig) -> (r: Result<
        Vec<u8>,
        CompressionError,
    >)
        ensures
            decompression_correct(
                CompressionAlgorithm::Zlib,
                compressed@,
                config.max_decompressed_size,
                r,
            ),
    {
        CompressionAlgorithm::Zlib.decompress_with_config(compressed, config)
    }
}

impl Compressor for Zstd {
    open spec fn accepts_level(&self, level: CompressionLevel) -> bool {
        level_accepted(CompressionAlgorithm::Zstd, level)
    }

    open spec fn name_spec(&self) -> Seq<char> {
        "zstd"@
    }

    open spec fn compresses_to(
        &self,
        plain: Seq<u8>,
        config: CompressionConfig,
        r: Result<Vec<u8>, CompressionError>,
    ) -> bool {
        compression_correct(CompressionAlgorithm::Zstd, plain, config, r)
    }

    open spec fn decompresses_to(&self, compressed: Seq<u8>, r: Result<Vec<u8>, CompressionError>) -> bool {
        decompression_correct(
            CompressionAlgorithm::Zstd,
            compressed,
            default_config().max_decompressed_size,
            r,
        )
    }

    fn name(&self) -> (r: &'static str)
        ensures
            r@ == "zstd"@,
    {
        CompressionAlgorithm::Zstd.name()
    }

    fn compress_with_config(&self, plain: &[u8], config: CompressionConfig) -> (r: Result<
        Vec<u8>,
        CompressionError,
    >)
        ensures
            compression_correct(CompressionAlgorithm::Zstd, plain@, config, r),
    {
        CompressionAlgorithm::Zstd.compress_with_config(plain, config)
    }

    fn decompress(&self, compressed: &[u8]) -> (r: Result<Vec<u8>, CompressionError>)
        ensures
            decompression_correct(
                CompressionAlgorithm::Zstd,
                compressed@,
                default_config().max_decompressed_size,
                r,
            ),
    {
        CompressionAlgorithm::Zstd.decompress(compressed)
    }

    fn decompress_with_config(&self, compressed: &[u8], config: CompressionConfig) -> (r: Result<
        Vec<u8>,
        CompressionError,
    >)
        ensures
            decompression_correct(
                CompressionAlgorithm::Zstd,
                compressed@,
                config.max_decompressed_size,
                r,
            ),
    {
        CompressionAlgorithm::Zstd.decompress_with_config(compressed, config)
    }
}

impl Compressor for Lz4 {
    open spec fn accepts_level(&self, level: CompressionLevel) -> bool {
        level_accepted(CompressionAlgorithm::Lz4, level)
    }

    open spec fn name_spec(&self) -> Seq<char> {
        "lz4"@
    }

    open spec fn compresses_to(
        &self,
        plain: Seq<u8>,
        config: CompressionConfig,
        r: Result<Vec<u8>, CompressionError>,
    ) -> bool {
        compression_correct(CompressionAlgorithm::Lz4, plain, config, r)
    }

    open spec fn decompresses_to(&self, compressed: Seq<u8>, r: Result<Vec<u8>, CompressionError>) -> bool {
        decompression_correct(
            CompressionAlgorithm::Lz4,
            compressed,
            default_config().max_decompressed_size,
            r,
        )
    }

    fn name(&self) -> (r: &'static str)
        ensures
            r@ == "lz4"@,
    {
        CompressionAlgorithm::Lz4.name()
    }

    fn compress_with_config(&self, plain: &[u8], config: CompressionConfig) -> (r: Result<
        Vec<u8>,
        CompressionError,
    >)
        ensures
            compression_correct(CompressionAlgorithm::Lz4, plain@, config, r),
    {
        CompressionAlgorithm::Lz4.compress_with_config(plain, config)
    }

    fn decompress(&self, compressed: &[u8]) -> (r: Result<Vec<u8>, CompressionError>)
        ensures
            decompression_correct(
                CompressionAlgorithm::Lz4,
                compressed@,
                default_config().max_decompressed_size,
                r,
            ),
    {
        CompressionAlgorithm::Lz4.decompress(compressed)
    }

    fn decompress_with_config(&self, compressed: &[u8], config: CompressionConfig) -> (r: Result<
        Vec<u8>,
        CompressionError,
    >)
        ensures
            decompression_correct(
                CompressionAlgorithm::Lz4,
                compressed@,
                config.max_decompressed_size,
                r,
            ),
    {
        CompressionAlgorithm::Lz4.decompress_with_config(compressed, config)
    }
}

impl Compressor for Snappy {
    open spec fn accepts_level(&self, level: CompressionLevel) -> bool {
        level_accepted(CompressionAlgorithm::Snappy, level)
    }

    open spec fn name_spec(&self) -> Seq<char> {
        "snappy"@
    }

    open spec fn compresses_to(
        &self,
        plain: Seq<u8>,
        config: CompressionConfig,
        r: Result<Vec<u8>, CompressionError>,
    ) -> bool {
        compression_correct(CompressionAlgorithm::Snappy, plain, config, r)
    }

    open spec fn decompresses_to(&self, compressed: Seq<u8>, r: Result<Vec<u8>, CompressionError>) -> bool {
        decompression_correct(
            CompressionAlgorithm::Snappy,
            compressed,
            default_config().max_decompressed_size,
            r,
        )
    }

    fn name(&self) -> (r: &'static str)
        ensures
            r@ == "snappy"@,
    {
        CompressionAlgorithm::Snappy.name()
    }

    fn compress_with_config(&self, plain: &[u8], config: CompressionConfig) -> (r: Result<
        Vec<u8>,
        CompressionError,
    >)
        ensures
            compression_correct(CompressionAlgorithm::Snappy, plain@, config, r),
    {
        CompressionAlgorithm::Snappy.compress_with_config(plain, config)
    }

    fn decompress(&self, compressed: &[u8]) -> (r: Result<Vec<u8>, CompressionError>)
        ensures
            decompression_correct(
                CompressionAlgorithm::Snappy,
                compressed@,
                default_config().max_decompressed_size,
                r,
            ),
    {
        CompressionAlgorithm::Snappy.decompress(compressed)
    }

    fn decompress_with_config(&self, compressed: &[u8], config: CompressionConfig) -> (r: Result<
        Vec<u8>,
        CompressionError,
    >)
        ensures
            decompression_correct(
                CompressionAlgorithm::Snappy,
                compressed@,
                config.max_decompressed_size,
                r,
            ),
    {
        CompressionAlgorithm::Snappy.decompress_with_config(compressed, config)
    }
}

} // verus!
