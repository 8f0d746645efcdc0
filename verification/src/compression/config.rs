//! Compression levels and decompression limits.
use vstd::prelude::*;

verus! {

/// Default decompressed-size limit: 64 MiB.
pub const DEFAULT_MAX_DECOMPRESSED_SIZE: usize = 64 * 1024 * 1024;

/// Requested compression level.
#[derive(Debug, Clone, Copy, PartialEq, Eq, Structural)]
pub enum CompressionLevel {
    /// The algorithm's default level.
    Default,
    /// Favor speed.
    Fast,
    /// Favor ratio.
    Best,
    /// An algorithm-specific level.
    Custom(u32),
}

impl Default for CompressionLevel {
    /// `CompressionLevel::Default`.
    fn default() -> (r: Self)
        ensures
            r == CompressionLevel::Default,
    {
        CompressionLevel::Default
    }
}

/// Compression settings: a level, and an optional limit on decompressed
/// output.
#[derive(Debug, Clone, Copy, PartialEq, Eq, Structural)]
pub struct CompressionConfig {
    /// Compression level.
    pub level: CompressionLevel,
    /// Largest decompressed output accepted, in bytes; `None` for no limit.
    pub max_decompressed_size: Option<usize>,
}

/// The safe default configuration: default level, 64 MiB decode limit.
pub open spec fn default_config() -> CompressionConfig {
    CompressionConfig {
        level: CompressionLevel::Default,
        max_decompressed_size: Some(DEFAULT_MAX_DECOMPRESSED_SIZE),
    }
}

impl Default for CompressionConfig {
    /// The default level with the 64 MiB decompressed-size limit.
    fn default() -> (r: Self)
        ensures
            r == default_config(),
    {
        CompressionConfig {
            level: CompressionLevel::Default,
            max_decompressed_size: Some(DEFAULT_MAX_DECOMPRESSED_SIZE),
        }
    }
}

impl CompressionConfig {
    /// The default configuration: default level, 64 MiB decode limit.
    pub fn new() -> (r: Self)
        ensures
            r == default_config(),
    {
        CompressionConfig {
            level: CompressionLevel::Default,
            max_decompressed_size: Some(DEFAULT_MAX_DECOMPRESSED_SIZE),
        }
    }

    /// Sets the compression level.
    pub fn with_level(self, level: CompressionLevel) -> (r: Self)
        ensures
            r == (CompressionConfig { level, ..self }),
    {
        CompressionConfig { level, max_decompressed_size: self.max_decompressed_size }
    }

    /// Sets the decompressed-size limit.
    pub fn with_max_decompressed_size(self, max_decompressed_size: usize) -> (r: Self)
        ensures
            r == (CompressionConfig { max_decompressed_size: Some(max_decompressed_size), ..self }),
    {
        CompressionConfig { level: self.level, max_decompressed_size: Some(max_decompressed_size) }
    }

    /// Removes the decompressed-size limit.
    pub fn without_decompressed_size_limit(self) -> (r: Self)
        ensures
            r == (CompressionConfig { max_decompressed_size: None, ..self }),
    {
        CompressionConfig { level: self.level, max_decompressed_size: None }
    }
}

} // verus!
