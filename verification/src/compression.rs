//! Compression with explicit levels and decompressed-size limits over gzip,
//! zlib, zstd, LZ4 and Snappy.

pub mod adapters;
pub mod codecs;
pub mod config;
pub mod error;
pub mod registry;
pub mod stream;

pub use config::{CompressionConfig, CompressionLevel, DEFAULT_MAX_DECOMPRESSED_SIZE};
pub use error::CompressionError;
pub use registry::{algorithms, default_algorithm, CompressionAlgorithm};
pub use adapters::{Compressor, Gzip, Lz4, Snappy, Zlib, Zstd};
pub use stream::{LimitedReader, ReadPlan};
