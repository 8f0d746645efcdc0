//! Errors of compression and decompression.
use vstd::prelude::*;
use crate::text_support::{decimal_chars, owned, push_decimal, push_str};

verus! {

/// An I/O error reported by a codec.
#[verifier::external_type_specification]
#[verifier::external_body]
pub struct ExIoError(std::io::Error);

/// Errors of compression and decompression.
#[derive(Debug)]
#[non_exhaustive]
pub enum CompressionError {
    /// The algorithm does not support the requested level.
    UnsupportedLevel {
        /// Algorithm name.
        algorithm: &'static str,
        /// Requested level.
        level: u32,
        /// Why it is not supported.
        reason: &'static str,
    },
    /// The algorithm does not support the requested operation.
    UnsupportedOperation {
        /// Algorithm name.
        algorithm: &'static str,
        /// The operation.
        operation: &'static str,
        /// Why it is not supported.
        reason: &'static str,
    },
    /// Compression failed.
    Compress {
        /// Algorithm name.
        algorithm: &'static str,
        /// The codec's error.
        source: std::io::Error,
    },
    /// Reading plain input for a compression stream failed.
    CompressRead {
        /// Algorithm name.
        algorithm: &'static str,
        /// The reader's error.
        source: std::io::Error,
    },
    /// Writing to a compression stream failed.
    CompressWrite {
        /// Algorithm name.
        algorithm: &'static str,
        /// The writer's error.
        source: std::io::Error,
    },
    /// Finishing a compression stream failed.
    CompressFinish {
        /// Algorithm name.
        algorithm: &'static str,
        /// The encoder's error.
        source: std::io::Error,
    },
    /// Decompression failed.
    Decompress {
        /// Algorithm name.
        algorithm: &'static str,
        /// The codec's error.
        source: std::io::Error,
    },
    /// Setting up a decompression stream failed.
    DecompressInit {
        /// Algorithm name.
        algorithm: &'static str,
        /// The decoder's error.
        source: std::io::Error,
    },
    /// Reading a decompression stream failed.
    DecompressRead {
        /// Algorithm name.
        algorithm: &'static str,
        /// The decoder's error.
        source: std::io::Error,
    },
    /// Writing decompressed output failed.
    DecompressWrite {
        /// Algorithm name.
        algorithm: &'static str,
        /// The writer's error.
        source: std::io::Error,
    },
    /// Decompressed output exceeded the configured limit.
    DecompressedSizeLimitExceeded {
        /// Algorithm name.
        algorithm: &'static str,
        /// Configured limit.
        limit: usize,
        /// Size observed or declared.
        actual: usize,
    },
}

/// The message that describes a compression error.
pub open spec fn compression_error_message(e: CompressionError) -> Seq<char> {
    match e {
        CompressionError::UnsupportedLevel { algorithm, level, reason } => algorithm@
            + " does not support compression level "@ + decimal_chars(level as nat) + ": "@
            + reason@,
        CompressionError::UnsupportedOperation { algorithm, operation, reason } => algorithm@
            + " does not support "@ + operation@ + ": "@ + reason@,
        CompressionError::Compress { algorithm, .. } => algorithm@ + " compression failed"@,
        CompressionError::CompressRead { algorithm, .. } => algorithm@
            + " compression stream read failed"@,
        CompressionError::CompressWrite { algorithm, .. } => algorithm@
            + " compression stream write failed"@,
        CompressionError::CompressFinish { algorithm, .. } => algorithm@
            + " compression stream finish failed"@,
        CompressionError::Decompress { algorithm, .. } => algorithm@ + " decompression failed"@,
        CompressionError::DecompressInit { algorithm, .. } => algorithm@
            + " decompression stream initialization failed"@,
        CompressionError::DecompressRead { algorithm, .. } => algorithm@
            + " decompression stream read failed"@,
        CompressionError::DecompressWrite { algorithm, .. } => algorithm@
            + " decompression stream write failed"@,
        CompressionError::DecompressedSizeLimitExceeded { algorithm, limit, actual } => algorithm@
            + " decompressed size "@ + decimal_chars(actual as nat) + " exceeded limit "@
            + decimal_chars(limit as nat),
    }
}

impl CompressionError {
    /// Whether the error wraps an I/O error of a codec, reader or writer.
    pub open spec fn has_io_source(self) -> bool {
        match self {
            CompressionError::UnsupportedLevel { .. } => false,
            CompressionError::UnsupportedOperation { .. } => false,
            CompressionError::DecompressedSizeLimitExceeded { .. } => false,
            _ => true,
        }
    }

    /// The underlying I/O error, for the variants that wrap one.
    pub fn io_source(&self) -> (r: Option<&std::io::Error>)
        ensures
            r is Some == self.has_io_source(),
    {
        match self {
            CompressionError::Compress { source, .. } => Some(source),
            CompressionError::CompressRead { source, .. } => Some(source),
            CompressionError::CompressWrite { source, .. } => Some(source),
            CompressionError::CompressFinish { source, .. } => Some(source),
            CompressionError::Decompress { source, .. } => Some(source),
            CompressionError::DecompressInit { source, .. } => Some(source),
            CompressionError::DecompressRead { source, .. } => Some(source),
            CompressionError::DecompressWrite { source, .. } => Some(source),
            _ => None,
        }
    }

    /// Human-readable description of the failure; it names the algorithm.
    pub fn message(&self) -> (m: String)
        ensures
            m@ == compression_error_message(*self),
    {
        match self {
            CompressionError::UnsupportedLevel { algorithm, level, reason } => {
                let mut m = owned(algorithm);
                push_str(&mut m, " does not support compression level ");
                push_decimal(&mut m, *level as u128);
                push_str(&mut m, ": ");
                push_str(&mut m, reason);
                m
            },
            CompressionError::UnsupportedOperation { algorithm, operation, reason } => {
                let mut m = owned(algorithm);
                push_str(&mut m, " does not support ");
                push_str(&mut m, operation);
                push_str(&mut m, ": ");
                push_str(&mut m, reason);
                m
            },
            CompressionError::Compress { algorithm, .. } => {
                let mut m = owned(algorithm);
                push_str(&mut m, " compression failed");
                m
            },
            CompressionError::CompressRead { algorithm, .. } => {
                let mut m = owned(algorithm);
                push_str(&mut m, " compression stream read failed");
                m
            },
            CompressionError::CompressWrite { algorithm, .. } => {
                let mut m = owned(algorithm);
                push_str(&mut m, " compression stream write failed");
                m
            },
            CompressionError::CompressFinish { algorithm, .. } => {
                let mut m = owned(algorithm);
                push_str(&mut m, " compression stream finish failed");
                m
            },
            CompressionError::Decompress { algorithm, .. } => {
                let mut m = owned(algorithm);
                push_str(&mut m, " decompression failed");
                m
            },
            CompressionError::DecompressInit { algorithm, .. } => {
                let mut m = owned(algorithm);
                push_str(&mut m, " decompression stream initialization failed");
                m
            },
            CompressionError::DecompressRead { algorithm, .. } => {
                let mut m = owned(algorithm);
                push_str(&mut m, " decompression stream read failed");
                m
            },
            CompressionError::DecompressWrite { algorithm, .. } => {
                let mut m = owned(algorithm);
                push_str(&mut m, " decompression stream write failed");
                m
            },
            CompressionError::DecompressedSizeLimitExceeded { algorithm, limit, actual } => {
                let mut m = owned(algorithm);
                push_str(&mut m, " decompressed size ");
                push_decimal(&mut m, *actual as u128);
                push_str(&mut m, " exceeded limit ");
                push_decimal(&mut m, *limit as u128);
                m
            },
        }
    }
}

} // verus!
