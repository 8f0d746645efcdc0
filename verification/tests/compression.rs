use std::io::Write;

use bluetape_rs::compression::{
    algorithms, default_algorithm, CompressionAlgorithm, CompressionConfig, CompressionError,
    CompressionLevel, Compressor, Gzip, Lz4, Snappy, Zlib, Zstd, DEFAULT_MAX_DECOMPRESSED_SIZE,
};

const PAYLOAD: &[u8] = br#"{"id":1,"name":"compression","tags":["blue","tape","rust"]}"#;

fn large_payload() -> Vec<u8> {
    vec![b'x'; 20_000]
}

fn encode_varint(mut value: usize) -> Vec<u8> {
    let mut encoded = Vec::new();
    while value >= 0x80 {
        encoded.push((value as u8) | 0x80);
        value >>= 7;
    }
    encoded.push(value as u8);
    encoded
}

#[test]
fn registry_contains_compiled_algorithms() {
    for algorithm in algorithms() {
        assert!(!algorithm.name().is_empty());
    }
}

#[test]
fn default_config_applies_decode_safety_limit() {
    assert_eq!(
        CompressionConfig::new().max_decompressed_size,
        Some(DEFAULT_MAX_DECOMPRESSED_SIZE)
    );
    assert_eq!(
        CompressionConfig::default().max_decompressed_size,
        Some(DEFAULT_MAX_DECOMPRESSED_SIZE)
    );
}

#[test]
fn compiled_algorithms_round_trip_payload() {
    for algorithm in algorithms() {
        let compressed = algorithm.compress(PAYLOAD).unwrap();
        let restored = algorithm.decompress(&compressed).unwrap();
        assert_eq!(restored, PAYLOAD, "{}", algorithm.name());
    }
}

#[test]
fn compiled_algorithms_round_trip_empty_input() {
    for algorithm in algorithms() {
        let compressed = algorithm.compress(&[]).unwrap();
        let restored = algorithm.decompress(&compressed).unwrap();
        assert!(restored.is_empty(), "{}", algorithm.name());
    }
}

#[test]
fn compiled_algorithms_reject_corrupted_payload() {
    for algorithm in algorithms() {
        let corrupted: &[u8] = match algorithm.name() {
            "deflate" => &[0x07],
            "snappy" => &[0x80],
            _ => b"bad",
        };

        let err = algorithm.decompress(corrupted).unwrap_err();
        assert!(
            matches!(
                err,
                CompressionError::Decompress { .. }
                    | CompressionError::DecompressInit { .. }
                    | CompressionError::DecompressRead { .. }
            ),
            "{}",
            algorithm.name()
        );
        assert!(err.io_source().is_some(), "{}", algorithm.name());
        assert!(err.message().contains(algorithm.name()));
    }
}

#[test]
fn compiled_algorithms_reject_decompressed_size_over_limit() {
    for algorithm in algorithms() {
        let compressed = algorithm.compress(PAYLOAD).unwrap();
        let err = algorithm
            .decompress_with_config(
                &compressed,
                CompressionConfig::new().with_max_decompressed_size(PAYLOAD.len() - 1),
            )
            .unwrap_err();
        assert!(
            matches!(err, CompressionError::DecompressedSizeLimitExceeded { .. }),
            "{}",
            algorithm.name()
        );
    }
}

#[test]
fn compiled_algorithms_accept_exact_decompressed_size_limit() {
    for algorithm in algorithms() {
        let compressed = algorithm.compress(PAYLOAD).unwrap();
        let restored = algorithm
            .decompress_with_config(
                &compressed,
                CompressionConfig::new().with_max_decompressed_size(PAYLOAD.len()),
            )
            .unwrap();
        assert_eq!(restored, PAYLOAD, "{}", algorithm.name());
    }
}

#[test]
fn lz4_rejects_declared_size_over_limit_before_block_decode() {
    let declared_size = 128 * 1024 * 1024_u32;
    let compressed = declared_size.to_le_bytes();
    let err = Lz4
        .decompress_with_config(
            &compressed,
            CompressionConfig::new().with_max_decompressed_size(1024),
        )
        .unwrap_err();
    assert!(matches!(
        err,
        CompressionError::DecompressedSizeLimitExceeded {
            algorithm: "lz4",
            limit: 1024,
            actual,
        } if actual == declared_size as usize
    ));
}

#[test]
fn snappy_rejects_declared_size_over_limit_before_raw_decode() {
    let declared_size = 128 * 1024 * 1024_usize;
    let compressed = encode_varint(declared_size);
    let err = Snappy
        .decompress_with_config(
            &compressed,
            CompressionConfig::new().with_max_decompressed_size(1024),
        )
        .unwrap_err();
    assert!(matches!(
        err,
        CompressionError::DecompressedSizeLimitExceeded {
            algorithm: "snappy",
            limit: 1024,
            actual,
        } if actual == declared_size
    ));
}

#[test]
fn zstd_rejects_custom_levels_that_do_not_fit_i32() {
    let err = Zstd
        .compress_with_config(
            PAYLOAD,
            CompressionConfig::new().with_level(CompressionLevel::Custom(u32::MAX)),
        )
        .unwrap_err();

    assert!(matches!(
        err,
        CompressionError::UnsupportedLevel {
            algorithm: "zstd",
            level: u32::MAX,
            ..
        }
    ));
}

#[test]
fn block_codecs_reject_non_default_levels() {
    for algorithm in algorithms() {
        if !matches!(algorithm.name(), "lz4" | "snappy") {
            continue;
        }

        let err = algorithm
            .compress_with_config(
                PAYLOAD,
                CompressionConfig::new().with_level(CompressionLevel::Best),
            )
            .unwrap_err();

        assert!(
            matches!(err, CompressionError::UnsupportedLevel { .. }),
            "{}",
            algorithm.name()
        );
    }
}

#[test]
fn registry_lists_algorithms_in_order_and_defaults_to_zstd() {
    let names: Vec<&str> = algorithms().iter().map(|a| a.name()).collect();
    assert_eq!(names, vec!["gzip", "zlib", "zstd", "lz4", "snappy"]);
    assert_eq!(default_algorithm(), CompressionAlgorithm::Zstd);
}

#[test]
fn round_trip_law_holds_for_a_large_payload_at_its_exact_size() {
    let payload = large_payload();
    for algorithm in algorithms() {
        let compressed = algorithm.compress(&payload).unwrap();
        assert_ne!(compressed, payload, "{}", algorithm.name());
        let restored = algorithm
            .decompress_with_config(
                &compressed,
                CompressionConfig::new().with_max_decompressed_size(payload.len()),
            )
            .unwrap();
        assert_eq!(restored, payload, "{}", algorithm.name());
        let unlimited = algorithm
            .decompress_with_config(
                &compressed,
                CompressionConfig::new().without_decompressed_size_limit(),
            )
            .unwrap();
        assert_eq!(unlimited, payload, "{}", algorithm.name());
    }
}

#[test]
fn stream_codecs_report_the_observed_size_over_the_limit() {
    for algorithm in [CompressionAlgorithm::Gzip, CompressionAlgorithm::Zlib, CompressionAlgorithm::Zstd] {
        let compressed = algorithm.compress(PAYLOAD).unwrap();
        let err = algorithm
            .decompress_with_config(
                &compressed,
                CompressionConfig::new().with_max_decompressed_size(10),
            )
            .unwrap_err();
        match err {
            CompressionError::DecompressedSizeLimitExceeded { algorithm: name, limit, actual } => {
                assert_eq!(name, algorithm.name());
                assert_eq!(limit, 10);
                assert_eq!(actual, 11);
            }
            other => panic!("unexpected error: {}", other.message()),
        }
    }
}

#[test]
fn adapters_agree_with_the_registry() {
    let gz = Gzip.compress(PAYLOAD).unwrap();
    assert_eq!(Gzip.decompress(&gz).unwrap(), PAYLOAD);
    let zl = Zlib.compress(PAYLOAD).unwrap();
    assert_eq!(Zlib.decompress(&zl).unwrap(), PAYLOAD);
    let zs = Zstd.compress(PAYLOAD).unwrap();
    assert_eq!(Zstd.decompress(&zs).unwrap(), PAYLOAD);
    let lz = Lz4.compress(PAYLOAD).unwrap();
    assert_eq!(&lz[..4], &(PAYLOAD.len() as u32).to_le_bytes());
    assert_eq!(Lz4.decompress(&lz).unwrap(), PAYLOAD);
    let sn = Snappy.compress(PAYLOAD).unwrap();
    assert_eq!(sn[0] as usize, PAYLOAD.len());
    assert_eq!(Snappy.decompress(&sn).unwrap(), PAYLOAD);
    assert_eq!(Gzip.name(), "gzip");
    assert_eq!(Snappy.name(), "snappy");
}

#[test]
fn flate_codecs_accept_every_named_level() {
    for level in [CompressionLevel::Fast, CompressionLevel::Best, CompressionLevel::Custom(0), CompressionLevel::Custom(10)] {
        for algorithm in [CompressionAlgorithm::Gzip, CompressionAlgorithm::Zlib] {
            let config = CompressionConfig::new().with_level(level);
            let compressed = algorithm.compress_with_config(PAYLOAD, config).unwrap();
            assert_eq!(algorithm.decompress(&compressed).unwrap(), PAYLOAD);
        }
    }
}

#[test]
fn compression_error_messages_name_the_failure() {
    let err = CompressionError::DecompressedSizeLimitExceeded {
        algorithm: "lz4",
        limit: 1024,
        actual: 4096,
    };
    assert_eq!(err.message(), "lz4 decompressed size 4096 exceeded limit 1024");
    assert!(err.io_source().is_none());
    let err = CompressionError::UnsupportedLevel {
        algorithm: "zstd",
        level: 7,
        reason: "zstd levels must fit in i32",
    };
    assert_eq!(
        err.message(),
        "zstd does not support compression level 7: zstd levels must fit in i32"
    );
}

#[test]
fn configured_levels_reach_the_encoders() {
    let payload = large_payload();
    for (level, flate) in [(CompressionLevel::Fast, 1), (CompressionLevel::Best, 9), (CompressionLevel::Custom(4), 4)] {
        let config = CompressionConfig::new().with_level(level);
        let mut expected = flate2::write::GzEncoder::new(Vec::new(), flate2::Compression::new(flate));
        expected.write_all(&payload).unwrap();
        assert_eq!(
            CompressionAlgorithm::Gzip.compress_with_config(&payload, config).unwrap(),
            expected.finish().unwrap()
        );
        let mut expected = flate2::write::ZlibEncoder::new(Vec::new(), flate2::Compression::new(flate));
        expected.write_all(&payload).unwrap();
        assert_eq!(
            CompressionAlgorithm::Zlib.compress_with_config(&payload, config).unwrap(),
            expected.finish().unwrap()
        );
    }
    for (level, zstd_level) in [(CompressionLevel::Fast, 1), (CompressionLevel::Best, 21), (CompressionLevel::Default, 0)] {
        let config = CompressionConfig::new().with_level(level);
        assert_eq!(
            CompressionAlgorithm::Zstd.compress_with_config(&payload, config).unwrap(),
            zstd::bulk::compress(&payload, zstd_level).unwrap()
        );
    }
}
