use std::io::{Read, Write};

use compressed_log_sink::decoder::{decode, encode, round_trip};

/// Compress bytes with lz4_flex directly, bypassing the library.
fn lz4_fixture(bytes: &[u8]) -> Vec<u8> {
    let mut enc = lz4_flex::frame::FrameEncoder::new(Vec::new());
    enc.write_all(bytes).unwrap();
    enc.finish().unwrap()
}

#[test]
fn round_trip_restores_bytes() {
    let inputs: Vec<Vec<u8>> = vec![
        b"hello\n".to_vec(),
        Vec::new(),
        vec![0u8; 4096],
        b"a log line\nanother log line\na log line\n".repeat(50),
        (0u8..=255).collect(),
    ];
    for input in inputs {
        assert_eq!(round_trip(&input), input);
        assert_eq!(decode(&encode(&input)).unwrap(), input);
    }
}

#[test]
fn decode_accepts_a_frame_built_elsewhere() {
    let original = b"the quick brown fox jumps over the lazy dog\n".to_vec();
    let compressed = lz4_fixture(&original);
    // The compressed frame is a real transformation, not the input handed back.
    assert_ne!(compressed, original);
    assert_eq!(decode(&compressed).unwrap(), original);
}

#[test]
fn encode_matches_the_reference_compressor() {
    let original = b"ingest me\n".to_vec();
    let ours = encode(&original);
    assert_ne!(ours, original);
    assert_eq!(decode(&ours).unwrap(), original);
    assert_eq!(
        lz4_flex::frame::FrameDecoder::new(ours.as_slice())
            .bytes()
            .collect::<Result<Vec<u8>, _>>()
            .unwrap(),
        original
    );
}

#[test]
fn decode_rejects_garbage() {
    let garbage = b"this is not an lz4 frame".to_vec();
    assert!(decode(&garbage).is_err());
}

#[test]
fn decode_rejects_truncated_frame() {
    let mut compressed = lz4_fixture(b"some bytes that will be cut short, repeated often enough to matter; some bytes that will be cut short");
    compressed.truncate(compressed.len() / 2);
    assert!(decode(&compressed).is_err());
}
