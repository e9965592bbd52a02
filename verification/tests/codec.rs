//! Round-trip and rejection tests for the frame codec and the two payload
//! transform axes.

use kawari::compress::{rle_compress, rle_decompress, CompressionType};
use kawari::frame::{
    encode_packet, parse_packet, ConnectionType, FrameError, IpcEnvelope, PacketSegment,
    SegmentData,
};
use kawari::transform::{apply_scramble, generate_keys, ScramblerKeys};

fn sample_segments() -> Vec<PacketSegment> {
    vec![
        PacketSegment {
            source_actor: 0,
            target_actor: 0,
            data: SegmentData::KeepAliveRequest { id: 0xE0037603, timestamp: 1700000000 },
        },
        PacketSegment {
            source_actor: 1001,
            target_actor: 1001,
            data: SegmentData::Ipc {
                data: IpcEnvelope {
                    op_code: 0x0106,
                    option: 0,
                    timestamp: 1700000000,
                    payload: vec![1, 2, 3, 4, 5, 6, 7, 8, 9, 10, 10, 10, 10, 10],
                },
            },
        },
        PacketSegment {
            source_actor: 7,
            target_actor: 8,
            data: SegmentData::Initialize { actor_id: 1001, timestamp: 42 },
        },
        PacketSegment {
            source_actor: 9,
            target_actor: 10,
            data: SegmentData::Delete { actor_id: 555 },
        },
        PacketSegment {
            source_actor: 0,
            target_actor: 0,
            data: SegmentData::CustomIpc {
                data: IpcEnvelope { op_code: 1, option: 2, timestamp: 3, payload: vec![0xAB; 40] },
            },
        },
    ]
}

fn keys() -> ScramblerKeys {
    generate_keys(0x12, 0xFE, 0xDEADBEEF)
}

fn round_trip(compression: CompressionType, with_keys: bool) {
    let segments = sample_segments();
    let k = keys();
    let key_opt = if with_keys { Some(&k) } else { None };
    let bytes = encode_packet(123456789, ConnectionType::Zone, compression, key_opt, &segments);
    let (header, decoded) =
        parse_packet(&bytes, key_opt).expect("a freshly encoded packet must parse");
    assert_eq!(header.timestamp, 123456789);
    assert_eq!(header.connection_type, ConnectionType::Zone);
    assert_eq!(header.compression_type, compression);
    assert_eq!(header.segment_count, segments.len() as u16);
    assert_eq!(header.size as usize, bytes.len());
    assert_eq!(decoded, segments);
}

#[test]
fn packet_round_trip_uncompressed_plain() {
    round_trip(CompressionType::Uncompressed, false);
}

#[test]
fn packet_round_trip_compressed_plain() {
    round_trip(CompressionType::CompressedBlock, false);
}

#[test]
fn packet_round_trip_uncompressed_obfuscated() {
    round_trip(CompressionType::Uncompressed, true);
}

#[test]
fn packet_round_trip_compressed_obfuscated() {
    round_trip(CompressionType::CompressedBlock, true);
}

#[test]
fn packet_round_trip_empty_segment_list() {
    let segments: Vec<PacketSegment> = Vec::new();
    let bytes = encode_packet(
        0,
        ConnectionType::Unspecified,
        CompressionType::Uncompressed,
        None,
        &segments,
    );
    assert_eq!(bytes.len(), 40);
    let (header, decoded) = parse_packet(&bytes, None).expect("empty packet parses");
    assert_eq!(header.segment_count, 0);
    assert!(decoded.is_empty());
}

#[test]
fn parse_rejects_short_buffer() {
    let bytes = vec![0u8; 39];
    assert!(parse_packet(&bytes, None).is_err());
}

#[test]
fn parse_rejects_wrong_declared_size() {
    let segments = sample_segments();
    let mut bytes =
        encode_packet(1, ConnectionType::Zone, CompressionType::Uncompressed, None, &segments);
    bytes.push(0); // one trailing byte: declared size no longer matches
    assert_eq!(parse_packet(&bytes, None), Err(FrameError::Framing));
}

#[test]
fn parse_rejects_truncated_segment_block() {
    let segments = sample_segments();
    let mut bytes =
        encode_packet(1, ConnectionType::Zone, CompressionType::Uncompressed, None, &segments);
    // Drop the last payload byte and patch both size fields accordingly:
    // the last segment's declared size now overruns the block.
    bytes.pop();
    let n = bytes.len() as u32;
    bytes[24..28].copy_from_slice(&n.to_le_bytes());
    let uncompressed = n - 40;
    bytes[36..40].copy_from_slice(&uncompressed.to_le_bytes());
    assert_eq!(parse_packet(&bytes, None), Err(FrameError::Framing));
}

#[test]
fn parse_rejects_corrupt_compressed_block() {
    // A compressed block with a zero run count is malformed: fatal
    // transform error.
    let mut bytes = encode_packet(
        1,
        ConnectionType::Zone,
        CompressionType::CompressedBlock,
        None,
        &sample_segments(),
    );
    bytes[40] = 0;
    assert_eq!(parse_packet(&bytes, None), Err(FrameError::Transform));
}

#[test]
fn parse_with_wrong_keys_fails() {
    let segments = sample_segments();
    let k1 = generate_keys(1, 2, 3);
    let k2 = generate_keys(3, 2, 1);
    let bytes =
        encode_packet(1, ConnectionType::Zone, CompressionType::Uncompressed, Some(&k1), &segments);
    // De-scrambling with different key material desynchronizes the segment
    // stream; the packet must not parse into the original segments.
    match parse_packet(&bytes, Some(&k2)) {
        Ok((_, decoded)) => assert_ne!(decoded, segments),
        Err(_) => {}
    }
}

#[test]
fn rle_round_trip_and_exact_encoding() {
    let data = vec![5u8, 5, 5];
    let packed = rle_compress(&data);
    assert_eq!(packed, vec![3u8, 5]);
    assert_eq!(rle_decompress(&packed), Some(data));

    let mixed = vec![1u8, 1, 2, 3, 3, 3, 3, 0];
    let packed = rle_compress(&mixed);
    assert_eq!(packed, vec![2u8, 1, 1, 2, 4, 3, 1, 0]);
    assert_eq!(rle_decompress(&packed), Some(mixed));
}

#[test]
fn rle_long_run_splits_at_cap() {
    let long = vec![9u8; 300];
    let packed = rle_compress(&long);
    assert_eq!(packed, vec![255u8, 9, 45, 9]);
    assert_eq!(rle_decompress(&packed), Some(long));
}

#[test]
fn rle_rejects_malformed_blocks() {
    assert_eq!(rle_decompress(&vec![0u8, 7]), None); // zero count
    assert_eq!(rle_decompress(&vec![3u8]), None); // half token
}

#[test]
fn scramble_is_an_involution() {
    let k = generate_keys(0, 0, 0);
    let data: Vec<u8> = (0u8..=255).collect();
    let once = apply_scramble(&data, &k);
    let twice = apply_scramble(&once, &k);
    assert_eq!(twice, data);
    // The zero-seed schedule still mixes the position, so scrambling is
    // not the identity.
    assert_ne!(once, data);
}

#[test]
fn key_schedule_is_deterministic_and_seed_sensitive() {
    let a = generate_keys(10, 20, 30);
    let b = generate_keys(10, 20, 30);
    let c = generate_keys(10, 20, 31);
    assert_eq!(a.keys, b.keys);
    assert_ne!(a.keys, c.keys);
    assert_eq!(a.keys.len(), 16);
}
