use filelist_sync::compress::{compress_payload, decompress_payload};

#[test]
fn round_trip_recovers_original_bytes() {
    let data: Vec<u8> = b"{\"files\":[\"a.parquet\",\"b.parquet\"]}".to_vec();
    let compressed = compress_payload(&data);
    let recovered = decompress_payload(&compressed).unwrap();
    assert_eq!(recovered, data);
}

#[test]
fn round_trip_on_repetitive_payload() {
    let data: Vec<u8> = vec![7u8; 4096];
    let compressed = compress_payload(&data);
    assert_ne!(compressed, data);
    assert!(compressed.len() < data.len());
    assert_eq!(decompress_payload(&compressed).unwrap(), data);
}

#[test]
fn round_trip_on_single_byte() {
    let data: Vec<u8> = vec![0u8];
    let compressed = compress_payload(&data);
    assert_eq!(decompress_payload(&compressed).unwrap(), data);
}

#[test]
fn decompress_rejects_a_buffer_that_is_no_frame() {
    let garbage: Vec<u8> = vec![1, 2, 3, 4];
    assert!(decompress_payload(&garbage).is_err());
}
