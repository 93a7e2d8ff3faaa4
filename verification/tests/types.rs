use protocol::types::Compression;
use protocol::types::EncryptionLevel;
use protocol::types::Intent;
use protocol::types::Priority;
use protocol::types::SessionId;

#[test]
fn test_intent_roundtrip() {
    // Test that we can convert Intent to byte and back
    let intent = Intent::Search;
    let byte = intent.to_u8();
    let recovered = Intent::from_u8(byte).unwrap();
    assert_eq!(intent, recovered);
}

#[test]
fn test_session_id_creation() {
    let id1 = SessionId::new();
    let id2 = SessionId::new();

    // Two IDs should be different (probability of collision is astronomically low)
    assert_ne!(id1, id2);
}

#[test]
fn test_priority_ordering() {
    assert!(Priority::CRITICAL > Priority::HIGH);
    assert!(Priority::HIGH > Priority::NORMAL);
    assert!(Priority::NORMAL > Priority::LOW);
    assert!(Priority::LOW > Priority::LOWEST);
}

#[test]
fn test_compression_bytes() {
    assert_eq!(Compression::Lz4.to_u8(), 0x01);
    assert_eq!(Compression::from_u8(0x02).unwrap(), Compression::Zstd);
}

#[test]
fn test_intent_all_codes_roundtrip() {
    let intents = [
        Intent::Ping,
        Intent::Pong,
        Intent::HandshakeInit,
        Intent::HandshakeAck,
        Intent::Close,
        Intent::Search,
        Intent::SearchSuggest,
        Intent::FetchDocument,
        Intent::SearchStream,
        Intent::DataRequest,
        Intent::DataPush,
        Intent::DataDelta,
        Intent::DataVerify,
        Intent::RankingUpdate,
        Intent::RankingRequest,
        Intent::CacheQuery,
        Intent::CacheInvalidate,
        Intent::Error,
        Intent::Success,
    ];
    for intent in intents {
        assert_eq!(Intent::from_u8(intent.to_u8()), Some(intent));
    }
}

#[test]
fn test_intent_exact_codes() {
    assert_eq!(Intent::Ping.to_u8(), 0x01);
    assert_eq!(Intent::Search.to_u8(), 0x10);
    assert_eq!(Intent::DataPush.to_u8(), 0x21);
    assert_eq!(Intent::Error.to_u8(), 0xF0);
    assert_eq!(Intent::Success.to_u8(), 0xF1);
}

#[test]
fn test_intent_undefined_bytes() {
    assert_eq!(Intent::from_u8(0x00), None);
    assert_eq!(Intent::from_u8(0x06), None);
    assert_eq!(Intent::from_u8(0x99), None);
    assert_eq!(Intent::from_u8(0xFF), None);
}

#[test]
fn test_compression_roundtrip_and_undefined() {
    for c in [
        Compression::Uncompressed,
        Compression::Lz4,
        Compression::Zstd,
        Compression::Brotli,
    ] {
        assert_eq!(Compression::from_u8(c.to_u8()), Some(c));
    }
    assert_eq!(Compression::from_u8(0x04), None);
    assert_eq!(Compression::from_u8(0xFF), None);
}

#[test]
fn test_encryption_roundtrip_and_undefined() {
    for e in [
        EncryptionLevel::Plaintext,
        EncryptionLevel::ChaCha20,
        EncryptionLevel::Aes256,
    ] {
        assert_eq!(EncryptionLevel::from_u8(e.to_u8()), Some(e));
    }
    assert_eq!(EncryptionLevel::from_u8(0x03), None);
    assert_eq!(EncryptionLevel::from_u8(0xFF), None);
}

#[test]
fn test_priority_all_bytes_legal() {
    // Every byte is a legal priority; order goes by the raw value.
    let low = Priority(7);
    let high = Priority(200);
    assert!(high > low);
    assert_eq!(Priority(Priority::NORMAL).0, 128);
    assert_eq!(Priority(Priority::CRITICAL).0, 255);
}

#[test]
fn test_session_id_hex_spelling() {
    let id = SessionId::from_bytes([
        0x01, 0xab, 0x00, 0xff, 0x10, 0x9f, 0x23, 0x45, 0x67, 0x89, 0xcd, 0xef, 0x0a, 0xb0, 0x5e,
        0x7c,
    ]);
    assert_eq!(id.to_hex_bytes(), b"01ab00ff109f23456789cdef0ab05e7c".to_vec());
    let zero = SessionId::from_bytes([0u8; 16]);
    assert_eq!(zero.to_hex_bytes(), vec![b'0'; 32]);
}

#[test]
fn test_session_id_byte_reconstruction() {
    let bytes: [u8; 16] = [1, 2, 3, 4, 5, 6, 7, 8, 9, 10, 11, 12, 13, 14, 15, 16];
    let id = SessionId::from_bytes(bytes);
    assert_eq!(*id.as_bytes(), bytes);
    let again = SessionId::from_bytes(*id.as_bytes());
    assert_eq!(id, again);
}
