use protocol::flags::Flags;
use protocol::packet::HASH_SIZE;
use protocol::packet::HEADER_SIZE;
use protocol::packet::MAX_PACKET_SIZE;
use protocol::packet::MAX_PAYLOAD_SIZE;
use protocol::packet::Packet;
use protocol::packet::PacketError;
use protocol::types::Compression;
use protocol::types::EncryptionLevel;
use protocol::types::FDP_VERSION;
use protocol::types::Intent;
use protocol::types::SessionId;

use sha2::Digest;

#[test]
fn test_packet_roundtrip() {
    // Create a packet
    let session = SessionId::new();
    let payload = b"Hello, FDP!".to_vec();
    let packet = Packet::new(session, Intent::Search, payload.clone()).unwrap();

    // Serialize to bytes
    let bytes = packet.to_bytes();

    // Deserialize back
    let recovered = Packet::from_bytes(&bytes).unwrap();

    // Verify everything matches
    assert_eq!(packet.version, recovered.version);
    assert_eq!(packet.session_id, recovered.session_id);
    assert_eq!(packet.intent, recovered.intent);
    assert_eq!(packet.payload, recovered.payload);
    assert_eq!(packet.hash, recovered.hash);
}

#[test]
fn test_flags() {
    let mut flags = Flags::new();

    // Set compression
    flags.set_compression(Compression::Zstd);
    assert_eq!(flags.compression(), Compression::Zstd);

    // Set encryption
    flags.set_encryption(EncryptionLevel::Aes256);
    assert_eq!(flags.encryption(), EncryptionLevel::Aes256);

    // Set fragmented
    flags.set_fragmented(true);
    assert!(flags.is_fragmented());

    // Set ack required
    flags.set_ack_required(true);
    assert!(flags.ack_required());

    // Make sure compression didn't change when we set other flags
    assert_eq!(flags.compression(), Compression::Zstd);
}

#[test]
fn test_hash_verification() {
    let session = SessionId::new();
    let packet = Packet::new(session, Intent::Ping, vec![1, 2, 3]).unwrap();

    // Should verify correctly
    assert!(packet.verify());

    // Tamper with payload
    let mut tampered = packet.clone();
    tampered.payload[0] = 99;

    // Should fail verification
    assert!(!tampered.verify());
}

#[test]
fn test_packet_size() {
    let session = SessionId::new();
    let payload = vec![0u8; 1000]; // 1KB payload
    let packet = Packet::new(session, Intent::DataPush, payload).unwrap();

    let expected_size = HEADER_SIZE + 1000 + HASH_SIZE;
    assert_eq!(packet.size(), expected_size);
}

#[test]
fn test_concrete_ping_scenario() {
    // Session id of 16 zero bytes, intent Ping, empty payload: the
    // encoding is exactly 68 bytes and decodes back to an intact packet.
    let session = SessionId::from_bytes([0u8; 16]);
    let packet = Packet::new(session, Intent::Ping, Vec::new()).unwrap();
    let bytes = packet.to_bytes();
    assert_eq!(bytes.len(), 68);

    let recovered = Packet::from_bytes(&bytes).unwrap();
    assert_eq!(recovered.intent, Intent::Ping);
    assert!(recovered.payload.is_empty());
    assert!(recovered.verify());
}

#[test]
fn test_exact_sizing() {
    let session = SessionId::new();
    for len in [0usize, 1, 2, 255, 4096] {
        let packet = Packet::new(session, Intent::DataPush, vec![0xAB; len]).unwrap();
        let bytes = packet.to_bytes();
        assert_eq!(bytes.len(), HEADER_SIZE + len + HASH_SIZE);
        assert_eq!(packet.size(), bytes.len());
    }
}

#[test]
fn test_tamper_sensitivity() {
    // Flipping any single byte of an encoded packet must fail decoding:
    // with InvalidHash, unless the flip violates an earlier structural
    // check first.
    let session = SessionId::from_bytes([7u8; 16]);
    let packet = Packet::new(session, Intent::Search, b"abc".to_vec()).unwrap();
    let bytes = packet.to_bytes();

    for i in 0..bytes.len() {
        let mut corrupted = bytes.clone();
        corrupted[i] ^= 0x01;
        let result = Packet::from_bytes(&corrupted);
        match result {
            Err(PacketError::InvalidHash) => {}
            Err(PacketError::UnsupportedVersion(_)) => assert_eq!(i, 0),
            Err(PacketError::InvalidIntent(_)) => assert_eq!(i, 17),
            Err(PacketError::LengthMismatch) => assert!((24..28).contains(&i)),
            other => panic!("byte {} gave unexpected result {:?}", i, other),
        }
    }
}

#[test]
fn test_decode_too_small() {
    let bytes = vec![0u8; 67];
    assert!(matches!(Packet::from_bytes(&bytes), Err(PacketError::TooSmall)));
    assert!(matches!(Packet::from_bytes(&[]), Err(PacketError::TooSmall)));
}

#[test]
fn test_decode_too_large() {
    let bytes = vec![0u8; MAX_PACKET_SIZE + 1];
    assert!(matches!(Packet::from_bytes(&bytes), Err(PacketError::TooLarge)));
}

#[test]
fn test_decode_unsupported_version() {
    let session = SessionId::new();
    let packet = Packet::new(session, Intent::Ping, Vec::new()).unwrap();
    let mut bytes = packet.to_bytes();
    bytes[0] = FDP_VERSION + 1;
    assert!(matches!(
        Packet::from_bytes(&bytes),
        Err(PacketError::UnsupportedVersion(v)) if v == FDP_VERSION + 1
    ));
}

#[test]
fn test_decode_invalid_intent() {
    let session = SessionId::new();
    let packet = Packet::new(session, Intent::Ping, Vec::new()).unwrap();
    let mut bytes = packet.to_bytes();
    bytes[17] = 0x99;
    assert!(matches!(
        Packet::from_bytes(&bytes),
        Err(PacketError::InvalidIntent(0x99))
    ));
}

#[test]
fn test_decode_length_mismatch() {
    let session = SessionId::new();
    let packet = Packet::new(session, Intent::Ping, Vec::new()).unwrap();
    let mut bytes = packet.to_bytes();
    // Declare one payload byte while the buffer carries none.
    bytes[27] = 1;
    assert!(matches!(Packet::from_bytes(&bytes), Err(PacketError::LengthMismatch)));
}

#[test]
fn test_decode_invalid_hash() {
    let session = SessionId::new();
    let packet = Packet::new(session, Intent::Ping, b"xyz".to_vec()).unwrap();
    let mut bytes = packet.to_bytes();
    let last = bytes.len() - 1;
    bytes[last] ^= 0xFF;
    assert!(matches!(Packet::from_bytes(&bytes), Err(PacketError::InvalidHash)));
}

#[test]
fn test_payload_too_large_at_construction() {
    let session = SessionId::new();
    let payload = vec![0u8; MAX_PAYLOAD_SIZE + 1];
    assert!(matches!(
        Packet::new(session, Intent::DataPush, payload),
        Err(PacketError::PayloadTooLarge)
    ));
    // The maximum itself is accepted.
    let payload = vec![0u8; MAX_PAYLOAD_SIZE];
    assert!(Packet::new(session, Intent::DataPush, payload).is_ok());
}

#[test]
fn test_decode_accepts_externally_hashed_buffer() {
    // Build the 68-byte wire image of a Ping packet by hand and hash it
    // with sha2 directly; the codec must accept it and recover the fields.
    let mut bytes = Vec::new();
    bytes.push(FDP_VERSION); // version
    bytes.extend_from_slice(&[0u8; 16]); // session id
    bytes.push(0x01); // intent: Ping
    bytes.push(128); // priority: normal
    bytes.push(0x09); // flags: LZ4 + ChaCha20
    bytes.extend_from_slice(&5u32.to_be_bytes()); // sequence
    bytes.extend_from_slice(&0u32.to_be_bytes()); // payload length
    bytes.extend_from_slice(&1234567890u64.to_be_bytes()); // timestamp
    let digest = sha2::Sha256::digest(&bytes);
    bytes.extend_from_slice(&digest);

    let packet = Packet::from_bytes(&bytes).unwrap();
    assert_eq!(packet.version, FDP_VERSION);
    assert_eq!(packet.intent, Intent::Ping);
    assert_eq!(packet.sequence, 5);
    assert_eq!(packet.timestamp, 1234567890);
    assert!(packet.payload.is_empty());
    assert!(packet.verify());
    assert_eq!(packet.to_bytes(), bytes);
}

#[test]
fn test_new_defaults() {
    let session = SessionId::new();
    let packet = Packet::new(session, Intent::CacheQuery, b"q".to_vec()).unwrap();
    assert_eq!(packet.version, FDP_VERSION);
    assert_eq!(packet.sequence, 0);
    assert_eq!(packet.priority.0, 128);
    assert_eq!(packet.flags.compression(), Compression::Lz4);
    assert_eq!(packet.flags.encryption(), EncryptionLevel::ChaCha20);
    assert!(!packet.flags.is_fragmented());
    assert!(!packet.flags.ack_required());
}

#[test]
fn test_flag_independence_orders() {
    // Whatever the order of the four setters, each getter reports the
    // value most recently set for its own sub-field.
    let mut a = Flags::new();
    a.set_ack_required(true);
    a.set_fragmented(true);
    a.set_encryption(EncryptionLevel::ChaCha20);
    a.set_compression(Compression::Brotli);
    assert_eq!(a.compression(), Compression::Brotli);
    assert_eq!(a.encryption(), EncryptionLevel::ChaCha20);
    assert!(a.is_fragmented());
    assert!(a.ack_required());

    let mut b = Flags::new();
    b.set_compression(Compression::Lz4);
    b.set_encryption(EncryptionLevel::Aes256);
    b.set_compression(Compression::Zstd);
    b.set_fragmented(true);
    b.set_fragmented(false);
    b.set_ack_required(true);
    assert_eq!(b.compression(), Compression::Zstd);
    assert_eq!(b.encryption(), EncryptionLevel::Aes256);
    assert!(!b.is_fragmented());
    assert!(b.ack_required());
}

#[test]
fn test_flags_reserved_bit_and_fallbacks() {
    // The reserved bit survives every setter untouched.
    let mut flags = Flags(0x80);
    flags.set_compression(Compression::Brotli);
    flags.set_encryption(EncryptionLevel::Aes256);
    flags.set_fragmented(true);
    flags.set_ack_required(false);
    assert_eq!(flags.0 & 0x80, 0x80);

    // Undefined sub-field patterns read as the no-op choice.
    assert_eq!(Flags(0x07).compression(), Compression::Uncompressed);
    assert_eq!(Flags(0x18).encryption(), EncryptionLevel::Plaintext);
}
