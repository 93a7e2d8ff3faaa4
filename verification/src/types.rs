//! Wire vocabulary: the closed enumerations carried in a packet header
//! (intent, compression hint, encryption hint), the ordered priority byte,
//! and the 128-bit session identifier.

use vstd::prelude::*;

verus! {

/// The single protocol version this codec supports.
pub const FDP_VERSION: u8 = 1;

/// Semantic operation code carried by a packet, analogous to a request
/// method. Each intent occupies one byte on the wire; the byte-to-intent
/// mapping is a partial bijection over the defined codes.
#[derive(Debug, Clone, Copy, PartialEq, Eq)]
pub enum Intent {
    /// Check if the connection is alive.
    Ping,
    /// Response to a ping.
    Pong,
    /// Establish a new session.
    HandshakeInit,
    /// Acknowledge a handshake.
    HandshakeAck,
    /// Gracefully close a session.
    Close,
    /// Perform a search query.
    Search,
    /// Get suggested completions as the user types.
    SearchSuggest,
    /// Fetch a specific document by hash.
    FetchDocument,
    /// Subscribe to search result updates.
    SearchStream,
    /// Request specific data by content hash.
    DataRequest,
    /// Push data to the receiver.
    DataPush,
    /// Notify about data changes (delta sync).
    DataDelta,
    /// Verify data integrity.
    DataVerify,
    /// Upload user ranking preferences.
    RankingUpdate,
    /// Request personalized ranking for results.
    RankingRequest,
    /// Request from an edge cache.
    CacheQuery,
    /// Invalidate cached data.
    CacheInvalidate,
    /// Generic error response.
    Error,
    /// Success acknowledgment.
    Success,
}

/// The wire code of each intent.
pub open spec fn intent_code(i: Intent) -> u8 {
    match i {
        Intent::Ping => 0x01,
        Intent::Pong => 0x02,
        Intent::HandshakeInit => 0x03,
        Intent::HandshakeAck => 0x04,
        Intent::Close => 0x05,
        Intent::Search => 0x10,
        Intent::SearchSuggest => 0x11,
        Intent::FetchDocument => 0x12,
        Intent::SearchStream => 0x13,
        Intent::DataRequest => 0x20,
        Intent::DataPush => 0x21,
        Intent::DataDelta => 0x22,
        Intent::DataVerify => 0x23,
        Intent::RankingUpdate => 0x30,
        Intent::RankingRequest => 0x31,
        Intent::CacheQuery => 0x40,
        Intent::CacheInvalidate => 0x41,
        Intent::Error => 0xF0,
        Intent::Success => 0xF1,
    }
}

/// The intent a wire byte decodes to; undefined bytes decode to nothing.
pub open spec fn intent_from_code(byte: u8) -> Option<Intent> {
    match byte {
        0x01 => Some(Intent::Ping),
        0x02 => Some(Intent::Pong),
        0x03 => Some(Intent::HandshakeInit),
        0x04 => Some(Intent::HandshakeAck),
        0x05 => Some(Intent::Close),
        0x10 => Some(Intent::Search),
        0x11 => Some(Intent::SearchSuggest),
        0x12 => Some(Intent::FetchDocument),
        0x13 => Some(Intent::SearchStream),
        0x20 => Some(Intent::DataRequest),
        0x21 => Some(Intent::DataPush),
        0x22 => Some(Intent::DataDelta),
        0x23 => Some(Intent::DataVerify),
        0x30 => Some(Intent::RankingUpdate),
        0x31 => Some(Intent::RankingRequest),
        0x40 => Some(Intent::CacheQuery),
        0x41 => Some(Intent::CacheInvalidate),
        0xF0 => Some(Intent::Error),
        0xF1 => Some(Intent::Success),
        _ => None,
    }
}

impl Intent {
    /// Convert a wire byte to an intent; `None` if the byte matches no
    /// defined code.
    pub fn from_u8(byte: u8) -> (r: Option<Self>)
        ensures
            r == intent_from_code(byte),
    {
        match byte {
            0x01 => Some(Intent::Ping),
            0x02 => Some(Intent::Pong),
            0x03 => Some(Intent::HandshakeInit),
            0x04 => Some(Intent::HandshakeAck),
            0x05 => Some(Intent::Close),
            0x10 => Some(Intent::Search),
            0x11 => Some(Intent::SearchSuggest),
            0x12 => Some(Intent::FetchDocument),
            0x13 => Some(Intent::SearchStream),
            0x20 => Some(Intent::DataRequest),
            0x21 => Some(Intent::DataPush),
            0x22 => Some(Intent::DataDelta),
            0x23 => Some(Intent::DataVerify),
            0x30 => Some(Intent::RankingUpdate),
            0x31 => Some(Intent::RankingRequest),
            0x40 => Some(Intent::CacheQuery),
            0x41 => Some(Intent::CacheInvalidate),
            0xF0 => Some(Intent::Error),
            0xF1 => Some(Intent::Success),
            _ => None,
        }
    }

    /// Convert an intent to its wire byte.
    pub fn to_u8(self) -> (r: u8)
        ensures
            r == intent_code(self),
    {
        match self {
            Intent::Ping => 0x01,
            Intent::Pong => 0x02,
            Intent::HandshakeInit => 0x03,
            Intent::HandshakeAck => 0x04,
            Intent::Close => 0x05,
            Intent::Search => 0x10,
            Intent::SearchSuggest => 0x11,
            Intent::FetchDocument => 0x12,
            Intent::SearchStream => 0x13,
            Intent::DataRequest => 0x20,
            Intent::DataPush => 0x21,
            Intent::DataDelta => 0x22,
            Intent::DataVerify => 0x23,
            Intent::RankingUpdate => 0x30,
            Intent::RankingRequest => 0x31,
            Intent::CacheQuery => 0x40,
            Intent::CacheInvalidate => 0x41,
            Intent::Error => 0xF0,
            Intent::Success => 0xF1,
        }
    }
}

/// The intent code and the code-to-intent map are mutually inverse on the
/// defined domain: every intent decodes from its own code, and every byte
/// that decodes at all decodes to the one intent that encodes back to it.
pub proof fn lemma_intent_code_bijection()
    ensures
        forall|i: Intent| intent_from_code(intent_code(i)) == Some(i),
        forall|b: u8| #[trigger] intent_from_code(b) matches Some(i) ==> intent_code(i) == b,
{
}

/// Compression algorithm declared (not executed) for a payload.
#[derive(Debug, Clone, Copy, PartialEq, Eq)]
pub enum Compression {
    /// No compression.
    Uncompressed,
    /// LZ4: fastest, modest ratio.
    Lz4,
    /// Zstandard: balanced speed and ratio.
    Zstd,
    /// Brotli: slowest, best ratio.
    Brotli,
}

/// The wire code of each compression choice.
pub open spec fn compression_code(c: Compression) -> u8 {
    match c {
        Compression::Uncompressed => 0x00,
        Compression::Lz4 => 0x01,
        Compression::Zstd => 0x02,
        Compression::Brotli => 0x03,
    }
}

/// The compression choice a wire byte decodes to; undefined bytes decode
/// to nothing.
pub open spec fn compression_from_code(byte: u8) -> Option<Compression> {
    match byte {
        0x00 => Some(Compression::Uncompressed),
        0x01 => Some(Compression::Lz4),
        0x02 => Some(Compression::Zstd),
        0x03 => Some(Compression::Brotli),
        _ => None,
    }
}

impl Compression {
    /// Convert a wire byte to a compression choice; `None` if the byte
    /// matches no defined code.
    pub fn from_u8(byte: u8) -> (r: Option<Self>)
        ensures
            r == compression_from_code(byte),
    {
        match byte {
            0x00 => Some(Compression::Uncompressed),
            0x01 => Some(Compression::Lz4),
            0x02 => Some(Compression::Zstd),
            0x03 => Some(Compression::Brotli),
            _ => None,
        }
    }

    /// Convert a compression choice to its wire byte.
    pub fn to_u8(self) -> (r: u8)
        ensures
            r == compression_code(self),
    {
        match self {
            Compression::Uncompressed => 0x00,
            Compression::Lz4 => 0x01,
            Compression::Zstd => 0x02,
            Compression::Brotli => 0x03,
        }
    }
}

/// The compression code and the code-to-compression map are mutually
/// inverse on the defined domain.
pub proof fn lemma_compression_code_bijection()
    ensures
        forall|c: Compression| compression_from_code(compression_code(c)) == Some(c),
        forall|b: u8| #[trigger] compression_from_code(b) matches Some(c) ==> compression_code(c) == b,
{
}

/// Encryption algorithm declared (not executed) for a payload.
#[derive(Debug, Clone, Copy, PartialEq, Eq)]
pub enum EncryptionLevel {
    /// No encryption.
    Plaintext,
    /// ChaCha20-Poly1305.
    ChaCha20,
    /// AES-256-GCM.
    Aes256,
}

/// The wire code of each encryption level.
pub open spec fn encryption_code(e: EncryptionLevel) -> u8 {
    match e {
        EncryptionLevel::Plaintext => 0x00,
        EncryptionLevel::ChaCha20 => 0x01,
        EncryptionLevel::Aes256 => 0x02,
    }
}

/// The encryption level a wire byte decodes to; undefined bytes decode
/// to nothing.
pub open spec fn encryption_from_code(byte: u8) -> Option<EncryptionLevel> {
    match byte {
        0x00 => Some(EncryptionLevel::Plaintext),
        0x01 => Some(EncryptionLevel::ChaCha20),
        0x02 => Some(EncryptionLevel::Aes256),
        _ => None,
    }
}

impl EncryptionLevel {
    /// Convert a wire byte to an encryption level; `None` if the byte
    /// matches no defined code.
    pub fn from_u8(byte: u8) -> (r: Option<Self>)
        ensures
            r == encryption_from_code(byte),
    {
        match byte {
            0x00 => Some(EncryptionLevel::Plaintext),
            0x01 => Some(EncryptionLevel::ChaCha20),
            0x02 => Some(EncryptionLevel::Aes256),
            _ => None,
        }
    }

    /// Convert an encryption level to its wire byte.
    pub fn to_u8(self) -> (r: u8)
        ensures
            r == encryption_code(self),
    {
        match self {
            EncryptionLevel::Plaintext => 0x00,
            EncryptionLevel::ChaCha20 => 0x01,
            EncryptionLevel::Aes256 => 0x02,
        }
    }
}

/// The encryption code and the code-to-encryption map are mutually
/// inverse on the defined domain.
pub proof fn lemma_encryption_code_bijection()
    ensures
        forall|e: EncryptionLevel| encryption_from_code(encryption_code(e)) == Some(e),
        forall|b: u8| #[trigger] encryption_from_code(b) matches Some(e) ==> encryption_code(e) == b,
{
}

/// Scheduling priority of a packet: a plain ordered byte. All 256 values
/// are legal; five reference points are named below. The codec records
/// the byte and never enforces an ordering itself.
#[derive(Debug, Clone, Copy, PartialEq, Eq, PartialOrd, Ord)]
pub struct Priority(pub u8);

impl Priority {
    /// Lowest priority: background tasks.
    pub const LOWEST: u8 = 0;

    /// Low priority: prefetching, caching.
    pub const LOW: u8 = 64;

    /// Normal priority: user-initiated actions.
    pub const NORMAL: u8 = 128;

    /// High priority: important user interactions.
    pub const HIGH: u8 = 192;

    /// Critical priority: system messages, errors.
    pub const CRITICAL: u8 = 255;
}

/// The ASCII code of the lowercase hex digit for a nibble value.
pub open spec fn hex_digit_ascii(n: u8) -> u8
    recommends
        n < 16,
{
    if n < 10 {
        (48 + n) as u8
    } else {
        (87 + n) as u8
    }
}

/// The lowercase hex spelling of a byte sequence as ASCII codes: two
/// digits per byte, high nibble first.
pub open spec fn spec_hex_ascii(bytes: Seq<u8>) -> Seq<u8> {
    Seq::new(
        bytes.len() * 2,
        |i: int|
            if i % 2 == 0 {
                hex_digit_ascii(bytes[i / 2] >> 4)
            } else {
                hex_digit_ascii(bytes[i / 2] & 0x0f)
            },
    )
}

/// The ASCII code of the lowercase hex digit for a nibble value.
fn hex_digit(n: u8) -> (r: u8)
    requires
        n < 16,
    ensures
        r == hex_digit_ascii(n),
{
    if n < 10 {
        48 + n
    } else {
        87 + n
    }
}

/// 128-bit identifier scoping a logical connection across packets.
/// Equality and hashing go by the raw bits; it is written out as 32
/// lowercase hex digits.
#[derive(Debug, Clone, Copy, PartialEq, Eq, Hash)]
pub struct SessionId(pub [u8; 16]);

/// Relies on rand's thread-local generator (`rand::rng()`, filled through
/// `Rng::fill_bytes`): 16 bytes from a cryptographically secure generator,
/// ChaCha12 reseeded from the operating system. Nothing is promised of the
/// value: it is random.
#[verifier::external_body]
fn secure_random_bytes() -> [u8; 16] {
    let mut bytes = [0u8; 16];
    rand::Rng::fill_bytes(&mut rand::rng(), &mut bytes);
    bytes
}

impl SessionId {
    /// Create a fresh session identifier from cryptographically secure
    /// entropy: statistically indistinguishable from uniform random over
    /// 128 bits, so collisions between connections are negligible.
    pub fn new() -> Self {
        SessionId(secure_random_bytes())
    }

    /// Reconstruct a session identifier from 16 stored bytes,
    /// byte for byte.
    pub fn from_bytes(bytes: [u8; 16]) -> (r: Self)
        ensures
            r.0 == bytes,
    {
        SessionId(bytes)
    }

    /// The raw bytes of the identifier.
    pub fn as_bytes(&self) -> (r: &[u8; 16])
        ensures
            r == &self.0,
    {
        &self.0
    }

    /// The identifier spelled as 32 lowercase hex digits, as ASCII bytes:
    /// two digits per byte, high nibble first.
    pub fn to_hex_bytes(&self) -> (r: Vec<u8>)
        ensures
            r@ == spec_hex_ascii(self.0@),
    {
        let mut out: Vec<u8> = Vec::new();
        let mut i: usize = 0;
        while i < 16
            invariant
                i <= 16,
                self.0@.len() == 16,
                out@.len() == 2 * i,
                forall|j: int| 0 <= j < 2 * i ==> out@[j] == spec_hex_ascii(self.0@)[j],
            decreases 16 - i,
        {
            let b = self.0[i];
            proof {
                assert((b >> 4) < 16 && (b & 0x0f) < 16) by (bit_vector);
            }
            out.push(hex_digit(b >> 4));
            out.push(hex_digit(b & 0x0f));
            i = i + 1;
        }
        proof {
            assert(out@ =~= spec_hex_ascii(self.0@));
        }
        out
    }
}

} // verus!
