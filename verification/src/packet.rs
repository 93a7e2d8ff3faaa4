//! The packet record and its codec: a fixed 36-byte header, a payload of
//! at most 10 MiB, and a trailing 32-byte integrity hash computed over
//! every field except itself, in header field order followed by the
//! payload. Encode and decode are pure transforms; decode rejects a buffer
//! with the earliest applicable failure and never reads past its bounds.

use vstd::prelude::*;
use vstd::slice::slice_subrange;
use vstd::slice::slice_to_vec;

use sha2::Digest;

use crate::endian::lemma_u32_be_bytes_round_trip;
use crate::endian::lemma_u64_be_bytes_round_trip;
use crate::endian::push_u32_be;
use crate::endian::push_u64_be;
use crate::endian::read_u32_be;
use crate::endian::read_u64_be;
use crate::endian::spec_u32_from_be_bytes;
use crate::endian::spec_u32_to_be_bytes;
use crate::endian::spec_u64_from_be_bytes;
use crate::endian::spec_u64_to_be_bytes;
use crate::flags::Flags;
use crate::flags::spec_ack_required;
use crate::flags::spec_compression;
use crate::flags::spec_encryption;
use crate::flags::spec_fragmented;
use crate::flags::spec_set_compression;
use crate::flags::spec_set_encryption;
use crate::types::Compression;
use crate::types::EncryptionLevel;
use crate::types::FDP_VERSION;
use crate::types::Intent;
use crate::types::Priority;
use crate::types::SessionId;
use crate::types::intent_code;
use crate::types::intent_from_code;
use crate::types::lemma_intent_code_bijection;

verus! {

broadcast use vstd::array::group_array_axioms;

/// Size of the fixed header in bytes.
pub const HEADER_SIZE: usize = 36;

/// Size of the trailing integrity hash in bytes.
pub const HASH_SIZE: usize = 32;

/// The smallest valid packet: a header and a hash around an empty payload.
pub const MIN_PACKET_SIZE: usize = HEADER_SIZE + HASH_SIZE;

/// The largest payload a packet may carry: 10 MiB.
pub const MAX_PAYLOAD_SIZE: usize = 10485760;

/// The largest valid packet: a full payload between header and hash.
pub const MAX_PACKET_SIZE: usize = HEADER_SIZE + MAX_PAYLOAD_SIZE + HASH_SIZE;

/// The SHA-256 digest of a byte sequence, as the 32 output bytes.
pub uninterp spec fn sha256_of(data: Seq<u8>) -> Seq<u8>;

/// Relies on sha2's `Sha256` through the `Digest::digest` convenience
/// method: the SHA-256 digest of the input, a function of the input bytes
/// alone, 32 bytes long.
#[verifier::external_body]
fn sha256(data: &[u8]) -> (r: [u8; 32])
    ensures
        r@ == sha256_of(data@),
{
    sha2::Sha256::digest(data).into()
}

/// Relies on std::time's `SystemTime::now` and
/// `duration_since(UNIX_EPOCH)`: the milliseconds since the Unix epoch, or
/// 0 should the clock read before the epoch. Nothing is promised of the
/// value: it depends on the clock.
#[verifier::external_body]
fn current_timestamp() -> u64 {
    match std::time::SystemTime::now().duration_since(std::time::UNIX_EPOCH) {
        Ok(d) => d.as_millis() as u64,
        Err(_) => 0,
    }
}

/// Why a buffer failed to decode, or a payload failed construction.
/// The taxonomy is closed and non-overlapping; decode returns the earliest
/// applicable failure.
#[derive(Debug, Clone, Copy, PartialEq, Eq)]
pub enum PacketError {
    /// The buffer is shorter than the smallest valid packet.
    TooSmall,
    /// The buffer is longer than the largest valid packet.
    TooLarge,
    /// Byte 0 is not the supported protocol version; carries that byte.
    UnsupportedVersion(u8),
    /// Byte 17 is not a defined intent code; carries that byte.
    InvalidIntent(u8),
    /// The declared payload length implies a total length other than the
    /// buffer's actual length.
    LengthMismatch,
    /// The hash recomputed over the parsed fields differs from the
    /// trailing 32 bytes.
    InvalidHash,
    /// A payload longer than the maximum was handed to construction.
    PayloadTooLarge,
}

/// The mathematical model of a packet: every header field, the payload
/// and the stored hash, as plain values and byte sequences.
#[verifier::ext_equal]
pub ghost struct PacketModel {
    pub version: u8,
    pub session_id: Seq<u8>,
    pub intent: Intent,
    pub priority: u8,
    pub flags: u8,
    pub sequence: u32,
    pub timestamp: u64,
    pub payload: Seq<u8>,
    pub hash: Seq<u8>,
}

impl PacketModel {
    /// Well-formedness: the session identifier is 16 bytes, the hash 32,
    /// and the payload no longer than the maximum.
    pub open spec fn wf(self) -> bool {
        &&& self.session_id.len() == 16
        &&& self.payload.len() <= MAX_PAYLOAD_SIZE
        &&& self.hash.len() == 32
    }

    /// The 36 header bytes in wire order: version, session id, intent,
    /// priority, flags, then sequence, payload length and timestamp as
    /// big-endian integers.
    pub open spec fn header_bytes(self) -> Seq<u8> {
        seq![self.version] + self.session_id
            + seq![intent_code(self.intent), self.priority, self.flags]
            + spec_u32_to_be_bytes(self.sequence)
            + spec_u32_to_be_bytes(self.payload.len() as u32)
            + spec_u64_to_be_bytes(self.timestamp)
    }

    /// The bytes the integrity hash covers: every field except the hash
    /// itself, in header field order, followed by the payload.
    pub open spec fn hash_input(self) -> Seq<u8> {
        self.header_bytes() + self.payload
    }

    /// The full wire encoding: header, payload, then the stored hash.
    pub open spec fn encoding(self) -> Seq<u8> {
        self.hash_input() + self.hash
    }

    /// The stored hash is the digest of the packet's own fields.
    pub open spec fn sealed(self) -> bool {
        self.hash == sha256_of(self.hash_input())
    }
}

/// What a well-formed buffer parses to, field by field. Meaningful only
/// once the structural checks of `spec_decode` have passed.
pub open spec fn spec_parse(s: Seq<u8>) -> PacketModel {
    PacketModel {
        version: s[0],
        session_id: s.subrange(1, 17),
        intent: intent_from_code(s[17])->Some_0,
        priority: s[18],
        flags: s[19],
        sequence: spec_u32_from_be_bytes(s.subrange(20, 24)),
        timestamp: spec_u64_from_be_bytes(s.subrange(28, 36)),
        payload: s.subrange(36, s.len() - 32),
        hash: s.subrange(s.len() - 32, s.len() as int),
    }
}

/// What decoding a byte sequence yields: the earliest applicable failure
/// of the six, or the parsed packet once every check has passed.
pub open spec fn spec_decode(s: Seq<u8>) -> Result<PacketModel, PacketError> {
    if s.len() < MIN_PACKET_SIZE {
        Err(PacketError::TooSmall)
    } else if s.len() > MAX_PACKET_SIZE {
        Err(PacketError::TooLarge)
    } else if s[0] != FDP_VERSION {
        Err(PacketError::UnsupportedVersion(s[0]))
    } else if intent_from_code(s[17]) is None {
        Err(PacketError::InvalidIntent(s[17]))
    } else if HEADER_SIZE + spec_u32_from_be_bytes(s.subrange(24, 28)) + HASH_SIZE != s.len() {
        Err(PacketError::LengthMismatch)
    } else {
        let m = spec_parse(s);
        if m.hash == sha256_of(m.hash_input()) {
            Ok(m)
        } else {
            Err(PacketError::InvalidHash)
        }
    }
}

/// The full message record: header fields, payload and integrity hash.
#[derive(Debug, Clone)]
pub struct Packet {
    /// Protocol version; always the supported version for packets this
    /// codec constructs or accepts.
    pub version: u8,
    /// Who is talking: the session this packet belongs to.
    pub session_id: SessionId,
    /// What this packet wants to do.
    pub intent: Intent,
    /// How urgent this packet is; recorded, never enforced here.
    pub priority: Priority,
    /// Compression and encryption hints plus the two boolean flags.
    pub flags: Flags,
    /// Assigned by the session layer for ordering; 0 until assigned.
    pub sequence: u32,
    /// When the packet was built, in milliseconds since the Unix epoch.
    pub timestamp: u64,
    /// The data the packet carries.
    pub payload: Vec<u8>,
    /// Digest over every other field, in wire order.
    pub hash: [u8; 32],
}

impl View for Packet {
    type V = PacketModel;

    open spec fn view(&self) -> PacketModel {
        PacketModel {
            version: self.version,
            session_id: self.session_id.0@,
            intent: self.intent,
            priority: self.priority.0,
            flags: self.flags.0,
            sequence: self.sequence,
            timestamp: self.timestamp,
            payload: self.payload@,
            hash: self.hash@,
        }
    }
}

/// A decode result with the packet replaced by its model, so the decode
/// contract can be stated against `spec_decode` in one equation.
pub open spec fn decoded_model(r: Result<Packet, PacketError>) -> Result<PacketModel, PacketError> {
    match r {
        Ok(p) => Ok(p@),
        Err(e) => Err(e),
    }
}

/// Two models with the same fields outside the hash hash the same bytes.
proof fn lemma_hash_input_ignores_hash(a: PacketModel, b: PacketModel)
    requires
        a.version == b.version,
        a.session_id == b.session_id,
        a.intent == b.intent,
        a.priority == b.priority,
        a.flags == b.flags,
        a.sequence == b.sequence,
        a.timestamp == b.timestamp,
        a.payload == b.payload,
    ensures
        a.hash_input() == b.hash_input(),
{
}

/// Append a slice's bytes to a buffer.
fn push_slice(buf: &mut Vec<u8>, data: &[u8])
    ensures
        final(buf)@ == old(buf)@ + data@,
{
    let mut i: usize = 0;
    while i < data.len()
        invariant
            i <= data@.len(),
            buf@ == old(buf)@ + data@.subrange(0, i as int),
        decreases data@.len() - i,
    {
        buf.push(data[i]);
        i = i + 1;
    }
    proof {
        assert(buf@ =~= old(buf)@ + data@);
    }
}

/// Whether two byte slices hold the same bytes.
fn bytes_eq(a: &[u8], b: &[u8]) -> (r: bool)
    ensures
        r == (a@ == b@),
{
    if a.len() != b.len() {
        return false;
    }
    let mut i: usize = 0;
    while i < a.len()
        invariant
            i <= a@.len(),
            a@.len() == b@.len(),
            forall|j: int| 0 <= j < i ==> a@[j] == b@[j],
        decreases a@.len() - i,
    {
        if a[i] != b[i] {
            return false;
        }
        i = i + 1;
    }
    proof {
        assert(a@ =~= b@);
    }
    true
}

impl Packet {
    /// Construct a packet carrying `payload` for `intent` on the session
    /// `session_id`: supported version, normal priority, flags declaring
    /// (not executing) LZ4 compression and ChaCha20 encryption, sequence 0
    /// until the session layer assigns one, the clock's timestamp, and the
    /// integrity hash over the final field values. A payload longer than
    /// the maximum is an error at construction.
    pub fn new(session_id: SessionId, intent: Intent, payload: Vec<u8>) -> (r: Result<
        Packet,
        PacketError,
    >)
        ensures
            payload@.len() > MAX_PAYLOAD_SIZE ==> r == Err::<Packet, PacketError>(
                PacketError::PayloadTooLarge,
            ),
            payload@.len() <= MAX_PAYLOAD_SIZE ==> ({
                &&& r matches Ok(p)
                &&& p@.wf()
                &&& p@.sealed()
                &&& p@.version == FDP_VERSION
                &&& p@.session_id == session_id.0@
                &&& p@.intent == intent
                &&& p@.priority == Priority::NORMAL
                &&& p@.flags == spec_set_encryption(
                    spec_set_compression(0, Compression::Lz4),
                    EncryptionLevel::ChaCha20,
                )
                &&& spec_compression(p@.flags) == Compression::Lz4
                &&& spec_encryption(p@.flags) == EncryptionLevel::ChaCha20
                &&& !spec_fragmented(p@.flags)
                &&& !spec_ack_required(p@.flags)
                &&& p@.sequence == 0
                &&& p@.payload == payload@
            }),
    {
        if payload.len() > MAX_PAYLOAD_SIZE {
            return Err(PacketError::PayloadTooLarge);
        }
        let mut flags = Flags::new();
        flags.set_compression(Compression::Lz4);
        flags.set_encryption(EncryptionLevel::ChaCha20);
        let mut packet = Packet {
            version: FDP_VERSION,
            session_id,
            intent,
            priority: Priority(Priority::NORMAL),
            flags,
            sequence: 0,
            timestamp: current_timestamp(),
            payload,
            hash: [0u8; 32],
        };
        let ghost before = packet@;
        let h = packet.calculate_hash();
        packet.hash = h;
        proof {
            lemma_hash_input_ignores_hash(packet@, before);
            assert(0u8 & 0x20 == 0 && 0u8 & 0x40 == 0) by (bit_vector);
        }
        Ok(packet)
    }

    /// The bytes the integrity hash covers, serialized from the packet's
    /// current field values: the 36 header bytes followed by the payload.
    fn hash_input_bytes(&self) -> (r: Vec<u8>)
        requires
            self@.wf(),
        ensures
            r@ == self@.hash_input(),
    {
        let mut buf: Vec<u8> = Vec::new();
        buf.push(self.version);
        push_slice(&mut buf, self.session_id.0.as_slice());
        buf.push(self.intent.to_u8());
        buf.push(self.priority.0);
        buf.push(self.flags.0);
        push_u32_be(&mut buf, self.sequence);
        push_u32_be(&mut buf, self.payload.len() as u32);
        push_u64_be(&mut buf, self.timestamp);
        push_slice(&mut buf, self.payload.as_slice());
        proof {
            assert(buf@ =~= self@.hash_input());
        }
        buf
    }

    /// The digest of the packet's current field values, hash excluded.
    fn calculate_hash(&self) -> (r: [u8; 32])
        requires
            self@.wf(),
        ensures
            r@ == sha256_of(self@.hash_input()),
    {
        let input = self.hash_input_bytes();
        sha256(input.as_slice())
    }

    /// Recompute the hash from the packet's current in-memory field values
    /// and compare it to the stored hash: true exactly when the packet is
    /// intact. Used at decode time and as a standalone check after any
    /// in-memory mutation.
    pub fn verify(&self) -> (r: bool)
        requires
            self@.wf(),
        ensures
            r == self@.sealed(),
    {
        let computed = self.calculate_hash();
        bytes_eq(computed.as_slice(), self.hash.as_slice())
    }

    /// Serialize the packet in the fixed byte layout: the 36 header bytes,
    /// the payload, then the stored 32-byte hash. The output length is
    /// always exactly header plus payload plus hash; encoding a
    /// well-formed packet never fails.
    pub fn to_bytes(&self) -> (r: Vec<u8>)
        requires
            self@.wf(),
        ensures
            r@ == self@.encoding(),
            r@.len() == HEADER_SIZE + self@.payload.len() + HASH_SIZE,
    {
        let mut buf = self.hash_input_bytes();
        push_slice(&mut buf, self.hash.as_slice());
        proof {
            assert(buf@ =~= self@.encoding());
        }
        buf
    }

    /// Deserialize a byte sequence back into a packet, applying the checks
    /// in order: size bounds, version, intent, declared length, integrity
    /// hash. The earliest applicable failure is returned and a short
    /// buffer is never read past its bounds; on success the returned
    /// packet's integrity is already confirmed.
    pub fn from_bytes(bytes: &[u8]) -> (r: Result<Packet, PacketError>)
        ensures
            decoded_model(r) == spec_decode(bytes@),
            r matches Ok(p) ==> p@.wf() && p@.sealed(),
    {
        let n = bytes.len();
        if n < MIN_PACKET_SIZE {
            return Err(PacketError::TooSmall);
        }
        if n > MAX_PACKET_SIZE {
            return Err(PacketError::TooLarge);
        }
        let version = bytes[0];
        if version != FDP_VERSION {
            return Err(PacketError::UnsupportedVersion(version));
        }
        let intent_byte = bytes[17];
        let intent = match Intent::from_u8(intent_byte) {
            Some(i) => i,
            None => {
                return Err(PacketError::InvalidIntent(intent_byte));
            },
        };
        let sequence = read_u32_be(bytes, 20);
        let declared_len = read_u32_be(bytes, 24);
        let timestamp = read_u64_be(bytes, 28);
        if (HEADER_SIZE as u64) + (declared_len as u64) + (HASH_SIZE as u64) != (n as u64) {
            return Err(PacketError::LengthMismatch);
        }
        let payload_len = declared_len as usize;
        let session_id = SessionId::from_bytes(
            [
                bytes[1],
                bytes[2],
                bytes[3],
                bytes[4],
                bytes[5],
                bytes[6],
                bytes[7],
                bytes[8],
                bytes[9],
                bytes[10],
                bytes[11],
                bytes[12],
                bytes[13],
                bytes[14],
                bytes[15],
                bytes[16],
            ],
        );
        let priority = Priority(bytes[18]);
        let flags = Flags(bytes[19]);
        let payload = slice_to_vec(slice_subrange(bytes, HEADER_SIZE, HEADER_SIZE + payload_len));
        let mut packet = Packet {
            version,
            session_id,
            intent,
            priority,
            flags,
            sequence,
            timestamp,
            payload,
            hash: [0u8; 32],
        };
        let ghost before = packet@;
        let computed = packet.calculate_hash();
        packet.hash = computed;
        let stored = slice_subrange(bytes, HEADER_SIZE + payload_len, n);
        proof {
            let s = bytes@;
            let m = spec_parse(s);
            assert(packet@.session_id =~= s.subrange(1, 17));
            assert(m.payload == s.subrange(36, s.len() - 32));
            assert(packet@.payload == s.subrange(36, s.len() - 32));
            lemma_hash_input_ignores_hash(packet@, before);
            lemma_hash_input_ignores_hash(m, packet@);
            assert(computed@ == sha256_of(m.hash_input()));
            assert(m.hash == stored@);
        }
        if !bytes_eq(computed.as_slice(), stored) {
            return Err(PacketError::InvalidHash);
        }
        proof {
            let s = bytes@;
            let m = spec_parse(s);
            assert(packet@ =~= m);
        }
        Ok(packet)
    }

    /// The size of this packet's encoding in bytes: header plus payload
    /// plus hash.
    pub fn size(&self) -> (r: usize)
        requires
            self@.wf(),
        ensures
            r == HEADER_SIZE + self@.payload.len() + HASH_SIZE,
            r == self@.encoding().len(),
    {
        HEADER_SIZE + self.payload.len() + HASH_SIZE
    }
}

/// Exact sizing: the encoding of a packet is always exactly the
/// header size plus the payload length plus the hash size.
pub proof fn lemma_encoding_size(m: PacketModel)
    requires
        m.session_id.len() == 16,
        m.hash.len() == 32,
    ensures
        m.encoding().len() == HEADER_SIZE + m.payload.len() + HASH_SIZE,
{
}

/// Version gate: a buffer of valid size whose byte 0 is not the
/// supported version fails to decode with `UnsupportedVersion`
/// carrying that byte, whatever the remaining bytes hold. (A buffer
/// outside the size bounds fails the earlier size check instead.)
pub proof fn lemma_version_gate(s: Seq<u8>)
    requires
        MIN_PACKET_SIZE <= s.len() <= MAX_PACKET_SIZE,
        s[0] != FDP_VERSION,
    ensures
        spec_decode(s) == Err::<PacketModel, PacketError>(
            PacketError::UnsupportedVersion(s[0]),
        ),
{
}

/// Unknown intent rejection: a buffer of valid size and supported
/// version whose byte 17 is not a defined intent code fails to decode
/// with `InvalidIntent` carrying that byte, whatever the remaining
/// bytes hold.
pub proof fn lemma_unknown_intent_rejected(s: Seq<u8>)
    requires
        MIN_PACKET_SIZE <= s.len() <= MAX_PACKET_SIZE,
        s[0] == FDP_VERSION,
        intent_from_code(s[17]) is None,
    ensures
        spec_decode(s) == Err::<PacketModel, PacketError>(PacketError::InvalidIntent(s[17])),
{
}

/// Round trip: decoding the encoding of any well-formed, sealed packet
/// of the supported version gives back exactly that packet, every
/// field included.
pub proof fn lemma_round_trip(m: PacketModel)
    requires
        m.wf(),
        m.sealed(),
        m.version == FDP_VERSION,
    ensures
        spec_decode(m.encoding()) == Ok::<PacketModel, PacketError>(m),
{
    let s = m.encoding();
    let header = m.header_bytes();
    let input = m.hash_input();
    assert(header.len() == 36);
    assert(s.len() == 36 + m.payload.len() + 32);
    assert(s[0] == m.version);
    assert(s.subrange(1, 17) =~= m.session_id);
    assert(s[17] == intent_code(m.intent));
    lemma_intent_code_bijection();
    assert(intent_from_code(s[17]) == Some(m.intent));
    assert(s[18] == m.priority);
    assert(s[19] == m.flags);
    assert(s.subrange(20, 24) =~= spec_u32_to_be_bytes(m.sequence));
    assert(s.subrange(24, 28) =~= spec_u32_to_be_bytes(m.payload.len() as u32));
    assert(s.subrange(28, 36) =~= spec_u64_to_be_bytes(m.timestamp));
    lemma_u32_be_bytes_round_trip();
    lemma_u64_be_bytes_round_trip();
    assert(spec_u32_from_be_bytes(s.subrange(24, 28)) == m.payload.len());
    assert(s.subrange(36, s.len() - 32) =~= m.payload);
    assert(s.subrange(s.len() - 32, s.len() as int) =~= m.hash);
    let parsed = spec_parse(s);
    assert(parsed =~= m);
}

/// Decode is a right inverse of encode: any byte sequence that decodes
/// successfully is exactly the encoding of the packet it decodes to, so
/// re-encoding a decoded packet reproduces the received bytes.
pub proof fn lemma_decode_encode_identity(s: Seq<u8>)
    requires
        spec_decode(s) is Ok,
    ensures
        spec_decode(s)->Ok_0.encoding() == s,
{
    let m = spec_parse(s);
    let declared = spec_u32_from_be_bytes(s.subrange(24, 28));
    assert(HEADER_SIZE + declared + HASH_SIZE == s.len());
    assert(m.payload.len() == declared);
    lemma_intent_code_bijection();
    assert(intent_code(m.intent) == s[17]);
    lemma_u32_be_bytes_round_trip();
    lemma_u64_be_bytes_round_trip();
    assert(spec_u32_to_be_bytes(m.sequence) == s.subrange(20, 24));
    assert(spec_u32_to_be_bytes(m.payload.len() as u32) == s.subrange(24, 28));
    assert(spec_u64_to_be_bytes(m.timestamp) == s.subrange(28, 36));
    assert(m.encoding() =~= s);
}

} // verus!
