//! The bit-packed flag byte: four independently addressable sub-fields in
//! one byte. Bits 0-2 carry the compression hint, bits 3-4 the encryption
//! hint, bit 5 the fragmented flag, bit 6 the ack-required flag; bit 7 is
//! reserved and must round-trip unchanged, never interpreted. Every setter
//! read-modify-writes only its own bit range.

use vstd::prelude::*;

use crate::types::Compression;
use crate::types::EncryptionLevel;
use crate::types::compression_code;
use crate::types::compression_from_code;
use crate::types::encryption_code;
use crate::types::encryption_from_code;

verus! {

/// The compression sub-field read from a flag byte. Three bits give eight
/// patterns but only four are defined; the four unnamed patterns fall back
/// to no compression rather than failing.
pub open spec fn spec_compression(b: u8) -> Compression {
    match compression_from_code(b & 0x07) {
        Some(c) => c,
        None => Compression::Uncompressed,
    }
}

/// The encryption sub-field read from a flag byte. Two bits give four
/// patterns but only three are defined; the unnamed pattern falls back to
/// no encryption rather than failing.
pub open spec fn spec_encryption(b: u8) -> EncryptionLevel {
    match encryption_from_code((b >> 3) & 0x03) {
        Some(e) => e,
        None => EncryptionLevel::Plaintext,
    }
}

/// The fragmented flag (bit 5) read from a flag byte.
pub open spec fn spec_fragmented(b: u8) -> bool {
    b & 0x20 != 0
}

/// The ack-required flag (bit 6) read from a flag byte.
pub open spec fn spec_ack_required(b: u8) -> bool {
    b & 0x40 != 0
}

/// A flag byte with the compression sub-field replaced and every other
/// bit kept.
pub open spec fn spec_set_compression(b: u8, c: Compression) -> u8 {
    (b & 0xF8) | compression_code(c)
}

/// A flag byte with the encryption sub-field replaced and every other
/// bit kept.
pub open spec fn spec_set_encryption(b: u8, e: EncryptionLevel) -> u8 {
    (b & 0xE7) | (encryption_code(e) << 3)
}

/// A flag byte with the fragmented bit replaced and every other bit kept.
pub open spec fn spec_set_fragmented(b: u8, fragmented: bool) -> u8 {
    if fragmented {
        b | 0x20
    } else {
        b & 0xDF
    }
}

/// A flag byte with the ack-required bit replaced and every other bit
/// kept.
pub open spec fn spec_set_ack_required(b: u8, required: bool) -> u8 {
    if required {
        b | 0x40
    } else {
        b & 0xBF
    }
}

/// The packed flag byte. A newtype, so a flag byte is never confused with
/// an unrelated `u8`.
#[derive(Debug, Clone, Copy, PartialEq, Eq)]
pub struct Flags(pub u8);

impl Flags {
    /// A flag byte with every bit clear: no compression, no encryption,
    /// not fragmented, no ack required.
    pub fn new() -> (r: Self)
        ensures
            r.0 == 0,
            spec_compression(r.0) == Compression::Uncompressed,
            spec_encryption(r.0) == EncryptionLevel::Plaintext,
            !spec_fragmented(r.0),
            !spec_ack_required(r.0),
    {
        proof {
            assert(0u8 & 0x07 == 0 && (0u8 >> 3) & 0x03 == 0 && 0u8 & 0x20 == 0 && 0u8 & 0x40 == 0)
                by (bit_vector);
        }
        Flags(0)
    }

    /// Replace the compression sub-field (bits 0-2), leaving the other
    /// sub-fields and the reserved bit untouched.
    pub fn set_compression(&mut self, compression: Compression)
        ensures
            final(self).0 == spec_set_compression(old(self).0, compression),
            spec_compression(final(self).0) == compression,
            spec_encryption(final(self).0) == spec_encryption(old(self).0),
            spec_fragmented(final(self).0) == spec_fragmented(old(self).0),
            spec_ack_required(final(self).0) == spec_ack_required(old(self).0),
            final(self).0 & 0x80 == old(self).0 & 0x80,
    {
        let code = compression.to_u8();
        self.0 = (self.0 & 0xF8) | (code & 0x07);
        proof {
            let b = old(self).0;
            assert(code <= 3);
            assert((b & 0xF8) | (code & 0x07) == (b & 0xF8) | code) by (bit_vector)
                requires
                    code <= 3,
            ;
            lemma_set_compression_bits(b, code);
        }
    }

    /// Read the compression sub-field; an undefined bit pattern reads as
    /// no compression.
    pub fn compression(&self) -> (r: Compression)
        ensures
            r == spec_compression(self.0),
    {
        let bits = self.0 & 0x07;
        match Compression::from_u8(bits) {
            Some(c) => c,
            None => Compression::Uncompressed,
        }
    }

    /// Replace the encryption sub-field (bits 3-4), leaving the other
    /// sub-fields and the reserved bit untouched.
    pub fn set_encryption(&mut self, encryption: EncryptionLevel)
        ensures
            final(self).0 == spec_set_encryption(old(self).0, encryption),
            spec_encryption(final(self).0) == encryption,
            spec_compression(final(self).0) == spec_compression(old(self).0),
            spec_fragmented(final(self).0) == spec_fragmented(old(self).0),
            spec_ack_required(final(self).0) == spec_ack_required(old(self).0),
            final(self).0 & 0x80 == old(self).0 & 0x80,
    {
        let code = encryption.to_u8();
        self.0 = (self.0 & 0xE7) | ((code & 0x03) << 3);
        proof {
            let b = old(self).0;
            assert(code <= 2);
            assert((b & 0xE7) | ((code & 0x03) << 3) == (b & 0xE7) | (code << 3)) by (bit_vector)
                requires
                    code <= 2,
            ;
            lemma_set_encryption_bits(b, code);
        }
    }

    /// Read the encryption sub-field; the undefined bit pattern reads as
    /// no encryption.
    pub fn encryption(&self) -> (r: EncryptionLevel)
        ensures
            r == spec_encryption(self.0),
    {
        let bits = (self.0 >> 3) & 0x03;
        match EncryptionLevel::from_u8(bits) {
            Some(e) => e,
            None => EncryptionLevel::Plaintext,
        }
    }

    /// Replace the fragmented bit (bit 5), leaving every other bit
    /// untouched.
    pub fn set_fragmented(&mut self, fragmented: bool)
        ensures
            final(self).0 == spec_set_fragmented(old(self).0, fragmented),
            spec_fragmented(final(self).0) == fragmented,
            spec_compression(final(self).0) == spec_compression(old(self).0),
            spec_encryption(final(self).0) == spec_encryption(old(self).0),
            spec_ack_required(final(self).0) == spec_ack_required(old(self).0),
            final(self).0 & 0x80 == old(self).0 & 0x80,
    {
        if fragmented {
            self.0 = self.0 | 0x20;
        } else {
            self.0 = self.0 & 0xDF;
        }
        proof {
            lemma_set_fragmented_bits(old(self).0);
        }
    }

    /// Read the fragmented bit.
    pub fn is_fragmented(&self) -> (r: bool)
        ensures
            r == spec_fragmented(self.0),
    {
        (self.0 & 0x20) != 0
    }

    /// Replace the ack-required bit (bit 6), leaving every other bit
    /// untouched.
    pub fn set_ack_required(&mut self, required: bool)
        ensures
            final(self).0 == spec_set_ack_required(old(self).0, required),
            spec_ack_required(final(self).0) == required,
            spec_compression(final(self).0) == spec_compression(old(self).0),
            spec_encryption(final(self).0) == spec_encryption(old(self).0),
            spec_fragmented(final(self).0) == spec_fragmented(old(self).0),
            final(self).0 & 0x80 == old(self).0 & 0x80,
    {
        if required {
            self.0 = self.0 | 0x40;
        } else {
            self.0 = self.0 & 0xBF;
        }
        proof {
            lemma_set_ack_required_bits(old(self).0);
        }
    }

    /// Read the ack-required bit.
    pub fn ack_required(&self) -> (r: bool)
        ensures
            r == spec_ack_required(self.0),
    {
        (self.0 & 0x40) != 0
    }
}

/// Writing a compression code into bits 0-2 reads back as that code and
/// leaves bits 3-7 as they were.
proof fn lemma_set_compression_bits(b: u8, code: u8)
    by (bit_vector)
    requires
        code <= 3,
    ensures
        ((b & 0xF8) | code) & 0x07 == code,
        (((b & 0xF8) | code) >> 3) & 0x03 == (b >> 3) & 0x03,
        ((b & 0xF8) | code) & 0x20 == b & 0x20,
        ((b & 0xF8) | code) & 0x40 == b & 0x40,
        ((b & 0xF8) | code) & 0x80 == b & 0x80,
{
}

/// Writing an encryption code into bits 3-4 reads back as that code and
/// leaves bits 0-2 and 5-7 as they were.
proof fn lemma_set_encryption_bits(b: u8, code: u8)
    by (bit_vector)
    requires
        code <= 2,
    ensures
        (((b & 0xE7) | (code << 3)) >> 3) & 0x03 == code,
        ((b & 0xE7) | (code << 3)) & 0x07 == b & 0x07,
        ((b & 0xE7) | (code << 3)) & 0x20 == b & 0x20,
        ((b & 0xE7) | (code << 3)) & 0x40 == b & 0x40,
        ((b & 0xE7) | (code << 3)) & 0x80 == b & 0x80,
{
}

/// Setting or clearing bit 5 reads back as written and leaves every other
/// bit as it was.
proof fn lemma_set_fragmented_bits(b: u8)
    by (bit_vector)
    ensures
        (b | 0x20) & 0x20 != 0,
        (b & 0xDF) & 0x20 == 0,
        (b | 0x20) & 0x07 == b & 0x07,
        (b & 0xDF) & 0x07 == b & 0x07,
        ((b | 0x20) >> 3) & 0x03 == (b >> 3) & 0x03,
        ((b & 0xDF) >> 3) & 0x03 == (b >> 3) & 0x03,
        (b | 0x20) & 0x40 == b & 0x40,
        (b & 0xDF) & 0x40 == b & 0x40,
        (b | 0x20) & 0x80 == b & 0x80,
        (b & 0xDF) & 0x80 == b & 0x80,
{
}

/// Setting or clearing bit 6 reads back as written and leaves every other
/// bit as it was.
proof fn lemma_set_ack_required_bits(b: u8)
    by (bit_vector)
    ensures
        (b | 0x40) & 0x40 != 0,
        (b & 0xBF) & 0x40 == 0,
        (b | 0x40) & 0x07 == b & 0x07,
        (b & 0xBF) & 0x07 == b & 0x07,
        ((b | 0x40) >> 3) & 0x03 == (b >> 3) & 0x03,
        ((b & 0xBF) >> 3) & 0x03 == (b >> 3) & 0x03,
        (b | 0x40) & 0x20 == b & 0x20,
        (b & 0xBF) & 0x20 == b & 0x20,
        (b | 0x40) & 0x80 == b & 0x80,
        (b & 0xBF) & 0x80 == b & 0x80,
{
}

/// Flag independence: each setter makes its own getter report exactly the
/// value written, and leaves the other three sub-fields and the reserved
/// bit exactly as they were. Hence setting the four sub-fields in any
/// order leaves each getter reporting the value most recently set for its
/// sub-field, as the composition below shows for one such order.
pub proof fn lemma_flag_independence(
    b: u8,
    c: Compression,
    e: EncryptionLevel,
    fragmented: bool,
    required: bool,
)
    ensures
        spec_compression(spec_set_compression(b, c)) == c,
        spec_encryption(spec_set_compression(b, c)) == spec_encryption(b),
        spec_fragmented(spec_set_compression(b, c)) == spec_fragmented(b),
        spec_ack_required(spec_set_compression(b, c)) == spec_ack_required(b),
        spec_set_compression(b, c) & 0x80 == b & 0x80,
        spec_encryption(spec_set_encryption(b, e)) == e,
        spec_compression(spec_set_encryption(b, e)) == spec_compression(b),
        spec_fragmented(spec_set_encryption(b, e)) == spec_fragmented(b),
        spec_ack_required(spec_set_encryption(b, e)) == spec_ack_required(b),
        spec_set_encryption(b, e) & 0x80 == b & 0x80,
        spec_fragmented(spec_set_fragmented(b, fragmented)) == fragmented,
        spec_compression(spec_set_fragmented(b, fragmented)) == spec_compression(b),
        spec_encryption(spec_set_fragmented(b, fragmented)) == spec_encryption(b),
        spec_ack_required(spec_set_fragmented(b, fragmented)) == spec_ack_required(b),
        spec_set_fragmented(b, fragmented) & 0x80 == b & 0x80,
        spec_ack_required(spec_set_ack_required(b, required)) == required,
        spec_compression(spec_set_ack_required(b, required)) == spec_compression(b),
        spec_encryption(spec_set_ack_required(b, required)) == spec_encryption(b),
        spec_fragmented(spec_set_ack_required(b, required)) == spec_fragmented(b),
        spec_set_ack_required(b, required) & 0x80 == b & 0x80,
        ({
            let after = spec_set_ack_required(
                spec_set_fragmented(spec_set_encryption(spec_set_compression(b, c), e), fragmented),
                required,
            );
            &&& spec_compression(after) == c
            &&& spec_encryption(after) == e
            &&& spec_fragmented(after) == fragmented
            &&& spec_ack_required(after) == required
            &&& after & 0x80 == b & 0x80
        }),
{
    lemma_set_compression_bits(b, compression_code(c));
    lemma_set_encryption_bits(b, encryption_code(e));
    lemma_set_fragmented_bits(b);
    lemma_set_ack_required_bits(b);
    let b1 = spec_set_compression(b, c);
    let b2 = spec_set_encryption(b1, e);
    let b3 = spec_set_fragmented(b2, fragmented);
    lemma_set_encryption_bits(b1, encryption_code(e));
    lemma_set_fragmented_bits(b2);
    lemma_set_ack_required_bits(b3);
}

} // verus!
