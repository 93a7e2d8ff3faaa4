//! Wire framing and integrity model for an application-layer message
//! protocol: a fixed-layout header, a bit-packed flag byte, closed
//! enumerations for the wire vocabulary, a 128-bit session identifier,
//! and a hash-based integrity check covering encode and decode.

pub mod endian;
pub mod flags;
pub mod packet;
pub mod types;
