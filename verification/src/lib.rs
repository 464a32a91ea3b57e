//! Frame codec for a byte-oriented packet protocol over unreliable serial
//! links: a payload is protected by a 32-bit checksum trailer, byte-stuffed so
//! that the frame is free of zero bytes, and delimited by a single terminating
//! zero byte. Decoding validates the trailer and applies a fixed fallback
//! policy to malformed input instead of failing.

pub mod checksum;
pub mod codec;
pub mod stuffing;
pub mod wire;
