//! A minimal wire envelope for tagging and carrying opaque byte payloads.
//!
//! The envelope is a [`envelope::Payload`]: a version byte, a message tag
//! telling the receiver how to parse the carried bytes, and the raw bytes
//! themselves. The [`codec`] module fixes the byte-exact wire layout and
//! proves the encode/decode contract: encoding is a pure function of the
//! payload's fields, decoding a canonical encoding returns exactly the
//! payload that was encoded, and any other byte sequence degrades to a
//! sentinel payload that passes the input through unchanged.

pub mod codec;
pub mod envelope;
