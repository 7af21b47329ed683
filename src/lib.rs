//! A record of a named entity with nested addresses and an optional binary
//! image, and what its two codecs carry: the plain values of a Cap'n Proto
//! message, and a text form whose image travels as unpadded base64. A small transport state machine collects
//! the bytes of one connection until the peer closes its write side.

pub mod agree;
pub mod binary;
pub mod bytes;
pub mod error;
pub mod harness;
pub mod record;
pub mod text;
pub mod transport;
