//! The relay event record and per-channel metadata.
use vstd::prelude::*;

verus! {

/// One event as the relay delivers it: identifier and author key are kept
/// in their hexadecimal wire encoding, the creation time in unix seconds,
/// the kind as an integer tag, and the content as bytes.
///
/// A private session overwrites `content` with decoded plaintext before
/// display; `id` and `author_public_key` are never altered.
#[derive(Clone)]
pub struct RelayEvent {
    pub id: Vec<u8>,
    pub author_public_key: Vec<u8>,
    pub created_at: u64,
    pub kind: u64,
    pub content: Vec<u8>,
}

/// The metadata carried by a channel's root event; absent fields render
/// as placeholders, they are never an error.
#[derive(Clone)]
pub struct ChannelMetadata {
    pub name: Option<String>,
    pub about: Option<String>,
}

} // verus!
