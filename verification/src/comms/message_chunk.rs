//! The kinds and fixed sizes of message chunks.

use vstd::prelude::*;

verus! {

/// The size of the header that starts every chunk: the message type, the
/// chunk type, the message size and the secure channel id.
pub const MESSAGE_CHUNK_HEADER_SIZE: usize = 12;

/// The size of the sequence header: the sequence number and the request id.
pub const SEQUENCE_HEADER_SIZE: usize = 8;

/// What kind of message a chunk belongs to.
#[derive(Debug, Clone, Copy, PartialEq, Eq, Structural)]
pub enum MessageChunkType {
    /// An ordinary message on an open channel.
    Message,
    /// The message that opens or renews a channel.
    OpenSecureChannel,
    /// The message that closes a channel.
    CloseSecureChannel,
}

} // verus!
