//! The chunk layer: headers as far as the security layer needs them, and the
//! secure channel itself.

pub mod message_chunk;
pub mod secure_channel;
pub mod security_header;
