//! Secure-channel security layer of an OPC UA stack.
//!
//! A [`comms::secure_channel::SecureChannel`] holds the security state of one
//! connection: the negotiated mode and policy, the nonces exchanged while the
//! channel is opened, the symmetric keys derived from them, and the lifetime
//! of the current token. It sizes the padding of outgoing chunks and it signs,
//! encrypts, decrypts and verifies chunks.
//!
//! Every executable function is verified against its contract. The hash, the
//! cipher, the random number generator and the clock are outside code; each is
//! reached through one small function whose contract is stated and believed.

pub mod bytes;
pub mod comms;
pub mod console_logging;
pub mod crypto;
pub mod types;
