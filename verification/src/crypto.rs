//! The cryptographic collaborators of the secure channel: keyed hashes, the
//! symmetric cipher, and the security policies that choose among them.

pub mod hash;
pub mod random;
pub mod security_policy;
pub mod symmetric;
pub mod types;
