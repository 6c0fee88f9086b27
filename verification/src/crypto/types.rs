//! Key material and certificates as the secure channel holds them.

use vstd::prelude::*;

verus! {

/// The three byte strings that protect one direction of a channel.
pub struct KeyMaterial {
    pub signing_key: Seq<u8>,
    pub encryption_key: Seq<u8>,
    pub iv: Seq<u8>,
}

/// The symmetric keys of one direction of a channel.
#[derive(Debug)]
pub struct SecureChannelKeys {
    /// The key of the keyed hash that signs chunks.
    pub signing_key: Vec<u8>,
    /// The key of the cipher that encrypts chunks.
    pub encryption_key: Vec<u8>,
    /// The initialization vector of the cipher.
    pub iv: Vec<u8>,
}

impl View for SecureChannelKeys {
    type V = KeyMaterial;

    open spec fn view(&self) -> KeyMaterial {
        KeyMaterial {
            signing_key: self.signing_key@,
            encryption_key: self.encryption_key@,
            iv: self.iv@,
        }
    }
}

/// A certificate in its encoded form. The channel carries it and does not
/// look inside.
#[derive(Debug)]
pub struct X509 {
    pub der: Vec<u8>,
}

} // verus!
