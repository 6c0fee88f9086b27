//! The security policies: named bundles of algorithms and sizes.

use vstd::prelude::*;
use vstd::slice::slice_to_vec;
use crate::crypto::hash::HashAlgorithm;
use crate::crypto::symmetric::SymmetricCipher;
use crate::crypto::types::KeyMaterial;
use crate::crypto::types::SecureChannelKeys;

verus! {

/// The security policy of a channel.
#[derive(Debug, Clone, Copy, PartialEq, Eq, Structural)]
pub enum SecurityPolicy {
    /// No signing and no encryption, whatever the security mode says.
    NoSecurity,
    /// AES-128, signatures with HMAC-SHA1.
    Basic128Rsa15,
    /// AES-256, signatures with HMAC-SHA256.
    Basic256,
    /// AES-256, signatures with HMAC-SHA256, keys derived with SHA-256.
    Basic256Sha256,
}

impl SecurityPolicy {
    /// Whether the policy signs and encrypts.
    pub open spec fn spec_is_supported(self) -> bool {
        self != SecurityPolicy::NoSecurity
    }

    /// Whether the policy signs and encrypts.
    pub fn is_supported(self) -> (b: bool)
        ensures
            b == self.spec_is_supported(),
    {
        match self {
            SecurityPolicy::NoSecurity => false,
            _ => true,
        }
    }

    /// The keyed hash that signs chunks, if the policy signs.
    pub open spec fn spec_signature_algorithm(self) -> Option<HashAlgorithm> {
        match self {
            SecurityPolicy::NoSecurity => None,
            SecurityPolicy::Basic128Rsa15 => Some(HashAlgorithm::Sha1),
            SecurityPolicy::Basic256 => Some(HashAlgorithm::Sha256),
            SecurityPolicy::Basic256Sha256 => Some(HashAlgorithm::Sha256),
        }
    }

    /// The keyed hash that signs chunks, if the policy signs.
    pub fn signature_algorithm(self) -> (alg: Option<HashAlgorithm>)
        ensures
            alg == self.spec_signature_algorithm(),
    {
        match self {
            SecurityPolicy::NoSecurity => None,
            SecurityPolicy::Basic128Rsa15 => Some(HashAlgorithm::Sha1),
            SecurityPolicy::Basic256 => Some(HashAlgorithm::Sha256),
            SecurityPolicy::Basic256Sha256 => Some(HashAlgorithm::Sha256),
        }
    }

    /// The keyed hash inside the pseudo-random function that derives keys, if
    /// the policy derives keys.
    pub open spec fn spec_key_derivation_algorithm(self) -> Option<HashAlgorithm> {
        match self {
            SecurityPolicy::NoSecurity => None,
            SecurityPolicy::Basic128Rsa15 => Some(HashAlgorithm::Sha1),
            SecurityPolicy::Basic256 => Some(HashAlgorithm::Sha1),
            SecurityPolicy::Basic256Sha256 => Some(HashAlgorithm::Sha256),
        }
    }

    /// The keyed hash inside the pseudo-random function that derives keys, if
    /// the policy derives keys.
    pub fn key_derivation_algorithm(self) -> (alg: Option<HashAlgorithm>)
        ensures
            alg == self.spec_key_derivation_algorithm(),
    {
        match self {
            SecurityPolicy::NoSecurity => None,
            SecurityPolicy::Basic128Rsa15 => Some(HashAlgorithm::Sha1),
            SecurityPolicy::Basic256 => Some(HashAlgorithm::Sha1),
            SecurityPolicy::Basic256Sha256 => Some(HashAlgorithm::Sha256),
        }
    }

    /// The cipher that encrypts chunks, if the policy encrypts.
    pub open spec fn spec_symmetric_cipher(self) -> Option<SymmetricCipher> {
        match self {
            SecurityPolicy::NoSecurity => None,
            SecurityPolicy::Basic128Rsa15 => Some(SymmetricCipher::Aes128Cbc),
            SecurityPolicy::Basic256 => Some(SymmetricCipher::Aes256Cbc),
            SecurityPolicy::Basic256Sha256 => Some(SymmetricCipher::Aes256Cbc),
        }
    }

    /// The cipher that encrypts chunks, if the policy encrypts.
    pub fn symmetric_cipher(self) -> (cipher: Option<SymmetricCipher>)
        ensures
            cipher == self.spec_symmetric_cipher(),
    {
        match self {
            SecurityPolicy::NoSecurity => None,
            SecurityPolicy::Basic128Rsa15 => Some(SymmetricCipher::Aes128Cbc),
            SecurityPolicy::Basic256 => Some(SymmetricCipher::Aes256Cbc),
            SecurityPolicy::Basic256Sha256 => Some(SymmetricCipher::Aes256Cbc),
        }
    }

    /// The signature of `data` under `key`: the tag of the policy's keyed
    /// hash. Empty without security.
    pub open spec fn spec_symmetric_sign(self, key: Seq<u8>, data: Seq<u8>) -> Seq<u8> {
        match self.spec_signature_algorithm() {
            Some(alg) => alg.spec_hmac(key, data),
            None => Seq::<u8>::empty(),
        }
    }

    /// Whether the policy's cipher can work with `key` and `iv`. Never
    /// without security.
    pub open spec fn spec_cipher_accepts_key(self, key: Seq<u8>, iv: Seq<u8>) -> bool {
        match self.spec_symmetric_cipher() {
            Some(cipher) => cipher.accepts_key(key, iv),
            None => false,
        }
    }

    /// Whether the policy's cipher can work on `data` with `key` and `iv`.
    /// Never without security.
    pub open spec fn spec_cipher_accepts(self, key: Seq<u8>, iv: Seq<u8>, data: Seq<u8>) -> bool {
        match self.spec_symmetric_cipher() {
            Some(cipher) => cipher.accepts(key, iv, data),
            None => false,
        }
    }

    /// What the policy's cipher makes of `plain`. Empty without security.
    pub open spec fn spec_symmetric_encrypt(self, key: Seq<u8>, iv: Seq<u8>, plain: Seq<u8>) -> Seq<
        u8,
    > {
        match self.spec_symmetric_cipher() {
            Some(cipher) => cipher.spec_encrypt(key, iv, plain),
            None => Seq::<u8>::empty(),
        }
    }

    /// What the policy's cipher recovers from `cipher_text`. Empty without
    /// security.
    pub open spec fn spec_symmetric_decrypt(
        self,
        key: Seq<u8>,
        iv: Seq<u8>,
        cipher_text: Seq<u8>,
    ) -> Seq<u8> {
        match self.spec_symmetric_cipher() {
            Some(cipher) => cipher.spec_decrypt(key, iv, cipher_text),
            None => Seq::<u8>::empty(),
        }
    }

    /// Encrypts `src` with the policy's cipher. Fails exactly when the cipher
    /// does not accept the arguments. The ciphertext is as long as `src`, and
    /// it decrypts to `src`.
    pub fn symmetric_encrypt(self, key: &[u8], iv: &[u8], src: &[u8]) -> (out: Option<Vec<u8>>)
        ensures
            out is Some <==> self.spec_cipher_accepts(key@, iv@, src@),
            out is Some ==> out->0@ == self.spec_symmetric_encrypt(key@, iv@, src@),
            out is Some ==> out->0@.len() == src@.len(),
            out is Some ==> self.spec_symmetric_decrypt(key@, iv@, out->0@) == src@,
    {
        match self.symmetric_cipher() {
            Some(cipher) => cipher.encrypt(key, iv, src),
            None => None,
        }
    }

    /// Decrypts `src` with the policy's cipher. Fails exactly when the cipher
    /// does not accept the arguments. The plaintext is as long as `src`.
    pub fn symmetric_decrypt(self, key: &[u8], iv: &[u8], src: &[u8]) -> (out: Option<Vec<u8>>)
        ensures
            out is Some <==> self.spec_cipher_accepts(key@, iv@, src@),
            out is Some ==> out->0@ == self.spec_symmetric_decrypt(key@, iv@, src@),
            out is Some ==> out->0@.len() == src@.len(),
    {
        match self.symmetric_cipher() {
            Some(cipher) => cipher.decrypt(key, iv, src),
            None => None,
        }
    }

    /// The length of a symmetric key, which is also the length of a nonce.
    /// Zero without security.
    pub open spec fn spec_symmetric_key_size(self) -> nat {
        match self {
            SecurityPolicy::NoSecurity => 0,
            SecurityPolicy::Basic128Rsa15 => 16,
            SecurityPolicy::Basic256 => 32,
            SecurityPolicy::Basic256Sha256 => 32,
        }
    }

    /// The length of a symmetric key, which is also the length of a nonce.
    /// Zero without security.
    pub fn symmetric_key_size(self) -> (n: usize)
        ensures
            n == self.spec_symmetric_key_size(),
    {
        match self {
            SecurityPolicy::NoSecurity => 0,
            SecurityPolicy::Basic128Rsa15 => 16,
            SecurityPolicy::Basic256 => 32,
            SecurityPolicy::Basic256Sha256 => 32,
        }
    }

    /// The length of a symmetric signature: the tag length of the keyed hash
    /// that signs. Zero without security.
    pub open spec fn spec_symmetric_signature_size(self) -> nat {
        match self.spec_signature_algorithm() {
            Some(alg) => alg.spec_size(),
            None => 0,
        }
    }

    /// The length of a symmetric signature: the tag length of the keyed hash
    /// that signs. Zero without security.
    pub fn symmetric_signature_size(self) -> (n: usize)
        ensures
            n == self.spec_symmetric_signature_size(),
    {
        match self.signature_algorithm() {
            Some(alg) => alg.size(),
            None => 0,
        }
    }

    /// The size of a block of plaintext. Zero without security.
    pub open spec fn spec_plain_block_size(self) -> nat {
        if self.spec_is_supported() {
            16
        } else {
            0
        }
    }

    /// The size of a block of plaintext. Zero without security.
    pub fn plain_block_size(self) -> (n: usize)
        ensures
            n == self.spec_plain_block_size(),
    {
        if self.is_supported() {
            16
        } else {
            0
        }
    }

    /// The size of a block of ciphertext. Zero without security.
    pub open spec fn spec_cipher_block_size(self) -> nat {
        if self.spec_is_supported() {
            16
        } else {
            0
        }
    }

    /// The size of a block of ciphertext. Zero without security.
    pub fn cipher_block_size(self) -> (n: usize)
        ensures
            n == self.spec_cipher_block_size(),
    {
        if self.is_supported() {
            16
        } else {
            0
        }
    }

    /// The length of a derived signing key. Zero without security.
    pub open spec fn spec_derived_signature_key_size(self) -> nat {
        match self {
            SecurityPolicy::NoSecurity => 0,
            SecurityPolicy::Basic128Rsa15 => 16,
            SecurityPolicy::Basic256 => 24,
            SecurityPolicy::Basic256Sha256 => 32,
        }
    }

    /// The length of a derived signing key. Zero without security.
    pub fn derived_signature_key_size(self) -> (n: usize)
        ensures
            n == self.spec_derived_signature_key_size(),
    {
        match self {
            SecurityPolicy::NoSecurity => 0,
            SecurityPolicy::Basic128Rsa15 => 16,
            SecurityPolicy::Basic256 => 24,
            SecurityPolicy::Basic256Sha256 => 32,
        }
    }

    /// The length of a derived encryption key: the key size of the policy's
    /// cipher. Zero without security.
    pub open spec fn spec_encrypting_key_size(self) -> nat {
        match self.spec_symmetric_cipher() {
            Some(cipher) => cipher.spec_key_size(),
            None => 0,
        }
    }

    /// The length of a derived encryption key: the key size of the policy's
    /// cipher. Zero without security.
    pub fn encrypting_key_size(self) -> (n: usize)
        ensures
            n == self.spec_encrypting_key_size(),
    {
        match self.symmetric_cipher() {
            Some(cipher) => cipher.key_size(),
            None => 0,
        }
    }

    /// The length of a derived initialization vector: one block of the
    /// policy's cipher. Zero without security.
    pub open spec fn spec_encrypting_block_size(self) -> nat {
        self.spec_cipher_block_size()
    }

    /// The length of a derived initialization vector: one block of the
    /// policy's cipher. Zero without security.
    pub fn encrypting_block_size(self) -> (n: usize)
        ensures
            n == self.spec_encrypting_block_size(),
    {
        self.cipher_block_size()
    }

    /// The `length` bytes at `offset` of the pseudo-random stream that the
    /// policy's key derivation makes of `secret` and `seed`. Empty without
    /// security.
    pub open spec fn spec_prf(self, secret: Seq<u8>, seed: Seq<u8>, length: nat, offset: nat) -> Seq<
        u8,
    > {
        match self.spec_key_derivation_algorithm() {
            Some(alg) => alg.spec_p_hash(secret, seed, offset + length).subrange(
                offset as int,
                (offset + length) as int,
            ),
            None => Seq::<u8>::empty(),
        }
    }

    /// Computes the `length` bytes at `offset` of the pseudo-random stream of
    /// `secret` and `seed`.
    pub fn prf(self, secret: &[u8], seed: &[u8], length: usize, offset: usize) -> (out: Vec<u8>)
        requires
            offset + length <= usize::MAX,
        ensures
            out@ == self.spec_prf(secret@, seed@, length as nat, offset as nat),
            self.spec_is_supported() ==> out@.len() == length,
            !self.spec_is_supported() ==> out@.len() == 0,
    {
        match self.key_derivation_algorithm() {
            Some(alg) => {
                let stream = alg.p_hash(secret, seed, offset + length);
                slice_to_vec(&stream.as_slice()[offset..offset + length])
            },
            None => Vec::new(),
        }
    }

    /// The keys that the policy derives from `secret` and `seed`: the signing
    /// key at the start of the pseudo-random stream, the encryption key behind
    /// it, the initialization vector behind that.
    pub open spec fn spec_make_secure_channel_keys(
        self,
        secret: Seq<u8>,
        seed: Seq<u8>,
    ) -> KeyMaterial {
        let signing = self.spec_derived_signature_key_size();
        let encrypting = self.spec_encrypting_key_size();
        let block = self.spec_encrypting_block_size();
        KeyMaterial {
            signing_key: self.spec_prf(secret, seed, signing, 0),
            encryption_key: self.spec_prf(secret, seed, encrypting, signing),
            iv: self.spec_prf(secret, seed, block, signing + encrypting),
        }
    }

    /// Whether `keys` have the lengths that the policy gives to a signing
    /// key, an encryption key and an initialization vector.
    pub open spec fn spec_keys_fit(self, keys: KeyMaterial) -> bool {
        &&& keys.signing_key.len() == self.spec_derived_signature_key_size()
        &&& keys.encryption_key.len() == self.spec_encrypting_key_size()
        &&& keys.iv.len() == self.spec_encrypting_block_size()
    }

    /// Derives the keys of one direction of a channel from `secret` and
    /// `seed`. The keys have the lengths that the policy gives them.
    pub fn make_secure_channel_keys(self, secret: &[u8], seed: &[u8]) -> (keys: SecureChannelKeys)
        ensures
            keys@ == self.spec_make_secure_channel_keys(secret@, seed@),
            self.spec_keys_fit(keys@),
    {
        let signing: usize = self.derived_signature_key_size();
        let encrypting: usize = self.encrypting_key_size();
        let block: usize = self.encrypting_block_size();
        let signing_key = self.prf(secret, seed, signing, 0);
        let encryption_key = self.prf(secret, seed, encrypting, signing);
        let iv = self.prf(secret, seed, block, signing + encrypting);
        SecureChannelKeys { signing_key, encryption_key, iv }
    }
}

} // verus!
