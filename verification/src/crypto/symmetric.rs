//! AES in cipher block chaining mode, without padding.

use vstd::prelude::*;

verus! {

/// The size of an AES block, in bytes.
pub const AES_BLOCK_SIZE: usize = 16;

/// What AES-128-CBC makes of `plain` under `key` and `iv`.
pub uninterp spec fn aes128_cbc_encrypted(key: Seq<u8>, iv: Seq<u8>, plain: Seq<u8>) -> Seq<u8>;

/// What AES-128-CBC recovers from `cipher` under `key` and `iv`.
pub uninterp spec fn aes128_cbc_decrypted(key: Seq<u8>, iv: Seq<u8>, cipher: Seq<u8>) -> Seq<u8>;

/// What AES-256-CBC makes of `plain` under `key` and `iv`.
pub uninterp spec fn aes256_cbc_encrypted(key: Seq<u8>, iv: Seq<u8>, plain: Seq<u8>) -> Seq<u8>;

/// What AES-256-CBC recovers from `cipher` under `key` and `iv`.
pub uninterp spec fn aes256_cbc_decrypted(key: Seq<u8>, iv: Seq<u8>, cipher: Seq<u8>) -> Seq<u8>;

/// Encrypts whole blocks with `cbc::Encryptor<aes::Aes128>`:
/// `new_from_slices`, then `encrypt_padded_b2b_mut` with `NoPadding`.
///
/// Believed, not proved: the call succeeds exactly when the key and the
/// initialization vector are 16 bytes long and the input is a whole number of
/// 16-byte blocks; the output is as long as the input and depends on the three
/// arguments alone; and decrypting the output under the same key and
/// initialization vector gives the input back.
#[verifier::external_body]
fn aes128_cbc_encrypt(key: &[u8], iv: &[u8], src: &[u8]) -> (out: Option<Vec<u8>>)
    ensures
        out is Some <==> (key@.len() == 16 && iv@.len() == 16 && src@.len() % 16 == 0),
        out is Some ==> out->0@ == aes128_cbc_encrypted(key@, iv@, src@),
        out is Some ==> out->0@.len() == src@.len(),
        out is Some ==> aes128_cbc_decrypted(key@, iv@, out->0@) == src@,
{
    let mut out = vec![0u8; src.len()];
    let cipher =
        <cbc::Encryptor<aes::Aes128> as cbc::cipher::KeyIvInit>::new_from_slices(key, iv).ok()?;
    cbc::cipher::BlockEncryptMut::encrypt_padded_b2b_mut::<cbc::cipher::block_padding::NoPadding>(
        cipher, src, &mut out).ok()?;
    Some(out)
}

/// Decrypts whole blocks with `cbc::Decryptor<aes::Aes128>`:
/// `new_from_slices`, then `decrypt_padded_b2b_mut` with `NoPadding`.
///
/// Believed, not proved: the call succeeds exactly when the key and the
/// initialization vector are 16 bytes long and the input is a whole number of
/// 16-byte blocks; the output is as long as the input and depends on the three
/// arguments alone.
#[verifier::external_body]
fn aes128_cbc_decrypt(key: &[u8], iv: &[u8], src: &[u8]) -> (out: Option<Vec<u8>>)
    ensures
        out is Some <==> (key@.len() == 16 && iv@.len() == 16 && src@.len() % 16 == 0),
        out is Some ==> out->0@ == aes128_cbc_decrypted(key@, iv@, src@),
        out is Some ==> out->0@.len() == src@.len(),
{
    let mut out = vec![0u8; src.len()];
    let cipher =
        <cbc::Decryptor<aes::Aes128> as cbc::cipher::KeyIvInit>::new_from_slices(key, iv).ok()?;
    cbc::cipher::BlockDecryptMut::decrypt_padded_b2b_mut::<cbc::cipher::block_padding::NoPadding>(
        cipher, src, &mut out).ok()?;
    Some(out)
}

/// Encrypts whole blocks with `cbc::Encryptor<aes::Aes256>`:
/// `new_from_slices`, then `encrypt_padded_b2b_mut` with `NoPadding`.
///
/// Believed, not proved: the call succeeds exactly when the key is 32 bytes
/// long, the initialization vector is 16 bytes long and the input is a whole
/// number of 16-byte blocks; the output is as long as the input and depends on
/// the three arguments alone; and decrypting the output under the same key
/// and initialization vector gives the input back.
#[verifier::external_body]
fn aes256_cbc_encrypt(key: &[u8], iv: &[u8], src: &[u8]) -> (out: Option<Vec<u8>>)
    ensures
        out is Some <==> (key@.len() == 32 && iv@.len() == 16 && src@.len() % 16 == 0),
        out is Some ==> out->0@ == aes256_cbc_encrypted(key@, iv@, src@),
        out is Some ==> out->0@.len() == src@.len(),
        out is Some ==> aes256_cbc_decrypted(key@, iv@, out->0@) == src@,
{
    let mut out = vec![0u8; src.len()];
    let cipher =
        <cbc::Encryptor<aes::Aes256> as cbc::cipher::KeyIvInit>::new_from_slices(key, iv).ok()?;
    cbc::cipher::BlockEncryptMut::encrypt_padded_b2b_mut::<cbc::cipher::block_padding::NoPadding>(
        cipher, src, &mut out).ok()?;
    Some(out)
}

/// Decrypts whole blocks with `cbc::Decryptor<aes::Aes256>`:
/// `new_from_slices`, then `decrypt_padded_b2b_mut` with `NoPadding`.
///
/// Believed, not proved: the call succeeds exactly when the key is 32 bytes
/// long, the initialization vector is 16 bytes long and the input is a whole
/// number of 16-byte blocks; the output is as long as the input and depends on
/// the three arguments alone.
#[verifier::external_body]
fn aes256_cbc_decrypt(key: &[u8], iv: &[u8], src: &[u8]) -> (out: Option<Vec<u8>>)
    ensures
        out is Some <==> (key@.len() == 32 && iv@.len() == 16 && src@.len() % 16 == 0),
        out is Some ==> out->0@ == aes256_cbc_decrypted(key@, iv@, src@),
        out is Some ==> out->0@.len() == src@.len(),
{
    let mut out = vec![0u8; src.len()];
    let cipher =
        <cbc::Decryptor<aes::Aes256> as cbc::cipher::KeyIvInit>::new_from_slices(key, iv).ok()?;
    cbc::cipher::BlockDecryptMut::decrypt_padded_b2b_mut::<cbc::cipher::block_padding::NoPadding>(
        cipher, src, &mut out).ok()?;
    Some(out)
}

/// A symmetric cipher that a security policy can name.
#[derive(Debug, Clone, Copy, PartialEq, Eq, Structural)]
pub enum SymmetricCipher {
    Aes128Cbc,
    Aes256Cbc,
}

impl SymmetricCipher {
    /// The length of a key, in bytes.
    pub open spec fn spec_key_size(self) -> nat {
        match self {
            SymmetricCipher::Aes128Cbc => 16,
            SymmetricCipher::Aes256Cbc => 32,
        }
    }

    /// The length of a key, in bytes.
    pub fn key_size(self) -> (n: usize)
        ensures
            n == self.spec_key_size(),
    {
        match self {
            SymmetricCipher::Aes128Cbc => 16,
            SymmetricCipher::Aes256Cbc => 32,
        }
    }

    /// Whether the cipher can work with `key` and `iv`: the key has the
    /// cipher's key size, and the initialization vector is one block long.
    pub open spec fn accepts_key(self, key: Seq<u8>, iv: Seq<u8>) -> bool {
        &&& key.len() == self.spec_key_size()
        &&& iv.len() == AES_BLOCK_SIZE
    }

    /// Whether the cipher can work on `data` with `key` and `iv`: it can work
    /// with the two, and the data is a whole number of blocks.
    pub open spec fn accepts(self, key: Seq<u8>, iv: Seq<u8>, data: Seq<u8>) -> bool {
        &&& self.accepts_key(key, iv)
        &&& data.len() % (AES_BLOCK_SIZE as nat) == 0
    }

    /// The ciphertext of `plain`.
    pub open spec fn spec_encrypt(self, key: Seq<u8>, iv: Seq<u8>, plain: Seq<u8>) -> Seq<u8> {
        match self {
            SymmetricCipher::Aes128Cbc => aes128_cbc_encrypted(key, iv, plain),
            SymmetricCipher::Aes256Cbc => aes256_cbc_encrypted(key, iv, plain),
        }
    }

    /// The plaintext of `cipher`.
    pub open spec fn spec_decrypt(self, key: Seq<u8>, iv: Seq<u8>, cipher: Seq<u8>) -> Seq<u8> {
        match self {
            SymmetricCipher::Aes128Cbc => aes128_cbc_decrypted(key, iv, cipher),
            SymmetricCipher::Aes256Cbc => aes256_cbc_decrypted(key, iv, cipher),
        }
    }

    /// Encrypts `src`. Fails exactly when the cipher does not accept the
    /// arguments. The ciphertext is as long as `src`, and it decrypts to `src`.
    pub fn encrypt(self, key: &[u8], iv: &[u8], src: &[u8]) -> (out: Option<Vec<u8>>)
        ensures
            out is Some <==> self.accepts(key@, iv@, src@),
            out is Some ==> out->0@ == self.spec_encrypt(key@, iv@, src@),
            out is Some ==> out->0@.len() == src@.len(),
            out is Some ==> self.spec_decrypt(key@, iv@, out->0@) == src@,
    {
        match self {
            SymmetricCipher::Aes128Cbc => aes128_cbc_encrypt(key, iv, src),
            SymmetricCipher::Aes256Cbc => aes256_cbc_encrypt(key, iv, src),
        }
    }

    /// Decrypts `src`. Fails exactly when the cipher does not accept the
    /// arguments. The plaintext is as long as `src`.
    pub fn decrypt(self, key: &[u8], iv: &[u8], src: &[u8]) -> (out: Option<Vec<u8>>)
        ensures
            out is Some <==> self.accepts(key@, iv@, src@),
            out is Some ==> out->0@ == self.spec_decrypt(key@, iv@, src@),
            out is Some ==> out->0@.len() == src@.len(),
    {
        match self {
            SymmetricCipher::Aes128Cbc => aes128_cbc_decrypt(key, iv, src),
            SymmetricCipher::Aes256Cbc => aes256_cbc_decrypt(key, iv, src),
        }
    }
}

} // verus!
