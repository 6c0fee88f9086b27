//! Keyed hashes (HMAC) and the pseudo-random function built on them.

use vstd::prelude::*;
use vstd::slice::slice_to_vec;
use crate::bytes::append;
use crate::bytes::bytes_equal;
use crate::bytes::copy_into;
use crate::types::StatusCode;

verus! {

/// The size of a SHA-1 digest, in bytes.
pub const SHA1_SIZE: usize = 20;

/// The size of a SHA-256 digest, in bytes.
pub const SHA256_SIZE: usize = 32;

/// The HMAC-SHA1 tag of `data` under `key`.
pub uninterp spec fn hmac_sha1_tag(key: Seq<u8>, data: Seq<u8>) -> Seq<u8>;

/// The HMAC-SHA256 tag of `data` under `key`.
pub uninterp spec fn hmac_sha256_tag(key: Seq<u8>, data: Seq<u8>) -> Seq<u8>;

/// Computes an HMAC-SHA1 tag with `hmac::Hmac<sha1::Sha1>`: `new_from_slice`,
/// `update`, `finalize`.
///
/// Believed, not proved: the call returns for a key and data of any length,
/// its result depends on the key and the data alone, and it is 20 bytes long.
#[verifier::external_body]
fn hmac_sha1_digest(key: &[u8], data: &[u8]) -> (tag: Vec<u8>)
    ensures
        tag@ == hmac_sha1_tag(key@, data@),
        tag@.len() == SHA1_SIZE,
{
    let mut mac = <hmac::Hmac<sha1::Sha1> as hmac::Mac>::new_from_slice(key).unwrap();
    hmac::Mac::update(&mut mac, data);
    hmac::Mac::finalize(mac).into_bytes().to_vec()
}

/// Computes an HMAC-SHA256 tag with `hmac::Hmac<sha2::Sha256>`:
/// `new_from_slice`, `update`, `finalize`.
///
/// Believed, not proved: the call returns for a key and data of any length,
/// its result depends on the key and the data alone, and it is 32 bytes long.
#[verifier::external_body]
fn hmac_sha256_digest(key: &[u8], data: &[u8]) -> (tag: Vec<u8>)
    ensures
        tag@ == hmac_sha256_tag(key@, data@),
        tag@.len() == SHA256_SIZE,
{
    let mut mac = <hmac::Hmac<sha2::Sha256> as hmac::Mac>::new_from_slice(key).unwrap();
    hmac::Mac::update(&mut mac, data);
    hmac::Mac::finalize(mac).into_bytes().to_vec()
}

/// The hash function inside an HMAC.
#[derive(Debug, Clone, Copy, PartialEq, Eq, Structural)]
pub enum HashAlgorithm {
    Sha1,
    Sha256,
}

impl HashAlgorithm {
    /// The length of a tag, in bytes.
    pub open spec fn spec_size(self) -> nat {
        match self {
            HashAlgorithm::Sha1 => 20,
            HashAlgorithm::Sha256 => 32,
        }
    }

    /// The length of a tag, in bytes.
    pub fn size(self) -> (n: usize)
        ensures
            n == self.spec_size(),
    {
        match self {
            HashAlgorithm::Sha1 => SHA1_SIZE,
            HashAlgorithm::Sha256 => SHA256_SIZE,
        }
    }

    /// The HMAC tag of `data` under `key`.
    pub open spec fn spec_hmac(self, key: Seq<u8>, data: Seq<u8>) -> Seq<u8> {
        match self {
            HashAlgorithm::Sha1 => hmac_sha1_tag(key, data),
            HashAlgorithm::Sha256 => hmac_sha256_tag(key, data),
        }
    }

    /// Computes the HMAC tag of `data` under `key`.
    pub fn hmac(self, key: &[u8], data: &[u8]) -> (tag: Vec<u8>)
        ensures
            tag@ == self.spec_hmac(key@, data@),
            tag@.len() == self.spec_size(),
    {
        match self {
            HashAlgorithm::Sha1 => hmac_sha1_digest(key, data),
            HashAlgorithm::Sha256 => hmac_sha256_digest(key, data),
        }
    }

    /// Writes the HMAC tag of `data` under `key` into `signature`, which must
    /// be exactly as long as a tag. A buffer of another length is refused and
    /// left as it was.
    pub fn hmac_into(self, key: &[u8], data: &[u8], signature: &mut [u8]) -> (res: Result<
        (),
        StatusCode,
    >)
        ensures
            old(signature)@.len() == self.spec_size() ==> res is Ok && final(signature)@
                == self.spec_hmac(key@, data@),
            old(signature)@.len() != self.spec_size() ==> res == Err::<(), StatusCode>(
                StatusCode::BadInvalidArgument,
            ) && final(signature)@ == old(signature)@,
            final(signature)@.len() == old(signature)@.len(),
    {
        if signature.len() == self.size() {
            let tag = self.hmac(key, data);
            copy_into(signature, 0, tag.as_slice());
            proof {
                crate::bytes::lemma_overwrite_all(old(signature)@, tag@);
            }
            Ok(())
        } else {
            Err(StatusCode::BadInvalidArgument)
        }
    }

    /// Whether `signature` is the HMAC tag of `data` under `key`.
    pub fn verify_hmac(self, key: &[u8], data: &[u8], signature: &[u8]) -> (valid: bool)
        ensures
            valid == (signature@ == self.spec_hmac(key@, data@)),
    {
        let tag = self.hmac(key, data);
        bytes_equal(signature, tag.as_slice())
    }

    /// The value A(i) of the pseudo-random function: A(0) is the seed, and
    /// each further value is the tag of the one before.
    pub open spec fn spec_chain(self, secret: Seq<u8>, seed: Seq<u8>, i: nat) -> Seq<u8>
        decreases i,
    {
        if i == 0 {
            seed
        } else {
            self.spec_hmac(secret, self.spec_chain(secret, seed, (i - 1) as nat))
        }
    }

    /// The first `blocks` blocks of the pseudo-random stream. Block i, counted
    /// from one, is the tag of A(i) followed by the seed.
    pub open spec fn spec_stream(self, secret: Seq<u8>, seed: Seq<u8>, blocks: nat) -> Seq<u8>
        decreases blocks,
    {
        if blocks == 0 {
            Seq::<u8>::empty()
        } else {
            self.spec_stream(secret, seed, (blocks - 1) as nat) + self.spec_hmac(
                secret,
                self.spec_chain(secret, seed, blocks) + seed,
            )
        }
    }

    /// The number of blocks that hold `length` bytes.
    pub open spec fn spec_blocks_for(self, length: nat) -> nat {
        ((length + self.spec_size() - 1) / (self.spec_size() as int)) as nat
    }

    /// The first `length` bytes of the pseudo-random stream of `secret` and
    /// `seed`.
    pub open spec fn spec_p_hash(self, secret: Seq<u8>, seed: Seq<u8>, length: nat) -> Seq<u8> {
        self.spec_stream(secret, seed, self.spec_blocks_for(length)).subrange(0, length as int)
    }

    /// Expands `secret` and `seed` into `length` pseudo-random bytes.
    pub fn p_hash(self, secret: &[u8], seed: &[u8], length: usize) -> (out: Vec<u8>)
        ensures
            out@ == self.spec_p_hash(secret@, seed@, length as nat),
            out@.len() == length,
    {
        let size: usize = self.size();
        let mut out: Vec<u8> = Vec::new();
        let mut a: Vec<u8> = slice_to_vec(seed);
        let ghost mut blocks: nat = 0;
        while out.len() < length
            invariant
                size == self.spec_size(),
                size > 0,
                a@ == self.spec_chain(secret@, seed@, blocks),
                out@ == self.spec_stream(secret@, seed@, blocks),
                out@.len() == blocks * size,
                blocks > 0 ==> (blocks - 1) * size < length,
            decreases length + size - out@.len(),
        {
            a = self.hmac(secret, a.as_slice());
            let mut input: Vec<u8> = slice_to_vec(a.as_slice());
            append(&mut input, seed);
            let block = self.hmac(secret, input.as_slice());
            proof {
                assert((blocks + 1) * size == blocks * size + size) by (nonlinear_arith);
            }
            append(&mut out, block.as_slice());
            proof {
                blocks = blocks + 1;
            }
        }
        proof {
            lemma_blocks_for(length as int, size as int, blocks as int);
        }
        out.truncate(length);
        out
    }
}

/// A count of blocks that just reaches `length` is the rounded-up quotient.
proof fn lemma_blocks_for(length: int, size: int, blocks: int)
    by (nonlinear_arith)
    requires
        size > 0,
        length >= 0,
        blocks >= 0,
        blocks * size >= length,
        blocks > 0 ==> (blocks - 1) * size < length,
    ensures
        blocks == (length + size - 1) / size,
{
}

/// Writes the HMAC-SHA1 tag of `data` under `key` into `signature`, which must
/// be 20 bytes long.
pub fn hmac_sha1(key: &[u8], data: &[u8], signature: &mut [u8]) -> (res: Result<(), StatusCode>)
    ensures
        old(signature)@.len() == SHA1_SIZE ==> res is Ok && final(signature)@ == hmac_sha1_tag(
            key@,
            data@,
        ),
        old(signature)@.len() != SHA1_SIZE ==> res == Err::<(), StatusCode>(
            StatusCode::BadInvalidArgument,
        ) && final(signature)@ == old(signature)@,
        final(signature)@.len() == old(signature)@.len(),
{
    HashAlgorithm::Sha1.hmac_into(key, data, signature)
}

/// Writes the HMAC-SHA256 tag of `data` under `key` into `signature`, which
/// must be 32 bytes long.
pub fn hmac_sha256(key: &[u8], data: &[u8], signature: &mut [u8]) -> (res: Result<(), StatusCode>)
    ensures
        old(signature)@.len() == SHA256_SIZE ==> res is Ok && final(signature)@
            == hmac_sha256_tag(key@, data@),
        old(signature)@.len() != SHA256_SIZE ==> res == Err::<(), StatusCode>(
            StatusCode::BadInvalidArgument,
        ) && final(signature)@ == old(signature)@,
        final(signature)@.len() == old(signature)@.len(),
{
    HashAlgorithm::Sha256.hmac_into(key, data, signature)
}

/// Whether `signature` is the HMAC-SHA1 tag of `data` under `key`.
pub fn verify_hmac_sha1(key: &[u8], data: &[u8], signature: &[u8]) -> (valid: bool)
    ensures
        valid == (signature@ == hmac_sha1_tag(key@, data@)),
{
    HashAlgorithm::Sha1.verify_hmac(key, data, signature)
}

/// Whether `signature` is the HMAC-SHA256 tag of `data` under `key`.
pub fn verify_hmac_sha256(key: &[u8], data: &[u8], signature: &[u8]) -> (valid: bool)
    ensures
        valid == (signature@ == hmac_sha256_tag(key@, data@)),
{
    HashAlgorithm::Sha256.verify_hmac(key, data, signature)
}

} // verus!
