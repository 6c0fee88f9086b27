//! The security state of one channel, and what it does to chunks.

use vstd::prelude::*;
use vstd::slice::slice_to_vec;
use crate::bytes::append;
use crate::bytes::copy_into;
use crate::bytes::lemma_overwrite_all;
use crate::bytes::overwrite;
use crate::bytes::zeroed;
use crate::comms::message_chunk::MessageChunkType;
use crate::comms::message_chunk::MESSAGE_CHUNK_HEADER_SIZE;
use crate::comms::message_chunk::SEQUENCE_HEADER_SIZE;
use crate::comms::security_header::AsymmetricSecurityHeader;
use crate::comms::security_header::SecurityHeader;
use crate::comms::security_header::SymmetricSecurityHeader;
use crate::crypto::hash::hmac_sha1;
use crate::crypto::hash::hmac_sha256;
use crate::crypto::hash::verify_hmac_sha1;
use crate::crypto::hash::verify_hmac_sha256;
use crate::crypto::random::random_bytes;
use crate::crypto::security_policy::SecurityPolicy;
use crate::crypto::symmetric::AES_BLOCK_SIZE;
use crate::crypto::types::KeyMaterial;
use crate::crypto::types::SecureChannelKeys;
use crate::crypto::types::X509;
use crate::types::ByteString;
use crate::types::DateTime;
use crate::types::MessageSecurityMode;
use crate::types::StatusCode;

verus! {

/// Holds all of the security information related to one channel.
#[derive(Debug)]
pub struct SecureChannel {
    /// The security mode of the connection.
    pub security_mode: MessageSecurityMode,
    /// The security policy of the connection.
    pub security_policy: SecurityPolicy,
    /// The identifier of the channel on the wire.
    pub secure_channel_id: u32,
    /// When the current token was issued.
    pub token_created_at: DateTime,
    /// How long the current token is valid, in seconds.
    pub token_lifetime: u32,
    /// The identifier of the current token.
    pub token_id: u32,
    /// Our nonce, made while the channel is opened.
    pub nonce: Vec<u8>,
    /// Their nonce, received while the channel is opened.
    pub their_nonce: Vec<u8>,
    /// Their certificate.
    pub their_cert: Option<X509>,
    /// The keys that protect what we send.
    pub keys: Option<SecureChannelKeys>,
    /// The keys that protect what we receive.
    pub their_keys: Option<SecureChannelKeys>,
}

/// The security state of a channel as plain values.
pub struct ChannelState {
    pub security_mode: MessageSecurityMode,
    pub security_policy: SecurityPolicy,
    pub secure_channel_id: u32,
    pub token_created_at: DateTime,
    pub token_lifetime: u32,
    pub token_id: u32,
    pub nonce: Seq<u8>,
    pub their_nonce: Seq<u8>,
    pub their_cert: Option<Seq<u8>>,
    pub keys: Option<KeyMaterial>,
    pub their_keys: Option<KeyMaterial>,
}

impl View for SecureChannel {
    type V = ChannelState;

    open spec fn view(&self) -> ChannelState {
        ChannelState {
            security_mode: self.security_mode,
            security_policy: self.security_policy,
            secure_channel_id: self.secure_channel_id,
            token_created_at: self.token_created_at,
            token_lifetime: self.token_lifetime,
            token_id: self.token_id,
            nonce: self.nonce@,
            their_nonce: self.their_nonce@,
            their_cert: match self.their_cert {
                Some(cert) => Some(cert.der@),
                None => None,
            },
            keys: match self.keys {
                Some(keys) => Some(keys@),
                None => None,
            },
            their_keys: match self.their_keys {
                Some(keys) => Some(keys@),
                None => None,
            },
        }
    }
}

impl ChannelState {
    /// Whether chunks are signed and not encrypted.
    pub open spec fn signing_enabled(self) -> bool {
        self.security_policy != SecurityPolicy::NoSecurity && self.security_mode
            == MessageSecurityMode::Sign
    }

    /// Whether chunks are signed and encrypted.
    pub open spec fn encryption_enabled(self) -> bool {
        self.security_policy != SecurityPolicy::NoSecurity && self.security_mode
            == MessageSecurityMode::SignAndEncrypt
    }

    /// The length that a nonce of this channel must have: the size of a
    /// symmetric key where chunks are signed or encrypted, else one byte.
    pub open spec fn nonce_size(self) -> nat {
        if self.signing_enabled() || self.encryption_enabled() {
            self.security_policy.spec_symmetric_key_size()
        } else {
            1
        }
    }

    /// Whether the channel takes `value` as the peer's nonce: it is present,
    /// and where chunks are signed or encrypted it is as long as a symmetric
    /// key.
    pub open spec fn accepts_nonce(self, value: Option<Seq<u8>>) -> bool {
        match value {
            Some(nonce) => !(self.signing_enabled() || self.encryption_enabled()) || nonce.len()
                == self.security_policy.spec_symmetric_key_size(),
            None => false,
        }
    }

    /// The channel with both sets of keys derived from its nonces. Our keys
    /// take their nonce as the secret and our nonce as the seed; their keys
    /// take our nonce as the secret and their nonce as the seed.
    pub open spec fn with_derived_keys(self) -> ChannelState {
        ChannelState {
            keys: Some(
                self.security_policy.spec_make_secure_channel_keys(self.their_nonce, self.nonce),
            ),
            their_keys: Some(
                self.security_policy.spec_make_secure_channel_keys(self.nonce, self.their_nonce),
            ),
            ..self
        }
    }

    /// Whether the token has run out at `now`: its lifetime has passed since
    /// it was issued.
    pub open spec fn token_expired_at(self, now: DateTime) -> bool {
        now.spec_nanos_since_epoch() >= self.token_created_at.spec_nanos_since_epoch()
            + self.token_lifetime * 1_000_000_000
    }

    /// The length of the signature of a chunk.
    pub open spec fn symmetric_signature_size(self) -> nat {
        self.security_policy.spec_symmetric_signature_size()
    }

    /// Whether chunks are padded at all: there is a policy and the mode is
    /// not the one without security.
    pub open spec fn pads_chunks(self) -> bool {
        self.security_policy != SecurityPolicy::NoSecurity && self.security_mode
            != MessageSecurityMode::NoSecurity
    }

    /// The largest body that fits into a chunk of `message_chunk_size` bytes
    /// whose security header takes `security_header_len` bytes. The value is
    /// zero or less where the chunk cannot even hold its headers and its
    /// signature.
    pub open spec fn max_body_size(self, security_header_len: nat, message_chunk_size: nat) -> int {
        let header_size = MESSAGE_CHUNK_HEADER_SIZE + security_header_len;
        let room = message_chunk_size - header_size - self.symmetric_signature_size() - 1;
        self.security_policy.spec_plain_block_size() * (room
            / (self.security_policy.spec_cipher_block_size() as int)) - SEQUENCE_HEADER_SIZE
    }

    /// Whether a body of `bytes_to_write` bytes is too large for one chunk:
    /// a chunk size is set, it leaves room for a body, and the body is larger
    /// than that.
    pub open spec fn body_exceeds_chunk(
        self,
        bytes_to_write: nat,
        security_header_len: nat,
        message_chunk_size: nat,
    ) -> bool {
        &&& message_chunk_size != 0
        &&& self.max_body_size(security_header_len, message_chunk_size) > 0
        &&& bytes_to_write > self.max_body_size(security_header_len, message_chunk_size)
    }

    /// The number of padding bytes behind a body of `bytes_to_write` bytes.
    /// Body, signature, the byte that holds the padding's length and the
    /// padding together fill whole blocks of plaintext.
    pub open spec fn chunk_padding(
        self,
        bytes_to_write: nat,
        security_header_len: nat,
        message_chunk_size: nat,
    ) -> nat {
        if !self.pads_chunks() {
            0
        } else if self.body_exceeds_chunk(bytes_to_write, security_header_len, message_chunk_size) {
            0
        } else {
            let block = self.security_policy.spec_plain_block_size() as int;
            let content = (bytes_to_write + self.symmetric_signature_size() + 1) as int;
            (block - content % block) as nat
        }
    }

    /// The signature that this side puts under `data`: the tag of the
    /// policy's keyed hash under our signing key.
    pub open spec fn signature_of(self, data: Seq<u8>) -> Seq<u8> {
        self.security_policy.spec_symmetric_sign(self.keys->0.signing_key, data)
    }

    /// The signature that the peer puts under `data`: the tag of the
    /// policy's keyed hash under their signing key.
    pub open spec fn their_signature_of(self, data: Seq<u8>) -> Seq<u8> {
        self.security_policy.spec_symmetric_sign(self.their_keys->0.signing_key, data)
    }

    /// The chunk `src` with its signature in place: the bytes before the end
    /// of the signed range, then the signature of the signed range.
    pub open spec fn signed_chunk(self, src: Seq<u8>, sign_info: (usize, usize)) -> Seq<u8> {
        src.subrange(0, sign_info.1 as int) + self.signature_of(
            src.subrange(sign_info.0 as int, sign_info.1 as int),
        )
    }

    /// The chunk `src` as it is before encryption: unchanged in the mode
    /// without security, else with its signature in place.
    pub open spec fn plain_chunk(self, src: Seq<u8>, sign_info: (usize, usize)) -> Seq<u8> {
        if self.security_mode == MessageSecurityMode::NoSecurity {
            src
        } else {
            self.signed_chunk(src, sign_info)
        }
    }

    /// Whether the channel can secure a chunk of `src_len` bytes into a
    /// buffer of `dst_len` bytes. The mode is valid and the buffer is as long
    /// as the chunk. Unless the mode is the one without security, there is a
    /// policy, our keys are derived and the signed range lies in the chunk;
    /// where chunks are encrypted, the encrypted range lies in the chunk too.
    pub open spec fn can_encrypt_and_sign(
        self,
        src_len: nat,
        sign_info: (usize, usize),
        encrypt_info: (usize, usize),
        dst_len: nat,
    ) -> bool {
        &&& self.security_mode != MessageSecurityMode::Invalid
        &&& dst_len == src_len
        &&& self.security_mode != MessageSecurityMode::NoSecurity ==> {
            &&& self.security_policy.spec_is_supported()
            &&& self.keys is Some
            &&& sign_info.0 <= sign_info.1 <= src_len
        }
        &&& self.security_mode == MessageSecurityMode::SignAndEncrypt ==> encrypt_info.0
            <= encrypt_info.1 <= src_len
    }

    /// What securing the chunk `src` into a buffer that holds `dst` gives:
    /// the outcome, and the buffer afterwards.
    ///
    /// In the mode without security the buffer receives the chunk as it is.
    /// Where chunks are signed, the space behind the signed range must be as
    /// long as a signature; the buffer then receives the signed chunk. Where
    /// chunks are encrypted too, the encrypted range must be a whole number
    /// of blocks and the cipher must accept our key and initialization
    /// vector; the buffer then receives the signed chunk with the encrypted
    /// range in ciphertext. Whenever securing fails the buffer stays as it
    /// was. A channel in the invalid mode secures nothing: no caller gets
    /// that far, see [`ChannelState::can_encrypt_and_sign`].
    pub open spec fn spec_encrypt_and_sign(
        self,
        src: Seq<u8>,
        sign_info: (usize, usize),
        encrypt_info: (usize, usize),
        dst: Seq<u8>,
    ) -> (Result<(), StatusCode>, Seq<u8>) {
        let keys = self.keys->0;
        let signed = self.signed_chunk(src, sign_info);
        let plain = signed.subrange(encrypt_info.0 as int, encrypt_info.1 as int);
        match self.security_mode {
            MessageSecurityMode::Invalid => (Err(StatusCode::BadInvalidArgument), dst),
            MessageSecurityMode::NoSecurity => (Ok(()), src),
            MessageSecurityMode::Sign => if src.len() - sign_info.1
                != self.symmetric_signature_size() {
                (Err(StatusCode::BadInvalidArgument), dst)
            } else {
                (Ok(()), signed)
            },
            MessageSecurityMode::SignAndEncrypt => if (encrypt_info.1 - encrypt_info.0) % (
            AES_BLOCK_SIZE as int) != 0 {
                (Err(StatusCode::BadDecodingError), dst)
            } else if src.len() - sign_info.1 != self.symmetric_signature_size() {
                (Err(StatusCode::BadInvalidArgument), dst)
            } else if !self.security_policy.spec_cipher_accepts_key(
                keys.encryption_key,
                keys.iv,
            ) {
                (Err(StatusCode::BadEncodingError), dst)
            } else {
                (
                    Ok(()),
                    overwrite(
                        overwrite(
                            dst,
                            encrypt_info.0 as int,
                            self.security_policy.spec_symmetric_encrypt(
                                keys.encryption_key,
                                keys.iv,
                                plain,
                            ),
                        ),
                        0,
                        signed.subrange(0, encrypt_info.0 as int),
                    ),
                )
            },
        }
    }

    /// Whether the channel can open a chunk of `src_len` bytes into a buffer
    /// of `dst_len` bytes. The mode is valid and the buffer is at least as
    /// long as the chunk. Unless the mode is the one without security, there
    /// is a policy, their keys are derived and the signed range lies in the
    /// buffer; where chunks are encrypted, the encrypted range lies in the
    /// chunk too.
    pub open spec fn can_decrypt_and_verify(
        self,
        src_len: nat,
        sign_info: (usize, usize),
        encrypt_info: (usize, usize),
        dst_len: nat,
    ) -> bool {
        &&& self.security_mode != MessageSecurityMode::Invalid
        &&& dst_len >= src_len
        &&& self.security_mode != MessageSecurityMode::NoSecurity ==> {
            &&& self.security_policy.spec_is_supported()
            &&& self.their_keys is Some
            &&& sign_info.0 <= sign_info.1 <= dst_len
        }
        &&& self.security_mode == MessageSecurityMode::SignAndEncrypt ==> encrypt_info.0
            <= encrypt_info.1 <= src_len
    }

    /// Whether the buffer `opened` holds a chunk with a valid signature of
    /// the peer: what lies behind the signed range is the signature of the
    /// signed range.
    pub open spec fn verify_outcome(self, opened: Seq<u8>, sign_info: (usize, usize)) -> Result<
        (),
        StatusCode,
    > {
        if opened.subrange(sign_info.1 as int, opened.len() as int) == self.their_signature_of(
            opened.subrange(sign_info.0 as int, sign_info.1 as int),
        ) {
            Ok(())
        } else {
            Err(StatusCode::BadApplicationSignatureInvalid)
        }
    }

    /// What opening the chunk `src` into a buffer that holds `dst` gives: the
    /// outcome, and the buffer afterwards.
    ///
    /// In the mode without security the buffer receives the chunk as it is.
    /// Where chunks are signed, the buffer receives the chunk and its
    /// signature is then checked. Where chunks are encrypted too, the
    /// encrypted range must be a whole number of blocks, else the buffer stays
    /// as it was; the buffer then receives the bytes before the encrypted
    /// range; the cipher must accept their key and initialization vector; the
    /// buffer then receives the plaintext of the encrypted range, and the
    /// signature is checked on the buffer. A channel in the invalid mode
    /// opens nothing: no caller gets that far, see
    /// [`ChannelState::can_decrypt_and_verify`].
    pub open spec fn spec_decrypt_and_verify(
        self,
        src: Seq<u8>,
        sign_info: (usize, usize),
        encrypt_info: (usize, usize),
        dst: Seq<u8>,
    ) -> (Result<(), StatusCode>, Seq<u8>) {
        let keys = self.their_keys->0;
        let copied = overwrite(dst, 0, src);
        let with_header = overwrite(dst, 0, src.subrange(0, encrypt_info.0 as int));
        let cipher_text = src.subrange(encrypt_info.0 as int, encrypt_info.1 as int);
        let decrypted = overwrite(
            with_header,
            encrypt_info.0 as int,
            self.security_policy.spec_symmetric_decrypt(keys.encryption_key, keys.iv, cipher_text),
        );
        match self.security_mode {
            MessageSecurityMode::Invalid => (Err(StatusCode::BadInvalidArgument), dst),
            MessageSecurityMode::NoSecurity => (Ok(()), copied),
            MessageSecurityMode::Sign => (self.verify_outcome(copied, sign_info), copied),
            MessageSecurityMode::SignAndEncrypt => if (encrypt_info.1 - encrypt_info.0) % (
            AES_BLOCK_SIZE as int) != 0 {
                (Err(StatusCode::BadDecodingError), dst)
            } else if !self.security_policy.spec_cipher_accepts_key(
                keys.encryption_key,
                keys.iv,
            ) {
                (Err(StatusCode::BadDecodingError), with_header)
            } else {
                (self.verify_outcome(decrypted, sign_info), decrypted)
            },
        }
    }

    /// Whether the policy's cipher, under our encryption key and
    /// initialization vector, turns `plain` into as many bytes of ciphertext
    /// and turns that ciphertext back into `plain`.
    pub open spec fn cipher_gives_back(self, plain: Seq<u8>) -> bool {
        let keys = self.keys->0;
        let cipher_text = self.security_policy.spec_symmetric_encrypt(
            keys.encryption_key,
            keys.iv,
            plain,
        );
        &&& cipher_text.len() == plain.len()
        &&& self.security_policy.spec_symmetric_decrypt(keys.encryption_key, keys.iv, cipher_text)
            == plain
    }

    /// Whether this channel receives what `sender` sends: both have the same
    /// mode and policy, and the keys that protect what this side receives are
    /// the keys that protect what the sender sends.
    pub open spec fn receives_from(self, sender: ChannelState) -> bool {
        &&& self.security_mode == sender.security_mode
        &&& self.security_policy == sender.security_policy
        &&& self.their_keys == sender.keys
    }
}

impl SecureChannel {
    /// A channel without security: the mode and the policy without security,
    /// no nonces, no certificate, no keys, and a token of lifetime zero issued
    /// now.
    pub fn new() -> (channel: SecureChannel)
        ensures
            channel@.security_mode == MessageSecurityMode::NoSecurity,
            channel@.security_policy == SecurityPolicy::NoSecurity,
            channel@.secure_channel_id == 0,
            channel@.token_id == 0,
            channel@.token_lifetime == 0,
            channel@.nonce == Seq::<u8>::empty(),
            channel@.their_nonce == Seq::<u8>::empty(),
            channel@.their_cert is None,
            channel@.keys is None,
            channel@.their_keys is None,
    {
        SecureChannel {
            security_mode: MessageSecurityMode::NoSecurity,
            security_policy: SecurityPolicy::NoSecurity,
            secure_channel_id: 0,
            token_id: 0,
            token_created_at: DateTime::now(),
            token_lifetime: 0,
            nonce: Vec::with_capacity(64),
            their_nonce: Vec::with_capacity(64),
            keys: None,
            their_cert: None,
            their_keys: None,
        }
    }

    /// The security header for a chunk of a message of the given kind: the
    /// asymmetric header without security for the message that opens the
    /// channel, the symmetric header with the current token for every other.
    pub fn make_security_header(&self, message_type: MessageChunkType) -> (header: SecurityHeader)
        ensures
            message_type == MessageChunkType::OpenSecureChannel ==> header is Asymmetric
                && header->Asymmetric_0.security_policy_uri.value is Some
                && header->Asymmetric_0.security_policy_uri.value->0@
                == "http://opcfoundation.org/UA/SecurityPolicy#None"@
                && header->Asymmetric_0.sender_certificate.value is None
                && header->Asymmetric_0.receiver_certificate_thumbprint.value is None,
            message_type != MessageChunkType::OpenSecureChannel ==> header is Symmetric
                && header->Symmetric_0.token_id == self@.token_id,
            header.spec_byte_len() == (if message_type == MessageChunkType::OpenSecureChannel {
                59nat
            } else {
                4nat
            }),
    {
        match message_type {
            MessageChunkType::OpenSecureChannel => SecurityHeader::Asymmetric(
                AsymmetricSecurityHeader::none(),
            ),
            _ => SecurityHeader::Symmetric(SymmetricSecurityHeader { token_id: self.token_id }),
        }
    }

    /// Whether chunks are signed and not encrypted.
    pub fn signing_enabled(&self) -> (enabled: bool)
        ensures
            enabled == self@.signing_enabled(),
    {
        self.security_policy != SecurityPolicy::NoSecurity && self.security_mode
            == MessageSecurityMode::Sign
    }

    /// Whether chunks are signed and encrypted.
    pub fn encryption_enabled(&self) -> (enabled: bool)
        ensures
            enabled == self@.encryption_enabled(),
    {
        self.security_policy != SecurityPolicy::NoSecurity && self.security_mode
            == MessageSecurityMode::SignAndEncrypt
    }

    /// Makes a new nonce for the channel: random bytes, as many as a symmetric
    /// key has, where chunks are signed or encrypted; else the one byte zero.
    /// Nothing else changes.
    pub fn create_random_nonce(&mut self)
        ensures
            final(self)@.nonce.len() == old(self)@.nonce_size(),
            !(old(self)@.signing_enabled() || old(self)@.encryption_enabled())
                ==> final(self)@.nonce == seq![0u8],
            final(self)@ == (ChannelState { nonce: final(self)@.nonce, ..old(self)@ }),
    {
        if self.signing_enabled() || self.encryption_enabled() {
            self.nonce = random_bytes(self.security_policy.symmetric_key_size());
        } else {
            self.nonce = zeroed(1);
            assert(self.nonce@ =~= seq![0u8]);
        }
    }

    /// Takes the peer's nonce. A nonce that is absent, or that has another
    /// length than a symmetric key while chunks are signed or encrypted, is
    /// refused, and the channel stays as it was. Else the nonce is stored as
    /// it is, and nothing else changes.
    pub fn set_their_nonce(&mut self, their_nonce: &ByteString) -> (res: Result<(), StatusCode>)
        ensures
            res is Ok <==> old(self)@.accepts_nonce(
                match their_nonce.value {
                    Some(value) => Some(value@),
                    None => None,
                },
            ),
            res is Ok ==> final(self)@ == (ChannelState {
                their_nonce: their_nonce.value->0@,
                ..old(self)@
            }),
            res is Err ==> res == Err::<(), StatusCode>(StatusCode::BadNonceInvalid)
                && final(self)@ == old(self)@,
    {
        match &their_nonce.value {
            Some(value) => {
                if (self.signing_enabled() || self.encryption_enabled()) && value.len()
                    != self.security_policy.symmetric_key_size() {
                    Err(StatusCode::BadNonceInvalid)
                } else {
                    self.their_nonce = slice_to_vec(value.as_slice());
                    Ok(())
                }
            },
            None => Err(StatusCode::BadNonceInvalid),
        }
    }

    /// Derives both sets of keys from the two nonces. Our keys come from their
    /// nonce as the secret and our nonce as the seed; their keys come from the
    /// same two nonces in swapped roles. Both sets have the lengths that the
    /// policy gives them. Nothing else changes.
    pub fn derive_keys(&mut self)
        ensures
            old(self)@.security_policy.spec_keys_fit(final(self)@.keys->0),
            old(self)@.security_policy.spec_keys_fit(final(self)@.their_keys->0),
            final(self)@ == old(self)@.with_derived_keys(),
    {
        self.keys = Some(
            self.security_policy.make_secure_channel_keys(
                self.their_nonce.as_slice(),
                self.nonce.as_slice(),
            ),
        );
        self.their_keys = Some(
            self.security_policy.make_secure_channel_keys(
                self.nonce.as_slice(),
                self.their_nonce.as_slice(),
            ),
        );
    }

    /// Whether the token has run out at `now`: `now` is at or behind the time
    /// at which the token was issued plus its lifetime.
    pub fn token_expired_at(&self, now: &DateTime) -> (expired: bool)
        ensures
            expired == self@.token_expired_at(*now),
    {
        let lifetime: i128 = (self.token_lifetime as i128) * 1_000_000_000;
        now.nanos_since_epoch() >= self.token_created_at.nanos_since_epoch() + lifetime
    }

    /// Whether the token has run out by now. The answer is that of
    /// [`SecureChannel::token_expired_at`] for the time the clock shows: a
    /// well-formed time, and no contract can say which.
    pub fn token_has_expired(&self) -> (expired: bool)
        ensures
            exists|now: DateTime|
                now.is_well_formed() && expired == #[trigger] self@.token_expired_at(now),
    {
        let now = DateTime::now();
        self.token_expired_at(&now)
    }

    /// The length of the signature of a chunk: that of the policy, zero
    /// without one.
    pub fn symmetric_signature_size(&self) -> (n: usize)
        ensures
            n == self@.symmetric_signature_size(),
    {
        if self.security_policy != SecurityPolicy::NoSecurity {
            self.security_policy.symmetric_signature_size()
        } else {
            0
        }
    }

    /// The number of padding bytes to put behind a body of `bytes_to_write`
    /// bytes, so that the body, the signature, the byte that holds the
    /// padding's length and the padding fill whole blocks and can be
    /// encrypted. `message_chunk_size` is the size that a chunk may have, or
    /// zero for no limit.
    ///
    /// Without a policy, or in the mode without security, the padding is
    /// zero. It is zero too where the body is too large for one chunk: such a
    /// body is split, not padded. In every other case the padding is at least
    /// one byte and at most one block, and it makes the content a whole number
    /// of blocks.
    pub fn calc_chunk_padding(
        &self,
        bytes_to_write: usize,
        security_header: &SecurityHeader,
        message_chunk_size: usize,
    ) -> (padding: usize)
        requires
            security_header.spec_byte_len() <= usize::MAX,
        ensures
            padding == self@.chunk_padding(
                bytes_to_write as nat,
                security_header.spec_byte_len(),
                message_chunk_size as nat,
            ),
            !self@.pads_chunks() ==> padding == 0,
            self@.pads_chunks() && self@.body_exceeds_chunk(
                bytes_to_write as nat,
                security_header.spec_byte_len(),
                message_chunk_size as nat,
            ) ==> padding == 0,
            self@.pads_chunks() && !self@.body_exceeds_chunk(
                bytes_to_write as nat,
                security_header.spec_byte_len(),
                message_chunk_size as nat,
            ) ==> 1 <= padding <= self@.security_policy.spec_plain_block_size() && (bytes_to_write
                + self@.symmetric_signature_size() + 1 + padding) % (
            self@.security_policy.spec_plain_block_size() as int) == 0,
    {
        if self.security_policy != SecurityPolicy::NoSecurity && self.security_mode
            != MessageSecurityMode::NoSecurity {
            let signature_size: usize = self.security_policy.symmetric_signature_size();
            let plain_text_block_size: usize = self.security_policy.plain_block_size();
            let too_large: bool = if message_chunk_size != 0 {
                let cipher_text_block_size: usize = self.security_policy.cipher_block_size();
                let header_size: u128 = MESSAGE_CHUNK_HEADER_SIZE as u128
                    + security_header.byte_len() as u128;
                let taken: u128 = header_size + signature_size as u128 + 1;
                if (message_chunk_size as u128) < taken {
                    false
                } else {
                    let room: u128 = message_chunk_size as u128 - taken;
                    let blocks: u128 = room / (cipher_text_block_size as u128);
                    let with_sequence_header: u128 = plain_text_block_size as u128 * blocks;
                    with_sequence_header > SEQUENCE_HEADER_SIZE as u128 && bytes_to_write as u128
                        > with_sequence_header - SEQUENCE_HEADER_SIZE as u128
                }
            } else {
                false
            };
            if too_large {
                0
            } else {
                let content: u128 = bytes_to_write as u128 + signature_size as u128 + 1;
                let rest: u128 = content % (plain_text_block_size as u128);
                plain_text_block_size - rest as usize
            }
        } else {
            0
        }
    }

    /// Whether the channel can secure a chunk of `src_len` bytes into a
    /// buffer of `dst_len` bytes with the given ranges: what
    /// [`SecureChannel::encrypt_and_sign`] asks of its caller.
    pub fn can_encrypt_and_sign(
        &self,
        src_len: usize,
        sign_info: (usize, usize),
        encrypt_info: (usize, usize),
        dst_len: usize,
    ) -> (can: bool)
        ensures
            can == self@.can_encrypt_and_sign(
                src_len as nat,
                sign_info,
                encrypt_info,
                dst_len as nat,
            ),
    {
        let mode_is_valid: bool = self.security_mode != MessageSecurityMode::Invalid;
        let signing_is_ready: bool = self.security_mode == MessageSecurityMode::NoSecurity || (
        self.security_policy.is_supported() && self.keys.is_some() && sign_info.0 <= sign_info.1
            && sign_info.1 <= src_len);
        let encryption_is_ready: bool = self.security_mode != MessageSecurityMode::SignAndEncrypt
            || (encrypt_info.0 <= encrypt_info.1 && encrypt_info.1 <= src_len);
        mode_is_valid && dst_len == src_len && signing_is_ready && encryption_is_ready
    }

    /// Whether the channel can open a chunk of `src_len` bytes into a buffer
    /// of `dst_len` bytes with the given ranges: what
    /// [`SecureChannel::decrypt_and_verify`] asks of its caller.
    pub fn can_decrypt_and_verify(
        &self,
        src_len: usize,
        sign_info: (usize, usize),
        encrypt_info: (usize, usize),
        dst_len: usize,
    ) -> (can: bool)
        ensures
            can == self@.can_decrypt_and_verify(
                src_len as nat,
                sign_info,
                encrypt_info,
                dst_len as nat,
            ),
    {
        let mode_is_valid: bool = self.security_mode != MessageSecurityMode::Invalid;
        let verifying_is_ready: bool = self.security_mode == MessageSecurityMode::NoSecurity || (
        self.security_policy.is_supported() && self.their_keys.is_some() && sign_info.0
            <= sign_info.1 && sign_info.1 <= dst_len);
        let decryption_is_ready: bool = self.security_mode != MessageSecurityMode::SignAndEncrypt
            || (encrypt_info.0 <= encrypt_info.1 && encrypt_info.1 <= src_len);
        mode_is_valid && dst_len >= src_len && verifying_is_ready && decryption_is_ready
    }

    /// Holds the caller to a policy that signs and encrypts. There is nothing
    /// to do at run time: a call that is not known to have such a policy does
    /// not verify.
    fn expect_supported_security_policy(&self)
        requires
            self@.security_policy.spec_is_supported(),
    {
    }

    /// Signs `src` into `signature` with our signing key. A buffer that is
    /// not as long as a signature is refused and left as it was.
    fn sign(&self, src: &[u8], signature: &mut [u8]) -> (res: Result<(), StatusCode>)
        requires
            self@.security_policy.spec_is_supported(),
            self@.keys is Some,
        ensures
            old(signature)@.len() == self@.symmetric_signature_size() ==> res is Ok
                && final(signature)@ == self@.signature_of(src@),
            old(signature)@.len() != self@.symmetric_signature_size() ==> res == Err::<
                (),
                StatusCode,
            >(StatusCode::BadInvalidArgument) && final(signature)@ == old(signature)@,
            final(signature)@.len() == old(signature)@.len(),
    {
        match &self.keys {
            Some(keys) => match self.security_policy {
                SecurityPolicy::Basic128Rsa15 => hmac_sha1(
                    keys.signing_key.as_slice(),
                    src,
                    signature,
                ),
                SecurityPolicy::Basic256 | SecurityPolicy::Basic256Sha256 => hmac_sha256(
                    keys.signing_key.as_slice(),
                    src,
                    signature,
                ),
                SecurityPolicy::NoSecurity => unreached(),
            },
            None => unreached(),
        }
    }

    /// Checks `signature` against `src` with their signing key.
    fn verify(&self, src: &[u8], signature: &[u8]) -> (res: Result<(), StatusCode>)
        requires
            self@.security_policy.spec_is_supported(),
            self@.their_keys is Some,
        ensures
            res == (if signature@ == self@.their_signature_of(src@) {
                Ok::<(), StatusCode>(())
            } else {
                Err::<(), StatusCode>(StatusCode::BadApplicationSignatureInvalid)
            }),
    {
        let verified: bool = match &self.their_keys {
            Some(keys) => match self.security_policy {
                SecurityPolicy::Basic128Rsa15 => verify_hmac_sha1(
                    keys.signing_key.as_slice(),
                    src,
                    signature,
                ),
                SecurityPolicy::Basic256 | SecurityPolicy::Basic256Sha256 => verify_hmac_sha256(
                    keys.signing_key.as_slice(),
                    src,
                    signature,
                ),
                SecurityPolicy::NoSecurity => unreached(),
            },
            None => unreached(),
        };
        if verified {
            Ok(())
        } else {
            Err(StatusCode::BadApplicationSignatureInvalid)
        }
    }

    /// Encrypts `src` into `dst` with our encryption key and initialization
    /// vector. Where the cipher does not accept them, `dst` stays as it was.
    fn encrypt(&self, src: &[u8], dst: &mut [u8]) -> (res: Result<(), StatusCode>)
        requires
            self@.keys is Some,
            old(dst)@.len() == src@.len(),
        ensures
            res is Ok <==> self@.security_policy.spec_cipher_accepts(
                self@.keys->0.encryption_key,
                self@.keys->0.iv,
                src@,
            ),
            res is Ok ==> final(dst)@ == self@.security_policy.spec_symmetric_encrypt(
                self@.keys->0.encryption_key,
                self@.keys->0.iv,
                src@,
            ) && self@.security_policy.spec_symmetric_decrypt(
                self@.keys->0.encryption_key,
                self@.keys->0.iv,
                final(dst)@,
            ) == src@,
            res is Err ==> res == Err::<(), StatusCode>(StatusCode::BadEncodingError)
                && final(dst)@ == old(dst)@,
            final(dst)@.len() == old(dst)@.len(),
    {
        match &self.keys {
            Some(keys) => {
                let result = self.security_policy.symmetric_encrypt(
                    keys.encryption_key.as_slice(),
                    keys.iv.as_slice(),
                    src,
                );
                match result {
                    Some(cipher_text) => {
                        copy_into(dst, 0, cipher_text.as_slice());
                        proof {
                            lemma_overwrite_all(old(dst)@, cipher_text@);
                        }
                        Ok(())
                    },
                    None => Err(StatusCode::BadEncodingError),
                }
            },
            None => unreached(),
        }
    }

    /// Decrypts `src` into `dst` with their encryption key and initialization
    /// vector. Where the cipher does not accept them, `dst` stays as it was.
    fn decrypt(&self, src: &[u8], dst: &mut [u8]) -> (res: Result<(), StatusCode>)
        requires
            self@.their_keys is Some,
            old(dst)@.len() == src@.len(),
        ensures
            res is Ok <==> self@.security_policy.spec_cipher_accepts(
                self@.their_keys->0.encryption_key,
                self@.their_keys->0.iv,
                src@,
            ),
            res is Ok ==> final(dst)@ == self@.security_policy.spec_symmetric_decrypt(
                self@.their_keys->0.encryption_key,
                self@.their_keys->0.iv,
                src@,
            ),
            res is Err ==> res == Err::<(), StatusCode>(StatusCode::BadDecodingError)
                && final(dst)@ == old(dst)@,
            final(dst)@.len() == old(dst)@.len(),
    {
        match &self.their_keys {
            Some(keys) => {
                let result = self.security_policy.symmetric_decrypt(
                    keys.encryption_key.as_slice(),
                    keys.iv.as_slice(),
                    src,
                );
                match result {
                    Some(plain) => {
                        copy_into(dst, 0, plain.as_slice());
                        proof {
                            lemma_overwrite_all(old(dst)@, plain@);
                        }
                        Ok(())
                    },
                    None => Err(StatusCode::BadDecodingError),
                }
            },
            None => unreached(),
        }
    }

    /// Secures the chunk `src` into `dst`. `sign_info` is the range of the
    /// bytes that are signed: the signature goes behind its end. `encrypt_info`
    /// is the range of the bytes that are encrypted. Both are given as the
    /// first index and the index behind the last.
    ///
    /// Signing is done first and then encryption: the message header and the
    /// security header are signed and stay readable; the sequence header, the
    /// body and the padding are signed and encrypted; the signature is
    /// encrypted.
    ///
    /// The outcome and the buffer are those of
    /// [`ChannelState::spec_encrypt_and_sign`]. What has been secured is what
    /// a receiver gets back: one that receives from this channel, and opens
    /// the buffer with the same ranges, succeeds and finds the chunk with its
    /// signature in place, provided that the encrypted range, where there is
    /// one, ends with the chunk.
    pub fn encrypt_and_sign(
        &self,
        src: &[u8],
        sign_info: (usize, usize),
        encrypt_info: (usize, usize),
        dst: &mut [u8],
    ) -> (res: Result<(), StatusCode>)
        requires
            self@.can_encrypt_and_sign(src@.len(), sign_info, encrypt_info, old(dst)@.len()),
        ensures
            res == self@.spec_encrypt_and_sign(src@, sign_info, encrypt_info, old(dst)@).0,
            final(dst)@ == self@.spec_encrypt_and_sign(src@, sign_info, encrypt_info, old(dst)@).1,
            final(dst)@.len() == src@.len(),
            self@.security_mode == MessageSecurityMode::NoSecurity ==> res is Ok && final(dst)@
                == src@,
            self@.security_mode == MessageSecurityMode::SignAndEncrypt && (encrypt_info.1
                - encrypt_info.0) % 16 != 0 ==> res == Err::<(), StatusCode>(
                StatusCode::BadDecodingError,
            ),
            res is Err ==> final(dst)@ == old(dst)@,
            res is Ok && (self@.security_mode == MessageSecurityMode::SignAndEncrypt
                ==> encrypt_info.1 == src@.len()) ==> forall|
                receiver: ChannelState,
                buffer: Seq<u8>,
            |
                receiver.receives_from(self@) && buffer.len() == src@.len()
                    ==> #[trigger] receiver.spec_decrypt_and_verify(
                    final(dst)@,
                    sign_info,
                    encrypt_info,
                    buffer,
                ) == (Ok::<(), StatusCode>(()), self@.plain_chunk(src@, sign_info)),
    {
        let (s_from, s_to) = sign_info;
        let (e_from, e_to) = encrypt_info;
        match self.security_mode {
            MessageSecurityMode::NoSecurity => {
                // Just copy data to out
                copy_into(dst, 0, src);
                proof {
                    lemma_overwrite_all(old(dst)@, src@);
                }
            },
            MessageSecurityMode::Sign => {
                self.expect_supported_security_policy();
                let signature_len: usize = src.len() - s_to;
                let mut signature: Vec<u8> = zeroed(signature_len);
                // Sign the message header, security header, sequence header, body, padding
                match self.sign(&src[s_from..s_to], signature.as_mut_slice()) {
                    Ok(()) => {},
                    Err(e) => {
                        return Err(e);
                    },
                }
                copy_into(dst, 0, &src[0..s_to]);
                copy_into(dst, s_to, signature.as_slice());
                assert(dst@ =~= self@.signed_chunk(src@, sign_info));
            },
            MessageSecurityMode::SignAndEncrypt => {
                self.expect_supported_security_policy();
                // The range must have been padded to whole blocks.
                if (e_to - e_from) % AES_BLOCK_SIZE != 0 {
                    return Err(StatusCode::BadDecodingError);
                }
                let signature_len: usize = src.len() - s_to;
                let mut signature: Vec<u8> = zeroed(signature_len);
                // Sign the message header, security header, sequence header, body, padding
                match self.sign(&src[s_from..s_to], signature.as_mut_slice()) {
                    Ok(()) => {},
                    Err(e) => {
                        return Err(e);
                    },
                }
                let mut dst_tmp: Vec<u8> = slice_to_vec(&src[0..s_to]);
                append(&mut dst_tmp, signature.as_slice());

                // Encrypt the sequence header, payload, signature
                let mut encrypted: Vec<u8> = zeroed(e_to - e_from);
                match self.encrypt(&dst_tmp.as_slice()[e_from..e_to], encrypted.as_mut_slice()) {
                    Ok(()) => {},
                    Err(e) => {
                        return Err(e);
                    },
                }
                copy_into(dst, e_from, encrypted.as_slice());
                // Copy the message header / security header
                copy_into(dst, 0, &dst_tmp.as_slice()[0..e_from]);
            },
            MessageSecurityMode::Invalid => unreached(),
        }
        proof {
            if self@.security_mode == MessageSecurityMode::SignAndEncrypt ==> e_to == src@.len() {
                assert forall|receiver: ChannelState, buffer: Seq<u8>|
                    receiver.receives_from(self@) && buffer.len() == src@.len()
                        implies #[trigger] receiver.spec_decrypt_and_verify(
                        dst@,
                        sign_info,
                        encrypt_info,
                        buffer,
                    ) == (Ok::<(), StatusCode>(()), self@.plain_chunk(src@, sign_info)) by {
                    lemma_round_trip(
                        self@,
                        receiver,
                        src@,
                        sign_info,
                        encrypt_info,
                        old(dst)@,
                        buffer,
                    );
                }
            }
        }
        Ok(())
    }

    /// Opens the chunk `src` into `dst`: decrypts what is encrypted, and
    /// checks the signature. The ranges are those of
    /// [`SecureChannel::encrypt_and_sign`].
    ///
    /// The outcome and the buffer are those of
    /// [`ChannelState::spec_decrypt_and_verify`].
    pub fn decrypt_and_verify(
        &self,
        src: &[u8],
        sign_info: (usize, usize),
        encrypt_info: (usize, usize),
        dst: &mut [u8],
    ) -> (res: Result<(), StatusCode>)
        requires
            self@.can_decrypt_and_verify(src@.len(), sign_info, encrypt_info, old(dst)@.len()),
        ensures
            res == self@.spec_decrypt_and_verify(src@, sign_info, encrypt_info, old(dst)@).0,
            final(dst)@ == self@.spec_decrypt_and_verify(
                src@,
                sign_info,
                encrypt_info,
                old(dst)@,
            ).1,
            final(dst)@.len() == old(dst)@.len(),
            self@.security_mode == MessageSecurityMode::NoSecurity ==> res is Ok
                && final(dst)@.subrange(0, src@.len() as int) == src@,
            self@.security_mode == MessageSecurityMode::SignAndEncrypt && (encrypt_info.1
                - encrypt_info.0) % 16 != 0 ==> res == Err::<(), StatusCode>(
                StatusCode::BadDecodingError,
            ) && final(dst)@ == old(dst)@,
    {
        let (s_from, s_to) = sign_info;
        let (e_from, e_to) = encrypt_info;
        match self.security_mode {
            MessageSecurityMode::NoSecurity => {
                // Copy everything
                copy_into(dst, 0, src);
                assert(dst@.subrange(0, src@.len() as int) =~= src@);
                Ok(())
            },
            MessageSecurityMode::Sign => {
                self.expect_supported_security_policy();
                // Copy everything
                copy_into(dst, 0, src);
                // Verify signature
                let dst_len: usize = dst.len();
                self.verify(&dst[s_from..s_to], &dst[s_to..dst_len])
            },
            MessageSecurityMode::SignAndEncrypt => {
                self.expect_supported_security_policy();
                // The range must have been padded to whole blocks.
                if (e_to - e_from) % AES_BLOCK_SIZE != 0 {
                    return Err(StatusCode::BadDecodingError);
                }
                // Copy security header
                copy_into(dst, 0, &src[0..e_from]);

                // Decrypt encrypted portion
                let mut decrypted_tmp: Vec<u8> = zeroed(e_to - e_from);
                match self.decrypt(&src[e_from..e_to], decrypted_tmp.as_mut_slice()) {
                    Ok(()) => {},
                    Err(e) => {
                        return Err(e);
                    },
                }
                copy_into(dst, e_from, decrypted_tmp.as_slice());

                // Verify signature (after encrypted portion)
                let dst_len: usize = dst.len();
                self.verify(&dst[s_from..s_to], &dst[s_to..dst_len])
            },
            MessageSecurityMode::Invalid => unreached(),
        }
    }
}

/// A token with a lifetime has not run out when it is issued, nor one second
/// before its lifetime has passed, and it has run out when its lifetime has
/// passed and at every time from then on.
pub proof fn lemma_token_expiry_boundary(channel: ChannelState, now: DateTime)
    requires
        channel.token_lifetime >= 1,
    ensures
        !channel.token_expired_at(channel.token_created_at),
        now.spec_nanos_since_epoch() == channel.token_created_at.spec_nanos_since_epoch() + (
        channel.token_lifetime - 1) * 1_000_000_000 ==> !channel.token_expired_at(now),
        now.spec_nanos_since_epoch() == channel.token_created_at.spec_nanos_since_epoch()
            + channel.token_lifetime * 1_000_000_000 ==> channel.token_expired_at(now),
        now.spec_nanos_since_epoch() >= channel.token_created_at.spec_nanos_since_epoch()
            + channel.token_lifetime * 1_000_000_000 ==> channel.token_expired_at(now),
{
}

/// The two ends of a channel derive each other's keys. Where each end holds
/// the other's nonce as the peer's nonce, under one mode and one policy, the
/// keys that one end derives for what it sends are the keys that the other end
/// derives for what it receives: each end receives from the other.
pub proof fn lemma_peers_derive_matching_keys(client: ChannelState, server: ChannelState)
    requires
        client.security_mode == server.security_mode,
        client.security_policy == server.security_policy,
        client.their_nonce == server.nonce,
        server.their_nonce == client.nonce,
    ensures
        client.with_derived_keys().keys == server.with_derived_keys().their_keys,
        client.with_derived_keys().their_keys == server.with_derived_keys().keys,
        server.with_derived_keys().receives_from(client.with_derived_keys()),
        client.with_derived_keys().receives_from(server.with_derived_keys()),
{
}

/// What one side secures, the other side recovers: opening a secured chunk
/// succeeds and gives the chunk with its signature in place, whatever the
/// buffer held before.
///
/// The receiver must receive from the sender, with a buffer as long as the
/// chunk. Where chunks are signed, the signature must fill the space behind
/// the signed range. Where they are encrypted too, the encrypted range must
/// end with the chunk, and the cipher must give back what it encrypted.
pub proof fn lemma_round_trip(
    sender: ChannelState,
    receiver: ChannelState,
    src: Seq<u8>,
    sign_info: (usize, usize),
    encrypt_info: (usize, usize),
    dst: Seq<u8>,
    buffer: Seq<u8>,
)
    requires
        sender.can_encrypt_and_sign(src.len(), sign_info, encrypt_info, dst.len()),
        sender.spec_encrypt_and_sign(src, sign_info, encrypt_info, dst).0 is Ok,
        receiver.receives_from(sender),
        buffer.len() == src.len(),
        sender.security_mode != MessageSecurityMode::NoSecurity ==> sender.signed_chunk(
            src,
            sign_info,
        ).len() == src.len(),
        sender.security_mode == MessageSecurityMode::SignAndEncrypt ==> encrypt_info.1
            == src.len() && sender.cipher_gives_back(
            sender.signed_chunk(src, sign_info).subrange(
                encrypt_info.0 as int,
                encrypt_info.1 as int,
            ),
        ),
    ensures
        receiver.can_decrypt_and_verify(src.len(), sign_info, encrypt_info, buffer.len()),
        receiver.spec_decrypt_and_verify(
            sender.spec_encrypt_and_sign(src, sign_info, encrypt_info, dst).1,
            sign_info,
            encrypt_info,
            buffer,
        ) == (Ok::<(), StatusCode>(()), sender.plain_chunk(src, sign_info)),
{
    let secured = sender.spec_encrypt_and_sign(src, sign_info, encrypt_info, dst).1;
    let signed = sender.signed_chunk(src, sign_info);
    match sender.security_mode {
        MessageSecurityMode::NoSecurity => {
            lemma_overwrite_all(buffer, src);
        },
        MessageSecurityMode::Sign => {
            lemma_overwrite_all(buffer, signed);
            lemma_signed_chunk_verifies(sender, receiver, src, sign_info);
        },
        MessageSecurityMode::SignAndEncrypt => {
            let keys = sender.keys->0;
            let plain = signed.subrange(encrypt_info.0 as int, encrypt_info.1 as int);
            let cipher_text = sender.security_policy.spec_symmetric_encrypt(
                keys.encryption_key,
                keys.iv,
                plain,
            );
            assert(secured.subrange(0, encrypt_info.0 as int) =~= signed.subrange(
                0,
                encrypt_info.0 as int,
            ));
            assert(secured.subrange(encrypt_info.0 as int, encrypt_info.1 as int) =~= cipher_text);
            let with_header = overwrite(buffer, 0, secured.subrange(0, encrypt_info.0 as int));
            let decrypted = overwrite(with_header, encrypt_info.0 as int, plain);
            assert(decrypted =~= signed);
            lemma_signed_chunk_verifies(sender, receiver, src, sign_info);
        },
        MessageSecurityMode::Invalid => {},
    }
}

/// The signed chunk of a sender carries the signature that its receiver
/// expects.
pub proof fn lemma_signed_chunk_verifies(
    sender: ChannelState,
    receiver: ChannelState,
    src: Seq<u8>,
    sign_info: (usize, usize),
)
    requires
        receiver.security_policy == sender.security_policy,
        receiver.their_keys == sender.keys,
        sign_info.0 <= sign_info.1 <= src.len(),
    ensures
        receiver.verify_outcome(sender.signed_chunk(src, sign_info), sign_info) is Ok,
{
    let signed = sender.signed_chunk(src, sign_info);
    let data = src.subrange(sign_info.0 as int, sign_info.1 as int);
    assert(signed.subrange(sign_info.0 as int, sign_info.1 as int) =~= data);
    assert(signed.subrange(sign_info.1 as int, signed.len() as int) =~= sender.signature_of(data));
}

} // verus!
