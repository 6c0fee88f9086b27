use opcua_core::crypto::hash::hmac_sha1;
use opcua_core::crypto::hash::hmac_sha256;
use opcua_core::crypto::hash::verify_hmac_sha1;
use opcua_core::crypto::hash::verify_hmac_sha256;
use opcua_core::crypto::hash::HashAlgorithm;
use opcua_core::crypto::security_policy::SecurityPolicy;
use opcua_core::crypto::symmetric::SymmetricCipher;
use opcua_core::types::StatusCode;

fn hex(text: &str) -> Vec<u8> {
    let digits: Vec<u8> = text
        .bytes()
        .map(|c| match c {
            b'0'..=b'9' => c - b'0',
            b'a'..=b'f' => c - b'a' + 10,
            _ => panic!("not a hex digit"),
        })
        .collect();
    digits.chunks(2).map(|pair| pair[0] * 16 + pair[1]).collect()
}

#[test]
fn hmac_sha1_matches_the_published_vector() {
    let mut signature = vec![0u8; 20];
    let res = hmac_sha1(b"Jefe", b"what do ya want for nothing?", &mut signature);
    assert_eq!(res, Ok(()));
    assert_eq!(signature, hex("effcdf6ae5eb2fa2d27416d5f184df9c259a7c79"));
}

#[test]
fn hmac_sha256_matches_the_published_vector() {
    let mut signature = vec![0u8; 32];
    let res = hmac_sha256(b"Jefe", b"what do ya want for nothing?", &mut signature);
    assert_eq!(res, Ok(()));
    assert_eq!(
        signature,
        hex("5bdcc146bf60754e6a042426089575c75a003f089d2739839dec58b964ec3843")
    );
}

#[test]
fn hmac_refuses_a_buffer_of_the_wrong_length() {
    let mut short = vec![7u8; 19];
    assert_eq!(hmac_sha1(b"key", b"data", &mut short), Err(StatusCode::BadInvalidArgument));
    assert_eq!(short, vec![7u8; 19]);
    let mut long = vec![7u8; 33];
    assert_eq!(hmac_sha256(b"key", b"data", &mut long), Err(StatusCode::BadInvalidArgument));
    assert_eq!(long, vec![7u8; 33]);
    let mut swapped = vec![7u8; 20];
    assert_eq!(hmac_sha256(b"key", b"data", &mut swapped), Err(StatusCode::BadInvalidArgument));
}

#[test]
fn hmac_tags_have_the_size_of_the_algorithm() {
    assert_eq!(HashAlgorithm::Sha1.size(), 20);
    assert_eq!(HashAlgorithm::Sha256.size(), 32);
    assert_eq!(HashAlgorithm::Sha1.hmac(b"", b"").len(), 20);
    assert_eq!(HashAlgorithm::Sha256.hmac(b"", b"").len(), 32);
    let long_key = vec![0xaau8; 131];
    assert_eq!(HashAlgorithm::Sha1.hmac(&long_key, b"x").len(), 20);
    assert_eq!(HashAlgorithm::Sha256.hmac(&long_key, b"x").len(), 32);
}

#[test]
fn verify_hmac_accepts_the_tag_and_nothing_else() {
    let tag1 = hex("effcdf6ae5eb2fa2d27416d5f184df9c259a7c79");
    assert!(verify_hmac_sha1(b"Jefe", b"what do ya want for nothing?", &tag1));
    assert!(!verify_hmac_sha1(b"Jefe", b"what do ya want for nothing!", &tag1));
    assert!(!verify_hmac_sha1(b"jefe", b"what do ya want for nothing?", &tag1));
    assert!(!verify_hmac_sha1(b"Jefe", b"what do ya want for nothing?", &tag1[..19]));
    let mut flipped = tag1.clone();
    flipped[0] ^= 1;
    assert!(!verify_hmac_sha1(b"Jefe", b"what do ya want for nothing?", &flipped));

    let tag256 = hex("5bdcc146bf60754e6a042426089575c75a003f089d2739839dec58b964ec3843");
    assert!(verify_hmac_sha256(b"Jefe", b"what do ya want for nothing?", &tag256));
    assert!(!verify_hmac_sha256(b"Jefe", b"what do ya want for nothing?", &tag1));
    assert!(!verify_hmac_sha256(b"Jefe", b"", &tag256));
}

#[test]
fn p_hash_follows_its_definition() {
    for alg in [HashAlgorithm::Sha1, HashAlgorithm::Sha256] {
        let secret = b"the secret";
        let seed = b"the seed";
        let size = alg.size();
        let a1 = alg.hmac(secret, seed);
        let a2 = alg.hmac(secret, &a1);
        let a3 = alg.hmac(secret, &a2);
        let mut stream = Vec::new();
        for a in [&a1, &a2, &a3] {
            let mut input = a.to_vec();
            input.extend_from_slice(seed);
            stream.extend_from_slice(&alg.hmac(secret, &input));
        }
        assert_eq!(alg.p_hash(secret, seed, 0), Vec::<u8>::new());
        assert_eq!(alg.p_hash(secret, seed, 1), stream[..1].to_vec());
        assert_eq!(alg.p_hash(secret, seed, size), stream[..size].to_vec());
        assert_eq!(alg.p_hash(secret, seed, size + 1), stream[..size + 1].to_vec());
        assert_eq!(alg.p_hash(secret, seed, 3 * size), stream);
        assert_eq!(alg.p_hash(secret, seed, 2 * size + 5), stream[..2 * size + 5].to_vec());
    }
}

#[test]
fn aes128_cbc_matches_the_published_vector() {
    let key = hex("2b7e151628aed2a6abf7158809cf4f3c");
    let iv = hex("000102030405060708090a0b0c0d0e0f");
    let plain = hex("6bc1bee22e409f96e93d7e117393172aae2d8a571e03ac9c9eb76fac45af8e51");
    let cipher_text = hex("7649abac8119b246cee98e9b12e9197d5086cb9b507219ee95db113a917678b2");
    assert_eq!(SymmetricCipher::Aes128Cbc.encrypt(&key, &iv, &plain), Some(cipher_text.clone()));
    assert_eq!(SymmetricCipher::Aes128Cbc.decrypt(&key, &iv, &cipher_text), Some(plain));
}

#[test]
fn aes256_cbc_matches_the_published_vector() {
    let key = hex("603deb1015ca71be2b73aef0857d77811f352c073b6108d72d9810a30914dff4");
    let iv = hex("000102030405060708090a0b0c0d0e0f");
    let plain = hex("6bc1bee22e409f96e93d7e117393172aae2d8a571e03ac9c9eb76fac45af8e51");
    let cipher_text = hex("f58c4c04d6e5f1ba779eabfb5f7bfbd69cfc4e967edb808d679f777bc6702c7d");
    assert_eq!(SymmetricCipher::Aes256Cbc.encrypt(&key, &iv, &plain), Some(cipher_text.clone()));
    assert_eq!(SymmetricCipher::Aes256Cbc.decrypt(&key, &iv, &cipher_text), Some(plain));
}

#[test]
fn the_cipher_refuses_what_it_does_not_accept() {
    let key16 = vec![1u8; 16];
    let key32 = vec![1u8; 32];
    let iv = vec![2u8; 16];
    let block = vec![3u8; 16];
    // the key of the other cipher
    assert_eq!(SymmetricCipher::Aes128Cbc.encrypt(&key32, &iv, &block), None);
    assert_eq!(SymmetricCipher::Aes256Cbc.encrypt(&key16, &iv, &block), None);
    assert_eq!(SymmetricCipher::Aes128Cbc.decrypt(&key32, &iv, &block), None);
    assert_eq!(SymmetricCipher::Aes256Cbc.decrypt(&key16, &iv, &block), None);
    // an initialization vector that is no block
    assert_eq!(SymmetricCipher::Aes128Cbc.encrypt(&key16, &iv[..15], &block), None);
    assert_eq!(SymmetricCipher::Aes256Cbc.decrypt(&key32, &[], &block), None);
    // data that is no whole number of blocks
    assert_eq!(SymmetricCipher::Aes128Cbc.encrypt(&key16, &iv, &block[..15]), None);
    assert_eq!(SymmetricCipher::Aes256Cbc.decrypt(&key32, &iv, &[0u8; 17]), None);
    // no data at all is a whole number of blocks
    assert_eq!(SymmetricCipher::Aes128Cbc.encrypt(&key16, &iv, &[]), Some(vec![]));
    assert_eq!(SymmetricCipher::Aes256Cbc.decrypt(&key32, &iv, &[]), Some(vec![]));
}

#[test]
fn the_cipher_gives_back_what_it_encrypted() {
    let iv = vec![9u8; 16];
    let plain: Vec<u8> = (0..64u8).collect();
    for (cipher, key) in [
        (SymmetricCipher::Aes128Cbc, vec![5u8; 16]),
        (SymmetricCipher::Aes256Cbc, vec![5u8; 32]),
    ] {
        let cipher_text = cipher.encrypt(&key, &iv, &plain).unwrap();
        assert_eq!(cipher_text.len(), plain.len());
        assert_ne!(cipher_text, plain);
        assert_eq!(cipher.decrypt(&key, &iv, &cipher_text), Some(plain.clone()));
    }
}

#[test]
fn the_policies_name_their_sizes() {
    let none = SecurityPolicy::NoSecurity;
    assert!(!none.is_supported());
    assert_eq!(none.symmetric_key_size(), 0);
    assert_eq!(none.symmetric_signature_size(), 0);
    assert_eq!(none.plain_block_size(), 0);
    assert_eq!(none.cipher_block_size(), 0);
    assert_eq!(none.derived_signature_key_size(), 0);
    assert_eq!(none.encrypting_key_size(), 0);
    assert_eq!(none.encrypting_block_size(), 0);
    assert_eq!(none.signature_algorithm(), None);
    assert_eq!(none.key_derivation_algorithm(), None);
    assert_eq!(none.symmetric_cipher(), None);

    let rsa15 = SecurityPolicy::Basic128Rsa15;
    assert!(rsa15.is_supported());
    assert_eq!(rsa15.symmetric_key_size(), 16);
    assert_eq!(rsa15.symmetric_signature_size(), 20);
    assert_eq!(rsa15.plain_block_size(), 16);
    assert_eq!(rsa15.cipher_block_size(), 16);
    assert_eq!(rsa15.derived_signature_key_size(), 16);
    assert_eq!(rsa15.encrypting_key_size(), 16);
    assert_eq!(rsa15.encrypting_block_size(), 16);
    assert_eq!(rsa15.signature_algorithm(), Some(HashAlgorithm::Sha1));
    assert_eq!(rsa15.key_derivation_algorithm(), Some(HashAlgorithm::Sha1));
    assert_eq!(rsa15.symmetric_cipher(), Some(SymmetricCipher::Aes128Cbc));

    let basic256 = SecurityPolicy::Basic256;
    assert!(basic256.is_supported());
    assert_eq!(basic256.symmetric_key_size(), 32);
    assert_eq!(basic256.symmetric_signature_size(), 32);
    assert_eq!(basic256.plain_block_size(), 16);
    assert_eq!(basic256.cipher_block_size(), 16);
    assert_eq!(basic256.derived_signature_key_size(), 24);
    assert_eq!(basic256.encrypting_key_size(), 32);
    assert_eq!(basic256.encrypting_block_size(), 16);
    assert_eq!(basic256.signature_algorithm(), Some(HashAlgorithm::Sha256));
    assert_eq!(basic256.key_derivation_algorithm(), Some(HashAlgorithm::Sha1));
    assert_eq!(basic256.symmetric_cipher(), Some(SymmetricCipher::Aes256Cbc));

    let sha256 = SecurityPolicy::Basic256Sha256;
    assert!(sha256.is_supported());
    assert_eq!(sha256.symmetric_key_size(), 32);
    assert_eq!(sha256.symmetric_signature_size(), 32);
    assert_eq!(sha256.plain_block_size(), 16);
    assert_eq!(sha256.cipher_block_size(), 16);
    assert_eq!(sha256.derived_signature_key_size(), 32);
    assert_eq!(sha256.encrypting_key_size(), 32);
    assert_eq!(sha256.encrypting_block_size(), 16);
    assert_eq!(sha256.signature_algorithm(), Some(HashAlgorithm::Sha256));
    assert_eq!(sha256.key_derivation_algorithm(), Some(HashAlgorithm::Sha256));
    assert_eq!(sha256.symmetric_cipher(), Some(SymmetricCipher::Aes256Cbc));
}

#[test]
fn prf_slices_the_stream_at_the_offset() {
    let secret = b"server nonce";
    let seed = b"client nonce";
    let policy = SecurityPolicy::Basic256Sha256;
    let stream = HashAlgorithm::Sha256.p_hash(secret, seed, 80);
    assert_eq!(policy.prf(secret, seed, 32, 0), stream[0..32].to_vec());
    assert_eq!(policy.prf(secret, seed, 32, 32), stream[32..64].to_vec());
    assert_eq!(policy.prf(secret, seed, 16, 64), stream[64..80].to_vec());
    assert_eq!(policy.prf(secret, seed, 0, 7), Vec::<u8>::new());
    assert_eq!(SecurityPolicy::NoSecurity.prf(secret, seed, 16, 0), Vec::<u8>::new());
    let sha1_stream = HashAlgorithm::Sha1.p_hash(secret, seed, 72);
    assert_eq!(SecurityPolicy::Basic256.prf(secret, seed, 16, 56), sha1_stream[56..72].to_vec());
    assert_eq!(SecurityPolicy::Basic128Rsa15.prf(secret, seed, 16, 16), sha1_stream[16..32].to_vec());
}

#[test]
fn keys_are_cut_from_one_stream() {
    let secret = b"their nonce";
    let seed = b"our nonce";
    let keys = SecurityPolicy::Basic256.make_secure_channel_keys(secret, seed);
    let stream = HashAlgorithm::Sha1.p_hash(secret, seed, 24 + 32 + 16);
    assert_eq!(keys.signing_key, stream[0..24].to_vec());
    assert_eq!(keys.encryption_key, stream[24..56].to_vec());
    assert_eq!(keys.iv, stream[56..72].to_vec());

    let keys = SecurityPolicy::Basic128Rsa15.make_secure_channel_keys(secret, seed);
    let stream = HashAlgorithm::Sha1.p_hash(secret, seed, 48);
    assert_eq!(keys.signing_key, stream[0..16].to_vec());
    assert_eq!(keys.encryption_key, stream[16..32].to_vec());
    assert_eq!(keys.iv, stream[32..48].to_vec());

    let keys = SecurityPolicy::Basic256Sha256.make_secure_channel_keys(secret, seed);
    let stream = HashAlgorithm::Sha256.p_hash(secret, seed, 80);
    assert_eq!(keys.signing_key, stream[0..32].to_vec());
    assert_eq!(keys.encryption_key, stream[32..64].to_vec());
    assert_eq!(keys.iv, stream[64..80].to_vec());

    let keys = SecurityPolicy::NoSecurity.make_secure_channel_keys(secret, seed);
    assert!(keys.signing_key.is_empty());
    assert!(keys.encryption_key.is_empty());
    assert!(keys.iv.is_empty());
}
