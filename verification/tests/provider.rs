use sqlcipher_provider::provider::{
    activate, add_random, cipher, ctx_free, ctx_init, deactivate, fips_status, get_block_sz,
    get_cipher, get_hmac_sz, get_iv_sz, get_key_sz, get_provider_name, get_provider_version,
    hmac, pbkdf, random, signal_crypto_provider_setup,
};
use sqlcipher_provider::sqlcipher::CIPHER_ENCRYPT;
use sqlcipher_provider::sqlite::{SQLITE_ERROR, SQLITE_OK};

fn hx(s: &str) -> Vec<u8> {
    let digits: Vec<u32> = s.chars().map(|c| c.to_digit(16).unwrap()).collect();
    digits.chunks(2).map(|p| (p[0] * 16 + p[1]) as u8).collect()
}

#[test]
fn capability_constants() {
    assert_eq!(get_key_sz(), 32);
    assert_eq!(get_iv_sz(), 16);
    assert_eq!(get_block_sz(), 16);
    assert_eq!(get_hmac_sz(2), 64);
    assert_eq!(get_hmac_sz(1), 0);
    assert_eq!(get_hmac_sz(0), 0);
    assert_eq!(get_hmac_sz(-1), 0);
}

#[test]
fn capability_strings() {
    assert_eq!(get_cipher(), "aes-256-cbc");
    assert_eq!(get_provider_name(), "sqlcipher_provider");
    assert_eq!(get_provider_version(), "0.1.0");
}

#[test]
fn lifecycle_noops_succeed() {
    assert_eq!(activate(), SQLITE_OK);
    assert_eq!(deactivate(), SQLITE_OK);
    assert_eq!(ctx_init(), SQLITE_OK);
    assert_eq!(ctx_free(), SQLITE_OK);
    assert_eq!(add_random(Some(&vec![1u8, 2, 3])), SQLITE_OK);
    assert_eq!(add_random(None), SQLITE_OK);
    assert_eq!(fips_status(), 0);
}

#[test]
fn hmac_sha512_rfc4231_case_1() {
    let key = vec![0x0bu8; 20];
    let msg = b"Hi There".to_vec();
    let (status, digest) = hmac(2, Some(&key), Some(&msg), None, true);
    assert_eq!(status, SQLITE_OK);
    let expected = hx(
        "87aa7cdea5ef619d4ff0b4241a1d6cb02379f4e2ce4ec2787ad0b30545e17cde\
         daa833b7d6b8a702038b274eaea3f4e4be9d914eeb61f1702e696c203a126854",
    );
    assert_eq!(digest.unwrap(), expected);
}

#[test]
fn hmac_sha512_rfc4231_case_2() {
    let key = b"Jefe".to_vec();
    let msg = b"what do ya want for nothing?".to_vec();
    let (status, digest) = hmac(2, Some(&key), Some(&msg), None, true);
    assert_eq!(status, SQLITE_OK);
    let expected = hx(
        "164b7a7bfcf819e2e395fbe73b56e0a387bd64222e831fd610270cd7ea250554\
         9758bf75c05a994a6d034f65f8f0e6fdcaeab1a34d4a6b4b636e070a38bce737",
    );
    assert_eq!(digest.unwrap(), expected);
}

#[test]
fn hmac_deterministic() {
    let key = b"a fixed key".to_vec();
    let msg = b"a fixed message".to_vec();
    let (s1, d1) = hmac(2, Some(&key), Some(&msg), None, true);
    let (s2, d2) = hmac(2, Some(&key), Some(&msg), None, true);
    assert_eq!(s1, SQLITE_OK);
    assert_eq!(s2, SQLITE_OK);
    assert_eq!(d1, d2);
}

#[test]
fn hmac_two_part_equals_one_part() {
    let key = b"page authentication key".to_vec();
    let a = b"page header".to_vec();
    let b = b" and page body".to_vec();
    let mut joined = a.clone();
    joined.extend_from_slice(&b);
    let (s1, one) = hmac(2, Some(&key), Some(&joined), None, true);
    let (s2, two) = hmac(2, Some(&key), Some(&a), Some(&b), true);
    assert_eq!(s1, SQLITE_OK);
    assert_eq!(s2, SQLITE_OK);
    assert_eq!(one, two);
}

#[test]
fn hmac_null_arguments_rejected() {
    let key = b"key".to_vec();
    let msg = b"msg".to_vec();
    assert_eq!(hmac(2, None, Some(&msg), None, true), (SQLITE_ERROR, None));
    assert_eq!(hmac(2, Some(&key), None, None, true), (SQLITE_ERROR, None));
    assert_eq!(hmac(2, Some(&key), Some(&msg), None, false), (SQLITE_ERROR, None));
}

#[test]
fn hmac_unsupported_algorithm_rejected() {
    let key = b"key".to_vec();
    let msg = b"msg".to_vec();
    for alg in [-1, 0, 1, 3, 7] {
        assert_eq!(hmac(alg, Some(&key), Some(&msg), None, true), (SQLITE_ERROR, None));
    }
}

#[test]
fn pbkdf2_sha512_known_vector() {
    let password = b"password".to_vec();
    let salt = b"salt".to_vec();
    let (status, key) = pbkdf(2, Some(&password), Some(&salt), 1, 64, true);
    assert_eq!(status, SQLITE_OK);
    let expected = hx(
        "867f70cf1ade02cff3752599a3a53dc4af34c7a669815ae5d513554e1c8cf252\
         c02d470a285a0501bad999bfe943c08f050235d7d68b1da55e63f73b60a57fce",
    );
    assert_eq!(key.unwrap(), expected);
}

#[test]
fn pbkdf2_deterministic_and_iteration_sensitive() {
    let password = b"correct horse".to_vec();
    let salt = b"battery staple".to_vec();
    let (s1, k1) = pbkdf(2, Some(&password), Some(&salt), 1000, 32, true);
    let (s2, k2) = pbkdf(2, Some(&password), Some(&salt), 1000, 32, true);
    let (s3, k3) = pbkdf(2, Some(&password), Some(&salt), 1001, 32, true);
    assert_eq!(s1, SQLITE_OK);
    assert_eq!(s2, SQLITE_OK);
    assert_eq!(s3, SQLITE_OK);
    assert_eq!(k1, k2);
    assert_ne!(k1, k3);
    assert_eq!(k1.unwrap().len(), 32);
}

#[test]
fn pbkdf2_null_arguments_rejected() {
    let password = b"pw".to_vec();
    let salt = b"na".to_vec();
    assert_eq!(pbkdf(2, None, Some(&salt), 1, 16, true), (SQLITE_ERROR, None));
    assert_eq!(pbkdf(2, Some(&password), None, 1, 16, true), (SQLITE_ERROR, None));
    assert_eq!(pbkdf(2, Some(&password), Some(&salt), 1, 16, false), (SQLITE_ERROR, None));
}

#[test]
fn pbkdf2_unsupported_algorithm_rejected() {
    let password = b"pw".to_vec();
    let salt = b"na".to_vec();
    for alg in [-1, 0, 1, 3, 7] {
        assert_eq!(pbkdf(alg, Some(&password), Some(&salt), 1, 16, true), (SQLITE_ERROR, None));
    }
}

#[test]
fn cipher_matches_nist_cbc_aes256_vector() {
    let key = hx("603deb1015ca71be2b73aef0857d77811f352c073b6108d72d9810a30914dff4");
    let iv = hx("000102030405060708090a0b0c0d0e0f");
    let plaintext = hx("6bc1bee22e409f96e93d7e117393172aae2d8a571e03ac9c9eb76fac45af8e51");
    let expected = hx("f58c4c04d6e5f1ba779eabfb5f7bfbd69cfc4e967edb808d679f777bc6702c7d");
    let (status, ciphertext) = cipher(CIPHER_ENCRYPT, &key, &iv, &plaintext);
    assert_eq!(status, SQLITE_OK);
    assert_eq!(ciphertext.unwrap(), expected);
}

#[test]
fn cipher_round_trip() {
    let key = (0u8..32).collect::<Vec<u8>>();
    let iv = (100u8..116).collect::<Vec<u8>>();
    let plaintext: Vec<u8> = (0u8..96).map(|i| i.wrapping_mul(37)).collect();
    let (s1, ct) = cipher(CIPHER_ENCRYPT, &key, &iv, &plaintext);
    assert_eq!(s1, SQLITE_OK);
    let ct = ct.unwrap();
    assert_eq!(ct.len(), plaintext.len());
    assert_ne!(ct, plaintext);
    let (s2, back) = cipher(0, &key, &iv, &ct);
    assert_eq!(s2, SQLITE_OK);
    assert_eq!(back.unwrap(), plaintext);
}

#[test]
fn cipher_decrypt_is_any_nonencrypt_mode() {
    let key = vec![7u8; 32];
    let iv = vec![9u8; 16];
    let plaintext = vec![42u8; 48];
    let (_, ct) = cipher(CIPHER_ENCRYPT, &key, &iv, &plaintext);
    let ct = ct.unwrap();
    let (s2, back2) = cipher(0, &key, &iv, &ct);
    let (s3, back3) = cipher(-5, &key, &iv, &ct);
    assert_eq!(s2, SQLITE_OK);
    assert_eq!(s3, SQLITE_OK);
    assert_eq!(back2.as_ref().unwrap(), &plaintext);
    assert_eq!(back2, back3);
}

#[test]
fn cipher_rejects_bad_lengths() {
    let key = vec![1u8; 32];
    let iv = vec![2u8; 16];
    let aligned = vec![3u8; 32];
    assert_eq!(cipher(CIPHER_ENCRYPT, &vec![1u8; 31], &iv, &aligned), (SQLITE_ERROR, None));
    assert_eq!(cipher(CIPHER_ENCRYPT, &key, &vec![2u8; 15], &aligned), (SQLITE_ERROR, None));
    assert_eq!(cipher(CIPHER_ENCRYPT, &key, &iv, &vec![3u8; 33]), (SQLITE_ERROR, None));
    assert_eq!(cipher(0, &key, &iv, &vec![3u8; 17]), (SQLITE_ERROR, None));
}

#[test]
fn cipher_empty_input_is_block_aligned() {
    let key = vec![1u8; 32];
    let iv = vec![2u8; 16];
    let empty: Vec<u8> = Vec::new();
    let (status, out) = cipher(CIPHER_ENCRYPT, &key, &iv, &empty);
    assert_eq!(status, SQLITE_OK);
    assert_eq!(out.unwrap().len(), 0);
}

#[test]
fn random_fills_requested_length() {
    let (status, buf) = random(true, 48);
    assert_eq!(status, SQLITE_OK);
    assert_eq!(buf.unwrap().len(), 48);
}

#[test]
fn random_null_buffer_rejected() {
    assert_eq!(random(false, 16), (SQLITE_ERROR, None));
}

#[test]
fn random_does_not_repeat() {
    let (s1, b1) = random(true, 32);
    let (s2, b2) = random(true, 32);
    assert_eq!(s1, SQLITE_OK);
    assert_eq!(s2, SQLITE_OK);
    assert_ne!(b1.unwrap(), b2.unwrap());
}

#[test]
fn setup_twice_yields_identical_tables() {
    let (s1, t1) = signal_crypto_provider_setup(true);
    let (s2, t2) = signal_crypto_provider_setup(true);
    assert_eq!(s1, SQLITE_OK);
    assert_eq!(s2, SQLITE_OK);
    assert!(t1.is_some());
    assert_eq!(t1, t2);
}

#[test]
fn setup_null_location_rejected() {
    assert_eq!(signal_crypto_provider_setup(false), (SQLITE_ERROR, None));
}
