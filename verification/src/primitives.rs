//! Trusted bindings to the primitive library: the OS CSPRNG, HMAC-SHA-512,
//! PBKDF2-HMAC-SHA-512, and AES-256-CBC. Each wrapper names the outside
//! function it relies on; the results of the deterministic primitives are
//! named by uninterpreted spec functions, since their values take pages to
//! state.

use vstd::prelude::*;

use aes::cipher::block_padding::NoPadding;
use aes::cipher::{BlockDecryptMut, BlockEncryptMut, KeyIvInit};
use hmac::Mac;
use pbkdf2::pbkdf2_hmac;
use rand_core::{OsRng, RngCore};
use sha2::Sha512;

verus! {

/// The HMAC-SHA-512 digest of `msg` under `key`: 64 bytes, a function of
/// the key and message bytes alone.
pub uninterp spec fn hmac_sha512_of(key: Seq<u8>, msg: Seq<u8>) -> Seq<u8>;

/// The `out_len`-byte key that PBKDF2-HMAC-SHA-512 derives from `password`
/// and `salt` with `rounds` iterations.
pub uninterp spec fn pbkdf2_sha512_of(
    password: Seq<u8>,
    salt: Seq<u8>,
    rounds: u32,
    out_len: nat,
) -> Seq<u8>;

/// The AES-256-CBC encryption (no padding) of the block-aligned `plaintext`
/// under `key` with `iv`.
pub uninterp spec fn aes256_cbc_enc_of(key: Seq<u8>, iv: Seq<u8>, plaintext: Seq<u8>) -> Seq<u8>;

/// The AES-256-CBC decryption (no padding) of the block-aligned
/// `ciphertext` under `key` with `iv`.
pub uninterp spec fn aes256_cbc_dec_of(key: Seq<u8>, iv: Seq<u8>, ciphertext: Seq<u8>) -> Seq<u8>;

/// Relies on `rand_core::OsRng::fill_bytes`: replaces the buffer's contents
/// with bytes drawn from the OS CSPRNG. Nothing is promised of the bytes
/// themselves; the source is safe for concurrent use.
#[verifier::external_body]
pub(crate) fn os_random_fill(buf: &mut Vec<u8>)
    ensures
        final(buf)@.len() == old(buf)@.len(),
{
    OsRng.fill_bytes(buf.as_mut_slice());
}

/// Relies on `hmac::Hmac<sha2::Sha512>` (`new_from_slice`, `update`,
/// `finalize`): computes the HMAC-SHA-512 digest of `msg` under `key`. A key
/// of any length is accepted, and the 64-byte digest is a function of the
/// key and message alone.
#[verifier::external_body]
pub(crate) fn hmac_sha512(key: &Vec<u8>, msg: &Vec<u8>) -> (r: Vec<u8>)
    ensures
        r@ == hmac_sha512_of(key@, msg@),
        r@.len() == 64,
{
    let mut mac = hmac::Hmac::<Sha512>::new_from_slice(key.as_slice())
        .expect("HMAC accepts a key of any length");
    mac.update(msg.as_slice());
    mac.finalize().into_bytes().to_vec()
}

/// Relies on `pbkdf2::pbkdf2_hmac::<sha2::Sha512>`: overwrites `out` with
/// the key it derives from `password` and `salt` with `rounds` iterations.
/// Total for every rounds value and every key length, and deterministic in
/// the password, salt, rounds and output length alone.
#[verifier::external_body]
pub(crate) fn pbkdf2_sha512_fill(password: &Vec<u8>, salt: &Vec<u8>, rounds: u32, out: &mut Vec<u8>)
    ensures
        final(out)@.len() == old(out)@.len(),
        final(out)@ == pbkdf2_sha512_of(password@, salt@, rounds, old(out)@.len()),
{
    pbkdf2_hmac::<Sha512>(password.as_slice(), salt.as_slice(), rounds, out.as_mut_slice());
}

/// Relies on `cbc::Encryptor<aes::Aes256>` with `NoPadding`
/// (`encrypt_padded_b2b_mut`): the ciphertext is exactly as long as the
/// block-aligned plaintext and a function of key, IV and plaintext alone.
#[verifier::external_body]
pub(crate) fn aes256_cbc_encrypt(key: &Vec<u8>, iv: &Vec<u8>, plaintext: &Vec<u8>) -> (r: Vec<u8>)
    requires
        key@.len() == 32,
        iv@.len() == 16,
        plaintext@.len() % 16 == 0,
    ensures
        r@ == aes256_cbc_enc_of(key@, iv@, plaintext@),
        r@.len() == plaintext@.len(),
{
    let mut out = vec![0u8; plaintext.len()];
    cbc::Encryptor::<aes::Aes256>::new_from_slices(key.as_slice(), iv.as_slice())
        .expect("the key is 32 bytes and the IV 16")
        .encrypt_padded_b2b_mut::<NoPadding>(plaintext.as_slice(), out.as_mut_slice())
        .expect("the input is block-aligned and the output as long");
    out
}

/// Relies on `cbc::Decryptor<aes::Aes256>` with `NoPadding`
/// (`decrypt_padded_b2b_mut`): the plaintext is exactly as long as the
/// block-aligned ciphertext and a function of key, IV and ciphertext alone;
/// and the decryptor inverts the encryptor, so decrypting what was
/// encrypted under the same key and IV returns the original bytes.
#[verifier::external_body]
pub(crate) fn aes256_cbc_decrypt(key: &Vec<u8>, iv: &Vec<u8>, ciphertext: &Vec<u8>) -> (r: Vec<u8>)
    requires
        key@.len() == 32,
        iv@.len() == 16,
        ciphertext@.len() % 16 == 0,
    ensures
        r@ == aes256_cbc_dec_of(key@, iv@, ciphertext@),
        r@.len() == ciphertext@.len(),
        forall|pt: Seq<u8>|
            pt.len() == ciphertext@.len() && ciphertext@ == #[trigger] aes256_cbc_enc_of(
                key@,
                iv@,
                pt,
            ) ==> r@ == pt,
{
    let mut out = vec![0u8; ciphertext.len()];
    cbc::Decryptor::<aes::Aes256>::new_from_slices(key.as_slice(), iv.as_slice())
        .expect("the key is 32 bytes and the IV 16")
        .decrypt_padded_b2b_mut::<NoPadding>(ciphertext.as_slice(), out.as_mut_slice())
        .expect("the input is block-aligned and the output as long");
    out
}

} // verus!
