//! The host's codec-provider interface: algorithm identifiers, the cipher
//! mode flag, and the fixed-layout provider table.

use vstd::prelude::*;

verus! {

/// The one supported keyed-hash algorithm identifier (HMAC-SHA-512).
pub const SQLCIPHER_HMAC_SHA512: i32 = 2;

/// The one supported key-derivation algorithm identifier
/// (PBKDF2-HMAC-SHA-512).
pub const SQLCIPHER_PBKDF2_HMAC_SHA512: i32 = 2;

/// Cipher mode flag selecting encryption; any other value selects
/// decryption.
pub const CIPHER_ENCRYPT: i32 = 1;

/// Names one operation of the provider: the value bound to a slot of the
/// provider table. The host resolves each slot to the operation its entry
/// names.
#[derive(Clone, Copy, PartialEq, Eq, Structural, Debug)]
pub enum ProviderFn {
    Activate,
    Deactivate,
    GetProviderName,
    AddRandom,
    Random,
    Hmac,
    Pbkdf,
    Cipher,
    GetCipher,
    GetKeySz,
    GetIvSz,
    GetBlockSz,
    GetHmacSz,
    CtxInit,
    CtxFree,
    FipsStatus,
    GetProviderVersion,
}

/// The provider table: an ordered, fixed-layout record of operation entries.
/// The field order matches the host's declared structure and must not be
/// reordered, renamed, or resized. The assembler writes it once; the
/// provider never mutates it afterward.
#[derive(Clone, Copy, PartialEq, Eq, Structural, Debug)]
pub struct SqlCipherProvider {
    pub activate: ProviderFn,
    pub deactivate: ProviderFn,
    pub get_provider_name: ProviderFn,
    pub add_random: ProviderFn,
    pub random: ProviderFn,
    pub hmac: ProviderFn,
    pub pbkdf: ProviderFn,
    pub cipher: ProviderFn,
    pub get_cipher: ProviderFn,
    pub get_key_sz: ProviderFn,
    pub get_iv_sz: ProviderFn,
    pub get_block_sz: ProviderFn,
    pub get_hmac_sz: ProviderFn,
    pub ctx_init: ProviderFn,
    pub ctx_free: ProviderFn,
    pub fips_status: ProviderFn,
    pub get_provider_version: ProviderFn,
}

} // verus!
