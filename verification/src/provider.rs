//! The provider's operations: the four stateless adapters (`random`,
//! `hmac`, `pbkdf`, `cipher`), the capability queries and lifecycle no-ops,
//! and the assembler of the provider table. Every operation validates its
//! inputs, invokes the primitive library, and maps the outcome to a status
//! code; none retains state across calls.

use vstd::prelude::*;

use crate::primitives::aes256_cbc_dec_of;
use crate::primitives::aes256_cbc_decrypt;
use crate::primitives::aes256_cbc_enc_of;
use crate::primitives::aes256_cbc_encrypt;
use crate::primitives::hmac_sha512;
use crate::primitives::hmac_sha512_of;
use crate::primitives::os_random_fill;
use crate::primitives::pbkdf2_sha512_fill;
use crate::primitives::pbkdf2_sha512_of;
use crate::sqlcipher::{
    ProviderFn, SqlCipherProvider, CIPHER_ENCRYPT, SQLCIPHER_HMAC_SHA512,
    SQLCIPHER_PBKDF2_HMAC_SHA512,
};
use crate::sqlite::{SQLITE_ERROR, SQLITE_OK};

verus! {

/// The view of a possibly-null buffer argument: `None` stands for a null
/// reference, `Some` for the bytes the buffer holds.
pub open spec fn buf_view(b: Option<&Vec<u8>>) -> Option<Seq<u8>> {
    match b {
        Some(v) => Some(v@),
        None => None,
    }
}

/// The bytes an optional second message part contributes: an absent part
/// contributes nothing.
pub open spec fn spec_part2_bytes(part2: Option<Seq<u8>>) -> Seq<u8> {
    match part2 {
        Some(p) => p,
        None => Seq::empty(),
    }
}

/// What the keyed-hash adapter yields: `None` where it must report the
/// error status (an unsupported algorithm identifier, or a missing key,
/// first part or output buffer), otherwise the HMAC-SHA-512 digest of the
/// first part followed by the optional second part.
pub open spec fn spec_hmac(
    algorithm: i32,
    key: Option<Seq<u8>>,
    part1: Option<Seq<u8>>,
    part2: Option<Seq<u8>>,
    out_present: bool,
) -> Option<Seq<u8>> {
    if algorithm == SQLCIPHER_HMAC_SHA512 && key is Some && part1 is Some && out_present {
        Some(hmac_sha512_of(key->0, part1->0 + spec_part2_bytes(part2)))
    } else {
        None
    }
}

/// What the key-derivation adapter yields: `None` where it must report the
/// error status (an unsupported algorithm identifier, or a missing
/// password, salt or output buffer), otherwise the `out_len`-byte key that
/// PBKDF2-HMAC-SHA-512 derives with `iterations` as the work factor.
pub open spec fn spec_pbkdf(
    algorithm: i32,
    password: Option<Seq<u8>>,
    salt: Option<Seq<u8>>,
    iterations: u32,
    out_len: nat,
    out_present: bool,
) -> Option<Seq<u8>> {
    if algorithm == SQLCIPHER_PBKDF2_HMAC_SHA512 && password is Some && salt is Some
        && out_present {
        Some(pbkdf2_sha512_of(password->0, salt->0, iterations, out_len))
    } else {
        None
    }
}

/// Appends the bytes of `src` to `dst`.
fn append_bytes(dst: &mut Vec<u8>, src: &Vec<u8>)
    ensures
        final(dst)@ == old(dst)@ + src@,
{
    let mut i: usize = 0;
    while i < src.len()
        invariant
            i <= src.len(),
            dst@ == old(dst)@ + src@.take(i as int),
        decreases src.len() - i,
    {
        proof {
            assert(src@.take(i + 1) =~= src@.take(i as int).push(src@[i as int]));
        }
        dst.push(src[i]);
        i = i + 1;
    }
    proof {
        assert(src@.take(src@.len() as int) =~= src@);
    }
}

/// Returns a zero-filled buffer of `len` bytes.
fn zero_bytes(len: usize) -> (r: Vec<u8>)
    ensures
        r@.len() == len,
{
    let mut r: Vec<u8> = Vec::new();
    let mut i: usize = 0;
    while i < len
        invariant
            i <= len,
            r@.len() == i,
        decreases len - i,
    {
        r.push(0u8);
        i = i + 1;
    }
    r
}

/// Fills a buffer of the caller's length with output of the CSPRNG. Fails
/// exactly when the caller's buffer is absent (a null reference); otherwise
/// it succeeds and every byte of the buffer is replaced by fresh random
/// output, of which nothing more can be promised.
pub fn random(buf_present: bool, length: usize) -> (r: (i32, Option<Vec<u8>>))
    ensures
        r.0 == SQLITE_OK || r.0 == SQLITE_ERROR,
        (r.0 == SQLITE_OK) <==> buf_present,
        (r.1 is Some) <==> buf_present,
        buf_present ==> r.1->0@.len() == length,
{
    if !buf_present {
        return (SQLITE_ERROR, None);
    }
    let mut out = zero_bytes(length);
    os_random_fill(&mut out);
    (SQLITE_OK, Some(out))
}

/// Computes a keyed hash over the concatenation of `part1` and, if present,
/// `part2`, under `key`. Fails exactly when the algorithm identifier is not
/// the supported one or when the key, the first part or the output buffer
/// is absent; on success the result is the 64-byte HMAC-SHA-512 digest of
/// the concatenation.
pub fn hmac(
    algorithm: i32,
    key: Option<&Vec<u8>>,
    part1: Option<&Vec<u8>>,
    part2: Option<&Vec<u8>>,
    out_present: bool,
) -> (r: (i32, Option<Vec<u8>>))
    ensures
        r.0 == SQLITE_OK || r.0 == SQLITE_ERROR,
        (r.0 == SQLITE_OK) <==> spec_hmac(
            algorithm,
            buf_view(key),
            buf_view(part1),
            buf_view(part2),
            out_present,
        ) is Some,
        (r.1 is Some) <==> r.0 == SQLITE_OK,
        r.0 == SQLITE_OK ==> r.1->0@ == spec_hmac(
            algorithm,
            buf_view(key),
            buf_view(part1),
            buf_view(part2),
            out_present,
        )->0,
        r.0 == SQLITE_OK ==> r.1->0@.len() == 64,
{
    if algorithm != SQLCIPHER_HMAC_SHA512 {
        return (SQLITE_ERROR, None);
    }
    let (k, p1) = match (key, part1) {
        (Some(k), Some(p1)) => (k, p1),
        _ => {
            return (SQLITE_ERROR, None);
        },
    };
    if !out_present {
        return (SQLITE_ERROR, None);
    }
    let mut msg: Vec<u8> = Vec::new();
    append_bytes(&mut msg, p1);
    match part2 {
        Some(p2) => {
            append_bytes(&mut msg, p2);
            proof {
                assert(msg@ =~= p1@ + p2@);
            }
        },
        None => {
            proof {
                assert(msg@ =~= p1@ + Seq::<u8>::empty());
            }
        },
    }
    let digest = hmac_sha512(k, &msg);
    (SQLITE_OK, Some(digest))
}

/// Derives `out_len` bytes of key material from `password` and `salt`, with
/// `iterations` as the work factor. Fails exactly when the algorithm
/// identifier is not the supported one or when the password, the salt or
/// the output buffer is absent; on success the result is the
/// PBKDF2-HMAC-SHA-512 derivation, identical for identical inputs.
pub fn pbkdf(
    algorithm: i32,
    password: Option<&Vec<u8>>,
    salt: Option<&Vec<u8>>,
    iterations: u32,
    out_len: usize,
    out_present: bool,
) -> (r: (i32, Option<Vec<u8>>))
    ensures
        r.0 == SQLITE_OK || r.0 == SQLITE_ERROR,
        (r.0 == SQLITE_OK) <==> spec_pbkdf(
            algorithm,
            buf_view(password),
            buf_view(salt),
            iterations,
            out_len as nat,
            out_present,
        ) is Some,
        (r.1 is Some) <==> r.0 == SQLITE_OK,
        r.0 == SQLITE_OK ==> r.1->0@ == spec_pbkdf(
            algorithm,
            buf_view(password),
            buf_view(salt),
            iterations,
            out_len as nat,
            out_present,
        )->0,
        r.0 == SQLITE_OK ==> r.1->0@.len() == out_len,
{
    if algorithm != SQLCIPHER_PBKDF2_HMAC_SHA512 {
        return (SQLITE_ERROR, None);
    }
    let (pw, st) = match (password, salt) {
        (Some(pw), Some(st)) => (pw, st),
        _ => {
            return (SQLITE_ERROR, None);
        },
    };
    if !out_present {
        return (SQLITE_ERROR, None);
    }
    let mut out = zero_bytes(out_len);
    pbkdf2_sha512_fill(pw, st, iterations, &mut out);
    (SQLITE_OK, Some(out))
}

/// What the block-cipher adapter yields: `None` where it must report the
/// error status (a key that is not 32 bytes, an IV that is not 16 bytes,
/// or an input that is not a whole number of 16-byte blocks), otherwise
/// the AES-256-CBC transform of the input, encrypting when the mode flag
/// selects encryption and decrypting on any other mode value.
pub open spec fn spec_cipher(mode: i32, key: Seq<u8>, iv: Seq<u8>, input: Seq<u8>) -> Option<
    Seq<u8>,
> {
    if key.len() == 32 && iv.len() == 16 && input.len() % 16 == 0 {
        if mode == CIPHER_ENCRYPT {
            Some(aes256_cbc_enc_of(key, iv, input))
        } else {
            Some(aes256_cbc_dec_of(key, iv, input))
        }
    } else {
        None
    }
}

/// Applies the AES-256-CBC transform, without padding, to `input`, writing
/// a buffer of the same length. `mode` selects encryption (the one
/// encrypting flag value) or decryption (any other value). Fails exactly
/// when the key is not 32 bytes, the IV is not 16 bytes, or the input is
/// not a whole number of 16-byte blocks. Decrypting a buffer that was
/// encrypted under the same key and IV returns the original plaintext.
pub fn cipher(mode: i32, key: &Vec<u8>, iv: &Vec<u8>, input: &Vec<u8>) -> (r: (
    i32,
    Option<Vec<u8>>,
))
    ensures
        r.0 == SQLITE_OK || r.0 == SQLITE_ERROR,
        (r.0 == SQLITE_OK) <==> spec_cipher(mode, key@, iv@, input@) is Some,
        (r.1 is Some) <==> r.0 == SQLITE_OK,
        r.0 == SQLITE_OK ==> r.1->0@ == spec_cipher(mode, key@, iv@, input@)->0,
        r.0 == SQLITE_OK ==> r.1->0@.len() == input@.len(),
        r.0 == SQLITE_OK && mode != CIPHER_ENCRYPT ==> forall|pt: Seq<u8>|
            pt.len() == input@.len() && input@ == #[trigger] aes256_cbc_enc_of(key@, iv@, pt)
                ==> r.1->0@ == pt,
{
    if key.len() != 32 || iv.len() != 16 || input.len() % 16 != 0 {
        return (SQLITE_ERROR, None);
    }
    let out = if mode == CIPHER_ENCRYPT {
        aes256_cbc_encrypt(key, iv, input)
    } else {
        aes256_cbc_decrypt(key, iv, input)
    };
    (SQLITE_OK, Some(out))
}

/// Lifecycle no-op required by the host's table shape; unconditionally
/// succeeds.
pub fn activate() -> (r: i32)
    ensures
        r == SQLITE_OK,
{
    SQLITE_OK
}

/// Lifecycle no-op required by the host's table shape; unconditionally
/// succeeds.
pub fn deactivate() -> (r: i32)
    ensures
        r == SQLITE_OK,
{
    SQLITE_OK
}

/// Lifecycle no-op required by the host's table shape; unconditionally
/// succeeds.
pub fn ctx_init() -> (r: i32)
    ensures
        r == SQLITE_OK,
{
    SQLITE_OK
}

/// Lifecycle no-op required by the host's table shape; unconditionally
/// succeeds.
pub fn ctx_free() -> (r: i32)
    ensures
        r == SQLITE_OK,
{
    SQLITE_OK
}

/// Entropy-mixing no-op: `random` draws directly from the OS CSPRNG on
/// every call, so no external entropy is mixed in; unconditionally
/// succeeds whatever buffer the host offers.
pub fn add_random(_entropy: Option<&Vec<u8>>) -> (r: i32)
    ensures
        r == SQLITE_OK,
{
    SQLITE_OK
}

/// Reports whether a FIPS-validated module is in use: it never is, so the
/// answer is always zero.
pub fn fips_status() -> (r: i32)
    ensures
        r == 0,
{
    0
}

/// The provider's name, a fixed string.
pub fn get_provider_name() -> (r: &'static str)
    ensures
        r@ == "sqlcipher_provider"@,
{
    "sqlcipher_provider"
}

/// The provider's version, a fixed string.
pub fn get_provider_version() -> (r: &'static str)
    ensures
        r@ == "0.1.0"@,
{
    "0.1.0"
}

/// The cipher's identity, a fixed string.
pub fn get_cipher() -> (r: &'static str)
    ensures
        r@ == "aes-256-cbc"@,
{
    "aes-256-cbc"
}

/// The cipher's key size in bytes.
pub fn get_key_sz() -> (r: i32)
    ensures
        r == 32,
{
    32
}

/// The cipher's block size in bytes.
pub fn get_block_sz() -> (r: i32)
    ensures
        r == 16,
{
    16
}

/// The cipher's IV size in bytes: the block size.
pub fn get_iv_sz() -> (r: i32)
    ensures
        r == 16,
{
    get_block_sz()
}

/// The digest size a keyed-hash algorithm identifier stands for: 64 bytes
/// for the one supported identifier, zero for every other. A zero answer
/// is how the host asks "is this algorithm supported" before calling the
/// keyed-hash or key-derivation adapters.
pub open spec fn spec_hmac_sz(algorithm: i32) -> i32 {
    if algorithm == SQLCIPHER_HMAC_SHA512 {
        64
    } else {
        0
    }
}

/// Reports the digest size of a keyed-hash algorithm identifier: 64 for
/// the supported one, 0 for any other.
pub fn get_hmac_sz(algorithm: i32) -> (r: i32)
    ensures
        r == spec_hmac_sz(algorithm),
{
    if algorithm == SQLCIPHER_HMAC_SHA512 {
        64
    } else {
        0
    }
}

/// The one table the assembler writes: every slot bound to the operation
/// the host expects there, in the host's declared field order.
pub open spec fn spec_provider_table() -> SqlCipherProvider {
    SqlCipherProvider {
        activate: ProviderFn::Activate,
        deactivate: ProviderFn::Deactivate,
        get_provider_name: ProviderFn::GetProviderName,
        add_random: ProviderFn::AddRandom,
        random: ProviderFn::Random,
        hmac: ProviderFn::Hmac,
        pbkdf: ProviderFn::Pbkdf,
        cipher: ProviderFn::Cipher,
        get_cipher: ProviderFn::GetCipher,
        get_key_sz: ProviderFn::GetKeySz,
        get_iv_sz: ProviderFn::GetIvSz,
        get_block_sz: ProviderFn::GetBlockSz,
        get_hmac_sz: ProviderFn::GetHmacSz,
        ctx_init: ProviderFn::CtxInit,
        ctx_free: ProviderFn::CtxFree,
        fips_status: ProviderFn::FipsStatus,
        get_provider_version: ProviderFn::GetProviderVersion,
    }
}

/// The setup entry point: populates the caller's table location with the
/// fixed provider table. Fails exactly when the location is absent (a null
/// reference); every successful call writes the same fully populated
/// table, so calling it more than once is safe.
pub fn signal_crypto_provider_setup(out_present: bool) -> (r: (i32, Option<SqlCipherProvider>))
    ensures
        r.0 == SQLITE_OK || r.0 == SQLITE_ERROR,
        (r.0 == SQLITE_OK) <==> out_present,
        (r.1 is Some) <==> out_present,
        out_present ==> r.1 == Some(spec_provider_table()),
{
    if !out_present {
        return (SQLITE_ERROR, None);
    }
    let table = SqlCipherProvider {
        activate: ProviderFn::Activate,
        deactivate: ProviderFn::Deactivate,
        get_provider_name: ProviderFn::GetProviderName,
        add_random: ProviderFn::AddRandom,
        random: ProviderFn::Random,
        hmac: ProviderFn::Hmac,
        pbkdf: ProviderFn::Pbkdf,
        cipher: ProviderFn::Cipher,
        get_cipher: ProviderFn::GetCipher,
        get_key_sz: ProviderFn::GetKeySz,
        get_iv_sz: ProviderFn::GetIvSz,
        get_block_sz: ProviderFn::GetBlockSz,
        get_hmac_sz: ProviderFn::GetHmacSz,
        ctx_init: ProviderFn::CtxInit,
        ctx_free: ProviderFn::CtxFree,
        fips_status: ProviderFn::FipsStatus,
        get_provider_version: ProviderFn::GetProviderVersion,
    };
    (SQLITE_OK, Some(table))
}

/// The keyed-hash adapter is deterministic: two digests that its contract
/// admits for the same algorithm, key and message parts are identical.
pub proof fn lemma_hmac_deterministic(
    d1: Seq<u8>,
    d2: Seq<u8>,
    algorithm: i32,
    key: Option<Seq<u8>>,
    part1: Option<Seq<u8>>,
    part2: Option<Seq<u8>>,
)
    requires
        Some(d1) == spec_hmac(algorithm, key, part1, part2, true),
        Some(d2) == spec_hmac(algorithm, key, part1, part2, true),
    ensures
        d1 == d2,
{
}

/// Authenticating the concatenation `a + b` as one message part yields the
/// same digest as authenticating `a` as the first part and `b` as the
/// second.
pub proof fn lemma_hmac_two_part_equivalence(key: Seq<u8>, a: Seq<u8>, b: Seq<u8>)
    ensures
        spec_hmac(SQLCIPHER_HMAC_SHA512, Some(key), Some(a + b), None, true) == spec_hmac(
            SQLCIPHER_HMAC_SHA512,
            Some(key),
            Some(a),
            Some(b),
            true,
        ),
{
    assert((a + b) + spec_part2_bytes(None) =~= a + spec_part2_bytes(Some(b)));
}

/// The key-derivation adapter is deterministic: two keys that its contract
/// admits for the same algorithm, password, salt, work factor and output
/// length are identical.
pub proof fn lemma_pbkdf_deterministic(
    k1: Seq<u8>,
    k2: Seq<u8>,
    algorithm: i32,
    password: Option<Seq<u8>>,
    salt: Option<Seq<u8>>,
    iterations: u32,
    out_len: nat,
)
    requires
        Some(k1) == spec_pbkdf(algorithm, password, salt, iterations, out_len, true),
        Some(k2) == spec_pbkdf(algorithm, password, salt, iterations, out_len, true),
    ensures
        k1 == k2,
{
}

/// The setup entry point is idempotent: any two tables that successful
/// setup calls write are identical, field for field.
pub proof fn lemma_setup_idempotent(t1: SqlCipherProvider, t2: SqlCipherProvider)
    requires
        t1 == spec_provider_table(),
        t2 == spec_provider_table(),
    ensures
        t1 == t2,
{
}

} // verus!
