//! AES symmetric encryption: authenticated AES-256-GCM, classic AES-256-CBC,
//! and the nonce-prefixed framing of the simple helpers.

use aes::cipher::block_padding::Pkcs7;
use aes::cipher::{BlockDecryptMut, BlockEncryptMut, KeyIvInit};
use aes_gcm::aead::{Aead, KeyInit};
use aes_gcm::Aes256Gcm;
use rand::RngCore;
use vstd::prelude::*;
use vstd::slice::slice_subrange;

use crate::crypto::config::AES_GCM_NONCE_SIZE;
use crate::text::append_bytes;

verus! {

/// What AES-256-GCM encryption returns for a key, nonce and plaintext; it
/// depends on those three alone.
pub uninterp spec fn gcm_seal(key: Seq<u8>, nonce: Seq<u8>, plain: Seq<u8>) -> Seq<u8>;

/// What AES-256-GCM decryption returns for a key, nonce and ciphertext:
/// the plaintext, or nothing when authentication fails. It depends on the
/// three inputs alone.
pub uninterp spec fn gcm_open(key: Seq<u8>, nonce: Seq<u8>, cipher: Seq<u8>) -> Option<Seq<u8>>;

/// What AES-256-CBC encryption with PKCS#7 padding returns for a key,
/// initialization vector and plaintext; it depends on those three alone.
pub uninterp spec fn cbc_seal(key: Seq<u8>, iv: Seq<u8>, plain: Seq<u8>) -> Seq<u8>;

/// What AES-256-CBC decryption returns for a key, initialization vector and
/// ciphertext: the plaintext, or nothing when the padding is invalid. It
/// depends on the three inputs alone.
pub uninterp spec fn cbc_open(key: Seq<u8>, iv: Seq<u8>, cipher: Seq<u8>) -> Option<Seq<u8>>;

/// Generates a fresh random AES-256 key. Relies on `rand::thread_rng`;
/// nothing is promised of a random value.
#[verifier::external_body]
pub fn generate_key() -> [u8; 32] {
    let mut key = [0u8; 32];
    rand::thread_rng().fill_bytes(&mut key);
    key
}

/// Generates a fresh random AES-GCM nonce. Relies on `rand::thread_rng`;
/// nothing is promised of a random value.
#[verifier::external_body]
pub fn generate_nonce() -> [u8; 12] {
    let mut nonce = [0u8; 12];
    rand::thread_rng().fill_bytes(&mut nonce);
    nonce
}

/// Generates a fresh random AES-CBC initialization vector. Relies on
/// `rand::thread_rng`; nothing is promised of a random value.
#[verifier::external_body]
pub fn generate_iv() -> [u8; 16] {
    let mut iv = [0u8; 16];
    rand::thread_rng().fill_bytes(&mut iv);
    iv
}

/// AES-256-GCM encryption. Relies on `aes_gcm::Aes256Gcm`: it succeeds
/// exactly on plaintexts of at most 2^36 bytes (the cipher's message limit;
/// the key is always thirty-two bytes here, so building the cipher cannot
/// fail); the ciphertext is a function of key, nonce and plaintext; it is
/// the plaintext's length plus a sixteen-byte authentication tag; and
/// decrypting it with the same key and nonce gives the plaintext back.
#[verifier::external_body]
pub fn gcm_encrypt(key: &[u8; 32], nonce: &[u8; 12], plaintext: &[u8]) -> (r: Result<
    Vec<u8>,
    String,
>)
    ensures
        r is Ok <==> plaintext@.len() <= 0x10_0000_0000,
        r matches Ok(c) ==> c@ == gcm_seal(key@, nonce@, plaintext@) && c@.len() == plaintext@.len()
            + 16 && gcm_open(key@, nonce@, c@) == Some(plaintext@),
{
    let cipher = Aes256Gcm::new_from_slice(key).map_err(|e| format!("创建加密器失败: {}", e))?;
    let nonce = aes_gcm::Nonce::from_slice(nonce);
    cipher.encrypt(nonce, plaintext).map_err(|e| format!("加密失败: {}", e))
}

/// AES-256-GCM decryption. Relies on `aes_gcm::Aes256Gcm`: it succeeds
/// exactly when key, nonce and ciphertext fit together, and its result
/// depends on those three alone.
#[verifier::external_body]
pub fn gcm_decrypt(key: &[u8; 32], nonce: &[u8; 12], ciphertext: &[u8]) -> (r: Result<
    Vec<u8>,
    String,
>)
    ensures
        r is Ok <==> gcm_open(key@, nonce@, ciphertext@) is Some,
        r matches Ok(p) ==> Some(p@) == gcm_open(key@, nonce@, ciphertext@),
{
    let cipher = Aes256Gcm::new_from_slice(key).map_err(|e| format!("创建解密器失败: {}", e))?;
    let nonce = aes_gcm::Nonce::from_slice(nonce);
    cipher.decrypt(nonce, ciphertext).map_err(|e| format!("解密失败（数据可能被篡改）: {}", e))
}

/// AES-256-CBC encryption with PKCS#7 padding. Relies on `cbc::Encryptor`:
/// the ciphertext is a function of key, initialization vector and plaintext;
/// padding extends it to the next whole block; and decrypting it with the
/// same key and vector gives the plaintext back.
#[verifier::external_body]
pub fn cbc_encrypt(key: &[u8; 32], iv: &[u8; 16], plaintext: &[u8]) -> (r: Vec<u8>)
    ensures
        r@ == cbc_seal(key@, iv@, plaintext@),
        r@.len() == (plaintext@.len() / 16 + 1) * 16,
        cbc_open(key@, iv@, r@) == Some(plaintext@),
{
    let cipher = cbc::Encryptor::<aes::Aes256>::new_from_slices(key, iv).unwrap();
    cipher.encrypt_padded_vec_mut::<Pkcs7>(plaintext)
}

/// AES-256-CBC decryption with PKCS#7 padding. Relies on `cbc::Decryptor`:
/// it succeeds exactly when the decrypted padding is valid, and its result
/// depends on key, initialization vector and ciphertext alone.
#[verifier::external_body]
pub fn cbc_decrypt(key: &[u8; 32], iv: &[u8; 16], ciphertext: &[u8]) -> (r: Result<
    Vec<u8>,
    String,
>)
    ensures
        r is Ok <==> cbc_open(key@, iv@, ciphertext@) is Some,
        r matches Ok(p) ==> Some(p@) == cbc_open(key@, iv@, ciphertext@),
{
    let cipher = cbc::Decryptor::<aes::Aes256>::new_from_slices(key, iv).unwrap();
    cipher.decrypt_padded_vec_mut::<Pkcs7>(ciphertext).map_err(|e| format!("解密失败: {:?}", e))
}

/// Copies a twelve-byte slice into a nonce array.
pub(crate) fn nonce_from_slice(b: &[u8]) -> (r: [u8; 12])
    requires
        b@.len() == 12,
    ensures
        r@ == b@,
{
    let mut r = [0u8; 12];
    let mut i: usize = 0;
    while i < 12
        invariant
            0 <= i <= 12,
            b@.len() == 12,
            forall|j: int| 0 <= j < i ==> r@[j] == b@[j],
        decreases 12 - i,
    {
        r[i] = b[i];
        i = i + 1;
    }
    proof {
        assert(r@ =~= b@);
    }
    r
}

/// Copies a thirty-two-byte slice into a key array.
pub(crate) fn key_from_slice(b: &[u8]) -> (r: [u8; 32])
    requires
        b@.len() == 32,
    ensures
        r@ == b@,
{
    let mut r = [0u8; 32];
    let mut i: usize = 0;
    while i < 32
        invariant
            0 <= i <= 32,
            b@.len() == 32,
            forall|j: int| 0 <= j < i ==> r@[j] == b@[j],
        decreases 32 - i,
    {
        r[i] = b[i];
        i = i + 1;
    }
    proof {
        assert(r@ =~= b@);
    }
    r
}

/// Encrypts with a fresh random nonce and returns the nonce followed by the
/// ciphertext, so the counterpart helper can decrypt it alone. It succeeds
/// exactly on plaintexts the cipher accepts, at most 2^36 bytes; the result
/// is then the plaintext's length plus twenty-eight bytes, and its first
/// twelve bytes decrypt the rest.
pub fn encrypt_simple(key: &[u8; 32], plaintext: &[u8]) -> (r: Result<Vec<u8>, String>)
    ensures
        r is Ok <==> plaintext@.len() <= 0x10_0000_0000,
        r matches Ok(c) ==> c@.len() == plaintext@.len() + 28 && gcm_open(
            key@,
            c@.subrange(0, 12),
            c@.skip(12),
        ) == Some(plaintext@),
{
    let nonce = generate_nonce();
    let ciphertext = match gcm_encrypt(key, &nonce, plaintext) {
        Ok(c) => c,
        Err(e) => {
            return Err(e);
        },
    };
    let mut result: Vec<u8> = Vec::new();
    append_bytes(&mut result, nonce.as_slice());
    append_bytes(&mut result, ciphertext.as_slice());
    proof {
        assert(result@.subrange(0, 12) =~= nonce@);
        assert(result@.skip(12) =~= ciphertext@);
    }
    Ok(result)
}

/// Decrypts data produced by [`encrypt_simple`]: the first twelve bytes are
/// the nonce, the rest the ciphertext. Anything shorter than a nonce is
/// rejected; otherwise the call succeeds exactly when key, nonce and
/// ciphertext fit together.
pub fn decrypt_simple(key: &[u8; 32], data: &[u8]) -> (r: Result<Vec<u8>, String>)
    ensures
        data@.len() < 12 ==> (r matches Err(e) && e@ == "数据太短"@),
        data@.len() >= 12 ==> ((r is Ok <==> gcm_open(
            key@,
            data@.subrange(0, 12),
            data@.skip(12),
        ) is Some) && (r matches Ok(p) ==> Some(p@) == gcm_open(
            key@,
            data@.subrange(0, 12),
            data@.skip(12),
        ))),
{
    if data.len() < AES_GCM_NONCE_SIZE {
        return Err("数据太短".to_owned());
    }
    let nonce_slice = slice_subrange(data, 0, AES_GCM_NONCE_SIZE);
    let nonce = nonce_from_slice(nonce_slice);
    let ciphertext = slice_subrange(data, AES_GCM_NONCE_SIZE, data.len());
    proof {
        assert(ciphertext@ =~= data@.skip(12));
    }
    gcm_decrypt(key, &nonce, ciphertext)
}

} // verus!
