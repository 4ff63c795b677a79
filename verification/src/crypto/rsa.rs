//! RSA asymmetric encryption, signatures, and the hybrid scheme that
//! encrypts bulk data with a fresh AES key and the AES key with RSA.

use rsa::pkcs1v15::{SigningKey, VerifyingKey};
use rsa::signature::{Signer, Verifier};
use vstd::prelude::*;
use vstd::slice::slice_subrange;
use vstd::string::StringExecFns;

use crate::crypto::aes::{
    gcm_decrypt, gcm_encrypt, gcm_open, gcm_seal, generate_key, generate_nonce, key_from_slice,
};
use crate::crypto::config::{RSA_DEFAULT_BITS, RSA_MAX_BITS, RSA_MIN_BITS};
use crate::protocol::spec_u16_be;
use crate::text::{append_bytes, append_dec};

verus! {

/// An RSA public key of the RSA implementation relied on below.
#[verifier::external_type_specification]
#[verifier::external_body]
pub struct ExRsaPublicKey(rsa::RsaPublicKey);

/// An RSA private key of the RSA implementation relied on below.
#[verifier::external_type_specification]
#[verifier::external_body]
pub struct ExRsaPrivateKey(rsa::RsaPrivateKey);

/// The public key type used throughout this module.
pub type PublicKey = rsa::RsaPublicKey;

/// The private key type used throughout this module.
pub type PrivateKey = rsa::RsaPrivateKey;

/// Generates a fresh RSA key pair, or the key generator's error text.
/// Relies on `rsa::RsaPrivateKey::new` with `rand::thread_rng`; nothing is
/// promised of a fresh random key.
#[verifier::external_body]
fn keypair_new(bits: usize) -> Result<(PublicKey, PrivateKey), String> {
    let mut rng = rand::thread_rng();
    let private_key = rsa::RsaPrivateKey::new(&mut rng, bits).map_err(|e| e.to_string())?;
    let public_key = rsa::RsaPublicKey::from(&private_key);
    Ok((public_key, private_key))
}

/// The message rejecting a key length below the minimum.
pub open spec fn spec_bits_too_small_msg() -> Seq<char> {
    "密钥长度至少 "@ + crate::text::dec_of(1024) + " 位"@
}

/// The message rejecting a key length above the maximum.
pub open spec fn spec_bits_too_large_msg() -> Seq<char> {
    "密钥长度最多 "@ + crate::text::dec_of(4096) + " 位"@
}

/// Generates an RSA key pair of the given length. A length outside the
/// configured bounds is rejected with a message naming the bound, and only
/// such a length is: within the bounds, key generation itself decides, and
/// its errors carry a different leading text.
pub fn generate_keypair(bits: usize) -> (r: Result<(PublicKey, PrivateKey), String>)
    ensures
        bits < RSA_MIN_BITS ==> (r matches Err(e) && e@ == spec_bits_too_small_msg()),
        bits > RSA_MAX_BITS ==> (r matches Err(e) && e@ == spec_bits_too_large_msg()),
        RSA_MIN_BITS <= bits <= RSA_MAX_BITS ==> (r matches Err(e) ==> e@
            != spec_bits_too_small_msg() && e@ != spec_bits_too_large_msg()),
{
    if bits < RSA_MIN_BITS {
        let mut msg = String::from_str("密钥长度至少 ");
        append_dec(&mut msg, 1024);
        msg.append(" 位");
        proof {
            assert(msg@ =~= spec_bits_too_small_msg());
        }
        return Err(msg);
    }
    if bits > RSA_MAX_BITS {
        let mut msg = String::from_str("密钥长度最多 ");
        append_dec(&mut msg, 4096);
        msg.append(" 位");
        proof {
            assert(msg@ =~= spec_bits_too_large_msg());
        }
        return Err(msg);
    }
    match keypair_new(bits) {
        Ok(pair) => Ok(pair),
        Err(e) => {
            let mut msg = String::from_str("生成密钥失败: ");
            msg.append(e.as_str());
            proof {
                reveal_strlit("生成密钥失败: ");
                reveal_strlit("密钥长度至少 ");
                reveal_strlit("密钥长度最多 ");
                assert(msg@[0] == '生');
                assert(spec_bits_too_small_msg()[0] == '密');
                assert(spec_bits_too_large_msg()[0] == '密');
            }
            Err(msg)
        },
    }
}

/// Generates an RSA key pair of the default length; the default is within
/// the configured bounds, so only key generation itself can fail.
pub fn generate_keypair_default() -> Result<(PublicKey, PrivateKey), String> {
    generate_keypair(RSA_DEFAULT_BITS)
}

/// RSA public-key encryption with PKCS#1 v1.5 padding. Relies on
/// `rsa::RsaPublicKey::encrypt` with `rand::thread_rng`; the padding is
/// random, so nothing is promised of the ciphertext.
#[verifier::external_body]
pub fn encrypt(public_key: &PublicKey, plaintext: &[u8]) -> Result<Vec<u8>, String> {
    let mut rng = rand::thread_rng();
    let padding = rsa::Pkcs1v15Encrypt;
    public_key.encrypt(&mut rng, padding, plaintext).map_err(|e| format!("加密失败: {}", e))
}

/// RSA private-key decryption with PKCS#1 v1.5 padding. Relies on
/// `rsa::RsaPrivateKey::decrypt`; the key is opaque here, so nothing more is
/// stated of the result.
#[verifier::external_body]
pub fn decrypt(private_key: &PrivateKey, ciphertext: &[u8]) -> Result<Vec<u8>, String> {
    let padding = rsa::Pkcs1v15Encrypt;
    private_key.decrypt(padding, ciphertext).map_err(|e| format!("解密失败: {}", e))
}

/// RSA PKCS#1 v1.5 signing over SHA-256. Relies on
/// `rsa::pkcs1v15::SigningKey::try_sign`; a key too short for the padded
/// digest is an error, never an abort. The key is opaque here, so nothing
/// more is stated of the signature.
#[verifier::external_body]
pub fn sign(private_key: &PrivateKey, message: &[u8]) -> Result<Vec<u8>, String> {
    let signing_key = SigningKey::<sha2::Sha256>::new(private_key.clone());
    let signature = signing_key.try_sign(message).map_err(|e| format!("签名失败: {}", e))?;
    Ok(rsa::signature::SignatureEncoding::to_vec(&signature))
}

/// RSA PKCS#1 v1.5 signature verification over SHA-256. Relies on
/// `rsa::pkcs1v15::VerifyingKey`; the key is opaque here, so nothing more is
/// stated of the verdict.
#[verifier::external_body]
pub fn verify(public_key: &PublicKey, message: &[u8], signature: &[u8]) -> Result<bool, String> {
    let verifying_key = VerifyingKey::<sha2::Sha256>::new(public_key.clone());
    let sig = rsa::pkcs1v15::Signature::try_from(signature).map_err(
        |e| format!("签名格式错误: {}", e),
    )?;
    Ok(verifying_key.verify(message, &sig).is_ok())
}

/// Hybrid encryption: a fresh AES-256 key encrypts the data with AES-GCM,
/// RSA encrypts the AES key, and the result is framed as a two-byte
/// big-endian length of the encrypted key, the encrypted key, the nonce, and
/// the ciphertext. On success the trailing ciphertext decrypts, under the
/// fresh key and nonce, back to the plaintext.
pub fn encrypt_hybrid(public_key: &PublicKey, plaintext: &[u8]) -> (r: Result<Vec<u8>, String>)
    ensures
        r matches Ok(c) ==> exists|k: Seq<u8>, ek: Seq<u8>, n: Seq<u8>|
            #![trigger gcm_seal(k, n, plaintext@), spec_u16_be(ek.len() as u16)]
            {
                &&& k.len() == 32
                &&& n.len() == 12
                &&& ek.len() <= 0xffff
                &&& c@ == spec_u16_be(ek.len() as u16) + ek + n + gcm_seal(k, n, plaintext@)
                &&& gcm_open(k, n, c@.skip(2 + ek.len() as int + 12)) == Some(plaintext@)
            },
{
    let aes_key = generate_key();
    let nonce = generate_nonce();

    let encrypted_key = match encrypt(public_key, aes_key.as_slice()) {
        Ok(ek) => ek,
        Err(e) => {
            return Err(e);
        },
    };
    if encrypted_key.len() > 0xffff {
        return Err("加密后的密钥过长".to_owned());
    }
    let encrypted_data = match gcm_encrypt(&aes_key, &nonce, plaintext) {
        Ok(d) => d,
        Err(e) => {
            return Err(e);
        },
    };

    let key_len = encrypted_key.len() as u16;
    let mut result: Vec<u8> = Vec::new();
    result.push((key_len / 256) as u8);
    result.push((key_len % 256) as u8);
    append_bytes(&mut result, encrypted_key.as_slice());
    append_bytes(&mut result, nonce.as_slice());
    append_bytes(&mut result, encrypted_data.as_slice());
    proof {
        let k = aes_key@;
        let ek = encrypted_key@;
        let n = nonce@;
        assert(result@ =~= spec_u16_be(ek.len() as u16) + ek + n + gcm_seal(k, n, plaintext@));
        assert(result@.skip(2 + ek.len() as int + 12) =~= encrypted_data@);
    }
    Ok(result)
}

/// The encrypted-key length declared by a hybrid frame's first two bytes.
pub open spec fn spec_hybrid_key_len(b: Seq<u8>) -> int
    recommends
        b.len() >= 2,
{
    (b[0] as int) * 256 + (b[1] as int)
}

/// Hybrid decryption, the counterpart of [`encrypt_hybrid`]: reads the
/// two-byte key length, decrypts the AES key with RSA, and decrypts the
/// trailing ciphertext with it. A frame too short for its declared key
/// length and a nonce is rejected; on success the plaintext is what the
/// trailing ciphertext decrypts to under the recovered thirty-two-byte key.
pub fn decrypt_hybrid(private_key: &PrivateKey, data: &[u8]) -> (r: Result<Vec<u8>, String>)
    ensures
        data@.len() < 2 ==> (r matches Err(e) && e@ == "数据太短"@),
        data@.len() >= 2 && data@.len() < 2 + spec_hybrid_key_len(data@) + 12 ==> (
        r matches Err(e) && e@ == "数据格式错误"@),
        r matches Ok(p) ==> data@.len() >= 2 + spec_hybrid_key_len(data@) + 12 && exists|
            k: Seq<u8>,
        |
            #![trigger gcm_open(
                k,
                data@.subrange(2 + spec_hybrid_key_len(data@), 2 + spec_hybrid_key_len(data@) + 12),
                data@.skip(2 + spec_hybrid_key_len(data@) + 12),
            )]
            {
                &&& k.len() == 32
                &&& Some(p@) == gcm_open(
                    k,
                    data@.subrange(
                        2 + spec_hybrid_key_len(data@),
                        2 + spec_hybrid_key_len(data@) + 12,
                    ),
                    data@.skip(2 + spec_hybrid_key_len(data@) + 12),
                )
            },
{
    if data.len() < 2 {
        return Err("数据太短".to_owned());
    }
    let key_len = (data[0] as usize) * 256 + (data[1] as usize);

    if data.len() < 2 + key_len + 12 {
        return Err("数据格式错误".to_owned());
    }
    let encrypted_key = slice_subrange(data, 2, 2 + key_len);

    let nonce_start = 2 + key_len;
    let nonce_slice = slice_subrange(data, nonce_start, nonce_start + 12);

    let ciphertext = slice_subrange(data, nonce_start + 12, data.len());

    let aes_key_vec = match decrypt(private_key, encrypted_key) {
        Ok(k) => k,
        Err(e) => {
            return Err(e);
        },
    };
    if aes_key_vec.len() != 32 {
        return Err("AES 密钥长度错误".to_owned());
    }
    let aes_key = key_from_slice(aes_key_vec.as_slice());
    let nonce = crate::crypto::aes::nonce_from_slice(nonce_slice);
    proof {
        assert(ciphertext@ =~= data@.skip(2 + spec_hybrid_key_len(data@) + 12));
    }
    gcm_decrypt(&aes_key, &nonce, ciphertext)
}

} // verus!
