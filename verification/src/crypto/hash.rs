//! Message digests rendered as hexadecimal text, and hexadecimal decoding.

use vstd::prelude::*;
use vstd::string::StringSliceAdditionalSpecFns;

use sha2::Digest;

use crate::crypto::config::HASH_UPPERCASE;
use crate::text::digit_char;

verus! {

/// The error type of hexadecimal decoding relied on below.
#[verifier::external_type_specification]
#[verifier::external_body]
pub struct ExFromHexError(hex::FromHexError);

/// One hexadecimal digit, lowercase.
pub open spec fn hex_digit_lower(d: int) -> char
    recommends
        0 <= d < 16,
{
    if d < 10 {
        digit_char(d as nat)
    } else if d == 10 {
        'a'
    } else if d == 11 {
        'b'
    } else if d == 12 {
        'c'
    } else if d == 13 {
        'd'
    } else if d == 14 {
        'e'
    } else {
        'f'
    }
}

/// One hexadecimal digit, uppercase.
pub open spec fn hex_digit_upper(d: int) -> char
    recommends
        0 <= d < 16,
{
    if d < 10 {
        digit_char(d as nat)
    } else if d == 10 {
        'A'
    } else if d == 11 {
        'B'
    } else if d == 12 {
        'C'
    } else if d == 13 {
        'D'
    } else if d == 14 {
        'E'
    } else {
        'F'
    }
}

/// The lowercase hexadecimal rendering of bytes: two digits per byte, high
/// nibble first.
pub open spec fn hex_lower_of(b: Seq<u8>) -> Seq<char> {
    Seq::new(
        2 * b.len(),
        |i: int|
            if i % 2 == 0 {
                hex_digit_lower(b[i / 2] as int / 16)
            } else {
                hex_digit_lower(b[i / 2] as int % 16)
            },
    )
}

/// The uppercase hexadecimal rendering of bytes.
pub open spec fn hex_upper_of(b: Seq<u8>) -> Seq<char> {
    Seq::new(
        2 * b.len(),
        |i: int|
            if i % 2 == 0 {
                hex_digit_upper(b[i / 2] as int / 16)
            } else {
                hex_digit_upper(b[i / 2] as int % 16)
            },
    )
}

/// The configured hexadecimal rendering: lowercase unless uppercase digests
/// are configured.
pub open spec fn hex_of(b: Seq<u8>) -> Seq<char> {
    if HASH_UPPERCASE {
        hex_upper_of(b)
    } else {
        hex_lower_of(b)
    }
}

/// Relies on `hex::encode`: two lowercase digits per byte, high nibble
/// first.
#[verifier::external_body]
fn hex_encode(bytes: &[u8]) -> (r: String)
    ensures
        r@ == hex_lower_of(bytes@),
{
    hex::encode(bytes)
}

/// Relies on `hex::encode_upper`: two uppercase digits per byte, high nibble
/// first.
#[verifier::external_body]
fn hex_encode_upper(bytes: &[u8]) -> (r: String)
    ensures
        r@ == hex_upper_of(bytes@),
{
    hex::encode_upper(bytes)
}

/// Renders bytes in hexadecimal, in the configured case.
fn to_hex(bytes: &[u8]) -> (r: String)
    ensures
        r@ == hex_of(bytes@),
{
    if HASH_UPPERCASE {
        hex_encode_upper(bytes)
    } else {
        hex_encode(bytes)
    }
}

/// Whether a character is a hexadecimal digit of either case.
pub open spec fn is_hex_digit_char(c: char) -> bool {
    (48 <= c as u32 <= 57) || (97 <= c as u32 <= 102) || (65 <= c as u32 <= 70)
}

/// The value of one hexadecimal digit character.
pub open spec fn hex_val(c: char) -> int
    recommends
        is_hex_digit_char(c),
{
    if 48 <= c as u32 <= 57 {
        c as u32 - 48
    } else if 97 <= c as u32 <= 102 {
        c as u32 - 87
    } else {
        c as u32 - 55
    }
}

/// Whether every character is a hexadecimal digit.
pub open spec fn all_hex_digits(s: Seq<char>) -> bool {
    forall|i: int| 0 <= i < s.len() ==> is_hex_digit_char(#[trigger] s[i])
}

/// Decodes a hexadecimal string into bytes. Relies on `hex::decode`: it
/// succeeds exactly on an even number of hexadecimal digits of either case,
/// and pairs of digits become bytes, high nibble first.
#[verifier::external_body]
pub fn from_hex(hex_str: &str) -> (r: Result<Vec<u8>, hex::FromHexError>)
    ensures
        r is Ok <==> (hex_str@.len() % 2 == 0 && all_hex_digits(hex_str@)),
        r matches Ok(v) ==> v@.len() == hex_str@.len() / 2 && (forall|i: int|
            0 <= i < v@.len() ==> #[trigger] v@[i] == hex_val(hex_str@[2 * i]) * 16 + hex_val(
                hex_str@[2 * i + 1],
            )),
{
    hex::decode(hex_str)
}

/// What the MD5 digest of the bytes is; sixteen bytes depending on the input
/// alone. MD5 is kept for compatibility with older peers only.
pub uninterp spec fn md5_of(b: Seq<u8>) -> Seq<u8>;

/// Relies on `md5::Md5`: the MD5 digest, sixteen bytes depending on the
/// input alone.
#[verifier::external_body]
fn md5_digest(data: &[u8]) -> (r: Vec<u8>)
    ensures
        r@ == md5_of(data@),
        r@.len() == 16,
{
    let mut hasher = md5::Md5::new();
    hasher.update(data);
    hasher.finalize().to_vec()
}

/// What the SHA-256 digest of the bytes is; thirty-two bytes depending on
/// the input alone.
pub uninterp spec fn sha256_of(b: Seq<u8>) -> Seq<u8>;

/// Relies on `sha2::Sha256`: the SHA-256 digest, thirty-two bytes depending
/// on the input alone.
#[verifier::external_body]
fn sha256_digest(data: &[u8]) -> (r: Vec<u8>)
    ensures
        r@ == sha256_of(data@),
        r@.len() == 32,
{
    let mut hasher = sha2::Sha256::new();
    hasher.update(data);
    hasher.finalize().to_vec()
}

/// What the SHA-512 digest of the bytes is; sixty-four bytes depending on
/// the input alone.
pub uninterp spec fn sha512_of(b: Seq<u8>) -> Seq<u8>;

/// Relies on `sha2::Sha512`: the SHA-512 digest, sixty-four bytes depending
/// on the input alone.
#[verifier::external_body]
fn sha512_digest(data: &[u8]) -> (r: Vec<u8>)
    ensures
        r@ == sha512_of(data@),
        r@.len() == 64,
{
    let mut hasher = sha2::Sha512::new();
    hasher.update(data);
    hasher.finalize().to_vec()
}

/// The MD5 digest of a string's UTF-8 bytes, in hexadecimal.
pub fn md5(data: &str) -> (r: String)
    ensures
        r@ == hex_of(md5_of(data.spec_bytes())),
        r@.len() == 32,
{
    md5_bytes(data.as_bytes())
}

/// The MD5 digest of bytes, in hexadecimal.
pub fn md5_bytes(data: &[u8]) -> (r: String)
    ensures
        r@ == hex_of(md5_of(data@)),
        r@.len() == 32,
{
    let digest = md5_digest(data);
    to_hex(digest.as_slice())
}

/// The SHA-256 digest of a string's UTF-8 bytes, in hexadecimal.
pub fn sha256(data: &str) -> (r: String)
    ensures
        r@ == hex_of(sha256_of(data.spec_bytes())),
        r@.len() == 64,
{
    sha256_bytes(data.as_bytes())
}

/// The SHA-256 digest of bytes, in hexadecimal.
pub fn sha256_bytes(data: &[u8]) -> (r: String)
    ensures
        r@ == hex_of(sha256_of(data@)),
        r@.len() == 64,
{
    let digest = sha256_digest(data);
    to_hex(digest.as_slice())
}

/// The SHA-512 digest of a string's UTF-8 bytes, in hexadecimal.
pub fn sha512(data: &str) -> (r: String)
    ensures
        r@ == hex_of(sha512_of(data.spec_bytes())),
        r@.len() == 128,
{
    sha512_bytes(data.as_bytes())
}

/// The SHA-512 digest of bytes, in hexadecimal.
pub fn sha512_bytes(data: &[u8]) -> (r: String)
    ensures
        r@ == hex_of(sha512_of(data@)),
        r@.len() == 128,
{
    let digest = sha512_digest(data);
    to_hex(digest.as_slice())
}

} // verus!
