use modkit::crypto::aes;
use modkit::crypto::hash;
use modkit::crypto::rsa;

#[test]
fn md5_known_vector() {
    assert_eq!(hash::md5("hello"), "5d41402abc4b2a76b9719d911017c592");
    assert_eq!(hash::md5_bytes(b"hello"), "5d41402abc4b2a76b9719d911017c592");
}

#[test]
fn sha256_known_vector() {
    assert_eq!(
        hash::sha256("hello"),
        "2cf24dba5fb0a30e26e83b2ac5b9e29e1b161e5c1fa7425e73043362938b9824"
    );
    assert_eq!(
        hash::sha256_bytes(b""),
        "e3b0c44298fc1c149afbf4c8996fb92427ae41e4649b934ca495991b7852b855"
    );
}

#[test]
fn sha512_known_vector() {
    assert_eq!(
        hash::sha512("hello"),
        "9b71d224bd62f3785d96d46ad3ea3d73319bfbc2890caadae2dff72519673ca7\
         2323c3d99ba5c11d7c7acc6e14b8c5da0c4663475c2e5c3adef46f73bcdec043"
    );
}

#[test]
fn from_hex_decodes_and_rejects() {
    assert_eq!(hash::from_hex("48656c6c6f"), Ok(b"Hello".to_vec()));
    assert_eq!(hash::from_hex("DEADbeef"), Ok(vec![0xde, 0xad, 0xbe, 0xef]));
    assert!(hash::from_hex("123").is_err());
    assert!(hash::from_hex("fg").is_err());
}

#[test]
fn gcm_round_trip() {
    let key = aes::generate_key();
    let nonce = aes::generate_nonce();
    let cipher = aes::gcm_encrypt(&key, &nonce, b"secret message").expect("encrypts");
    assert_eq!(cipher.len(), b"secret message".len() + 16);
    let plain = aes::gcm_decrypt(&key, &nonce, &cipher).expect("decrypts");
    assert_eq!(plain, b"secret message");
}

#[test]
fn gcm_detects_tampering() {
    let key = aes::generate_key();
    let nonce = aes::generate_nonce();
    let mut cipher = aes::gcm_encrypt(&key, &nonce, b"secret message").expect("encrypts");
    cipher[0] ^= 1;
    assert!(aes::gcm_decrypt(&key, &nonce, &cipher).is_err());
}

#[test]
fn cbc_round_trip_and_padding_length() {
    let key = aes::generate_key();
    let iv = aes::generate_iv();
    for len in [0usize, 1, 15, 16, 17, 64] {
        let plain: Vec<u8> = (0..len).map(|i| i as u8).collect();
        let cipher = aes::cbc_encrypt(&key, &iv, &plain);
        assert_eq!(cipher.len(), (plain.len() / 16 + 1) * 16);
        let back = aes::cbc_decrypt(&key, &iv, &cipher).expect("decrypts");
        assert_eq!(back, plain);
    }
}

#[test]
fn simple_helpers_round_trip() {
    let key = aes::generate_key();
    let sealed = aes::encrypt_simple(&key, b"payload").expect("encrypts");
    assert_eq!(sealed.len(), b"payload".len() + 28);
    let opened = aes::decrypt_simple(&key, &sealed).expect("decrypts");
    assert_eq!(opened, b"payload");
    assert_eq!(aes::decrypt_simple(&key, &[1, 2, 3]), Err("数据太短".to_string()));
}

#[test]
fn keypair_length_bounds() {
    match rsa::generate_keypair(100) {
        Err(e) => assert_eq!(e, "密钥长度至少 1024 位"),
        Ok(_) => panic!("a 100-bit key must be rejected"),
    }
    match rsa::generate_keypair(1 << 20) {
        Err(e) => assert_eq!(e, "密钥长度最多 4096 位"),
        Ok(_) => panic!("an oversized key must be rejected"),
    }
}

#[test]
fn rsa_round_trip_and_signatures() {
    let (public_key, private_key) = rsa::generate_keypair(1024).expect("generates");

    let cipher = rsa::encrypt(&public_key, b"short secret").expect("encrypts");
    let plain = rsa::decrypt(&private_key, &cipher).expect("decrypts");
    assert_eq!(plain, b"short secret");

    let signature = rsa::sign(&private_key, b"message").expect("signs");
    assert_eq!(rsa::verify(&public_key, b"message", &signature), Ok(true));
    assert_eq!(rsa::verify(&public_key, b"other message", &signature), Ok(false));
}

#[test]
fn sign_rejects_a_key_too_short_for_the_digest() {
    // A key this short cannot carry a padded SHA-256 digest; signing must
    // report that as an error, not abort.
    let mut rng = ::rand::thread_rng();
    let private_key = ::rsa::RsaPrivateKey::new(&mut rng, 256).expect("generates");
    assert!(rsa::sign(&private_key, b"message").is_err());
}

#[test]
fn hybrid_round_trip() {
    let (public_key, private_key) = rsa::generate_keypair(1024).expect("generates");
    let data: Vec<u8> = (0..1000u32).map(|i| (i % 256) as u8).collect();
    let sealed = rsa::encrypt_hybrid(&public_key, &data).expect("encrypts");
    let opened = rsa::decrypt_hybrid(&private_key, &sealed).expect("decrypts");
    assert_eq!(opened, data);
}

#[test]
fn hybrid_rejects_malformed_frames() {
    let (_, private_key) = rsa::generate_keypair(1024).expect("generates");
    assert_eq!(rsa::decrypt_hybrid(&private_key, &[7]), Err("数据太短".to_string()));
    // Declared key length 1, but no room for the key and a nonce.
    assert_eq!(rsa::decrypt_hybrid(&private_key, &[0, 1, 9]), Err("数据格式错误".to_string()));
}
