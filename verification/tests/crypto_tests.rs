use zexio_agent::crypto::Crypto;
use zexio_agent::hexcode::{hex_decode, hex_encode};

#[test]
fn hex_encode_concrete() {
    assert_eq!(hex_encode(&[]), "");
    assert_eq!(hex_encode(&[0x00, 0xff, 0x10]), "00ff10");
    assert_eq!(hex_encode(&[0xde, 0xad, 0xbe, 0xef]), "deadbeef");
}

#[test]
fn hex_decode_concrete() {
    assert_eq!(hex_decode("00ff10"), Some(vec![0x00, 0xff, 0x10]));
    assert_eq!(hex_decode(""), Some(vec![]));
    assert_eq!(hex_decode("abc"), None);
    assert_eq!(hex_decode("zz"), None);
    assert_eq!(hex_decode("AB"), None);
}

#[test]
fn hex_round_trip_concrete() {
    let bytes: Vec<u8> = (0u8..=255).collect();
    assert_eq!(hex_decode(&hex_encode(&bytes)), Some(bytes));
}

fn hmac_hex(secret: &str, body: &[u8]) -> String {
    let mut mac =
        <hmac::Hmac<sha2::Sha256> as hmac::KeyInit>::new_from_slice(secret.as_bytes()).unwrap();
    hmac::Mac::update(&mut mac, body);
    hex_encode(&hmac::Mac::finalize(mac).into_bytes().to_vec())
}

#[test]
fn signature_round_trip() {
    let secret = "worker-secret";
    let body = b"{\"project_id\":\"p1\"}";
    let sig = hmac_hex(secret, body);
    assert!(Crypto::verify_signature(secret, body, &sig));
    let prefixed = format!("sha256={}", sig);
    assert!(Crypto::verify_signature(secret, body, &prefixed));
}

#[test]
fn signature_bit_flip_rejected() {
    let secret = "worker-secret";
    let body = b"payload bytes";
    let sig = hmac_hex(secret, body);
    for i in 0..sig.len() {
        let mut bytes = sig.clone().into_bytes();
        bytes[i] ^= 0x01;
        if let Ok(flipped) = String::from_utf8(bytes) {
            assert!(
                !Crypto::verify_signature(secret, body, &flipped),
                "flipped signature accepted at byte {}",
                i
            );
        }
    }
    let mut body_flipped = body.to_vec();
    body_flipped[0] ^= 0x01;
    assert!(!Crypto::verify_signature(secret, &body_flipped, &sig));
}

#[test]
fn signature_wrong_secret_rejected() {
    let body = b"payload";
    let sig = hmac_hex("secret-a", body);
    assert!(!Crypto::verify_signature("secret-b", body, &sig));
}

#[test]
fn master_key_parsing() {
    let key_hex = "00112233445566778899aabbccddeeff00112233445566778899aabbccddeeff";
    assert!(Crypto::from_key_hex(key_hex).is_ok());
    assert!(Crypto::from_key_hex("").is_err());
    assert!(Crypto::from_key_hex("0011").is_err());
    assert!(Crypto::from_key_hex(&key_hex[..63]).is_err());
    let upper = key_hex.to_uppercase();
    assert!(Crypto::from_key_hex(&upper).is_err());
}

#[test]
fn generated_key_is_usable() {
    let key_hex = Crypto::generate_key_hex();
    assert_eq!(key_hex.len(), 64);
    assert!(Crypto::from_key_hex(&key_hex).is_ok());
}

#[test]
fn aead_round_trip() {
    let crypto = Crypto::from_key_hex(
        "000102030405060708090a0b0c0d0e0f101112131415161718191a1b1c1d1e1f",
    )
    .unwrap();
    let plaintext = b"DATABASE_URL=postgres://localhost/app\n";
    let blob = crypto.encrypt(plaintext);
    assert_eq!(blob.len(), plaintext.len() + 28);
    assert_eq!(crypto.decrypt(&blob).unwrap(), plaintext);
}

#[test]
fn aead_bit_flip_rejected() {
    let crypto = Crypto::from_key_hex(
        "000102030405060708090a0b0c0d0e0f101112131415161718191a1b1c1d1e1f",
    )
    .unwrap();
    let blob = crypto.encrypt(b"secret value");
    for i in 0..blob.len() {
        let mut tampered = blob.clone();
        tampered[i] ^= 0x01;
        assert!(crypto.decrypt(&tampered).is_err(), "tampered byte {} accepted", i);
    }
}

#[test]
fn aead_short_input_rejected() {
    let crypto = Crypto::from_key_hex(
        "000102030405060708090a0b0c0d0e0f101112131415161718191a1b1c1d1e1f",
    )
    .unwrap();
    assert!(crypto.decrypt(&[]).is_err());
    assert!(crypto.decrypt(&[0u8; 11]).is_err());
}

#[test]
fn aead_wrong_key_rejected() {
    let a = Crypto::from_key_hex(
        "000102030405060708090a0b0c0d0e0f101112131415161718191a1b1c1d1e1f",
    )
    .unwrap();
    let b = Crypto::from_key_hex(
        "ff0102030405060708090a0b0c0d0e0f101112131415161718191a1b1c1d1eff",
    )
    .unwrap();
    let blob = a.encrypt(b"cross-key");
    assert!(b.decrypt(&blob).is_err());
}
