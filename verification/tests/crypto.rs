use rand::Rng;
use sheil::crypto::{
    decrypt, encrypt, master_key_from_bytes, nonce_from_bytes, open_text, seal_text,
    MASTER_KEY_SIZE, NONCE_SIZE,
};
use sheil::db::new_table_row_id;
use sheil::MasterKey;

#[test]
fn encrypt_decrypt_roundtrip() {
    let mut key = [0u8; MASTER_KEY_SIZE];
    rand::rng().fill_bytes(&mut key);

    let plaintext = b"hunter2";
    let (ciphertext, nonce) = encrypt(&key, plaintext);

    let decrypted = decrypt(&key, &ciphertext, &nonce).unwrap();
    assert_eq!(decrypted, plaintext);
}

#[test]
fn decrypt_wrong_key_fails() {
    let mut key_a = [0u8; MASTER_KEY_SIZE];
    let mut key_b = [0u8; MASTER_KEY_SIZE];
    rand::rng().fill_bytes(&mut key_a);
    rand::rng().fill_bytes(&mut key_b);
    assert_ne!(key_a, key_b);

    let plaintext = b"secret";
    let (ciphertext, nonce) = encrypt(&key_a, plaintext);

    let result = decrypt(&key_b, &ciphertext, &nonce);
    assert!(result.is_err());
}

#[test]
fn decrypt_wrong_nonce_fails() {
    let mut key = [0u8; MASTER_KEY_SIZE];
    rand::rng().fill_bytes(&mut key);

    let plaintext = b"secret";
    let (ciphertext, _nonce) = encrypt(&key, plaintext);

    let mut wrong_nonce = [0u8; NONCE_SIZE];
    rand::rng().fill_bytes(&mut wrong_nonce);

    let result = decrypt(&key, &ciphertext, &wrong_nonce);
    assert!(result.is_err());
}

#[test]
fn decrypt_failure_text() {
    let key = [7u8; MASTER_KEY_SIZE];
    assert_eq!(decrypt(&key, b"short", &[0u8; 12]), Err("decryption failed: aead::Error".to_string()));
}

#[test]
fn ciphertext_carries_a_tag_and_fresh_nonces() {
    let key = [1u8; MASTER_KEY_SIZE];
    let (c1, n1) = encrypt(&key, b"abc");
    let (_, n2) = encrypt(&key, b"abc");
    assert_eq!(c1.len(), 3 + 16);
    assert_ne!(n1, n2);
}

#[test]
fn stored_text_roundtrip_and_errors() {
    let key = [3u8; MASTER_KEY_SIZE];
    let (ct, nonce) = seal_text(&key, "pässwörd");
    assert_eq!(open_text(&key, &ct, &nonce), Ok("pässwörd".to_string()));
    assert_eq!(open_text(&key, &ct, &nonce[..11]), Err("stored nonce has wrong length".to_string()));
    let (bad, n) = encrypt(&key, &[0xff, 0xfe]);
    let err = open_text(&key, &bad, &n).unwrap_err();
    assert!(err.starts_with("invalid UTF-8 in credential: "));
    assert_eq!(nonce_from_bytes(&[1u8; 12]), Some([1u8; 12]));
    assert_eq!(nonce_from_bytes(&[1u8; 13]), None);
}

#[test]
fn master_key_length_is_checked() {
    assert_eq!(master_key_from_bytes(&[9u8; 32]), Ok([9u8; 32]));
    assert_eq!(
        master_key_from_bytes(&[9u8; 31]),
        Err("master key has wrong length \u{2014} expected 32 bytes".to_string())
    );
    let mk = MasterKey([0u8; 32]);
    assert_eq!(mk.0.len(), MASTER_KEY_SIZE);
}

#[test]
fn new_table_row_id_is_unique() {
    let id1 = new_table_row_id();
    let id2 = new_table_row_id();
    assert_ne!(id1, id2);
}

#[test]
fn new_table_row_id_is_uuid_v7() {
    let id = new_table_row_id();
    let uuid = uuid::Uuid::parse_str(&id).expect("valid UUID");
    assert_eq!(uuid.get_version_num(), 7);
    assert_eq!(id.len(), 36);
    assert_eq!(&id[14..15], "7");
}
