use base64::engine::general_purpose::STANDARD;
use base64::Engine;
use chacha20poly1305::aead::{Aead, KeyInit};
use chacha20poly1305::{XChaCha20Poly1305, XNonce};
use mdcore::crypto::{decrypt, decrypt_bytes, derive_key, encrypt, encrypt_with, generate_key, key_text};
use mdcore::model::Envelope;

#[test]
fn what_is_encrypted_decrypts() {
    let key = [3u8; 32];
    for text in [&b""[..], b"hello", &[0u8; 5000]] {
        let env = encrypt(&key, text).unwrap();
        assert_eq!(decrypt(&key, &env).unwrap(), text);
    }
}

#[test]
fn nonces_are_fresh() {
    let key = [3u8; 32];
    let a = encrypt(&key, b"hello").unwrap();
    let b = encrypt(&key, b"hello").unwrap();
    assert_ne!(a.nonce, b.nonce);
    assert_ne!(a.ciphertext, b.ciphertext);
}

#[test]
fn envelope_has_base64_texts() {
    let env = encrypt_with(&[3; 32], &[0; 24], b"hello").unwrap();
    assert_eq!(env.nonce, "A".repeat(32));
    // Five bytes and a tag of sixteen, in base64.
    assert_eq!(env.ciphertext.len(), 28);
    let again = encrypt_with(&[3; 32], &[0; 24], b"hello").unwrap();
    assert_eq!(env.ciphertext, again.ciphertext);
    let other = encrypt_with(&[4; 32], &[0; 24], b"hello").unwrap();
    assert_ne!(env.ciphertext, other.ciphertext);
}

#[test]
fn wrong_key_does_not_open() {
    let env = encrypt(&[3; 32], b"hello").unwrap();
    assert!(decrypt(&[4; 32], &env).is_none());
}

#[test]
fn damaged_envelopes_do_not_open() {
    let key = [3u8; 32];
    let env = encrypt_with(&key, &[1; 24], b"hello").unwrap();
    let short = Envelope { nonce: "AAAA".to_string(), ciphertext: env.ciphertext.clone() };
    assert!(decrypt(&key, &short).is_none());
    let garbage = Envelope { nonce: "not base64!".to_string(), ciphertext: env.ciphertext.clone() };
    assert!(decrypt(&key, &garbage).is_none());
    let no_text = Envelope { nonce: env.nonce.clone(), ciphertext: "*".to_string() };
    assert!(decrypt(&key, &no_text).is_none());
    let empty = Envelope { nonce: env.nonce.clone(), ciphertext: "".to_string() };
    assert!(decrypt(&key, &empty).is_none());
    let swapped = Envelope { nonce: "A".repeat(32), ciphertext: env.ciphertext };
    assert!(decrypt(&key, &swapped).is_none());
}

#[test]
fn keys_are_bound_to_the_user() {
    let a = derive_key("correct horse", "ann").unwrap();
    assert_eq!(derive_key("correct horse", "ann"), Some(a));
    assert_ne!(derive_key("correct horse", "bob"), Some(a));
    assert_ne!(derive_key("wrong horse", "ann"), Some(a));
    assert_ne!(a[..], b"correct horse"[..]);
    assert!(derive_key("", "").is_some());
}

#[test]
fn generated_keys() {
    let k = generate_key();
    assert_eq!(k.len(), 32);
    assert!(!k.contains('='));
    assert_eq!(STANDARD.decode(&k).unwrap().len(), 24);
    assert_ne!(k, generate_key());
    assert_eq!(key_text(&[0; 24]), "A".repeat(32));
    let mut bytes = [0u8; 24];
    bytes[..5].copy_from_slice(b"hello");
    assert_eq!(key_text(&bytes), "aGVsbG8AAAAAAAAAAAAAAAAAAAAAAAAA");
}

#[test]
fn base64_alphabet_and_padding() {
    let nonce_text = |nonce: [u8; 24]| encrypt_with(&[3; 32], &nonce, b"").unwrap().nonce;
    assert_eq!(nonce_text([0xff; 24]), "/".repeat(32));
    let mut nonce = [0u8; 24];
    nonce[..5].copy_from_slice(b"hello");
    nonce[21..].copy_from_slice(&[0xfb, 0xef, 0xbe]);
    assert_eq!(nonce_text(nonce), "aGVsbG8AAAAAAAAAAAAAAAAAAAAA++++");
    // The tag alone is sixteen bytes; the last group is filled up.
    let text = |plain: &[u8]| encrypt_with(&[3; 32], &[0; 24], plain).unwrap().ciphertext;
    assert!(text(b"").ends_with("==") && text(b"").len() == 24);
    assert!(text(b"a").ends_with('=') && !text(b"a").ends_with("=="));
    assert!(!text(b"ab").contains('='));
}

#[test]
fn only_canonical_base64_opens() {
    let key = [3u8; 32];
    let env = encrypt_with(&key, &[1; 24], b"").unwrap();
    assert!(decrypt(&key, &env).is_some());
    let with = |ciphertext: String| Envelope { nonce: env.nonce.clone(), ciphertext };
    assert!(decrypt(&key, &with(env.ciphertext.trim_end_matches('=').to_string())).is_none());
    assert!(decrypt(&key, &with(format!("{}=", env.ciphertext))).is_none());
    assert!(decrypt(&key, &with(format!("{}\n", env.ciphertext))).is_none());
}

#[test]
fn sealed_bytes_open() {
    let key = [9u8; 32];
    let cipher = XChaCha20Poly1305::new_from_slice(&key).unwrap();
    let ct = cipher.encrypt(XNonce::from_slice(&[5; 24]), b"hello".as_ref()).unwrap();
    assert_eq!(ct.len(), 21);
    assert_eq!(decrypt_bytes(&key, &[5; 24], &ct).unwrap(), b"hello");
    assert!(decrypt_bytes(&key, &[5; 23], &ct).is_none());
    assert!(decrypt_bytes(&key, &[5; 25], &ct).is_none());
    assert!(decrypt_bytes(&key, &[6; 24], &ct).is_none());
    assert!(decrypt_bytes(&key, &[5; 24], &ct[..15]).is_none());
    assert!(decrypt_bytes(&key, &[5; 24], b"").is_none());
}

#[test]
fn key_is_argon2id_of_passphrase_and_salt() {
    let mut expected = [0u8; 32];
    argon2::Argon2::default()
        .hash_password_into("pass phrase".as_bytes(), b"my-domain-e2ee:ann", &mut expected)
        .unwrap();
    assert_eq!(derive_key("pass phrase", "ann"), Some(expected));
}

#[test]
fn envelope_is_xchacha20poly1305() {
    let env = encrypt_with(&[9; 32], &[5; 24], b"hello").unwrap();
    assert_eq!(STANDARD.decode(&env.nonce).unwrap(), vec![5; 24]);
    let ct = STANDARD.decode(&env.ciphertext).unwrap();
    let cipher = XChaCha20Poly1305::new_from_slice(&[9; 32]).unwrap();
    assert_eq!(cipher.decrypt(XNonce::from_slice(&[5; 24]), ct.as_ref()).unwrap(), b"hello");
}
