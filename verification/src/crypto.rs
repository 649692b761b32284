//! End-to-end encryption: a user passphrase, through Argon2id, becomes the key of
//! XChaCha20-Poly1305. The server never sees plaintext or keys.

use argon2::Argon2;
use chacha20poly1305::aead::{Aead, KeyInit};
use chacha20poly1305::{XChaCha20Poly1305, XNonce};
use rand_core::{OsRng, RngCore};
use vstd::prelude::*;
use vstd::utf8::{encode_utf8, is_ascii_chars, is_ascii_chars_encode_utf8};

use crate::encoding::{
    base64_bytes, base64_len, base64_text, from_base64, law_base64_round_trip, law_base64_shape,
    to_base64,
};
use crate::model::{Envelope, EnvelopeView};
use crate::text::join;

verus! {

/// What Argon2id (version 0x13, with the default costs of the `argon2` crate)
/// makes of a passphrase and a salt, as 32 bytes; `None` where it takes neither.
pub uninterp spec fn argon2id(passphrase: Seq<u8>, salt: Seq<u8>) -> Option<Seq<u8>>;

/// What XChaCha20-Poly1305 makes of a plaintext under a key and a nonce, with no
/// associated data.
pub uninterp spec fn sealed(key: Seq<u8>, nonce: Seq<u8>, plaintext: Seq<u8>) -> Seq<u8>;

/// What XChaCha20-Poly1305 gives back of a sealed text, `None` where its tag does
/// not hold.
pub uninterp spec fn opened(key: Seq<u8>, nonce: Seq<u8>, sealed: Seq<u8>) -> Option<Seq<u8>>;

/// The longest plaintext, in bytes: the key stream has `u32::MAX` blocks of 64 bytes, and
/// the first of them makes the key of the tag.
pub const MAX_PLAINTEXT: u64 = 0x3F_FFFF_FF80;

/// The length of the tag behind a sealed text, in bytes.
pub const TAG_LEN: u64 = 16;

/// Some bytes, where there are any, by their view.
pub open spec fn opt_bytes(b: Option<Vec<u8>>) -> Option<Seq<u8>> {
    match b {
        Some(v) => Some(v@),
        None => None,
    }
}

/// A key, where there is one, by its view.
pub open spec fn opt_key(k: Option<[u8; 32]>) -> Option<Seq<u8>> {
    match k {
        Some(v) => Some(v@),
        None => None,
    }
}

/// `argon2::Argon2::default().hash_password_into`, into 32 bytes. The result is a
/// function of passphrase and salt. There is one exactly where the salt has 8 to
/// 0xFFFF_FFFF bytes and the passphrase has at most 0xFFFF_FFFF.
#[verifier::external_body]
fn argon2_hash(passphrase: &[u8], salt: &[u8]) -> (r: Option<[u8; 32]>)
    ensures
        r is Some == (passphrase@.len() <= 0xFFFF_FFFF && 8 <= salt@.len() <= 0xFFFF_FFFF),
        opt_key(r) == argon2id(passphrase@, salt@),
{
    let mut key = [0u8; 32];
    Argon2::default().hash_password_into(passphrase, salt, &mut key).ok()?;
    Some(key)
}

/// `encrypt` of `chacha20poly1305::XChaCha20Poly1305`, on a plaintext that the key stream
/// suffices for. There always is a result. It is a function of key, nonce and plaintext, 16
/// bytes longer than the plaintext, and `decrypt` under the same key and nonce gives the
/// plaintext back.
#[verifier::external_body]
fn seal(key: &[u8; 32], nonce: &[u8; 24], plaintext: &[u8]) -> (r: Option<Vec<u8>>)
    requires
        plaintext@.len() <= MAX_PLAINTEXT,
        plaintext@.len() + TAG_LEN <= isize::MAX,
    ensures
        opt_bytes(r) == Some(sealed(key@, nonce@, plaintext@)),
        r matches Some(c) ==> c@.len() == plaintext@.len() + TAG_LEN,
        r matches Some(c) ==> opened(key@, nonce@, c@) == Some(plaintext@),
{
    let cipher = XChaCha20Poly1305::new_from_slice(key).ok()?;
    cipher.encrypt(XNonce::from_slice(nonce), plaintext).ok()
}

/// `decrypt` of `chacha20poly1305::XChaCha20Poly1305`, on a sealed text that the key
/// stream suffices for. The result is a function of key, nonce and sealed text, and 16
/// bytes shorter than the sealed text.
#[verifier::external_body]
fn open(key: &[u8; 32], nonce: &[u8], sealed: &[u8]) -> (r: Option<Vec<u8>>)
    requires
        nonce@.len() == 24,
        sealed@.len() <= MAX_PLAINTEXT + TAG_LEN,
    ensures
        opt_bytes(r) == opened(key@, nonce@, sealed@),
        r matches Some(p) ==> p@.len() + TAG_LEN == sealed@.len(),
{
    let cipher = XChaCha20Poly1305::new_from_slice(key).ok()?;
    cipher.decrypt(XNonce::from_slice(nonce), sealed).ok()
}

/// `fill_bytes` of `rand_core::OsRng`: bytes from the operating system's random
/// source. Nothing is claimed of their values.
#[verifier::external_body]
pub(crate) fn random_bytes<const N: usize>() -> (r: [u8; N]) {
    let mut bytes = [0u8; N];
    OsRng.fill_bytes(&mut bytes);
    bytes
}

/// The salt of a user's key: bound to the username, so that one passphrase yields
/// one key on all of a user's devices, and another for another user.
pub open spec fn salt_text(username: Seq<char>) -> Seq<char> {
    "my-domain-e2ee:"@ + username
}

/// The message key of a passphrase and a username.
pub open spec fn key_of(passphrase: Seq<char>, username: Seq<char>) -> Option<Seq<u8>> {
    argon2id(encode_utf8(passphrase), encode_utf8(salt_text(username)))
}

/// Whether Argon2 takes a passphrase and a username: neither is over its limit of
/// bytes.
pub open spec fn key_inputs_fit(passphrase: Seq<char>, username: Seq<char>) -> bool {
    &&& encode_utf8(passphrase).len() <= 0xFFFF_FFFF
    &&& encode_utf8(salt_text(username)).len() <= 0xFFFF_FFFF
}

proof fn lemma_utf8_concat(a: Seq<char>, b: Seq<char>)
    ensures
        encode_utf8(a + b) == encode_utf8(a) + encode_utf8(b),
    decreases a.len(),
{
    if a.len() == 0 {
        assert(a + b =~= b);
        assert(encode_utf8(a) + encode_utf8(b) =~= encode_utf8(b));
    } else {
        lemma_utf8_concat(a.drop_first(), b);
        assert((a + b).drop_first() =~= a.drop_first() + b);
        assert(encode_utf8(a + b) =~= encode_utf8(a) + encode_utf8(b));
    }
}

/// The salt is long enough for Argon2 whatever the username is.
pub proof fn law_salt_is_long_enough(username: Seq<char>)
    ensures
        encode_utf8(salt_text(username)).len() >= 15,
{
    reveal_strlit("my-domain-e2ee:");
    lemma_utf8_concat("my-domain-e2ee:"@, username);
    assert(is_ascii_chars("my-domain-e2ee:"@));
    is_ascii_chars_encode_utf8("my-domain-e2ee:"@);
}

/// Two users' salts differ.
pub proof fn law_salts_distinct(a: Seq<char>, b: Seq<char>)
    requires
        a != b,
    ensures
        salt_text(a) != salt_text(b),
{
    let n = "my-domain-e2ee:"@.len() as int;
    assert(salt_text(a).skip(n) =~= a);
    assert(salt_text(b).skip(n) =~= b);
}

/// Derive the 32-byte message key from the user's passphrase.
pub fn derive_key(passphrase: &str, username: &str) -> (r: Option<[u8; 32]>)
    ensures
        opt_key(r) == key_of(passphrase@, username@),
        r is Some <==> key_inputs_fit(passphrase@, username@),
{
    let salt = join("my-domain-e2ee:", username);
    proof {
        law_salt_is_long_enough(username@);
    }
    argon2_hash(passphrase.as_bytes(), salt.as_str().as_bytes())
}

/// Whether an envelope around `n` bytes of plaintext has texts that fit in memory.
pub open spec fn envelope_fits(n: int) -> bool {
    base64_len(n + TAG_LEN) <= isize::MAX
}

/// The envelope of a plaintext under a key and a nonce; `None` where the plaintext is
/// too long.
pub open spec fn sealed_envelope(key: Seq<u8>, nonce: Seq<u8>, plaintext: Seq<u8>) -> Option<
    EnvelopeView,
> {
    if plaintext.len() > MAX_PLAINTEXT {
        None
    } else {
        Some(
            EnvelopeView {
                nonce: base64_text(nonce),
                ciphertext: base64_text(sealed(key, nonce, plaintext)),
            },
        )
    }
}

/// What a sealed text holds under a key and a nonce: `None` where the nonce has not 24
/// bytes, the text is too long, or the tag does not hold.
pub open spec fn opened_bytes(key: Seq<u8>, nonce: Seq<u8>, ciphertext: Seq<u8>) -> Option<
    Seq<u8>,
> {
    if nonce.len() != 24 || ciphertext.len() > MAX_PLAINTEXT + TAG_LEN {
        None
    } else {
        opened(key, nonce, ciphertext)
    }
}

/// What an envelope holds under a key: `None` where one of its texts is no base64, or
/// what they stand for does not open.
pub open spec fn opened_envelope(key: Seq<u8>, env: EnvelopeView) -> Option<Seq<u8>> {
    match (base64_bytes(env.nonce), base64_bytes(env.ciphertext)) {
        (Some(nonce), Some(ct)) => opened_bytes(key, nonce, ct),
        _ => None,
    }
}

/// An envelope, where there is one, by its view.
pub open spec fn opt_envelope(e: Option<Envelope>) -> Option<EnvelopeView> {
    match e {
        Some(env) => Some(env@),
        None => None,
    }
}

/// Encrypt under a given nonce. Whatever nonce it is, the key opens the envelope
/// again and gives the plaintext.
pub fn encrypt_with(key: &[u8; 32], nonce: &[u8; 24], plaintext: &[u8]) -> (r: Option<Envelope>)
    requires
        envelope_fits(plaintext@.len() as int),
    ensures
        opt_envelope(r) == sealed_envelope(key@, nonce@, plaintext@),
        r is Some <==> plaintext@.len() <= MAX_PLAINTEXT,
        r matches Some(env) ==> opened_envelope(key@, env@) == Some(plaintext@),
{
    if plaintext.len() as u64 > MAX_PLAINTEXT {
        return None;
    }
    match seal(key, nonce, plaintext) {
        Some(ct) => {
            proof {
                law_base64_round_trip(nonce@);
                law_base64_round_trip(ct@);
            }
            Some(Envelope { nonce: to_base64(nonce), ciphertext: to_base64(ct.as_slice()) })
        },
        None => None,
    }
}

/// Encrypt under a fresh random nonce. The same key opens the envelope again and
/// gives the plaintext.
pub fn encrypt(key: &[u8; 32], plaintext: &[u8]) -> (r: Option<Envelope>)
    requires
        envelope_fits(plaintext@.len() as int),
    ensures
        exists|nonce: Seq<u8>| #[trigger]
            sealed_envelope(key@, nonce, plaintext@) == opt_envelope(r) && nonce.len() == 24,
        r is Some <==> plaintext@.len() <= MAX_PLAINTEXT,
        r matches Some(env) ==> opened_envelope(key@, env@) == Some(plaintext@),
{
    let nonce: [u8; 24] = random_bytes();
    let r = encrypt_with(key, &nonce, plaintext);
    assert(nonce@.len() == 24);
    r
}

/// Open a sealed text under a nonce.
pub fn decrypt_bytes(key: &[u8; 32], nonce: &[u8], ciphertext: &[u8]) -> (r: Option<Vec<u8>>)
    ensures
        opt_bytes(r) == opened_bytes(key@, nonce@, ciphertext@),
        r matches Some(p) ==> p@.len() + TAG_LEN == ciphertext@.len(),
{
    if nonce.len() != 24 || ciphertext.len() as u64 > MAX_PLAINTEXT + TAG_LEN {
        return None;
    }
    open(key, nonce, ciphertext)
}

/// Open an envelope.
pub fn decrypt(key: &[u8; 32], env: &Envelope) -> (r: Option<Vec<u8>>)
    ensures
        opt_bytes(r) == opened_envelope(key@, env@),
{
    let nonce = match from_base64(env.nonce.as_str()) {
        Some(n) => n,
        None => {
            return None;
        },
    };
    let ct = match from_base64(env.ciphertext.as_str()) {
        Some(c) => c,
        None => {
            return None;
        },
    };
    decrypt_bytes(key, nonce.as_slice(), ct.as_slice())
}

/// The text of a 24-byte key. Three divides 24, so there is no padding in it.
pub fn key_text(bytes: &[u8; 24]) -> (r: String)
    ensures
        r@ == base64_text(bytes@),
        r@.len() == 32,
        !r@.contains('='),
        base64_bytes(r@) == Some(bytes@),
{
    let r = to_base64(bytes);
    assert(bytes@.len() == 24);
    proof {
        law_base64_shape(bytes@);
        law_base64_round_trip(bytes@);
    }
    r
}

/// A random 24-byte key, base64-encoded (UI "Generate" helper): `key_text` of fresh bytes.
pub fn generate_key() -> (r: String)
    ensures
        r@.len() == 32,
        !r@.contains('='),
        exists|bytes: Seq<u8>| #[trigger] base64_text(bytes) == r@ && bytes.len() == 24,
        base64_bytes(r@) matches Some(b) && b.len() == 24,
{
    let bytes: [u8; 24] = random_bytes();
    let r = key_text(&bytes);
    assert(bytes@.len() == 24);
    r
}

} // verus!
