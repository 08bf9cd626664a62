//! AES-256-GCM sealing of secrets at rest, and the opening of a sealed
//! UTF-8 text (nonce length check, authenticated decryption, UTF-8 check).
use vstd::prelude::*;
use vstd::utf8::{decode_utf8, encode_utf8, valid_utf8};
use crate::text::concat2;
use aes_gcm::aead::Aead;
use aes_gcm::{Aes256Gcm, Key, KeyInit, Nonce};
use rand::Rng;

verus! {

/// Length of an AES-GCM nonce in bytes.
pub const NONCE_SIZE: usize = 12;

/// Length of the master key in bytes.
pub const MASTER_KEY_SIZE: usize = 32;

/// Largest plaintext AES-GCM seals (`aes_gcm::P_MAX`).
pub const PLAINTEXT_MAX: u64 = 0x10_0000_0000;

/// The ciphertext (with its 16-byte tag appended) that AES-256-GCM gives for
/// a key, a nonce and a plaintext, without associated data.
pub uninterp spec fn aes256gcm_seal(key: Seq<u8>, nonce: Seq<u8>, plaintext: Seq<u8>) -> Seq<u8>;

/// The plaintext AES-256-GCM recovers from a ciphertext, `None` when the
/// tag does not authenticate it.
pub uninterp spec fn aes256gcm_open(key: Seq<u8>, nonce: Seq<u8>, ciphertext: Seq<u8>) -> Option<
    Seq<u8>,
>;

/// The text that `String::from_utf8` reports for bytes that are not UTF-8.
pub uninterp spec fn utf8_error_text(bytes: Seq<u8>) -> Seq<char>;

/// Calls `Aead::encrypt` of `Aes256Gcm`. The claims: the result is the
/// AES-256-GCM ciphertext of the plaintext, 16 bytes longer (the tag is
/// appended), and decrypting it with the same key and nonce gives the
/// plaintext back. Encryption fails only for a plaintext over `P_MAX`,
/// which `requires` rules out.
#[verifier::external_body]
fn aes_seal(key: &[u8; 32], nonce: &[u8; 12], plaintext: &[u8]) -> (r: Vec<u8>)
    requires
        plaintext@.len() <= PLAINTEXT_MAX,
    ensures
        r@ == aes256gcm_seal(key@, nonce@, plaintext@),
        r@.len() == plaintext@.len() + 16,
        aes256gcm_open(key@, nonce@, r@) == Some(plaintext@),
{
    let cipher = Aes256Gcm::new(Key::<Aes256Gcm>::from_slice(key));
    match cipher.encrypt(Nonce::from_slice(nonce), plaintext) {
        Ok(v) => v,
        Err(_) => Vec::new(),
    }
}

/// Calls `Aead::decrypt` of `Aes256Gcm`: the plaintext when the tag
/// authenticates the ciphertext, otherwise the error's text, which
/// `aead::Error` always displays as `aead::Error`.
#[verifier::external_body]
fn aes_open(key: &[u8; 32], nonce: &[u8; 12], ciphertext: &[u8]) -> (r: Result<Vec<u8>, String>)
    ensures
        match aes256gcm_open(key@, nonce@, ciphertext@) {
            Some(p) => r matches Ok(v) && v@ == p,
            None => r matches Err(m) && m@ == "aead::Error"@,
        },
{
    let cipher = Aes256Gcm::new(Key::<Aes256Gcm>::from_slice(key));
    cipher.decrypt(Nonce::from_slice(nonce), ciphertext).map_err(|e| e.to_string())
}

/// Fills a nonce from the thread-local random generator (`rand::rng()` and
/// `Rng::fill_bytes`). Nothing is claimed of the bytes.
#[verifier::external_body]
fn random_nonce() -> (r: [u8; 12]) {
    let mut n = [0u8; 12];
    rand::rng().fill_bytes(&mut n);
    n
}

/// Calls `String::from_utf8`: a text exactly when the bytes are UTF-8, the
/// text they encode; otherwise the error's text.
#[verifier::external_body]
fn string_from_utf8(bytes: Vec<u8>) -> (r: Result<String, String>)
    ensures
        r is Ok <==> valid_utf8(bytes@),
        r matches Ok(s) ==> s@ == decode_utf8(bytes@),
        r matches Err(m) ==> m@ == utf8_error_text(bytes@),
{
    String::from_utf8(bytes).map_err(|e| e.to_string())
}

/// Encrypts `plaintext` under the master key with a fresh random nonce;
/// returns the ciphertext and the nonce. Decrypting the ciphertext with the
/// key and that nonce gives the plaintext back.
pub fn encrypt(master_key: &[u8; 32], plaintext: &[u8]) -> (r: (Vec<u8>, [u8; 12]))
    requires
        plaintext@.len() <= PLAINTEXT_MAX,
    ensures
        r.0@ == aes256gcm_seal(master_key@, r.1@, plaintext@),
        aes256gcm_open(master_key@, r.1@, r.0@) == Some(plaintext@),
{
    let nonce = random_nonce();
    let ciphertext = aes_seal(master_key, &nonce, plaintext);
    (ciphertext, nonce)
}

/// What `decrypt` returns.
pub open spec fn decrypt_outcome(key: Seq<u8>, nonce: Seq<u8>, ciphertext: Seq<u8>) -> Result<
    Seq<u8>,
    Seq<char>,
> {
    match aes256gcm_open(key, nonce, ciphertext) {
        Some(p) => Ok(p),
        None => Err("decryption failed: "@ + "aead::Error"@),
    }
}

/// Decrypts `ciphertext` with the master key and `nonce`; fails with
/// `decryption failed: aead::Error` when the ciphertext does not
/// authenticate.
pub fn decrypt(master_key: &[u8; 32], ciphertext: &[u8], nonce: &[u8; 12]) -> (r: Result<
    Vec<u8>,
    String,
>)
    ensures
        match decrypt_outcome(master_key@, nonce@, ciphertext@) {
            Ok(p) => r matches Ok(v) && v@ == p,
            Err(m) => r matches Err(e) && e@ == m,
        },
{
    match aes_open(master_key, nonce, ciphertext) {
        Ok(p) => Ok(p),
        Err(e) => Err(concat2("decryption failed: ", e.as_str())),
    }
}

/// What `open_text` returns for a stored ciphertext and nonce.
pub open spec fn open_text_outcome(key: Seq<u8>, ciphertext: Seq<u8>, nonce: Seq<u8>) -> Result<
    Seq<char>,
    Seq<char>,
> {
    if nonce.len() != 12 {
        Err("stored nonce has wrong length"@)
    } else {
        match decrypt_outcome(key, nonce, ciphertext) {
            Err(m) => Err(m),
            Ok(p) => if valid_utf8(p) {
                Ok(decode_utf8(p))
            } else {
                Err("invalid UTF-8 in credential: "@ + utf8_error_text(p))
            },
        }
    }
}

/// The stored nonce as a 12-byte array, when it has that length.
pub fn nonce_from_bytes(bytes: &[u8]) -> (r: Option<[u8; 12]>)
    ensures
        bytes@.len() == 12 ==> (r matches Some(n) && n@ == bytes@),
        bytes@.len() != 12 ==> r is None,
{
    if bytes.len() != 12 {
        return None;
    }
    let mut n = [0u8; 12];
    let mut i: usize = 0;
    while i < 12
        invariant
            bytes@.len() == 12,
            i <= 12,
            forall|k: int| 0 <= k < i ==> n@[k] == bytes@[k],
        decreases 12 - i,
    {
        n[i] = bytes[i];
        i += 1;
    }
    assert(n@ =~= bytes@);
    Some(n)
}

/// Opens a sealed text: the nonce must be 12 bytes, the ciphertext must
/// authenticate, and the plaintext must be UTF-8.
pub fn open_text(master_key: &[u8; 32], ciphertext: &[u8], nonce_bytes: &[u8]) -> (r: Result<
    String,
    String,
>)
    ensures
        match open_text_outcome(master_key@, ciphertext@, nonce_bytes@) {
            Ok(t) => r matches Ok(s) && s@ == t,
            Err(m) => r matches Err(e) && e@ == m,
        },
{
    let nonce = match nonce_from_bytes(nonce_bytes) {
        Some(n) => n,
        None => {
            return Err(String::from_str("stored nonce has wrong length"));
        },
    };
    let plaintext = match decrypt(master_key, ciphertext, &nonce) {
        Ok(p) => p,
        Err(e) => {
            return Err(e);
        },
    };
    match string_from_utf8(plaintext) {
        Ok(s) => Ok(s),
        Err(e) => Err(concat2("invalid UTF-8 in credential: ", e.as_str())),
    }
}

/// Seals a text: its UTF-8 bytes encrypted under the master key with a fresh
/// nonce.
pub fn seal_text(master_key: &[u8; 32], value: &str) -> (r: (Vec<u8>, [u8; 12]))
    requires
        encode_utf8(value@).len() <= PLAINTEXT_MAX,
    ensures
        r.0@ == aes256gcm_seal(master_key@, r.1@, encode_utf8(value@)),
        aes256gcm_open(master_key@, r.1@, r.0@) == Some(encode_utf8(value@)),
{
    let bytes = value.as_bytes();
    encrypt(master_key, bytes)
}

/// Opening what `seal_text` sealed, with the same key and the nonce it
/// returned, gives the text back.
pub proof fn law_open_after_seal(key: Seq<u8>, nonce: Seq<u8>, ciphertext: Seq<u8>, value: Seq<char>)
    requires
        nonce.len() == 12,
        aes256gcm_open(key, nonce, ciphertext) == Some(encode_utf8(value)),
    ensures
        open_text_outcome(key, ciphertext, nonce) == Ok::<Seq<char>, Seq<char>>(value),
{
    vstd::utf8::encode_utf8_valid_utf8(value);
    vstd::utf8::encode_utf8_decode_utf8(value);
}

/// Decrypting what `encrypt` returned, with the same key and its nonce,
/// gives the plaintext back.
pub proof fn law_decrypt_after_encrypt(
    key: Seq<u8>,
    nonce: Seq<u8>,
    ciphertext: Seq<u8>,
    plaintext: Seq<u8>,
)
    requires
        aes256gcm_open(key, nonce, ciphertext) == Some(plaintext),
    ensures
        decrypt_outcome(key, nonce, ciphertext) == Ok::<Seq<u8>, Seq<char>>(plaintext),
{
}

/// The master key read from its file, which must hold exactly 32 bytes.
pub fn master_key_from_bytes(bytes: &[u8]) -> (r: Result<[u8; 32], String>)
    ensures
        bytes@.len() == 32 ==> (r matches Ok(k) && k@ == bytes@),
        bytes@.len() != 32 ==> (r matches Err(m) && m@
            == "master key has wrong length \u{2014} expected 32 bytes"@),
{
    if bytes.len() != 32 {
        return Err(String::from_str("master key has wrong length \u{2014} expected 32 bytes"));
    }
    let mut k = [0u8; 32];
    let mut i: usize = 0;
    while i < 32
        invariant
            bytes@.len() == 32,
            i <= 32,
            forall|j: int| 0 <= j < i ==> k@[j] == bytes@[j],
        decreases 32 - i,
    {
        k[i] = bytes[i];
        i += 1;
    }
    assert(k@ =~= bytes@);
    Ok(k)
}

} // verus!
