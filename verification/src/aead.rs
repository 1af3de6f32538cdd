//! Symmetric AEAD: ChaCha20-Poly1305 with 96-bit nonces and 32-byte keys.
//!
//! Two modes. The sealed envelope draws 12 random nonce bytes and returns
//! `nonce || ciphertext`; it seals locker plaintext. The caller-nonced mode
//! expands a server-issued 4-byte id into the nonce; it encrypts the login
//! challenge answer and manufactures the session token.

use vstd::prelude::*;
use vstd::slice::slice_subrange;

use crate::nonce::expand_u32_nonce;
use crate::nonce::expanded_nonce_of;
use crate::random::random_bytes;

verus! {

/// The ciphertext (with its 16-byte tag appended) that ChaCha20-Poly1305
/// produces for a 32-byte key, a 12-byte nonce and a plaintext.
pub uninterp spec fn aead_cipher(key: Seq<u8>, nonce: Seq<u8>, plaintext: Seq<u8>) -> Seq<u8>;

/// What ChaCha20-Poly1305 decryption returns for a 32-byte key, a 12-byte
/// nonce and a ciphertext: the plaintext, or nothing when the tag check
/// rejects the ciphertext.
pub uninterp spec fn aead_open(key: Seq<u8>, nonce: Seq<u8>, ciphertext: Seq<u8>) -> Option<
    Seq<u8>,
>;

/// The longest plaintext the cipher accepts: 64 bytes for each of 2^32 - 1
/// ChaCha20 blocks. On longer input the cipher reports failure.
pub open spec fn aead_max_plaintext_len() -> int {
    (0xffffffff as int) * 64
}

/// Relies on chacha20poly1305::ChaCha20Poly1305 (the aead::Aead::encrypt
/// method): encryption appends the 16-byte Poly1305 tag, never fails below
/// the block-count limit, and is inverted by decryption under the same key
/// and nonce.
#[verifier::external_body]
#[allow(deprecated)]
fn chacha_encrypt(key: &[u8], nonce: &[u8], plaintext: &[u8]) -> (r: Vec<u8>)
    requires
        key@.len() == 32,
        nonce@.len() == 12,
        plaintext@.len() < aead_max_plaintext_len(),
    ensures
        r@ == aead_cipher(key@, nonce@, plaintext@),
        r@.len() == plaintext@.len() + 16,
        aead_open(key@, nonce@, r@) == Some(plaintext@),
{
    let cipher = <chacha20poly1305::ChaCha20Poly1305 as chacha20poly1305::aead::NewAead>::new(
        chacha20poly1305::Key::from_slice(key),
    );
    chacha20poly1305::aead::Aead::encrypt(&cipher, chacha20poly1305::Nonce::from_slice(nonce), plaintext)
        .expect("encryption is infallible below the block-count limit")
}

/// Relies on chacha20poly1305::ChaCha20Poly1305 (the aead::Aead::decrypt
/// method): decryption of a given key, nonce and ciphertext is a function;
/// it fails exactly when the tag check rejects.
#[verifier::external_body]
#[allow(deprecated)]
fn chacha_decrypt(key: &[u8], nonce: &[u8], ciphertext: &[u8]) -> (r: Option<Vec<u8>>)
    requires
        key@.len() == 32,
        nonce@.len() == 12,
    ensures
        match r {
            Some(p) => aead_open(key@, nonce@, ciphertext@) == Some(p@),
            None => aead_open(key@, nonce@, ciphertext@) is None,
        },
{
    let cipher = <chacha20poly1305::ChaCha20Poly1305 as chacha20poly1305::aead::NewAead>::new(
        chacha20poly1305::Key::from_slice(key),
    );
    chacha20poly1305::aead::Aead::decrypt(&cipher, chacha20poly1305::Nonce::from_slice(nonce), ciphertext).ok()
}

/// Encrypt under the first 12 nonce bytes and the first 32 key bytes.
pub fn encrypt_bytes(nonce: &[u8], key: &[u8], plaintext: &[u8]) -> (r: Vec<u8>)
    requires
        nonce@.len() >= 12,
        key@.len() >= 32,
        plaintext@.len() < aead_max_plaintext_len(),
    ensures
        r@ == aead_cipher(key@.subrange(0, 32), nonce@.subrange(0, 12), plaintext@),
        r@.len() == plaintext@.len() + 16,
        aead_open(key@.subrange(0, 32), nonce@.subrange(0, 12), r@) == Some(plaintext@),
{
    let k = slice_subrange(key, 0, 32);
    let n = slice_subrange(nonce, 0, 12);
    chacha_encrypt(k, n, plaintext)
}

/// Caller-nonced mode: encrypt under the nonce expanded from a 4-byte id.
/// The (key, id) pair must be fresh for every message; the id is issued by
/// the server once per login and the key is the per-login session key.
pub fn encrypt_bytes_with_u32_nonce(u32_nonce: &u32, key: &[u8], plaintext: &[u8]) -> (r: Vec<u8>)
    requires
        key@.len() >= 32,
        plaintext@.len() < aead_max_plaintext_len(),
    ensures
        r@ == aead_cipher(key@.subrange(0, 32), expanded_nonce_of(*u32_nonce), plaintext@),
        r@.len() == plaintext@.len() + 16,
        aead_open(key@.subrange(0, 32), expanded_nonce_of(*u32_nonce), r@) == Some(plaintext@),
{
    let nonce = expand_u32_nonce(u32_nonce);
    let r = encrypt_bytes(nonce.as_slice(), key, plaintext);
    proof {
        assert(nonce@.subrange(0, 12) =~= expanded_nonce_of(*u32_nonce));
    }
    r
}

/// Sealed envelope: draw a random 12-byte nonce and return
/// `nonce || ciphertext`, so the envelope opens with the key alone.
pub fn encrypt_locker(key: &[u8], plaintext: &[u8]) -> (r: Vec<u8>)
    requires
        key@.len() >= 32,
        plaintext@.len() < aead_max_plaintext_len(),
    ensures
        r@.len() == plaintext@.len() + 28,
        r@.skip(12) == aead_cipher(key@.subrange(0, 32), r@.subrange(0, 12), plaintext@),
        aead_open(key@.subrange(0, 32), r@.subrange(0, 12), r@.skip(12)) == Some(plaintext@),
{
    let mut out = random_bytes(12);
    let mut ciphertext = encrypt_bytes(out.as_slice(), key, plaintext);
    let ghost nonce = out@;
    out.append(&mut ciphertext);
    proof {
        assert(out@.subrange(0, 12) =~= nonce.subrange(0, 12));
        assert(out@.skip(12) =~= aead_cipher(key@.subrange(0, 32), out@.subrange(0, 12), plaintext@));
    }
    out
}

/// Open a sealed envelope: split off the 12-byte nonce and decrypt what
/// follows. Returns nothing when the tag check rejects.
pub fn decrypt_locker(key: &[u8], ciphertext: &[u8]) -> (r: Option<Vec<u8>>)
    requires
        key@.len() >= 32,
        ciphertext@.len() >= 12,
    ensures
        match r {
            Some(p) => aead_open(
                key@.subrange(0, 32),
                ciphertext@.subrange(0, 12),
                ciphertext@.skip(12),
            ) == Some(p@),
            None => aead_open(
                key@.subrange(0, 32),
                ciphertext@.subrange(0, 12),
                ciphertext@.skip(12),
            ) is None,
        },
{
    let k = slice_subrange(key, 0, 32);
    let n = slice_subrange(ciphertext, 0, 12);
    let body = slice_subrange(ciphertext, 12, ciphertext.len());
    proof {
        assert(body@ =~= ciphertext@.skip(12));
    }
    chacha_decrypt(k, n, body)
}

/// Law: opening a sealed envelope with the key that sealed it yields the
/// sealed plaintext back.
pub fn locker_round_trip(key: &[u8], plaintext: &[u8]) -> (r: Option<Vec<u8>>)
    requires
        key@.len() >= 32,
        plaintext@.len() < aead_max_plaintext_len(),
    ensures
        r matches Some(p) && p@ == plaintext@,
{
    let sealed = encrypt_locker(key, plaintext);
    decrypt_locker(key, sealed.as_slice())
}

} // verus!
