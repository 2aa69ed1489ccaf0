//! The cryptographic primitives of the encryption layer, provided by the
//! `chacha20poly1305`, `x25519-dalek`, `sha2` and `rand` crates.

use vstd::prelude::*;
use chacha20poly1305::aead::{Aead, NewAead};
use sha2::Digest;

verus! {

/// The ciphertext (with its 16-byte tag appended) that ChaCha20Poly1305
/// produces for `plaintext` under `key` and `nonce`, without associated data.
pub uninterp spec fn aead_seal(key: Seq<u8>, nonce: Seq<u8>, plaintext: Seq<u8>) -> Seq<u8>;

/// The plaintext that ChaCha20Poly1305 recovers from `ciphertext` under `key`
/// and `nonce`, or `None` when the ciphertext does not authenticate.
pub uninterp spec fn aead_open(key: Seq<u8>, nonce: Seq<u8>, ciphertext: Seq<u8>) -> Option<Seq<u8>>;

/// The X25519 public key of the secret key `secret`.
pub uninterp spec fn x25519_public(secret: Seq<u8>) -> Seq<u8>;

/// The X25519 shared secret of the secret key `secret` and the public key
/// `public`.
pub uninterp spec fn x25519_shared(secret: Seq<u8>, public: Seq<u8>) -> Seq<u8>;

/// The SHA-256 digest of `data`.
pub uninterp spec fn sha256(data: Seq<u8>) -> Seq<u8>;

/// Whether ChaCha20Poly1305 accepts a message of `len` bytes: it refuses
/// messages of 2^32 - 1 blocks of 64 bytes or more.
pub open spec fn aead_len_ok(len: nat) -> bool {
    len / 64 < 0xFFFF_FFFF
}

/// The bytes of an optional vector.
pub open spec fn opt_bytes(r: Option<Vec<u8>>) -> Option<Seq<u8>> {
    match r {
        Some(v) => Some(v@),
        None => None,
    }
}

/// Whether `r` is what decrypting `ciphertext` must give when it is the
/// sealing of some plaintext under `key` and `nonce`: that plaintext.
pub open spec fn opens_sealed(key: Seq<u8>, nonce: Seq<u8>, ciphertext: Seq<u8>, r: Option<Seq<u8>>) -> bool {
    forall|p: Seq<u8>|
        ciphertext == aead_seal(key, nonce, p) && aead_len_ok(p.len()) ==> r == Some(p)
}

/// Encrypts `plaintext` with ChaCha20Poly1305 (`Aead::encrypt` of
/// `chacha20poly1305::ChaCha20Poly1305`, after building the cipher from the
/// key). The crate fails only on messages that are too long; the ciphertext
/// is the plaintext's length plus a 16-byte tag.
#[verifier::external_body]
pub(crate) fn chacha_encrypt(key: &[u8], nonce: &[u8; 12], plaintext: &[u8]) -> (r: Option<Vec<u8>>)
    requires
        key@.len() == 32,
    ensures
        r is Some <==> aead_len_ok(plaintext@.len()),
        r matches Some(c) ==> c@ == aead_seal(key@, nonce@, plaintext@),
        r matches Some(c) ==> c@.len() == plaintext@.len() + 16,
{
    let cipher = chacha20poly1305::ChaCha20Poly1305::new(chacha20poly1305::Key::from_slice(key));
    cipher.encrypt(chacha20poly1305::Nonce::from_slice(nonce), plaintext).ok()
}

/// Decrypts `ciphertext` with ChaCha20Poly1305 (`Aead::decrypt` of
/// `chacha20poly1305::ChaCha20Poly1305`, after building the cipher from the
/// key). A ciphertext produced by encryption under the same key and nonce
/// decrypts to its plaintext.
#[verifier::external_body]
pub(crate) fn chacha_decrypt(key: &[u8], nonce: &[u8; 12], ciphertext: &[u8]) -> (r: Option<Vec<u8>>)
    requires
        key@.len() == 32,
    ensures
        r is None <==> aead_open(key@, nonce@, ciphertext@) is None,
        r matches Some(p) ==> aead_open(key@, nonce@, ciphertext@) == Some(p@),
        opens_sealed(key@, nonce@, ciphertext@, opt_bytes(r)),
{
    let cipher = chacha20poly1305::ChaCha20Poly1305::new(chacha20poly1305::Key::from_slice(key));
    cipher.decrypt(chacha20poly1305::Nonce::from_slice(nonce), ciphertext).ok()
}

/// The X25519 public key of `secret` (`PublicKey::from(&StaticSecret)` of
/// `x25519_dalek`, after loading the secret from its bytes).
#[verifier::external_body]
pub(crate) fn x25519_public_key(secret: &[u8; 32]) -> (r: [u8; 32])
    ensures
        r@ == x25519_public(secret@),
{
    x25519_dalek::PublicKey::from(&x25519_dalek::StaticSecret::from(*secret)).to_bytes()
}

/// The X25519 shared secret of `secret` and `their_public`
/// (`StaticSecret::diffie_hellman` of `x25519_dalek`, after loading both keys
/// from their bytes). Both sides of an exchange compute the same secret: when
/// `their_public` is the public key of `other`, the result is the shared
/// secret of `other` and the public key of `secret`.
#[verifier::external_body]
pub(crate) fn x25519_diffie_hellman(secret: &[u8; 32], their_public: &[u8; 32]) -> (r: [u8; 32])
    ensures
        r@ == x25519_shared(secret@, their_public@),
        forall|other: Seq<u8>|
            other.len() == 32 && their_public@ == x25519_public(other)
                ==> r@ == x25519_shared(other, x25519_public(secret@)),
{
    x25519_dalek::StaticSecret::from(*secret).diffie_hellman(
        &x25519_dalek::PublicKey::from(*their_public),
    ).to_bytes()
}

/// The SHA-256 digest of `data` (`Digest::digest` of `sha2::Sha256`), 32
/// bytes long.
#[verifier::external_body]
pub(crate) fn sha256_digest(data: &[u8]) -> (r: Vec<u8>)
    ensures
        r@ == sha256(data@),
        r@.len() == 32,
{
    sha2::Sha256::digest(data).to_vec()
}

/// Thirty-two random bytes from the thread-local generator (`rand::random`).
/// Nothing is known of the bytes.
#[verifier::external_body]
pub(crate) fn random_bytes() -> [u8; 32] {
    rand::random::<[u8; 32]>()
}

} // verus!
