//! The cryptographic primitives the client calls.
//!
//! Hashing, message authentication, authenticated encryption, key derivation
//! and randomness come from outside crates. Each result that is a function of
//! its arguments has a name here; the contracts above speak of those names.
use sha2::Digest;
use chacha20poly1305::aead::{Aead, KeyInit};
use hmac::Mac;
use vstd::prelude::*;

verus! {

/// The error `hmac` reports for a key it cannot take.
#[verifier::external_type_specification]
#[verifier::external_body]
pub struct ExInvalidLength(hmac::digest::InvalidLength);

/// The error an authenticated cipher reports.
#[verifier::external_type_specification]
#[verifier::external_body]
pub struct ExAeadError(chacha20poly1305::Error);

/// The error `argon2` reports.
#[verifier::external_type_specification]
#[verifier::external_body]
pub struct ExArgon2Error(argon2::Error);

/// The error `getrandom` reports when the system's random source fails.
#[verifier::external_type_specification]
#[verifier::external_body]
pub struct ExRandomError(getrandom::Error);

/// The SHA-256 digest of `bytes`.
pub uninterp spec fn sha256(bytes: Seq<u8>) -> Seq<u8>;

/// The key of an HMAC as a block of sixty-four bytes: a longer one hashed, a
/// shorter one followed by zeros.
pub open spec fn hmac_block(key: Seq<u8>) -> Seq<u8> {
    let fitting = if key.len() > 64 {
        sha256(key)
    } else {
        key
    };
    Seq::new(
        64,
        |i: int|
            if i < fitting.len() {
                fitting[i]
            } else {
                0u8
            },
    )
}

/// A block with each byte combined with `pad`.
pub open spec fn padded(block: Seq<u8>, pad: u8) -> Seq<u8> {
    Seq::new(block.len(), |i: int| block[i] ^ pad)
}

/// The HMAC-SHA256 of `message` under `key`.
pub open spec fn hmac_sha256(key: Seq<u8>, message: Seq<u8>) -> Seq<u8> {
    let block = hmac_block(key);
    sha256(padded(block, 0x5c) + sha256(padded(block, 0x36) + message))
}

/// The XChaCha20-Poly1305 ciphertext of `message`, its tag at the end.
pub uninterp spec fn xchacha20poly1305_ciphertext(
    key: Seq<u8>,
    nonce: Seq<u8>,
    message: Seq<u8>,
) -> Seq<u8>;

/// What XChaCha20-Poly1305 makes of `ciphertext`: its message, or `None` where
/// the tag does not verify.
pub uninterp spec fn xchacha20poly1305_message(
    key: Seq<u8>,
    nonce: Seq<u8>,
    ciphertext: Seq<u8>,
) -> Option<Seq<u8>>;

/// The 32-byte Argon2id key of `password` and `salt`, at version 0x13 and the
/// default cost parameters.
pub uninterp spec fn argon2id_key(password: Seq<u8>, salt: Seq<u8>) -> Seq<u8>;

/// Bytes in an XChaCha20-Poly1305 nonce.
pub const NONCE_LEN: usize = 24;

/// The longest message the XChaCha20 key stream covers: 2^32 - 2 blocks of 64
/// bytes.
pub const CIPHER_LIMIT: u64 = 274877906816;

/// `sha2::Sha256::digest`: the SHA-256 digest of `bytes`.
#[verifier::external_body]
pub(crate) fn sha256_digest(bytes: &[u8]) -> (digest: [u8; 32])
    ensures
        digest@ == sha256(bytes@),
{
    sha2::Sha256::digest(bytes).into()
}

/// `hmac::Hmac<Sha256>`: the tag of `message` under `key`, as HMAC defines it
/// over SHA-256. A key of any length is taken.
#[verifier::external_body]
pub(crate) fn hmac_tag(key: &[u8], message: &[u8]) -> (tag: Result<
    [u8; 32],
    hmac::digest::InvalidLength,
>)
    ensures
        tag is Ok,
        tag->Ok_0@ == hmac_sha256(key@, message@),
{
    let mut mac = <hmac::Hmac<sha2::Sha256> as Mac>::new_from_slice(key)?;
    mac.update(message);
    Ok(mac.finalize().into_bytes().into())
}

/// `hmac::Mac::verify_slice`: whether `tag` is the tag of `message` under
/// `key`, compared in constant time; a tag of another length is not.
#[verifier::external_body]
pub(crate) fn hmac_verify(key: &[u8], message: &[u8], tag: &[u8]) -> (verdict: Result<
    bool,
    hmac::digest::InvalidLength,
>)
    ensures
        verdict is Ok,
        verdict->Ok_0 == (tag@ == hmac_sha256(key@, message@)),
{
    let mut mac = <hmac::Hmac<sha2::Sha256> as Mac>::new_from_slice(key)?;
    mac.update(message);
    Ok(mac.verify_slice(tag).is_ok())
}

/// `XChaCha20Poly1305::encrypt`, without associated data: the ciphertext, which
/// is sixteen bytes longer than the message, and from which decryption under
/// the same key and nonce gives the message back. The call panics on a nonce of
/// another length and on a message too long for the key stream.
#[verifier::external_body]
pub(crate) fn aead_encrypt(key: &[u8; 32], nonce: &[u8], message: &[u8]) -> (ciphertext: Result<
    Vec<u8>,
    chacha20poly1305::Error,
>)
    requires
        nonce@.len() == NONCE_LEN,
        message@.len() <= CIPHER_LIMIT,
    ensures
        ciphertext is Ok,
        ciphertext->Ok_0@ == xchacha20poly1305_ciphertext(key@, nonce@, message@),
        ciphertext->Ok_0@.len() == message@.len() + 16,
        xchacha20poly1305_message(key@, nonce@, ciphertext->Ok_0@) == Some(message@),
{
    let cipher = chacha20poly1305::XChaCha20Poly1305::new(key.into());
    cipher.encrypt(chacha20poly1305::XNonce::from_slice(nonce), message)
}

/// `XChaCha20Poly1305::decrypt`, without associated data: the message, or an
/// error where the tag does not verify. The call panics on a nonce of another
/// length and on a ciphertext too long for the key stream.
#[verifier::external_body]
pub(crate) fn aead_decrypt(key: &[u8; 32], nonce: &[u8], ciphertext: &[u8]) -> (message: Result<
    Vec<u8>,
    chacha20poly1305::Error,
>)
    requires
        nonce@.len() == NONCE_LEN,
        ciphertext@.len() <= CIPHER_LIMIT + 16,
    ensures
        match message {
            Ok(m) => xchacha20poly1305_message(key@, nonce@, ciphertext@) == Some(m@),
            Err(_) => xchacha20poly1305_message(key@, nonce@, ciphertext@) is None,
        },
{
    let cipher = chacha20poly1305::XChaCha20Poly1305::new(key.into());
    cipher.decrypt(chacha20poly1305::XNonce::from_slice(nonce), ciphertext)
}

/// The lengths that Argon2 takes: a password and a salt below 2^32 bytes, and a
/// salt of at least eight.
pub open spec fn argon2_takes(password: Seq<u8>, salt: Seq<u8>) -> bool {
    password.len() <= u32::MAX && 8 <= salt.len() <= u32::MAX
}

/// `argon2::Argon2::hash_password_into`, Argon2id version 0x13 at the default
/// parameters: a 32-byte key, or an error where a length is out of range.
#[verifier::external_body]
pub(crate) fn argon2id(password: &[u8], salt: &[u8]) -> (key: Result<[u8; 32], argon2::Error>)
    ensures
        match key {
            Ok(k) => argon2_takes(password@, salt@) && k@ == argon2id_key(password@, salt@),
            Err(_) => !argon2_takes(password@, salt@),
        },
{
    let params = argon2::Params::default();
    let argon = argon2::Argon2::new(argon2::Algorithm::Argon2id, argon2::Version::V0x13, params);
    let mut key = [0u8; 32];
    argon.hash_password_into(password, salt, &mut key)?;
    Ok(key)
}

/// `argon2::Error`'s `Display` text. Nothing is stated of it.
#[verifier::external_body]
pub(crate) fn argon2_error_text(error: &argon2::Error) -> String {
    error.to_string()
}

/// `getrandom::getrandom`: `len` random bytes, or an error where the system's
/// source fails. What the bytes are is chance.
#[verifier::external_body]
pub(crate) fn random_bytes(len: usize) -> (bytes: Result<Vec<u8>, getrandom::Error>)
    ensures
        bytes matches Ok(b) ==> b@.len() == len,
{
    let mut bytes = vec![0u8; len];
    getrandom::getrandom(&mut bytes)?;
    Ok(bytes)
}

/// These bytes came from the random source: it may give them for their length.
pub closed spec fn drawn(bytes: Seq<u8>) -> bool {
    exists|b: Vec<u8>|
        b@ == bytes && #[trigger] call_ensures(random_bytes, (bytes.len() as usize,), Ok(b))
}

/// The random source failed when asked for `len` bytes.
pub closed spec fn source_failed(len: usize) -> bool {
    exists|why: getrandom::Error| #[trigger] call_ensures(random_bytes, (len,), Err(why))
}

/// Draw `len` random bytes.
pub(crate) fn draw(len: usize) -> (bytes: Result<Vec<u8>, getrandom::Error>)
    ensures
        match bytes {
            Ok(b) => b@.len() == len && drawn(b@),
            Err(_) => source_failed(len),
        },
{
    match random_bytes(len) {
        Ok(b) => {
            assert(call_ensures(random_bytes, (b@.len() as usize,), Ok(b)));
            Ok(b)
        },
        Err(why) => {
            assert(call_ensures(random_bytes, (len,), Err(why)));
            Err(why)
        },
    }
}

/// `getrandom::Error`'s `Display` text. Nothing is stated of it.
#[verifier::external_body]
pub(crate) fn random_error_text(error: &getrandom::Error) -> String {
    error.to_string()
}

} // verus!
