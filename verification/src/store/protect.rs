//! Protection of what is written to disk.
//!
//! Two modes. In integrity mode a payload is stored beside its HMAC-SHA256
//! under the store's key. In encrypted mode it is sealed with XChaCha20-Poly1305
//! under a key derived from a passphrase by Argon2id, and the tag is the
//! integrity check. In both, a payload that does not verify is an error and
//! never a silent fallback.
use crate::crypto;
use crate::crypto::{
    aead_decrypt, aead_encrypt, argon2_error_text, argon2id, draw, hmac_tag, hmac_verify,
    random_error_text, CIPHER_LIMIT, NONCE_LEN,
};
use crate::encoding;
use crate::encoding::{base64url_decode, base64url_encode};
use crate::io::StoreError;
use crate::text;
use crate::text::{decimal_text, joined};
use vstd::prelude::*;
use vstd::string::*;

verus! {

/// The version of integrity envelopes.
pub const ENVELOPE_V: u32 = 1;

/// The version of encrypted envelopes.
pub const AEAD_V: u32 = 1;

/// How a store protects what it writes.
#[derive(Clone, Copy, Debug, PartialEq, Eq, Structural)]
pub enum Protection {
    /// Authenticated under a key kept beside the data.
    Integrity,
    /// Encrypted and authenticated under a passphrase.
    Encrypted,
}

/// The recorded protection mode of a store.
#[derive(Clone, Copy, Debug, PartialEq, Eq, Structural)]
pub enum ProtectionTag {
    /// [`Protection::Integrity`].
    Integrity,
    /// [`Protection::Encrypted`].
    Encrypted,
}

impl Protection {
    /// The tag that is recorded for a mode.
    pub open spec fn spec_tag(self) -> ProtectionTag {
        match self {
            Protection::Integrity => ProtectionTag::Integrity,
            Protection::Encrypted => ProtectionTag::Encrypted,
        }
    }

    /// The tag that is recorded for this mode.
    pub fn tag(&self) -> (tag: ProtectionTag)
        ensures
            tag == self.spec_tag(),
    {
        match self {
            Protection::Integrity => ProtectionTag::Integrity,
            Protection::Encrypted => ProtectionTag::Encrypted,
        }
    }
}

/// What is written in integrity mode.
#[derive(Clone, Debug, PartialEq, Eq)]
pub struct IntegrityEnvelope {
    /// The version of the envelope.
    pub v: u32,
    /// The payload, in base64url.
    pub payload_b64: String,
    /// Its HMAC, in base64url.
    pub mac_b64: String,
}

/// What is written in encrypted mode.
#[derive(Clone, Debug, PartialEq, Eq)]
pub struct AeadEnvelope {
    /// The version of the envelope.
    pub v: u32,
    /// The nonce, in base64url.
    pub nonce_b64: String,
    /// The ciphertext with its tag, in base64url.
    pub ct_b64: String,
}

/// A protected payload.
#[derive(Clone, Debug, PartialEq, Eq)]
pub enum Envelope {
    /// Of integrity mode.
    Integrity(IntegrityEnvelope),
    /// Of encrypted mode.
    Aead(AeadEnvelope),
}

/// This is the encrypted envelope of `payload` under `key` and `nonce`.
pub open spec fn is_sealing(
    envelope: AeadEnvelope,
    key: Seq<u8>,
    nonce: Seq<u8>,
    payload: Seq<u8>,
) -> bool {
    &&& envelope.v == AEAD_V
    &&& envelope.nonce_b64@ == encoding::base64url(nonce)
    &&& envelope.ct_b64@ == encoding::base64url(
        crypto::xchacha20poly1305_ciphertext(key, nonce, payload),
    )
}

/// A protection mode with its key.
pub enum Protector {
    /// Integrity mode with its HMAC key.
    Integrity {
        /// The key.
        key: Vec<u8>,
    },
    /// Encrypted mode with its cipher key.
    Encrypted {
        /// The key.
        key: [u8; 32],
    },
}

/// The bytes of a base64url text that the decoder takes.
pub open spec fn decoded(text: Seq<char>) -> Option<Seq<u8>> {
    if encoding::decoder_takes(text) && exists|bytes: Seq<u8>|
        #[trigger] encoding::base64url(bytes) == text {
        Some(choose|bytes: Seq<u8>| #[trigger] encoding::base64url(bytes) == text)
    } else {
        None
    }
}

/// What an integrity envelope holds for a key: its payload, if the version is
/// known, the texts decode and the HMAC is that of the payload.
pub open spec fn integrity_payload(key: Seq<u8>, envelope: IntegrityEnvelope) -> Option<Seq<u8>> {
    match (decoded(envelope.payload_b64@), decoded(envelope.mac_b64@)) {
        (Some(payload), Some(mac)) => if envelope.v == ENVELOPE_V && mac == crypto::hmac_sha256(
            key,
            payload,
        ) {
            Some(payload)
        } else {
            None
        },
        _ => None,
    }
}

/// What an encrypted envelope holds for a key: its payload, if the version is
/// known, the texts decode, the nonce has its length and the tag verifies.
pub open spec fn aead_payload(key: Seq<u8>, envelope: AeadEnvelope) -> Option<Seq<u8>> {
    match (decoded(envelope.nonce_b64@), decoded(envelope.ct_b64@)) {
        (Some(nonce), Some(ciphertext)) => if envelope.v == AEAD_V && nonce.len() == NONCE_LEN
            && ciphertext.len() <= CIPHER_LIMIT + 16 {
            crypto::xchacha20poly1305_message(key, nonce, ciphertext)
        } else {
            None
        },
        _ => None,
    }
}

impl Protector {
    /// The mode.
    pub open spec fn mode(&self) -> Protection {
        match self {
            Protector::Integrity { .. } => Protection::Integrity,
            Protector::Encrypted { .. } => Protection::Encrypted,
        }
    }

    /// What an envelope holds for this protector; `None` where it does not
    /// verify, or is of the other mode.
    pub open spec fn payload_of(&self, envelope: Envelope) -> Option<Seq<u8>> {
        match (self, envelope) {
            (Protector::Integrity { key }, Envelope::Integrity(e)) => integrity_payload(key@, e),
            (Protector::Encrypted { key }, Envelope::Aead(e)) => aead_payload(key@, e),
            _ => None,
        }
    }

    /// A payload of `len` bytes can be encoded.
    pub open spec fn takes(&self, len: nat) -> bool {
        match self {
            Protector::Integrity { .. } => len <= usize::MAX / 512,
            Protector::Encrypted { .. } => len + 16 <= usize::MAX / 512,
        }
    }

    /// This envelope was made of `payload`: in integrity mode it holds the
    /// payload beside its HMAC, in encrypted mode the ciphertext under a nonce
    /// that was drawn from the random source.
    pub open spec fn is_seal_of(&self, envelope: Envelope, payload: Seq<u8>) -> bool {
        match self {
            Protector::Integrity { key } => {
                &&& envelope matches Envelope::Integrity(e)
                &&& e.v == ENVELOPE_V
                &&& e.payload_b64@ == encoding::base64url(payload)
                &&& e.mac_b64@ == encoding::base64url(crypto::hmac_sha256(key@, payload))
            },
            Protector::Encrypted { key } => {
                &&& payload.len() <= CIPHER_LIMIT
                &&& envelope matches Envelope::Aead(e)
                &&& exists|nonce: Seq<u8>|
                    nonce.len() == NONCE_LEN && crypto::drawn(nonce) && #[trigger] is_sealing(
                        e,
                        key@,
                        nonce,
                        payload,
                    )
            },
        }
    }

    /// Why a payload of `len` bytes is not sealed, and the text that says so:
    /// only in encrypted mode, where the random source gave no nonce or the
    /// payload is too long for the cipher.
    pub open spec fn seal_failure(&self, len: nat, message: Seq<char>) -> bool {
        &&& self is Encrypted
        &&& {
            ||| "rng: "@.is_prefix_of(message) && crypto::source_failed(NONCE_LEN)
            ||| len > CIPHER_LIMIT && message == "encrypt failed"@
        }
    }

    /// The text of what is wrong with an envelope that does not open.
    pub open spec fn open_failure(&self, envelope: Envelope, message: Seq<char>) -> bool {
        match (self, envelope) {
            (Protector::Integrity { .. }, Envelope::Integrity(e)) => integrity_failure(e, message),
            (Protector::Encrypted { .. }, Envelope::Aead(e)) => aead_failure(e, message),
            (Protector::Integrity { .. }, Envelope::Aead(_)) => message
                == "decode envelope: not an integrity envelope"@,
            (Protector::Encrypted { .. }, Envelope::Integrity(_)) => message
                == "decode aead envelope: not an aead envelope"@,
        }
    }

    /// Protect `payload`. In integrity mode this always succeeds; in encrypted
    /// mode it fails where the random source fails or the payload is too long
    /// for the cipher. What is sealed opens to the payload again.
    pub fn seal(&self, payload: &[u8]) -> (sealed: Result<Envelope, StoreError>)
        requires
            self.takes(payload@.len()),
        ensures
            match sealed {
                Ok(envelope) => self.payload_of(envelope) == Some(payload@) && self.is_seal_of(
                    envelope,
                    payload@,
                ),
                Err(e) => self.seal_failure(payload@.len(), e.0@),
            },
    {
        match self {
            Protector::Integrity { key } => {
                let tag = match hmac_tag(key.as_slice(), payload) {
                    Ok(tag) => tag,
                    Err(_) => return Err(StoreError("hmac key: invalid length".to_owned())),
                };
                let envelope = IntegrityEnvelope {
                    v: ENVELOPE_V,
                    payload_b64: base64url_encode(payload),
                    mac_b64: base64url_encode(&tag),
                };
                proof {
                    lemma_encoded_decodes(payload@);
                    lemma_encoded_decodes(tag@);
                }
                Ok(Envelope::Integrity(envelope))
            },
            Protector::Encrypted { key } => {
                let nonce = match draw(NONCE_LEN) {
                    Ok(nonce) => nonce,
                    Err(e) => return Err(prefixed("rng: ", random_error_text(&e).as_str())),
                };
                if payload.len() as u64 > CIPHER_LIMIT {
                    return Err(StoreError("encrypt failed".to_owned()));
                }
                match seal_with_nonce(key, nonce.as_slice(), payload) {
                    Ok(envelope) => Ok(Envelope::Aead(envelope)),
                    Err(e) => Err(e),
                }
            },
        }
    }

    /// Open what was read. A version, text, HMAC or tag that does not verify is
    /// an error, and so is an envelope of the other mode.
    pub fn open(&self, envelope: &Envelope) -> (opened: Result<Vec<u8>, StoreError>)
        ensures
            match opened {
                Ok(payload) => self.payload_of(*envelope) == Some(payload@),
                Err(e) => self.payload_of(*envelope) is None && self.open_failure(
                    *envelope,
                    e.0@,
                ),
            },
    {
        match (self, envelope) {
            (Protector::Integrity { key }, Envelope::Integrity(e)) => open_integrity(
                key.as_slice(),
                e,
            ),
            (Protector::Encrypted { key }, Envelope::Aead(e)) => open_aead(key, e),
            (Protector::Integrity { .. }, Envelope::Aead(_)) => Err(
                StoreError("decode envelope: not an integrity envelope".to_owned()),
            ),
            (Protector::Encrypted { .. }, Envelope::Integrity(_)) => Err(
                StoreError("decode aead envelope: not an aead envelope".to_owned()),
            ),
        }
    }
}

/// The text of the first thing that is wrong with an integrity envelope: its
/// version, its payload text, its HMAC text, its HMAC.
pub open spec fn integrity_failure(envelope: IntegrityEnvelope, message: Seq<char>) -> bool {
    if envelope.v != ENVELOPE_V {
        message == "unsupported integrity envelope version "@ + text::decimal(envelope.v as nat)
    } else if decoded(envelope.payload_b64@) is None {
        "payload base64: "@.is_prefix_of(message)
    } else if decoded(envelope.mac_b64@) is None {
        "mac base64: "@.is_prefix_of(message)
    } else {
        message == "integrity check failed (store tampered?)"@
    }
}

/// The text of the first thing that is wrong with an encrypted envelope: its
/// version, its nonce text, its ciphertext text, its nonce or tag.
pub open spec fn aead_failure(envelope: AeadEnvelope, message: Seq<char>) -> bool {
    if envelope.v != AEAD_V {
        message == "unsupported aead envelope version "@ + text::decimal(envelope.v as nat)
    } else if decoded(envelope.nonce_b64@) is None {
        "nonce base64: "@.is_prefix_of(message)
    } else if decoded(envelope.ct_b64@) is None {
        "ciphertext base64: "@.is_prefix_of(message)
    } else {
        message == "decrypt failed (wrong passphrase or store tampered?)"@
    }
}

/// An error of two texts.
pub fn prefixed(prefix: &str, rest: &str) -> (error: StoreError)
    ensures
        error.0@ == prefix@ + rest@,
        prefix@.is_prefix_of(error.0@),
{
    let error = StoreError(joined(prefix, rest));
    assert(prefix@.is_prefix_of(error.0@));
    error
}

/// Decode a base64url text, naming it in the error.
pub fn decode_text(prefix: &str, text: &str) -> (bytes: Result<Vec<u8>, StoreError>)
    ensures
        match bytes {
            Ok(b) => decoded(text@) == Some(b@),
            Err(e) => decoded(text@) is None && prefix@.is_prefix_of(e.0@),
        },
{
    if text.as_bytes().len() > usize::MAX / 8 {
        return Err(prefixed(prefix, "text too long"));
    }
    match base64url_decode(text) {
        Ok(bytes) => {
            proof {
                lemma_decoded(text@, bytes@);
            }
            Ok(bytes)
        },
        Err(e) => Err(prefixed(prefix, e.as_str())),
    }
}

/// A text has no other decoding than the one found.
proof fn lemma_decoded(text: Seq<char>, bytes: Seq<u8>)
    requires
        encoding::decoder_takes(text),
        encoding::base64url(bytes) == text,
    ensures
        decoded(text) == Some(bytes),
{
    let found = choose|b: Seq<u8>| #[trigger] encoding::base64url(b) == text;
    encoding::law_base64url_is_injective(found, bytes);
}

/// What was encoded decodes to itself.
pub proof fn lemma_encoded_decodes(bytes: Seq<u8>)
    requires
        bytes.len() <= usize::MAX / 512,
    ensures
        decoded(encoding::base64url(bytes)) == Some(bytes),
{
    encoding::lemma_base64url_text(bytes);
    lemma_decoded(encoding::base64url(bytes), bytes);
}

/// Open an integrity envelope.
fn open_integrity(key: &[u8], envelope: &IntegrityEnvelope) -> (opened: Result<Vec<u8>, StoreError>)
    ensures
        match opened {
            Ok(payload) => integrity_payload(key@, *envelope) == Some(payload@),
            Err(e) => integrity_payload(key@, *envelope) is None && integrity_failure(
                *envelope,
                e.0@,
            ),
        },
{
    if envelope.v != ENVELOPE_V {
        return Err(
            StoreError(
                joined(
                    "unsupported integrity envelope version ",
                    decimal_text(envelope.v as u64).as_str(),
                ),
            ),
        );
    }
    let payload = match decode_text("payload base64: ", envelope.payload_b64.as_str()) {
        Ok(payload) => payload,
        Err(e) => return Err(e),
    };
    let tag = match decode_text("mac base64: ", envelope.mac_b64.as_str()) {
        Ok(tag) => tag,
        Err(e) => return Err(e),
    };
    match hmac_verify(key, payload.as_slice(), tag.as_slice()) {
        Ok(true) => Ok(payload),
        _ => Err(StoreError("integrity check failed (store tampered?)".to_owned())),
    }
}

/// Seal `payload` under `key` with a given nonce.
pub fn seal_with_nonce(key: &[u8; 32], nonce: &[u8], payload: &[u8]) -> (sealed: Result<
    AeadEnvelope,
    StoreError,
>)
    requires
        nonce@.len() == NONCE_LEN,
        payload@.len() <= CIPHER_LIMIT,
        payload@.len() + 16 <= usize::MAX / 512,
    ensures
        sealed matches Ok(e) && is_sealing(e, key@, nonce@, payload@) && aead_payload(key@, e)
            == Some(payload@),
{
    let ciphertext = match aead_encrypt(key, nonce, payload) {
        Ok(ciphertext) => ciphertext,
        Err(_) => return Err(StoreError("encrypt failed".to_owned())),
    };
    proof {
        lemma_encoded_decodes(nonce@);
        lemma_encoded_decodes(ciphertext@);
    }
    Ok(
        AeadEnvelope {
            v: AEAD_V,
            nonce_b64: base64url_encode(nonce),
            ct_b64: base64url_encode(ciphertext.as_slice()),
        },
    )
}

/// Open an encrypted envelope.
fn open_aead(key: &[u8; 32], envelope: &AeadEnvelope) -> (opened: Result<Vec<u8>, StoreError>)
    ensures
        match opened {
            Ok(payload) => aead_payload(key@, *envelope) == Some(payload@),
            Err(e) => aead_payload(key@, *envelope) is None && aead_failure(*envelope, e.0@),
        },
{
    if envelope.v != AEAD_V {
        return Err(
            StoreError(
                joined(
                    "unsupported aead envelope version ",
                    decimal_text(envelope.v as u64).as_str(),
                ),
            ),
        );
    }
    let nonce = match decode_text("nonce base64: ", envelope.nonce_b64.as_str()) {
        Ok(nonce) => nonce,
        Err(e) => return Err(e),
    };
    let ciphertext = match decode_text("ciphertext base64: ", envelope.ct_b64.as_str()) {
        Ok(ciphertext) => ciphertext,
        Err(e) => return Err(e),
    };
    if nonce.len() == NONCE_LEN && ciphertext.len() as u64 <= CIPHER_LIMIT + 16 {
        if let Ok(payload) = aead_decrypt(key, nonce.as_slice(), ciphertext.as_slice()) {
            return Ok(payload);
        }
    }
    Err(StoreError("decrypt failed (wrong passphrase or store tampered?)".to_owned()))
}

/// Derive the cipher key of a passphrase and a store's salt.
pub fn derive_key(passphrase: &str, salt: &[u8]) -> (key: Result<[u8; 32], StoreError>)
    ensures
        match key {
            Ok(k) => crypto::argon2_takes(passphrase.spec_bytes(), salt@) && k@
                == crypto::argon2id_key(passphrase.spec_bytes(), salt@),
            Err(e) => !crypto::argon2_takes(passphrase.spec_bytes(), salt@)
                && "argon2: "@.is_prefix_of(e.0@),
        },
{
    match argon2id(passphrase.as_bytes(), salt) {
        Ok(key) => Ok(key),
        Err(e) => Err(prefixed("argon2: ", argon2_error_text(&e).as_str())),
    }
}

/// Draw a random key of thirty-two bytes for integrity mode. It fails only
/// where the random source fails.
pub fn generate_integrity_key() -> (key: Result<Vec<u8>, StoreError>)
    ensures
        match key {
            Ok(k) => k@.len() == 32 && crypto::drawn(k@),
            Err(e) => "rng: "@.is_prefix_of(e.0@) && crypto::source_failed(32),
        },
{
    match draw(32) {
        Ok(key) => Ok(key),
        Err(e) => Err(prefixed("rng: ", random_error_text(&e).as_str())),
    }
}

/// What opens is authentic: in integrity mode the stored HMAC is that of the
/// payload under the store's key.
pub proof fn law_opened_payload_is_authentic(
    key: Seq<u8>,
    envelope: IntegrityEnvelope,
    payload: Seq<u8>,
)
    requires
        integrity_payload(key, envelope) == Some(payload),
    ensures
        envelope.mac_b64@ == encoding::base64url(crypto::hmac_sha256(key, payload)),
        envelope.payload_b64@ == encoding::base64url(payload),
{
}

/// Tampering with the payload alone is noticed: an envelope with the HMAC of
/// one payload opens to another only where the two have the same HMAC.
pub proof fn law_tampered_payload_is_refused(
    key: Seq<u8>,
    written: IntegrityEnvelope,
    read: IntegrityEnvelope,
    payload: Seq<u8>,
    other: Seq<u8>,
)
    requires
        integrity_payload(key, written) == Some(payload),
        read.mac_b64@ == written.mac_b64@,
        crypto::hmac_sha256(key, other) != crypto::hmac_sha256(key, payload),
    ensures
        integrity_payload(key, read) != Some(other),
{
}

/// What is sealed opens again under the same protector, to the same payload.
pub proof fn law_sealed_payload_opens(
    protector: Protector,
    payload: &[u8],
    envelope: Envelope,
    opened: Result<Vec<u8>, StoreError>,
)
    requires
        call_ensures(Protector::seal, (&protector, payload), Ok(envelope)),
        call_ensures(Protector::open, (&protector, &envelope), opened),
    ensures
        opened matches Ok(p) && p@ == payload@,
        envelope is Integrity <==> protector is Integrity,
{
}

/// An envelope opens only in the mode, and only in the version, that it is of.
/// What opens in encrypted mode is what the cipher makes of the decoded nonce and
/// ciphertext; what opens in integrity mode is the decoded payload.
pub proof fn law_only_its_own_mode_and_version_open(
    protector: Protector,
    envelope: Envelope,
    payload: Vec<u8>,
)
    requires
        call_ensures(Protector::open, (&protector, &envelope), Ok(payload)),
    ensures
        match (protector, envelope) {
            (Protector::Integrity { key }, Envelope::Integrity(e)) => {
                &&& e.v == 1
                &&& e.payload_b64@ == encoding::base64url(payload@)
                &&& e.mac_b64@ == encoding::base64url(crypto::hmac_sha256(key@, payload@))
            },
            (Protector::Encrypted { key }, Envelope::Aead(e)) => {
                &&& e.v == 1
                &&& exists|nonce: Seq<u8>, ciphertext: Seq<u8>|
                    {
                        &&& nonce.len() == 24
                        &&& e.nonce_b64@ == encoding::base64url(nonce)
                        &&& e.ct_b64@ == encoding::base64url(ciphertext)
                        &&& #[trigger] crypto::xchacha20poly1305_message(key@, nonce, ciphertext)
                            == Some(payload@)
                    }
            },
            _ => false,
        },
{
    match (protector, envelope) {
        (Protector::Integrity { key }, Envelope::Integrity(e)) => {
            law_opened_payload_is_authentic(key@, e, payload@);
        },
        (Protector::Encrypted { key }, Envelope::Aead(e)) => {
            let nonce = decoded(e.nonce_b64@)->0;
            let ciphertext = decoded(e.ct_b64@)->0;
            assert(crypto::xchacha20poly1305_message(key@, nonce, ciphertext) == Some(payload@));
        },
        _ => {},
    }
}

/// Each mode is recorded by its own tag.
pub proof fn law_each_mode_has_its_tag(protection: Protection, tag: ProtectionTag)
    requires
        call_ensures(Protection::tag, (&protection,), tag),
    ensures
        tag == ProtectionTag::Integrity <==> protection == Protection::Integrity,
        tag == ProtectionTag::Encrypted <==> protection == Protection::Encrypted,
{
}

/// The cipher key is that of the passphrase and the salt, whichever call derives
/// it, and there is one exactly where Argon2 takes both.
pub proof fn law_key_is_of_passphrase_and_salt(
    passphrase: &str,
    salt: &[u8],
    key: Result<[u8; 32], StoreError>,
    again: Result<[u8; 32], StoreError>,
)
    requires
        call_ensures(derive_key, (passphrase, salt), key),
        call_ensures(derive_key, (passphrase, salt), again),
    ensures
        key is Ok <==> passphrase.spec_bytes().len() <= 0xffff_ffff && 8 <= salt@.len()
            <= 0xffff_ffff,
        key is Ok ==> again is Ok && key->Ok_0@ == again->Ok_0@,
        key is Ok ==> key->Ok_0@ == crypto::argon2id_key(passphrase.spec_bytes(), salt@),
{
}

} // verus!
