//! The durable stores over files kept in memory: round trips, protection, and
//! refusal of what does not verify.

use std::collections::BTreeMap;
use std::path::PathBuf;
use std::sync::Arc;

use data_encoding::{BASE32, BASE64URL_NOPAD, HEXLOWER};
use serde_json::Value;
use sha3::{Digest, Sha3_256};

use entangled_client::history::{check_against_history, record_for};
use entangled_client::protocol::{
    Canary, DiagnosticCode, EntangledTimestamp, Manifest, OnionAddress, PublisherPubkey,
    RetainedManifestRecord, RuntimePubkey,
};
use entangled_client::store::dto::{
    HistoryDto, IdentityDto, ManifestRecordDto, HISTORY_V, IDENTITY_V,
};
use entangled_client::store::history::{prepend_record, read_records};
use entangled_client::store::protect::{
    derive_key, generate_integrity_key, seal_with_nonce, AeadEnvelope, Envelope, IntegrityEnvelope,
    ProtectionTag, Protector,
};
use entangled_client::store::root::{
    ProtectedWrite, StoreFiles, StoreMeta, StorePath, StoredFile,
};
use entangled_client::trust::{resolve, PersistenceIntent, TrustState, UserDecision};
use entangled_client::{
    FileHistoryStore, FileIdentityStore, HistoryStore, IdentityStore, MemoryHistoryStore,
    MemoryIdentityStore, Protection, PublisherHistory, RetainedIdentity, RetainedProvenance,
    StoreResult, StoreRoot,
};

fn ts(s: &str) -> EntangledTimestamp {
    EntangledTimestamp::from_text(s).expect("valid timestamp")
}

fn key(seed: u8) -> PublisherPubkey {
    PublisherPubkey([seed; 32])
}

/// The Tor v3 address of a key.
fn site(seed: u8) -> OnionAddress {
    let pubkey = [seed; 32];
    let mut hasher = Sha3_256::new();
    hasher.update(b".onion checksum");
    hasher.update(pubkey);
    hasher.update([0x03]);
    let digest = hasher.finalize();
    let mut payload = [0u8; 35];
    payload[..32].copy_from_slice(&pubkey);
    payload[32..34].copy_from_slice(&[digest[0], digest[1]]);
    payload[34] = 0x03;
    OnionAddress::new(format!("{}.onion", BASE32.encode(&payload).to_ascii_lowercase()))
}

fn record(issued_at: &str, runtime_seed: u8, payload_byte: u8) -> RetainedManifestRecord {
    RetainedManifestRecord {
        issued_at: ts(issued_at),
        runtime_pubkey: RuntimePubkey([runtime_seed; 32]),
        manifest_payload_hash: [payload_byte; 32],
    }
}

// --- JSON ---

fn text(value: &Value, field: &str) -> Result<String, String> {
    match value.get(field).and_then(Value::as_str) {
        Some(s) => Ok(s.to_owned()),
        None => Err(format!("missing {field}")),
    }
}

fn number(value: &Value, field: &str) -> Result<u32, String> {
    match value.get(field).and_then(Value::as_u64) {
        Some(n) => Ok(n as u32),
        None => Err(format!("missing {field}")),
    }
}

fn bytes32(text: &str) -> Result<[u8; 32], String> {
    let bytes = BASE64URL_NOPAD.decode(text.as_bytes()).map_err(|e| e.to_string())?;
    bytes.try_into().map_err(|_| "not 32 bytes".to_owned())
}

fn object(fields: Vec<(&str, Value)>) -> Value {
    let mut map = serde_json::Map::new();
    for (name, value) in fields {
        map.insert(name.to_owned(), value);
    }
    Value::Object(map)
}

fn b64(bytes: &[u8]) -> Value {
    Value::from(BASE64URL_NOPAD.encode(bytes))
}

fn parse_identity(bytes: &[u8]) -> Result<IdentityDto, String> {
    let value: Value = serde_json::from_slice(bytes).map_err(|e| e.to_string())?;
    let mut replaced_pubkeys = Vec::new();
    if let Some(list) = value.get("replaced_pubkeys").and_then(Value::as_array) {
        for item in list {
            let s = item.as_str().ok_or_else(|| "not a key".to_owned())?;
            replaced_pubkeys.push(PublisherPubkey(bytes32(s)?));
        }
    }
    Ok(IdentityDto {
        v: number(&value, "v")?,
        pubkey: PublisherPubkey(bytes32(&text(&value, "pubkey")?)?),
        provenance: value.get("provenance").and_then(Value::as_str).map(str::to_owned),
        externally_verified: value.get("externally_verified").and_then(Value::as_bool),
        replaced_pubkeys,
    })
}

fn encode_identity(dto: &IdentityDto) -> Result<Vec<u8>, String> {
    let replaced: Vec<Value> = dto.replaced_pubkeys.iter().map(|k| b64(&k.0)).collect();
    let mut fields = vec![("v", Value::from(dto.v)), ("pubkey", b64(&dto.pubkey.0))];
    if let Some(p) = &dto.provenance {
        fields.push(("provenance", Value::from(p.clone())));
    }
    fields.push(("replaced_pubkeys", Value::Array(replaced)));
    serde_json::to_vec(&object(fields)).map_err(|e| e.to_string())
}

fn parse_history(bytes: &[u8]) -> Result<HistoryDto, String> {
    let value: Value = serde_json::from_slice(bytes).map_err(|e| e.to_string())?;
    let mut records = Vec::new();
    for item in value.get("records").and_then(Value::as_array).ok_or_else(String::new)? {
        records.push(ManifestRecordDto {
            issued_at: EntangledTimestamp::from_text(&text(item, "issued_at")?)
                .ok_or_else(|| "not a timestamp".to_owned())?,
            runtime_pubkey: RuntimePubkey(bytes32(&text(item, "runtime_pubkey")?)?),
            payload_hash_hex: text(item, "payload_hash_hex")?,
        });
    }
    Ok(HistoryDto {
        v: number(&value, "v")?,
        records,
    })
}

fn encode_history(dto: &HistoryDto) -> Result<Vec<u8>, String> {
    let records: Vec<Value> = dto
        .records
        .iter()
        .map(|r| {
            object(vec![
                ("issued_at", Value::from(r.issued_at.to_text())),
                ("runtime_pubkey", b64(&r.runtime_pubkey.0)),
                ("payload_hash_hex", Value::from(r.payload_hash_hex.clone())),
            ])
        })
        .collect();
    let value = object(vec![("v", Value::from(dto.v)), ("records", Value::Array(records))]);
    serde_json::to_vec(&value).map_err(|e| e.to_string())
}

fn encode_envelope(envelope: &Envelope) -> Vec<u8> {
    let value = match envelope {
        Envelope::Integrity(e) => object(vec![
            ("v", Value::from(e.v)),
            ("payload_b64", Value::from(e.payload_b64.clone())),
            ("mac_b64", Value::from(e.mac_b64.clone())),
        ]),
        Envelope::Aead(e) => object(vec![
            ("v", Value::from(e.v)),
            ("nonce_b64", Value::from(e.nonce_b64.clone())),
            ("ct_b64", Value::from(e.ct_b64.clone())),
        ]),
    };
    serde_json::to_vec(&value).expect("json")
}

fn parse_envelope(bytes: &[u8]) -> Result<Envelope, String> {
    let value: Value = serde_json::from_slice(bytes).map_err(|e| e.to_string())?;
    if value.get("mac_b64").is_some() {
        Ok(Envelope::Integrity(IntegrityEnvelope {
            v: number(&value, "v")?,
            payload_b64: text(&value, "payload_b64")?,
            mac_b64: text(&value, "mac_b64")?,
        }))
    } else {
        Ok(Envelope::Aead(AeadEnvelope {
            v: number(&value, "v")?,
            nonce_b64: text(&value, "nonce_b64")?,
            ct_b64: text(&value, "ct_b64")?,
        }))
    }
}

// --- A disk ---

#[derive(Default)]
struct Disk {
    key: Option<Vec<u8>>,
    meta: Option<StoreMeta>,
    files: BTreeMap<String, Vec<u8>>,
}

fn place(path: &StorePath<'_>) -> String {
    let full = path.base.join(path.directory).join(&path.file);
    full.to_string_lossy().into_owned()
}

impl Disk {
    fn open(&mut self, protection: &Protection, pass: Option<&str>) -> StoreResult<Arc<StoreRoot>> {
        let files = StoreFiles {
            key: self.key.clone(),
            meta: self.meta.clone(),
        };
        let opening = StoreRoot::open(PathBuf::from("/store"), protection, pass, files)?;
        if opening.new_key.is_some() {
            self.key = opening.new_key;
        }
        if opening.new_meta.is_some() {
            self.meta = opening.new_meta;
        }
        Ok(Arc::new(opening.root))
    }

    fn read(&self, path: &StorePath<'_>) -> StoredFile {
        match self.files.get(&place(path)) {
            None => StoredFile::Missing,
            Some(bytes) => match parse_envelope(bytes) {
                Ok(envelope) => StoredFile::Sealed(envelope),
                Err(why) => StoredFile::Undecodable(why),
            },
        }
    }

    fn write(&mut self, write: ProtectedWrite<'_>) {
        self.files.insert(place(&write.path), encode_envelope(&write.envelope));
    }

    /// Flip a byte, counted from the end, of the one file with this prefix.
    fn tamper(&mut self, directory: &str, from_end: usize) {
        for (name, bytes) in self.files.iter_mut() {
            if name.contains(directory) {
                let i = bytes.len() - from_end;
                bytes[i] ^= 0xFF;
            }
        }
    }
}

fn integrity(disk: &mut Disk) -> Arc<StoreRoot> {
    disk.open(&Protection::Integrity, None).expect("open integrity store")
}

fn apply(
    disk: &mut Disk,
    root: &Arc<StoreRoot>,
    site: &OnionAddress,
    intent: &PersistenceIntent,
) -> StoreResult<()> {
    let store = FileIdentityStore::new(root.clone());
    let file = disk.read(&root.identity_path(site));
    if let Some(write) = store.apply(site, intent, &file, parse_identity, encode_identity)? {
        disk.write(write);
    }
    Ok(())
}

fn load_identity(
    disk: &Disk,
    root: &Arc<StoreRoot>,
    site: &OnionAddress,
) -> StoreResult<Option<RetainedIdentity>> {
    let store = FileIdentityStore::new(root.clone());
    store.load_identity(&disk.read(&root.identity_path(site)), parse_identity)
}

fn append_record(
    disk: &mut Disk,
    root: &Arc<StoreRoot>,
    publisher: &PublisherPubkey,
    record: &RetainedManifestRecord,
) {
    let store = FileHistoryStore::new(root.clone());
    let file = disk.read(&root.history_path(publisher));
    let write = store
        .append_record(publisher, record, &file, parse_history, encode_history)
        .expect("append");
    disk.write(write);
}

fn load_history(
    disk: &Disk,
    root: &Arc<StoreRoot>,
    publisher: &PublisherPubkey,
) -> StoreResult<PublisherHistory> {
    let store = FileHistoryStore::new(root.clone());
    store.load_history(&disk.read(&root.history_path(publisher)), parse_history)
}

// --- Identities across a reload ---

#[test]
fn pin_then_reload_is_tofu_pinned() {
    let mut disk = Disk::default();
    let (k, s) = (key(1), site(1));
    let root = integrity(&mut disk);
    apply(&mut disk, &root, &s, &PersistenceIntent::PinIdentity { pubkey: k }).unwrap();

    // A fresh store over the same files is a new session.
    let root = integrity(&mut disk);
    let retained = load_identity(&disk, &root, &s).unwrap();
    assert_eq!(
        retained,
        Some(RetainedIdentity {
            pubkey: k,
            provenance: RetainedProvenance::Pinned
        })
    );
    assert_eq!(
        resolve(&k, retained.as_ref(), UserDecision::NoDecision).state,
        TrustState::TofuPinned
    );
}

#[test]
fn externally_verified_survives_reload() {
    let mut disk = Disk::default();
    let (k, s) = (key(2), site(2));
    let root = integrity(&mut disk);
    apply(&mut disk, &root, &s, &PersistenceIntent::MarkExternallyVerified { pubkey: k }).unwrap();

    let root = integrity(&mut disk);
    let retained = load_identity(&disk, &root, &s).unwrap().unwrap();
    assert_eq!(retained.provenance, RetainedProvenance::ExternallyVerified);
    assert_eq!(
        resolve(&k, Some(&retained), UserDecision::NoDecision).state,
        TrustState::ExternallyVerified
    );
}

#[test]
fn replace_preserves_prior_key_and_verified_flag() {
    let mut disk = Disk::default();
    let (k1, k2, s) = (key(1), key(2), site(1));
    let root = integrity(&mut disk);
    apply(&mut disk, &root, &s, &PersistenceIntent::MarkExternallyVerified { pubkey: k1 }).unwrap();
    let replace = PersistenceIntent::ReplaceIdentity {
        new_pubkey: k2,
        replaced: k1,
        externally_verified: true,
    };
    apply(&mut disk, &root, &s, &replace).unwrap();

    let root = integrity(&mut disk);
    let r2 = load_identity(&disk, &root, &s).unwrap().unwrap();
    assert_eq!(r2.pubkey, k2);
    assert_eq!(r2.provenance, RetainedProvenance::ExternallyVerified);
    assert_eq!(
        resolve(&k2, Some(&r2), UserDecision::NoDecision).state,
        TrustState::ExternallyVerified
    );
    // The prior key is kept, and a later replacement goes in front of it.
    let again = PersistenceIntent::ReplaceIdentity {
        new_pubkey: key(3),
        replaced: k2,
        externally_verified: false,
    };
    apply(&mut disk, &root, &s, &again).unwrap();
    let store = FileIdentityStore::new(root.clone());
    let dto = store
        .load_dto(&disk.read(&root.identity_path(&s)), parse_identity)
        .unwrap()
        .unwrap();
    assert_eq!(dto.replaced_pubkeys, vec![k2, k1]);
    assert_eq!(dto.to_identity().unwrap().provenance, RetainedProvenance::Pinned);
}

#[test]
fn repin_does_not_demote_verified() {
    let mut disk = Disk::default();
    let (k, s) = (key(5), site(5));
    let root = integrity(&mut disk);
    apply(&mut disk, &root, &s, &PersistenceIntent::MarkExternallyVerified { pubkey: k }).unwrap();
    // A stray re-pin must not demote.
    apply(&mut disk, &root, &s, &PersistenceIntent::PinIdentity { pubkey: k }).unwrap();
    assert_eq!(
        load_identity(&disk, &root, &s).unwrap().unwrap().provenance,
        RetainedProvenance::ExternallyVerified
    );
}

#[test]
fn observation_is_kept_and_upgraded_on_disk() {
    let mut disk = Disk::default();
    let (k, s) = (key(6), site(6));
    let root = integrity(&mut disk);
    apply(&mut disk, &root, &s, &PersistenceIntent::RecordObservation { pubkey: k }).unwrap();
    apply(&mut disk, &root, &s, &PersistenceIntent::RecordObservation { pubkey: key(7) }).unwrap();
    assert_eq!(
        load_identity(&disk, &root, &s).unwrap(),
        Some(RetainedIdentity {
            pubkey: k,
            provenance: RetainedProvenance::Observed
        })
    );
    apply(&mut disk, &root, &s, &PersistenceIntent::PinIdentity { pubkey: k }).unwrap();
    assert_eq!(
        load_identity(&disk, &root, &s).unwrap().unwrap().provenance,
        RetainedProvenance::Pinned
    );
    // Nothing is written where nothing is to be persisted.
    let store = FileIdentityStore::new(root.clone());
    let file = disk.read(&root.identity_path(&s));
    assert!(store
        .apply(&s, &PersistenceIntent::Nothing, &file, parse_identity, encode_identity)
        .unwrap()
        .is_none());
    assert!(store
        .apply(
            &s,
            &PersistenceIntent::PinIdentity { pubkey: key(8) },
            &file,
            parse_identity,
            encode_identity
        )
        .unwrap()
        .is_none());
}

// --- Refusal ---

#[test]
fn corruption_missing_identity_is_first_contact() {
    let mut disk = Disk::default();
    let root = integrity(&mut disk);
    let (k, s) = (key(9), site(9));
    assert_eq!(load_identity(&disk, &root, &s).unwrap(), None);
    assert_eq!(
        resolve(&k, None, UserDecision::NoDecision).state,
        TrustState::FirstContact
    );
}

#[test]
fn corrupt_identity_is_error_not_first_contact() {
    let mut disk = Disk::default();
    let (k, s) = (key(1), site(1));
    let root = integrity(&mut disk);
    apply(&mut disk, &root, &s, &PersistenceIntent::PinIdentity { pubkey: k }).unwrap();
    disk.tamper("identities", 5);
    assert!(
        load_identity(&disk, &root, &s).is_err(),
        "a tampered identity must be an error, not first contact"
    );
}

#[test]
fn garbage_identity_file_is_error() {
    let mut disk = Disk::default();
    let s = site(2);
    let root = integrity(&mut disk);
    disk.files
        .insert(place(&root.identity_path(&s)), b"not json at all".to_vec());
    let error = load_identity(&disk, &root, &s).unwrap_err();
    assert!(error.message().starts_with("decode envelope: "));
}

#[test]
fn corrupt_history_is_error() {
    let mut disk = Disk::default();
    let p = key(3);
    let root = integrity(&mut disk);
    append_record(&mut disk, &root, &p, &record("2026-06-05T00:00:00Z", 0xA1, 0x11));
    let half = disk.files.values().next().expect("one file").len() / 2;
    disk.tamper("history", half);
    assert!(load_history(&disk, &root, &p).is_err());
}

#[test]
fn foreign_payload_under_the_old_tag_is_refused() {
    let protector = Protector::Integrity { key: vec![7; 32] };
    let sealed = |payload: &[u8]| match protector.seal(payload).unwrap() {
        Envelope::Integrity(e) => e,
        Envelope::Aead(_) => panic!("integrity mode"),
    };
    let (mut a, b) = (sealed(b"pinned"), sealed(b"observed"));
    assert_eq!(protector.open(&Envelope::Integrity(a.clone())).unwrap(), b"pinned".to_vec());
    a.payload_b64 = b.payload_b64;
    let error = protector.open(&Envelope::Integrity(a)).unwrap_err();
    assert_eq!(error.message(), "integrity check failed (store tampered?)");
}

#[test]
fn integrity_envelope_has_the_known_tag() {
    // HMAC-SHA256, key "key", the usual pangram.
    let protector = Protector::Integrity { key: b"key".to_vec() };
    let payload = b"The quick brown fox jumps over the lazy dog";
    let mac = data_encoding::HEXLOWER
        .decode(b"f7bc83f430538424b13298e6aa6fb143ef4d59a14946175997479dbc2d1a3cd8")
        .unwrap();
    assert_eq!(
        protector.seal(payload).unwrap(),
        Envelope::Integrity(IntegrityEnvelope {
            v: 1,
            payload_b64: BASE64URL_NOPAD.encode(payload),
            mac_b64: BASE64URL_NOPAD.encode(&mac),
        })
    );
}

#[test]
fn integrity_failures_are_named() {
    let protector = Protector::Integrity { key: vec![1; 32] };
    let envelope = match protector.seal(b"payload").unwrap() {
        Envelope::Integrity(e) => e,
        Envelope::Aead(_) => panic!("integrity mode"),
    };
    let message = |e: IntegrityEnvelope| {
        protector.open(&Envelope::Integrity(e)).unwrap_err().message().to_owned()
    };
    assert_eq!(
        message(IntegrityEnvelope { v: 12, ..envelope.clone() }),
        "unsupported integrity envelope version 12"
    );
    assert!(message(IntegrityEnvelope { payload_b64: "a=".to_owned(), ..envelope.clone() })
        .starts_with("payload base64: "));
    assert!(message(IntegrityEnvelope { mac_b64: "!".to_owned(), ..envelope.clone() })
        .starts_with("mac base64: "));
    assert_eq!(
        message(IntegrityEnvelope { mac_b64: "AAAA".to_owned(), ..envelope.clone() }),
        "integrity check failed (store tampered?)"
    );
    let other = Protector::Encrypted { key: [1; 32] };
    assert_eq!(
        other.open(&Envelope::Integrity(envelope)).unwrap_err().message(),
        "decode aead envelope: not an aead envelope"
    );
}

// --- Encrypted mode ---

#[test]
fn encrypted_round_trip_with_correct_passphrase() {
    let mut disk = Disk::default();
    let (k, s) = (key(1), site(1));
    let pass = Some("correct horse battery staple");
    let root = disk.open(&Protection::Encrypted, pass).unwrap();
    apply(&mut disk, &root, &s, &PersistenceIntent::MarkExternallyVerified { pubkey: k }).unwrap();

    let root = disk.open(&Protection::Encrypted, pass).unwrap();
    let id = load_identity(&disk, &root, &s).unwrap().unwrap();
    assert_eq!(id.provenance, RetainedProvenance::ExternallyVerified);
}

#[test]
fn encrypted_wrong_passphrase_is_error() {
    let mut disk = Disk::default();
    let (k, s) = (key(1), site(1));
    let root = disk.open(&Protection::Encrypted, Some("right-passphrase")).unwrap();
    apply(&mut disk, &root, &s, &PersistenceIntent::PinIdentity { pubkey: k }).unwrap();

    let root = disk.open(&Protection::Encrypted, Some("WRONG-passphrase")).unwrap();
    assert!(
        load_identity(&disk, &root, &s).is_err(),
        "a wrong passphrase must be an error, not first contact"
    );
}

#[test]
fn encrypted_tampered_ciphertext_is_error() {
    let mut disk = Disk::default();
    let (k, s) = (key(2), site(2));
    let pass = Some("passphrase");
    let root = disk.open(&Protection::Encrypted, pass).unwrap();
    apply(&mut disk, &root, &s, &PersistenceIntent::PinIdentity { pubkey: k }).unwrap();
    disk.tamper("identities", 6);

    let root = disk.open(&Protection::Encrypted, pass).unwrap();
    assert!(load_identity(&disk, &root, &s).is_err());
}

#[test]
fn encrypted_failures_are_named() {
    let protector = Protector::Encrypted { key: [3; 32] };
    let envelope = seal_with_nonce(&[3; 32], &[5; 24], b"payload").unwrap();
    assert_eq!(
        protector.open(&Envelope::Aead(envelope.clone())).unwrap(),
        b"payload".to_vec()
    );
    assert_ne!(BASE64URL_NOPAD.decode(envelope.ct_b64.as_bytes()).unwrap(), b"payload".to_vec());
    let message = |e: AeadEnvelope| {
        protector.open(&Envelope::Aead(e)).unwrap_err().message().to_owned()
    };
    let refused = "decrypt failed (wrong passphrase or store tampered?)";
    assert_eq!(
        message(AeadEnvelope { v: 0, ..envelope.clone() }),
        "unsupported aead envelope version 0"
    );
    assert!(message(AeadEnvelope { nonce_b64: "?".to_owned(), ..envelope.clone() })
        .starts_with("nonce base64: "));
    assert!(message(AeadEnvelope { ct_b64: "?".to_owned(), ..envelope.clone() })
        .starts_with("ciphertext base64: "));
    // A nonce of another length does not decrypt either.
    assert_eq!(
        message(AeadEnvelope { nonce_b64: "AAAA".to_owned(), ..envelope.clone() }),
        refused
    );
    assert_eq!(
        message(AeadEnvelope { ct_b64: "AAAA".to_owned(), ..envelope.clone() }),
        refused
    );
    let other = Protector::Integrity { key: vec![] };
    assert_eq!(
        other.open(&Envelope::Aead(envelope)).unwrap_err().message(),
        "decode envelope: not an integrity envelope"
    );
    // Fresh nonces: the same payload seals to different envelopes.
    let (a, b) = (protector.seal(b"x").unwrap(), protector.seal(b"x").unwrap());
    assert_ne!(a, b);
    assert_eq!(protector.open(&a).unwrap(), protector.open(&b).unwrap());
}

#[test]
fn keys_are_derived_from_passphrase_and_salt() {
    let salt = [1u8; 16];
    let a = derive_key("password", &salt).unwrap();
    assert_eq!(a, derive_key("password", &salt).unwrap());
    assert_ne!(a, derive_key("Password", &salt).unwrap());
    assert_ne!(a, derive_key("password", &[2u8; 16]).unwrap());
    assert!(derive_key("password", &[1u8; 7])
        .unwrap_err()
        .message()
        .starts_with("argon2: "));
    let fresh = generate_integrity_key().unwrap();
    assert_eq!(fresh.len(), 32);
    assert_ne!(fresh, generate_integrity_key().unwrap());
}

// --- Opening ---

#[test]
fn first_use_writes_key_and_metadata_once() {
    let mut disk = Disk::default();
    integrity(&mut disk);
    let key = disk.key.clone().expect("a key");
    assert_eq!(key.len(), 32);
    assert_eq!(
        disk.meta,
        Some(StoreMeta {
            v: 1,
            protection: ProtectionTag::Integrity,
            salt_b64: None,
        })
    );
    integrity(&mut disk);
    assert_eq!(disk.key, Some(key));
    assert_eq!(Protection::Integrity.tag(), ProtectionTag::Integrity);
    assert_eq!(Protection::Encrypted.tag(), ProtectionTag::Encrypted);
}

#[test]
fn modes_do_not_mix() {
    let other_mode = "store was initialized in a different protection mode";
    let mut disk = Disk::default();
    disk.open(&Protection::Encrypted, Some("p")).unwrap();
    let meta = disk.meta.clone();
    // No key file, but the recorded mode decides; nothing is overwritten.
    let error = disk.open(&Protection::Integrity, None).err().expect("refused");
    assert_eq!(error.message(), other_mode);
    assert_eq!(disk.meta, meta);
    assert!(disk.key.is_none());

    let mut disk = Disk::default();
    integrity(&mut disk);
    let error = disk.open(&Protection::Encrypted, Some("p")).err().expect("refused");
    assert_eq!(error.message(), other_mode);
    let error = disk.open(&Protection::Encrypted, None).err().expect("refused");
    assert_eq!(error.message(), "encrypted store requires a passphrase");
}

#[test]
fn encrypted_store_needs_a_sound_salt() {
    let with_salt = |salt_b64: Option<String>| {
        let mut disk = Disk {
            meta: Some(StoreMeta {
                v: 1,
                protection: ProtectionTag::Encrypted,
                salt_b64,
            }),
            ..Disk::default()
        };
        let error = disk.open(&Protection::Encrypted, Some("p")).err().expect("refused");
        error.message().to_owned()
    };
    assert_eq!(with_salt(None), "encrypted store missing salt");
    assert!(with_salt(Some("*".to_owned())).starts_with("salt base64: "));
    assert!(with_salt(Some("AAAA".to_owned())).starts_with("argon2: "));
}

#[test]
fn files_are_named_by_site_and_publisher() {
    let mut disk = Disk::default();
    let root = integrity(&mut disk);
    let s = site(1);
    let path = root.identity_path(&s);
    assert_eq!(path.directory, "identities");
    assert_eq!(path.file, format!("{}.json", s.text));
    let path = root.history_path(&key(0xFF));
    assert_eq!(path.directory, "history");
    assert_eq!(path.file, "__________________________________________8.json");
    assert_eq!(place(&path), format!("/store/history/{}", path.file));
}

// --- Histories across a reload ---

#[test]
fn append_then_reload_round_trips_records() {
    let mut disk = Disk::default();
    let p = key(7);
    let rec = record("2026-05-07T00:00:00Z", 0xB3, 0x42);
    let root = integrity(&mut disk);
    append_record(&mut disk, &root, &p, &rec);

    let root = integrity(&mut disk);
    let loaded = load_history(&disk, &root, &p).unwrap();
    // Exact round-trip, the hash through its hex text.
    assert_eq!(loaded.records(), &[rec]);
    let newer = record("2026-06-07T00:00:00Z", 0xB4, 0x43);
    append_record(&mut disk, &root, &p, &newer);
    assert_eq!(load_history(&disk, &root, &p).unwrap().records(), &[newer, rec]);
}

#[test]
fn history_missing_history_is_empty() {
    let mut disk = Disk::default();
    let root = integrity(&mut disk);
    assert!(load_history(&disk, &root, &key(9)).unwrap().is_empty());
}

fn manifest(issued_at: &str, runtime_seed: u8, payload_byte: u8) -> Manifest {
    Manifest {
        publisher_pubkey: key(0xB1),
        canary: Canary {
            runtime_pubkey: RuntimePubkey([runtime_seed; 32]),
            issued_at: Some(ts(issued_at)),
        },
        payload_hash: [payload_byte; 32],
    }
}

/// The history of one accepted manifest, reloaded.
fn reloaded(accepted: &Manifest) -> PublisherHistory {
    let mut disk = Disk::default();
    let root = integrity(&mut disk);
    let p = accepted.publisher_pubkey;
    append_record(&mut disk, &root, &p, &record_for(accepted).unwrap());
    let root = integrity(&mut disk);
    load_history(&disk, &root, &p).unwrap()
}

#[test]
fn anti_downgrade_holds_after_reload() {
    let loaded = reloaded(&manifest("2026-06-05T00:00:00Z", 0xA1, 1));
    let m_old = manifest("2026-05-07T00:00:00Z", 0xA2, 2);
    let err = check_against_history(&m_old, &loaded).unwrap_err();
    assert_eq!(err.code, DiagnosticCode::ECanaryDowngrade);
}

#[test]
fn same_payload_refetch_accepts_after_reload() {
    let m = manifest("2026-05-07T00:00:00Z", 0xA1, 1);
    assert!(check_against_history(&m, &reloaded(&m)).is_ok());
}

#[test]
fn runtime_reuse_rejected_after_reload() {
    let loaded = reloaded(&manifest("2026-05-07T00:00:00Z", 0xA1, 1));
    let m2 = manifest("2026-06-05T00:00:00Z", 0xA1, 2);
    let err = check_against_history(&m2, &loaded).unwrap_err();
    assert_eq!(err.code, DiagnosticCode::ECanaryRuntimeReuse);
}

#[test]
fn unsound_history_record_is_error() {
    let rec = record("2026-05-07T00:00:00Z", 0xB3, 0x42);
    let sound = ManifestRecordDto::from_record(&rec);
    assert_eq!(sound.payload_hash_hex, "42".repeat(32));
    assert_eq!(sound.clone().into_record().unwrap(), rec);
    let message = |hex: &str| {
        let dto = ManifestRecordDto {
            payload_hash_hex: hex.to_owned(),
            ..sound.clone()
        };
        dto.into_record().unwrap_err().message().to_owned()
    };
    assert_eq!(message("4242"), "payload_hash_hex is not 32 bytes");
    assert!(message(&"4G".repeat(32)).starts_with("payload_hash_hex not hex: "));
    // Uppercase digits are not the text that is written.
    assert!(message(&"AB".repeat(32)).starts_with("payload_hash_hex not hex: "));
    let mut file = prepend_record(None, &rec);
    assert_eq!(file.v, HISTORY_V);
    file.records.push(ManifestRecordDto {
        payload_hash_hex: String::new(),
        ..sound.clone()
    });
    assert!(read_records(&file.records).is_err());
    let unknown = HistoryDto {
        v: 2,
        records: vec![],
    };
    assert_eq!(
        unknown.check_version().unwrap_err().message(),
        "unsupported history version 2"
    );
}

// --- Records ---

#[test]
fn v2_roundtrips_every_provenance() {
    for provenance in [
        RetainedProvenance::Observed,
        RetainedProvenance::Pinned,
        RetainedProvenance::ExternallyVerified,
    ] {
        let id = RetainedIdentity {
            pubkey: key(7),
            provenance,
        };
        let dto = IdentityDto::new(&id, Vec::new());
        assert_eq!(dto.v, IDENTITY_V);
        dto.check_version().unwrap();
        assert_eq!(dto.to_identity().unwrap(), id);
    }
}

fn pubkey_text() -> String {
    BASE64URL_NOPAD.encode(&key(7).0)
}

#[test]
fn legacy_v1_records_map_losslessly() {
    for (flag, want) in [
        (false, RetainedProvenance::Pinned),
        (true, RetainedProvenance::ExternallyVerified),
    ] {
        let raw = format!(
            "{{\"v\":1,\"pubkey\":\"{}\",\"externally_verified\":{}}}",
            pubkey_text(),
            flag
        );
        let dto = parse_identity(raw.as_bytes()).unwrap();
        dto.check_version().unwrap();
        assert_eq!(dto.to_identity().unwrap().provenance, want);
    }
}

#[test]
fn invalid_provenance_shapes_fail_closed() {
    let pk = pubkey_text();
    for raw in [
        format!("{{\"v\":2,\"pubkey\":\"{pk}\"}}"),
        format!("{{\"v\":2,\"pubkey\":\"{pk}\",\"provenance\":\"trusted\"}}"),
        format!("{{\"v\":2,\"pubkey\":\"{pk}\",\"externally_verified\":true}}"),
    ] {
        let dto = parse_identity(raw.as_bytes()).unwrap();
        dto.check_version().unwrap();
        assert!(dto.to_identity().is_err(), "must fail closed: {raw}");
        assert_eq!(
            dto.to_identity().unwrap_err().message(),
            "identity record v2 carries an invalid provenance shape"
        );
    }
}

#[test]
fn unknown_version_fails_closed() {
    let raw = format!(
        "{{\"v\":3,\"pubkey\":\"{}\",\"provenance\":\"pinned\"}}",
        pubkey_text()
    );
    let dto = parse_identity(raw.as_bytes()).unwrap();
    assert!(dto.check_version().is_err());
    assert_eq!(
        dto.check_version().unwrap_err().message(),
        "unsupported identity record version 3"
    );
}

#[test]
fn corrupt_shape_refuses_a_pin_and_yields_to_a_verification() {
    let mut disk = Disk::default();
    let root = integrity(&mut disk);
    let s = site(3);
    let raw = format!("{{\"v\":2,\"pubkey\":\"{}\"}}", pubkey_text());
    let write = root.write_protected(root.identity_path(&s), raw.as_bytes()).unwrap();
    disk.write(write);
    assert!(load_identity(&disk, &root, &s).is_err());
    let pin = PersistenceIntent::PinIdentity { pubkey: key(1) };
    assert!(apply(&mut disk, &root, &s, &pin).is_err());
    let verify = PersistenceIntent::MarkExternallyVerified { pubkey: key(1) };
    apply(&mut disk, &root, &s, &verify).unwrap();
    assert_eq!(load_identity(&disk, &root, &s).unwrap().unwrap().pubkey, key(1));
}

// --- Files and memory ---

#[test]
fn files_and_memory_keep_the_same_identities() {
    let sites = [site(1), site(2), site(3)];
    let steps = [
        (0, PersistenceIntent::Nothing),
        (0, PersistenceIntent::RecordObservation { pubkey: key(1) }),
        (1, PersistenceIntent::PinIdentity { pubkey: key(2) }),
        (0, PersistenceIntent::RecordObservation { pubkey: key(9) }),
        (0, PersistenceIntent::PinIdentity { pubkey: key(1) }),
        (
            1,
            PersistenceIntent::ReplaceIdentity {
                new_pubkey: key(4),
                replaced: key(2),
                externally_verified: false,
            },
        ),
        (0, PersistenceIntent::MarkExternallyVerified { pubkey: key(1) }),
        (0, PersistenceIntent::PinIdentity { pubkey: key(8) }),
        (
            1,
            PersistenceIntent::ReplaceIdentity {
                new_pubkey: key(5),
                replaced: key(4),
                externally_verified: true,
            },
        ),
    ];
    for (protection, pass) in [(Protection::Integrity, None), (Protection::Encrypted, Some("p"))] {
        let mut disk = Disk::default();
        let root = disk.open(&protection, pass).unwrap();
        let store = FileIdentityStore::new(root.clone());
        let mut memory = MemoryIdentityStore::new();
        for (i, intent) in &steps {
            apply(&mut disk, &root, &sites[*i], intent).unwrap();
            memory.apply(&sites[*i], intent).unwrap();
            for s in &sites {
                assert_eq!(
                    load_identity(&disk, &root, s).unwrap(),
                    memory.load_identity(s).unwrap()
                );
                let dto = store.load_dto(&disk.read(&root.identity_path(s)), parse_identity);
                let replaced = dto.unwrap().map(|d| d.replaced_pubkeys).unwrap_or_default();
                assert_eq!(replaced, memory.replaced_keys(s));
            }
        }
        assert_eq!(memory.replaced_keys(&sites[1]), vec![key(4), key(2)]);
        assert_eq!(load_identity(&disk, &root, &sites[2]).unwrap(), None);
    }
}

#[test]
fn files_and_memory_keep_the_same_histories() {
    let mut disk = Disk::default();
    let root = integrity(&mut disk);
    let mut memory = MemoryHistoryStore::new();
    let steps = [
        (key(1), record("2026-05-07T00:00:00Z", 1, 1)),
        (key(2), record("2026-05-07T00:00:00Z", 2, 2)),
        (key(1), record("2026-05-08T00:00:00Z", 3, 3)),
    ];
    for (p, rec) in &steps {
        let others: Vec<(String, Vec<u8>)> = disk
            .files
            .iter()
            .filter(|(name, _)| **name != place(&root.history_path(p)))
            .map(|(name, bytes)| (name.clone(), bytes.clone()))
            .collect();
        append_record(&mut disk, &root, p, rec);
        memory.append_record(p, rec).unwrap();
        for q in [key(1), key(2), key(3)] {
            assert_eq!(
                load_history(&disk, &root, &q).unwrap().records(),
                memory.load_history(&q).unwrap().records()
            );
        }
        for (name, bytes) in others {
            assert_eq!(disk.files[&name], bytes);
        }
    }
    let newest_first = load_history(&disk, &root, &key(1)).unwrap();
    assert_eq!(newest_first.records(), &[steps[2].1, steps[0].1][..]);
}

#[test]
fn unverified_history_is_not_appended_to() {
    let mut disk = Disk::default();
    let root = integrity(&mut disk);
    let p = key(7);
    append_record(&mut disk, &root, &p, &record("2026-05-07T00:00:00Z", 1, 1));
    let path = root.history_path(&p);
    let Envelope::Integrity(mut envelope) = parse_envelope(&disk.files[&place(&path)]).unwrap()
    else {
        panic!("an integrity envelope");
    };
    envelope.payload_b64 = "AAAA".to_owned();
    let file = StoredFile::Sealed(Envelope::Integrity(envelope));
    let store = FileHistoryStore::new(root.clone());
    let newer = record("2026-05-08T00:00:00Z", 2, 2);
    let appended = store.append_record(&p, &newer, &file, parse_history, encode_history);
    assert_eq!(
        appended.err().expect("refused").message(),
        "integrity check failed (store tampered?)"
    );
}

#[test]
fn encrypted_write_survives_reopening() {
    let mut disk = Disk::default();
    let root = disk.open(&Protection::Encrypted, Some("right")).unwrap();
    let (s, other) = (site(1), site(2));
    let write = root.write_protected(root.identity_path(&s), b"payload").unwrap();
    disk.write(write);
    let meta = disk.meta.clone();

    let again = disk.open(&Protection::Encrypted, Some("right")).unwrap();
    assert_eq!(disk.meta, meta);
    let read = |root: &StoreRoot, s: &OnionAddress| {
        root.read_protected(&disk.read(&root.identity_path(s)))
    };
    assert_eq!(read(&again, &s).unwrap(), Some(b"payload".to_vec()));
    assert_eq!(read(&again, &other).unwrap(), None);

    let mut files = Disk { meta, ..Disk::default() };
    let wrong = files.open(&Protection::Encrypted, Some("wrong")).unwrap();
    assert_eq!(
        read(&wrong, &s).unwrap_err().message(),
        "decrypt failed (wrong passphrase or store tampered?)"
    );
}

#[test]
fn hmac_hashes_a_long_key_first() {
    let protector = Protector::Integrity { key: vec![0xAA; 131] };
    let payload = b"Test Using Larger Than Block-Size Key - Hash Key First";
    let Envelope::Integrity(envelope) = protector.seal(payload).unwrap() else {
        panic!("an integrity envelope");
    };
    let mac = BASE64URL_NOPAD.decode(envelope.mac_b64.as_bytes()).unwrap();
    assert_eq!(
        HEXLOWER.encode(&mac),
        "60e431591ee0b67f0d8a26aacbf5b77f8e0bc6213728c5140546040f0ee37f54"
    );
}

#[test]
fn errors_of_records_keep_their_texts() {
    let mut disk = Disk::default();
    let root = integrity(&mut disk);
    let s = site(3);
    let raw = format!("{{\"v\":2,\"pubkey\":\"{}\"}}", pubkey_text());
    let write = root.write_protected(root.identity_path(&s), raw.as_bytes()).unwrap();
    disk.write(write);
    let shape = "identity record v2 carries an invalid provenance shape";
    assert_eq!(load_identity(&disk, &root, &s).unwrap_err().message(), shape);
    let pin = PersistenceIntent::PinIdentity { pubkey: key(1) };
    assert_eq!(apply(&mut disk, &root, &s, &pin).unwrap_err().message(), shape);

    let store = FileIdentityStore::new(root.clone());
    let garbage = StoredFile::Undecodable("why".to_owned());
    assert_eq!(
        store.load_identity(&garbage, parse_identity).unwrap_err().message(),
        "decode envelope: why"
    );
    let store = FileHistoryStore::new(root);
    assert_eq!(
        store.load_history(&garbage, parse_history).unwrap_err().message(),
        "decode envelope: why"
    );
}

#[test]
fn every_encrypted_write_has_a_nonce_of_its_own() {
    let mut disk = Disk::default();
    let root = disk.open(&Protection::Encrypted, Some("p")).unwrap();
    let (s, p) = (site(1), key(1));
    let mut nonces: Vec<String> = Vec::new();
    let mut collect = |write: ProtectedWrite<'_>| match write.envelope {
        Envelope::Aead(e) => {
            assert_eq!(BASE64URL_NOPAD.decode(e.nonce_b64.as_bytes()).unwrap().len(), 24);
            assert!(!nonces.contains(&e.nonce_b64));
            nonces.push(e.nonce_b64);
        }
        Envelope::Integrity(_) => panic!("an encrypted envelope"),
    };
    let identities = FileIdentityStore::new(root.clone());
    let histories = FileHistoryStore::new(root.clone());
    let verify = PersistenceIntent::MarkExternallyVerified { pubkey: p };
    let rec = record("2026-05-07T00:00:00Z", 1, 1);
    let none = StoredFile::Missing;
    for _ in 0..3 {
        collect(root.write_protected(root.identity_path(&s), b"payload").unwrap());
        collect(root.write_encoded(root.identity_path(&s), b"payload").unwrap());
        let write = identities.apply(&s, &verify, &none, parse_identity, encode_identity);
        collect(write.unwrap().expect("a record"));
        let write = histories.append_record(&p, &rec, &none, parse_history, encode_history);
        collect(write.unwrap());
    }
}
