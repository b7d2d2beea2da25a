//! The pipeline, the history checks and the load path, around a verifier of a
//! small wire format: `publisher|runtime|issued_at|next_expected|onion`, with
//! the keys as single bytes in decimal. A content document is `runtime|text`.

use data_encoding::BASE32;
use sha2::Sha256;
use sha3::{Digest, Sha3_256};

use entangled_client::history::{check_against_history, record_for};
use entangled_client::load::{load, Presenter};
use entangled_client::pipeline::{verify_content, CanaryChecked, Verifier};
use entangled_client::protocol::{
    Canary, CanaryState, Diagnostic, DiagnosticCode, EntangledTimestamp, Manifest, OnionAddress,
    PublisherPubkey, RuntimePubkey,
};
use entangled_client::scene::{InlineRun, RunStyle, Scene, SceneNode};
use entangled_client::trust::{
    PersistenceIntent, RequiredAction, RetainedIdentity, RetainedProvenance, TrustState,
    UserDecision,
};
use entangled_client::{verify_manifest, FixedClock, Outcome, PublisherHistory};

fn ts(s: &str) -> EntangledTimestamp {
    EntangledTimestamp::from_text(s).expect("valid timestamp")
}

/// The Tor v3 address of a key.
fn onion_for(pubkey: &[u8; 32]) -> String {
    let mut hasher = Sha3_256::new();
    hasher.update(b".onion checksum");
    hasher.update(pubkey);
    hasher.update([0x03]);
    let digest = hasher.finalize();
    let mut payload = [0u8; 35];
    payload[..32].copy_from_slice(pubkey);
    payload[32..34].copy_from_slice(&[digest[0], digest[1]]);
    payload[34] = 0x03;
    format!("{}.onion", BASE32.encode(&payload).to_ascii_lowercase())
}

struct Wire;

struct Parsed {
    manifest: Manifest,
    next_expected: EntangledTimestamp,
    onion: String,
    has_root: bool,
}

fn failure(code: DiagnosticCode) -> Diagnostic {
    Diagnostic {
        code,
        detail: format!("{code:?}"),
    }
}

impl Verifier for Wire {
    type Signed = Parsed;
    type Checked = Parsed;
    type Bound = Parsed;
    type Index = usize;
    type Document = String;

    fn verify_signature(
        &self,
        manifest_bytes: &[u8],
        now: EntangledTimestamp,
    ) -> Result<Parsed, Diagnostic> {
        let refused = || failure(DiagnosticCode::ESigVerification);
        let text = std::str::from_utf8(manifest_bytes).map_err(|_| refused())?;
        let parts: Vec<&str> = text.split('|').collect();
        if parts.len() < 5 {
            return Err(refused());
        }
        let key = |i: usize| -> Result<[u8; 32], Diagnostic> {
            parts[i].parse::<u8>().map(|b| [b; 32]).map_err(|_| refused())
        };
        let issued_at = ts(parts[2]);
        if now.is_earlier_than(&issued_at) {
            return Err(failure(DiagnosticCode::Verifier));
        }
        Ok(Parsed {
            manifest: Manifest {
                publisher_pubkey: PublisherPubkey(key(0)?),
                canary: Canary {
                    runtime_pubkey: RuntimePubkey(key(1)?),
                    issued_at: Some(issued_at),
                },
                payload_hash: Sha256::digest(manifest_bytes).into(),
            },
            next_expected: ts(parts[3]),
            onion: parts[4].to_owned(),
            has_root: parts.len() > 5,
        })
    }

    fn verify_canary(
        &self,
        signed: Parsed,
        now: EntangledTimestamp,
    ) -> Result<CanaryChecked<Parsed>, Diagnostic> {
        let canary_state = if signed.next_expected.is_earlier_than(&now) {
            CanaryState::Expired
        } else {
            CanaryState::Fresh
        };
        Ok(CanaryChecked {
            manifest: signed.manifest,
            canary_state,
            stage: signed,
        })
    }

    fn verify_origin(
        &self,
        checked: Parsed,
        fetched_address: &OnionAddress,
        _now: EntangledTimestamp,
    ) -> Result<Parsed, Diagnostic> {
        if checked.onion == fetched_address.text {
            Ok(checked)
        } else {
            Err(failure(DiagnosticCode::EBindOrigin))
        }
    }

    fn verify_content_index(
        &self,
        bound: Parsed,
        content_index_bytes: Option<&[u8]>,
    ) -> Result<Option<usize>, Diagnostic> {
        match (bound.has_root, content_index_bytes) {
            (false, _) => Ok(None),
            (true, Some(bytes)) => Ok(Some(bytes.len())),
            (true, None) => Err(failure(DiagnosticCode::Verifier)),
        }
    }

    fn verify_document(
        &self,
        content_bytes: &[u8],
        key: &RuntimePubkey,
    ) -> Result<String, Diagnostic> {
        let text = std::str::from_utf8(content_bytes).expect("utf-8");
        match text.split_once('|') {
            Some((signer, body)) if signer == key.0[0].to_string() => Ok(body.to_owned()),
            _ => Err(failure(DiagnosticCode::ESigVerification)),
        }
    }
}

impl Presenter for Wire {
    fn identity_phrase(&self, publisher: &PublisherPubkey) -> String {
        let words: Vec<String> = (0..24).map(|i| format!("w{}x{i}", publisher.0[0])).collect();
        words.join(" ")
    }

    fn scene(&self, document: &String) -> Scene {
        Scene {
            nodes: vec![SceneNode::Paragraph {
                runs: vec![InlineRun::Text {
                    text: document.clone(),
                    style: RunStyle {
                        bold: false,
                        italic: false,
                        code: false,
                        strikethrough: false,
                    },
                }],
            }],
        }
    }
}

/// A manifest at the given canary window and runtime key. The publisher and the
/// origin are fixed, so that a series belongs together.
fn manifest(issued_at: &str, next_expected: &str, runtime_seed: u8) -> (Vec<u8>, OnionAddress) {
    let onion = onion_for(&[0xB2; 32]);
    let wire = format!("{}|{runtime_seed}|{issued_at}|{next_expected}|{onion}", 0xB1);
    (wire.into_bytes(), OnionAddress::new(onion))
}

/// A history with the record of an accepted manifest.
fn history_with(bytes: &[u8], onion: &OnionAddress, now: &str) -> PublisherHistory {
    let clock = FixedClock(ts(now));
    let prior = match verify_manifest(bytes, onion, None, &clock, &PublisherHistory::new(), &Wire) {
        Outcome::Accept(v) => v,
        Outcome::Reject(d) => panic!("prior manifest must verify: {d:?}"),
    };
    let mut history = PublisherHistory::new();
    history.push(record_for(&prior.manifest).expect("record"));
    history
}

// --- History ---

#[test]
fn newer_manifest_with_rotated_key_accepts() {
    let (prior_bytes, onion) = manifest("2026-05-07T00:00:00Z", "2026-06-06T00:00:00Z", 0xA1);
    let history = history_with(&prior_bytes, &onion, "2026-05-07T00:00:00Z");

    let (new_bytes, _) = manifest("2026-06-05T00:00:00Z", "2026-07-05T00:00:00Z", 0xA2);
    let clock = FixedClock(ts("2026-06-05T00:00:00Z"));
    let outcome = verify_manifest(&new_bytes, &onion, None, &clock, &history, &Wire);
    assert!(
        outcome.is_accepted(),
        "a newer manifest with a rotated key must accept"
    );
}

#[test]
fn older_issued_at_is_downgrade() {
    let (prior_bytes, onion) = manifest("2026-06-05T00:00:00Z", "2026-07-05T00:00:00Z", 0xA1);
    let history = history_with(&prior_bytes, &onion, "2026-06-05T00:00:00Z");

    let (old_bytes, _) = manifest("2026-05-07T00:00:00Z", "2026-06-06T00:00:00Z", 0xA2);
    let clock = FixedClock(ts("2026-06-05T00:00:00Z"));
    let outcome = verify_manifest(&old_bytes, &onion, None, &clock, &history, &Wire);
    assert_eq!(
        outcome.diagnostic().map(|d| d.code),
        Some(DiagnosticCode::ECanaryDowngrade)
    );
}

#[test]
fn equal_issued_at_different_payload_is_conflict() {
    let (prior_bytes, onion) = manifest("2026-05-07T00:00:00Z", "2026-06-06T00:00:00Z", 0xA1);
    let history = history_with(&prior_bytes, &onion, "2026-05-07T00:00:00Z");

    let (twin_bytes, _) = manifest("2026-05-07T00:00:00Z", "2026-06-06T00:00:00Z", 0xA2);
    let clock = FixedClock(ts("2026-05-07T00:00:00Z"));
    let outcome = verify_manifest(&twin_bytes, &onion, None, &clock, &history, &Wire);
    assert_eq!(
        outcome.diagnostic().map(|d| d.code),
        Some(DiagnosticCode::ECanaryConflict)
    );
}

#[test]
fn reused_runtime_key_is_rejected() {
    let (prior_bytes, onion) = manifest("2026-05-07T00:00:00Z", "2026-06-06T00:00:00Z", 0xA1);
    let history = history_with(&prior_bytes, &onion, "2026-05-07T00:00:00Z");

    let (reuse_bytes, _) = manifest("2026-06-05T00:00:00Z", "2026-07-05T00:00:00Z", 0xA1);
    let clock = FixedClock(ts("2026-06-05T00:00:00Z"));
    let outcome = verify_manifest(&reuse_bytes, &onion, None, &clock, &history, &Wire);
    assert_eq!(
        outcome.diagnostic().map(|d| d.code),
        Some(DiagnosticCode::ECanaryRuntimeReuse)
    );
}

#[test]
fn same_payload_refetch_is_accepted() {
    let (bytes, onion) = manifest("2026-05-07T00:00:00Z", "2026-06-06T00:00:00Z", 0xA1);
    let history = history_with(&bytes, &onion, "2026-05-07T00:00:00Z");

    let clock = FixedClock(ts("2026-05-20T00:00:00Z"));
    let outcome = verify_manifest(&bytes, &onion, None, &clock, &history, &Wire);
    assert!(
        outcome.is_accepted(),
        "a byte-identical re-fetch must accept: {:?}",
        outcome.diagnostic().map(|d| d.code)
    );
}

#[test]
fn runtime_key_of_an_older_record_is_rejected() {
    // The key of the second-newest record, not of the newest.
    let (first, onion) = manifest("2026-05-07T00:00:00Z", "2026-06-06T00:00:00Z", 0xA1);
    let mut history = history_with(&first, &onion, "2026-05-07T00:00:00Z");
    let (second, _) = manifest("2026-05-20T00:00:00Z", "2026-06-20T00:00:00Z", 0xA2);
    let clock = FixedClock(ts("2026-05-20T00:00:00Z"));
    match verify_manifest(&second, &onion, None, &clock, &history, &Wire) {
        Outcome::Accept(v) => history.push(record_for(&v.manifest).expect("record")),
        Outcome::Reject(d) => panic!("second manifest must verify: {d:?}"),
    }
    assert_eq!(history.records().len(), 2);
    assert_eq!(history.newest().map(|r| r.issued_at), Some(ts("2026-05-20T00:00:00Z")));

    let (third, _) = manifest("2026-06-05T00:00:00Z", "2026-07-05T00:00:00Z", 0xA1);
    let clock = FixedClock(ts("2026-06-05T00:00:00Z"));
    let outcome = verify_manifest(&third, &onion, None, &clock, &history, &Wire);
    let diagnostic = outcome.diagnostic().expect("rejected");
    assert_eq!(diagnostic.code, DiagnosticCode::ECanaryRuntimeReuse);
    assert_eq!(diagnostic.detail, "canary reuses an earlier runtime key");
}

#[test]
fn manifest_without_a_strict_canary_time_passes_the_history() {
    let (bytes, onion) = manifest("2026-05-07T00:00:00Z", "2026-06-06T00:00:00Z", 0xA1);
    let history = history_with(&bytes, &onion, "2026-05-07T00:00:00Z");
    let loose = Manifest {
        publisher_pubkey: PublisherPubkey([0xB1; 32]),
        canary: Canary {
            runtime_pubkey: RuntimePubkey([0xA1; 32]),
            issued_at: None,
        },
        payload_hash: [9; 32],
    };
    assert!(record_for(&loose).is_none());
    assert!(check_against_history(&loose, &history).is_ok());
}

// --- Pipeline ---

fn fixture() -> (Vec<u8>, OnionAddress) {
    manifest("2026-05-07T00:00:00Z", "2026-06-06T00:00:00Z", 0xB3)
}

#[test]
fn manifest_accepts_and_is_fresh() {
    let (bytes, onion) = fixture();
    let clock = FixedClock(ts("2026-05-07T00:00:00Z"));

    let outcome = verify_manifest(&bytes, &onion, None, &clock, &PublisherHistory::new(), &Wire);
    match outcome {
        Outcome::Accept(verified) => {
            assert_eq!(verified.canary_state, CanaryState::Fresh);
            assert!(verified.content_index.is_none());
        }
        Outcome::Reject(d) => panic!("expected accept, got {d:?}"),
    }
}

#[test]
fn wrong_origin_address_rejects_at_stage_9() {
    let (bytes, _onion) = fixture();
    let other = OnionAddress::new(onion_for(&[0x77; 32]));
    let clock = FixedClock(ts("2026-05-07T00:00:00Z"));

    let outcome = verify_manifest(&bytes, &other, None, &clock, &PublisherHistory::new(), &Wire);
    assert!(
        !outcome.is_accepted(),
        "manifest must be rejected on origin mismatch"
    );
    assert_eq!(
        outcome.diagnostic().unwrap().code,
        DiagnosticCode::EBindOrigin
    );
}

#[test]
fn history_comes_before_origin() {
    // A downgrade served from a wrong address is reported as a downgrade.
    let (prior, onion) = manifest("2026-06-05T00:00:00Z", "2026-07-05T00:00:00Z", 0xA1);
    let history = history_with(&prior, &onion, "2026-06-05T00:00:00Z");
    let (old, _) = manifest("2026-05-07T00:00:00Z", "2026-06-06T00:00:00Z", 0xA2);
    let other = OnionAddress::new(onion_for(&[0x77; 32]));
    let clock = FixedClock(ts("2026-06-05T00:00:00Z"));
    let outcome = verify_manifest(&old, &other, None, &clock, &history, &Wire);
    assert_eq!(
        outcome.diagnostic().map(|d| d.code),
        Some(DiagnosticCode::ECanaryDowngrade)
    );
}

#[test]
fn first_failing_stage_gives_the_diagnostic() {
    let (_, onion) = fixture();
    let clock = FixedClock(ts("2026-05-07T00:00:00Z"));
    let history = PublisherHistory::new();
    // No manifest at all.
    let outcome = verify_manifest(b"garbage", &onion, None, &clock, &history, &Wire);
    assert_eq!(
        outcome.diagnostic().map(|d| d.code),
        Some(DiagnosticCode::ESigVerification)
    );
    // A manifest that commits to an index, with and without one.
    let (mut bytes, onion) = fixture();
    bytes.extend_from_slice(b"|root");
    let outcome = verify_manifest(&bytes, &onion, None, &clock, &history, &Wire);
    assert_eq!(outcome.diagnostic().map(|d| d.code), Some(DiagnosticCode::Verifier));
    match verify_manifest(&bytes, &onion, Some(b"index"), &clock, &history, &Wire) {
        Outcome::Accept(verified) => assert_eq!(verified.content_index, Some(5)),
        Outcome::Reject(d) => panic!("expected accept, got {d:?}"),
    }
}

#[test]
fn content_verifies_under_manifest_runtime_key() {
    let (bytes, onion) = fixture();
    let clock = FixedClock(ts("2026-05-07T00:00:00Z"));
    let history = PublisherHistory::new();
    let verified = match verify_manifest(&bytes, &onion, None, &clock, &history, &Wire) {
        Outcome::Accept(v) => v,
        Outcome::Reject(d) => panic!("manifest rejected: {d:?}"),
    };
    assert_eq!(*verified.runtime_pubkey(), RuntimePubkey([0xB3; 32]));
    let content = format!("{}|hi", 0xB3).into_bytes();
    let outcome = verify_content(&content, &verified, &Wire);
    assert!(
        outcome.is_accepted(),
        "content must verify under the runtime key"
    );
}

#[test]
fn content_signed_by_wrong_key_rejects() {
    let (bytes, onion) = fixture();
    let clock = FixedClock(ts("2026-05-07T00:00:00Z"));
    let history = PublisherHistory::new();
    let verified = match verify_manifest(&bytes, &onion, None, &clock, &history, &Wire) {
        Outcome::Accept(v) => v,
        Outcome::Reject(d) => panic!("manifest rejected: {d:?}"),
    };
    let content = format!("{}|hi", 0x99).into_bytes();
    let outcome = verify_content(&content, &verified, &Wire);
    assert!(
        !outcome.is_accepted(),
        "content signed by an unauthorized key must reject"
    );
}

// --- Load ---

const NO_RETAINED: Option<&RetainedIdentity> = None;

fn page() -> Vec<u8> {
    format!("{}|hi", 0xB3).into_bytes()
}

fn compact() -> String {
    "abc...xyz.onion".to_owned()
}

fn fixture_publisher() -> PublisherPubkey {
    PublisherPubkey([0xB1; 32])
}

#[test]
fn load_yields_scene_and_first_contact_chrome() {
    let (manifest, onion) = fixture();
    let clock = FixedClock(ts("2026-05-07T00:00:00Z"));

    let loaded = load(
        &manifest,
        Some(&page()),
        &onion,
        compact(),
        &clock,
        NO_RETAINED,
        &PublisherHistory::new(),
        &Wire,
    )
    .expect("load must succeed");

    assert_eq!(loaded.chrome.trust_state, TrustState::FirstContact);
    assert_eq!(loaded.chrome.canary_state, CanaryState::Fresh);
    assert_eq!(loaded.chrome.pip.split_whitespace().count(), 24);
    assert!(loaded.chrome.warnings.is_empty());
    assert_eq!(loaded.required_action, RequiredAction::PinPrompt);
    assert_eq!(
        loaded.initial_intent,
        PersistenceIntent::RecordObservation {
            pubkey: fixture_publisher()
        }
    );
    assert_eq!(loaded.site, onion);
    assert_eq!(
        loaded.record.map(|r| r.runtime_pubkey),
        Some(RuntimePubkey([0xB3; 32]))
    );

    let scene = loaded.scene.expect("content scene present");
    assert_eq!(scene.nodes.len(), 1);
}

#[test]
fn manifest_only_load_has_no_scene() {
    let (manifest, onion) = fixture();
    let clock = FixedClock(ts("2026-05-07T00:00:00Z"));

    let loaded = load(
        &manifest,
        None,
        &onion,
        compact(),
        &clock,
        NO_RETAINED,
        &PublisherHistory::new(),
        &Wire,
    )
    .expect("load must succeed");
    assert!(loaded.scene.is_none());
    assert_eq!(loaded.chrome.trust_state, TrustState::FirstContact);
}

#[test]
fn wrong_onion_fails_to_load() {
    let (manifest, _onion) = fixture();
    let other = OnionAddress::new(onion_for(&[0x77; 32]));
    let clock = FixedClock(ts("2026-05-07T00:00:00Z"));

    let result = load(
        &manifest,
        Some(&page()),
        &other,
        compact(),
        &clock,
        NO_RETAINED,
        &PublisherHistory::new(),
        &Wire,
    );
    assert!(result.is_err(), "origin mismatch must fail the load");
    let error = result.err().expect("an error");
    assert_eq!(error.message(), "manifest rejected: EBindOrigin");
}

#[test]
fn rejected_content_fails_to_load() {
    let (manifest, onion) = fixture();
    let clock = FixedClock(ts("2026-05-07T00:00:00Z"));
    let rogue = format!("{}|hi", 0x99).into_bytes();
    let result = load(
        &manifest,
        Some(&rogue),
        &onion,
        compact(),
        &clock,
        NO_RETAINED,
        &PublisherHistory::new(),
        &Wire,
    );
    let error = result.err().expect("an error");
    assert_eq!(error.message(), "content rejected: ESigVerification");
}

#[test]
fn returning_visitor_with_pin_resolves_tofu_pinned() {
    let (manifest, onion) = fixture();
    let clock = FixedClock(ts("2026-05-07T00:00:00Z"));
    let retained = RetainedIdentity {
        pubkey: fixture_publisher(),
        provenance: RetainedProvenance::Pinned,
    };
    let loaded = load(
        &manifest,
        Some(&page()),
        &onion,
        compact(),
        &clock,
        Some(&retained),
        &PublisherHistory::new(),
        &Wire,
    )
    .expect("load must succeed");
    assert_eq!(loaded.chrome.trust_state, TrustState::TofuPinned);
    assert_eq!(loaded.required_action, RequiredAction::NoAction);
}

#[test]
fn returning_visitor_externally_verified_is_not_downgraded() {
    let (manifest, onion) = fixture();
    let clock = FixedClock(ts("2026-05-07T00:00:00Z"));
    let retained = RetainedIdentity {
        pubkey: fixture_publisher(),
        provenance: RetainedProvenance::ExternallyVerified,
    };
    let loaded = load(
        &manifest,
        Some(&page()),
        &onion,
        compact(),
        &clock,
        Some(&retained),
        &PublisherHistory::new(),
        &Wire,
    )
    .expect("load must succeed");
    assert_eq!(loaded.chrome.trust_state, TrustState::ExternallyVerified);
}

#[test]
fn changed_key_yields_mismatch_warning() {
    let (manifest, onion) = fixture();
    let clock = FixedClock(ts("2026-05-07T00:00:00Z"));
    let retained = RetainedIdentity {
        pubkey: PublisherPubkey([0xC1; 32]),
        provenance: RetainedProvenance::Pinned,
    };
    let loaded = load(
        &manifest,
        Some(&page()),
        &onion,
        compact(),
        &clock,
        Some(&retained),
        &PublisherHistory::new(),
        &Wire,
    )
    .expect("load must succeed");
    assert_eq!(loaded.chrome.trust_state, TrustState::ChangedMismatch);
    assert_eq!(loaded.required_action, RequiredAction::MismatchWarning);
    // The phrase must be fully shown during mismatch resolution.
    assert_eq!(loaded.chrome.pip.split_whitespace().count(), 24);
    assert!(loaded.chrome.pip_must_be_fully_shown);
}

#[test]
fn pin_decision_yields_pin_intent_and_updates_chrome() {
    let (manifest, onion) = fixture();
    let clock = FixedClock(ts("2026-05-07T00:00:00Z"));
    let mut loaded = load(
        &manifest,
        Some(&page()),
        &onion,
        compact(),
        &clock,
        NO_RETAINED,
        &PublisherHistory::new(),
        &Wire,
    )
    .expect("load must succeed");
    assert_eq!(loaded.required_action, RequiredAction::PinPrompt);
    let phrase = loaded.chrome.pip.clone();

    let intent = loaded.apply_decision(UserDecision::PinFirstContact);
    assert_eq!(
        intent,
        PersistenceIntent::PinIdentity {
            pubkey: fixture_publisher()
        }
    );
    // Chrome updated in place.
    assert_eq!(loaded.chrome.trust_state, TrustState::TofuPinned);
    assert_eq!(loaded.required_action, RequiredAction::NoAction);
    assert_eq!(loaded.chrome.pip, phrase);
    assert!(!loaded.chrome.pip_must_be_fully_shown);
}
