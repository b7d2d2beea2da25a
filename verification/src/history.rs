//! Publisher history: the anti-downgrade, canary-conflict and runtime-rotation
//! checks against what the client has already accepted from a publisher.
//!
//! The history is data the caller supplies, and these functions return a
//! decision without performing any I/O.
use crate::protocol::{
    same_bytes, Diagnostic, DiagnosticCode, Manifest, RetainedManifestRecord, RuntimePubkey,
};
use vstd::prelude::*;

verus! {

/// What a client has accepted from one publisher, newest first.
///
/// The anti-downgrade and conflict checks look at the newest record; the
/// rotation check looks at the older ones too. The caller keeps one history per
/// publisher key.
#[derive(Clone, Debug)]
pub struct PublisherHistory {
    records: Vec<RetainedManifestRecord>,
}

impl View for PublisherHistory {
    type V = Seq<RetainedManifestRecord>;

    closed spec fn view(&self) -> Seq<RetainedManifestRecord> {
        self.records@
    }
}

impl Default for PublisherHistory {
    fn default() -> (history: PublisherHistory)
        ensures
            history@ == Seq::<RetainedManifestRecord>::empty(),
    {
        PublisherHistory::new()
    }
}

impl PublisherHistory {
    /// An empty history: first contact.
    pub fn new() -> (history: PublisherHistory)
        ensures
            history@ == Seq::<RetainedManifestRecord>::empty(),
    {
        PublisherHistory { records: Vec::new() }
    }

    /// A history of records that are already ordered newest first. The caller
    /// guarantees the order; nothing is sorted here.
    pub fn from_records_newest_first(records: Vec<RetainedManifestRecord>) -> (history:
        PublisherHistory)
        ensures
            history@ == records@,
    {
        PublisherHistory { records }
    }

    /// All records, newest first.
    pub fn records(&self) -> (records: &[RetainedManifestRecord])
        ensures
            records@ == self@,
    {
        self.records.as_slice()
    }

    /// Whether nothing is retained.
    pub fn is_empty(&self) -> (empty: bool)
        ensures
            empty == (self@.len() == 0),
    {
        self.records.len() == 0
    }

    /// The most recently accepted record.
    pub fn newest(&self) -> (record: Option<&RetainedManifestRecord>)
        ensures
            match record {
                Some(r) => self@.len() > 0 && *r == self@[0],
                None => self@.len() == 0,
            },
    {
        if self.records.len() == 0 {
            None
        } else {
            Some(&self.records[0])
        }
    }

    /// Add a newly accepted record as the newest. The caller pushes only what
    /// passed every verification stage.
    pub fn push(&mut self, record: RetainedManifestRecord)
        ensures
            final(self)@ == seq![record] + old(self)@,
    {
        self.records.insert(0, record);
        assert(self.records@ =~= seq![record] + old(self)@);
    }
}

/// The record of a manifest whose canary time is a strict timestamp.
pub open spec fn record_of(manifest: Manifest) -> Option<RetainedManifestRecord> {
    match manifest.canary.issued_at {
        Some(issued_at) => Some(
            RetainedManifestRecord {
                issued_at,
                runtime_pubkey: manifest.canary.runtime_pubkey,
                manifest_payload_hash: manifest.payload_hash,
            },
        ),
        None => None,
    }
}

/// The record to retain for a verified manifest: when its canary was issued,
/// the runtime key it authorizes and the hash of its payload. `None` only where
/// the canary time is not a strict timestamp, which no verified manifest has.
pub fn record_for(manifest: &Manifest) -> (record: Option<RetainedManifestRecord>)
    ensures
        record == record_of(*manifest),
{
    match manifest.canary.issued_at {
        Some(issued_at) => Some(
            RetainedManifestRecord {
                issued_at,
                runtime_pubkey: manifest.canary.runtime_pubkey,
                manifest_payload_hash: manifest.payload_hash,
            },
        ),
        None => None,
    }
}

/// The canary is older than the newest accepted one.
pub open spec fn downgrades(
    record: RetainedManifestRecord,
    history: Seq<RetainedManifestRecord>,
) -> bool {
    history.len() > 0 && record.issued_at.rank() < history[0].issued_at.rank()
}

/// The canary has the time of the newest accepted one, in a different manifest.
pub open spec fn conflicts(
    record: RetainedManifestRecord,
    history: Seq<RetainedManifestRecord>,
) -> bool {
    history.len() > 0 && record.issued_at == history[0].issued_at && record.manifest_payload_hash
        != history[0].manifest_payload_hash
}

/// The newest accepted manifest was fetched again.
pub open spec fn refetches(
    record: RetainedManifestRecord,
    history: Seq<RetainedManifestRecord>,
) -> bool {
    history.len() > 0 && record.manifest_payload_hash == history[0].manifest_payload_hash
}

/// An accepted manifest already authorized this runtime key.
pub open spec fn key_in_history(
    key: RuntimePubkey,
    history: Seq<RetainedManifestRecord>,
) -> bool {
    exists|i: int| 0 <= i < history.len() && (#[trigger] history[i]).runtime_pubkey == key
}

/// The first check that a record fails against a history.
pub open spec fn record_verdict(
    record: RetainedManifestRecord,
    history: Seq<RetainedManifestRecord>,
) -> Option<DiagnosticCode> {
    if downgrades(record, history) {
        Some(DiagnosticCode::ECanaryDowngrade)
    } else if conflicts(record, history) {
        Some(DiagnosticCode::ECanaryConflict)
    } else if !refetches(record, history) && key_in_history(record.runtime_pubkey, history) {
        Some(DiagnosticCode::ECanaryRuntimeReuse)
    } else {
        None
    }
}

/// The first check that a manifest fails against a history. One without a
/// strict canary time passes: canary verification has rejected it already.
pub open spec fn history_verdict(
    manifest: Manifest,
    history: Seq<RetainedManifestRecord>,
) -> Option<DiagnosticCode> {
    match record_of(manifest) {
        Some(record) => record_verdict(record, history),
        None => None,
    }
}

/// What a failed history check says.
pub open spec fn history_detail(code: DiagnosticCode) -> Seq<char> {
    match code {
        DiagnosticCode::ECanaryDowngrade => "canary issued before the newest accepted one"@,
        DiagnosticCode::ECanaryConflict => "two manifests share one canary time"@,
        _ => "canary reuses an earlier runtime key"@,
    }
}

/// Whether some record of `history` has runtime key `key`.
fn is_key_in_history(key: &RuntimePubkey, history: &PublisherHistory) -> (found: bool)
    ensures
        found == key_in_history(*key, history@),
{
    let records = history.records();
    let mut i: usize = 0;
    while i < records.len()
        invariant
            i <= records.len(),
            records@ == history@,
            forall|j: int| 0 <= j < i ==> (#[trigger] records@[j]).runtime_pubkey != *key,
        decreases records.len() - i,
    {
        if records[i].runtime_pubkey == *key {
            assert(history@[i as int].runtime_pubkey == *key);
            return true;
        }
        i += 1;
    }
    false
}

/// Whether a record is that of the newest accepted manifest, fetched again.
pub fn is_refetch(record: &RetainedManifestRecord, history: &PublisherHistory) -> (refetch: bool)
    ensures
        refetch == refetches(*record, history@),
{
    match history.newest() {
        Some(newest) => same_bytes(
            &record.manifest_payload_hash,
            &newest.manifest_payload_hash,
        ),
        None => false,
    }
}

/// Check `manifest` against `history`: anti-downgrade, then a conflict at the
/// same canary time, then runtime-key rotation. Fetching the newest accepted
/// manifest again is ordinary traffic and claims no rotation, so the rotation
/// check does not apply to it.
pub fn check_against_history(manifest: &Manifest, history: &PublisherHistory) -> (verdict: Result<
    (),
    Diagnostic,
>)
    ensures
        match verdict {
            Ok(()) => history_verdict(*manifest, history@) is None,
            Err(diagnostic) => history_verdict(*manifest, history@) == Some(diagnostic.code)
                && diagnostic.detail@ == history_detail(diagnostic.code),
        },
{
    let record = match record_for(manifest) {
        Some(record) => record,
        None => return Ok(()),
    };
    let refetch = is_refetch(&record, history);
    if let Some(newest) = history.newest() {
        if record.issued_at.is_earlier_than(&newest.issued_at) {
            return Err(
                Diagnostic {
                    code: DiagnosticCode::ECanaryDowngrade,
                    detail: "canary issued before the newest accepted one".to_owned(),
                },
            );
        }
        if record.issued_at == newest.issued_at && !refetch {
            return Err(
                Diagnostic {
                    code: DiagnosticCode::ECanaryConflict,
                    detail: "two manifests share one canary time".to_owned(),
                },
            );
        }
    }
    if !refetch && is_key_in_history(&record.runtime_pubkey, history) {
        return Err(
            Diagnostic {
                code: DiagnosticCode::ECanaryRuntimeReuse,
                detail: "canary reuses an earlier runtime key".to_owned(),
            },
        );
    }
    Ok(())
}

/// With nothing retained every manifest passes.
pub proof fn law_first_contact_passes(manifest: Manifest)
    ensures
        history_verdict(manifest, seq![]) is None,
{
}

/// Fetching the newest accepted manifest again always passes, although it
/// carries the runtime key already in the history.
pub proof fn law_refetch_passes(manifest: Manifest, history: Seq<RetainedManifestRecord>)
    requires
        record_of(manifest) is Some,
    ensures
        history_verdict(manifest, seq![record_of(manifest)->0] + history) is None,
{
    let extended = seq![record_of(manifest)->0] + history;
    assert(extended[0] == record_of(manifest)->0);
}

/// The anti-downgrade floor: once a record is the newest, a manifest with an
/// earlier canary time is a downgrade, whatever else the history holds.
pub proof fn law_accepted_record_is_a_floor(
    accepted: RetainedManifestRecord,
    history: Seq<RetainedManifestRecord>,
    manifest: Manifest,
)
    requires
        record_of(manifest) matches Some(r) && r.issued_at.rank() < accepted.issued_at.rank(),
    ensures
        history_verdict(manifest, seq![accepted] + history) == Some(
            DiagnosticCode::ECanaryDowngrade,
        ),
{
    assert((seq![accepted] + history)[0] == accepted);
}

/// A manifest that passes and is then retained makes any other manifest with
/// its canary time a conflict.
pub proof fn law_one_manifest_per_canary_time(
    accepted: RetainedManifestRecord,
    history: Seq<RetainedManifestRecord>,
    manifest: Manifest,
)
    requires
        record_of(manifest) matches Some(r) && r.issued_at == accepted.issued_at
            && r.manifest_payload_hash != accepted.manifest_payload_hash,
    ensures
        history_verdict(manifest, seq![accepted] + history) == Some(
            DiagnosticCode::ECanaryConflict,
        ),
{
    assert((seq![accepted] + history)[0] == accepted);
}

/// Runtime keys rotate: a manifest with a later canary that passes, and is not
/// the newest one again, carries a key no retained record has.
pub proof fn law_accepted_keys_are_fresh(
    manifest: Manifest,
    history: Seq<RetainedManifestRecord>,
    i: int,
)
    requires
        record_of(manifest) matches Some(r) && !refetches(r, history),
        history_verdict(manifest, history) is None,
        0 <= i < history.len(),
    ensures
        history[i].runtime_pubkey != manifest.canary.runtime_pubkey,
{
}

/// The canary times of a history, newest first, never increase with age.
pub open spec fn newest_first(history: Seq<RetainedManifestRecord>) -> bool {
    forall|i: int, j: int|
        0 <= i <= j < history.len() ==> (#[trigger] history[i]).issued_at.rank() >= (
        #[trigger] history[j]).issued_at.rank()
}

/// Retaining only manifests that pass keeps a history ordered newest first.
pub proof fn law_retaining_keeps_the_order(
    manifest: Manifest,
    history: Seq<RetainedManifestRecord>,
)
    requires
        newest_first(history),
        record_of(manifest) is Some,
        history_verdict(manifest, history) is None,
    ensures
        newest_first(seq![record_of(manifest)->0] + history),
{
    let extended = seq![record_of(manifest)->0] + history;
    assert forall|i: int, j: int| 0 <= i <= j < extended.len() implies (
    #[trigger] extended[i]).issued_at.rank() >= (#[trigger] extended[j]).issued_at.rank() by {
        if i == 0 && j > 0 {
            assert(extended[j] == history[j - 1]);
            assert(history[0].issued_at.rank() >= history[j - 1].issued_at.rank());
        } else if i > 0 {
            assert(extended[i] == history[i - 1]);
            assert(extended[j] == history[j - 1]);
        }
    }
}

/// What the history checks let through: a manifest without a strict canary time,
/// a first contact, or one whose canary is not older than the newest accepted,
/// is not at the same time with another payload, and either repeats the newest
/// payload or brings a runtime key that no accepted manifest had.
pub proof fn law_history_admits_exactly(
    manifest: Manifest,
    history: &PublisherHistory,
    verdict: Result<(), Diagnostic>,
)
    requires
        call_ensures(check_against_history, (&manifest, history), verdict),
    ensures
        verdict is Ok <==> {
            ||| manifest.canary.issued_at is None
            ||| history@.len() == 0
            ||| {
                let newest = history@[0];
                let issued_at = manifest.canary.issued_at->0;
                let again = manifest.payload_hash == newest.manifest_payload_hash;
                &&& newest.issued_at.rank() <= issued_at.rank()
                &&& again || {
                    &&& newest.issued_at.rank() < issued_at.rank()
                    &&& forall|i: int|
                        0 <= i < history@.len() ==> (#[trigger] history@[i]).runtime_pubkey
                            != manifest.canary.runtime_pubkey
                }
            }
        },
{
    if manifest.canary.issued_at is Some && history@.len() > 0 {
        let issued_at = manifest.canary.issued_at->0;
        if issued_at.rank() == history@[0].issued_at.rank() {
            crate::protocol::law_rank_tells_instants_apart(issued_at, history@[0].issued_at);
        }
        let key = manifest.canary.runtime_pubkey;
        if key_in_history(key, history@) {
            let i = choose|i: int|
                0 <= i < history@.len() && (#[trigger] history@[i]).runtime_pubkey == key;
            assert(history@[i].runtime_pubkey == key);
        }
    }
}

/// Why the history checks refuse: an older canary is a downgrade; the time of
/// the newest canary with another payload is a conflict; a newer canary that
/// brings another payload under a key already seen is a reuse.
pub proof fn law_history_refusals_are_told_apart(
    manifest: Manifest,
    history: &PublisherHistory,
    diagnostic: Diagnostic,
)
    requires
        call_ensures(check_against_history, (&manifest, history), Err(diagnostic)),
    ensures
        manifest.canary.issued_at is Some,
        history@.len() > 0,
        ({
            let newest = history@[0];
            let issued_at = manifest.canary.issued_at->0;
            &&& diagnostic.code == DiagnosticCode::ECanaryDowngrade <==> issued_at.rank()
                < newest.issued_at.rank()
            &&& diagnostic.code == DiagnosticCode::ECanaryConflict <==> issued_at
                == newest.issued_at
            &&& diagnostic.code == DiagnosticCode::ECanaryRuntimeReuse <==> issued_at.rank()
                > newest.issued_at.rank()
            &&& issued_at.rank() >= newest.issued_at.rank() ==> manifest.payload_hash
                != newest.manifest_payload_hash
        }),
{
    let issued_at = manifest.canary.issued_at->0;
    if issued_at.rank() == history@[0].issued_at.rank() {
        crate::protocol::law_rank_tells_instants_apart(issued_at, history@[0].issued_at);
    }
}

/// The record of a manifest holds the time, the key and the payload hash of that
/// manifest; there is none only where the time is not strict.
pub proof fn law_record_is_of_its_manifest(
    manifest: Manifest,
    record: Option<RetainedManifestRecord>,
)
    requires
        call_ensures(record_for, (&manifest,), record),
    ensures
        record is Some <==> manifest.canary.issued_at is Some,
        record matches Some(r) ==> {
            &&& Some(r.issued_at) == manifest.canary.issued_at
            &&& r.runtime_pubkey == manifest.canary.runtime_pubkey
            &&& r.manifest_payload_hash == manifest.payload_hash
        },
{
}

/// A record that is pushed is the newest, and the older ones stay behind it in
/// their order.
pub proof fn law_pushed_record_is_the_newest(
    history: &mut PublisherHistory,
    record: RetainedManifestRecord,
    i: int,
)
    requires
        call_ensures(PublisherHistory::push, (history, record), ()),
        0 <= i < old(history)@.len(),
    ensures
        final(history)@.len() == old(history)@.len() + 1,
        final(history)@[0] == record,
        final(history)@[i + 1] == old(history)@[i],
{
}

/// A history lists its records as they were given, and its newest is the first.
pub proof fn law_history_lists_what_it_was_given(
    records: Vec<RetainedManifestRecord>,
    history: PublisherHistory,
    listed: &[RetainedManifestRecord],
    newest: Option<&RetainedManifestRecord>,
    empty: bool,
)
    requires
        call_ensures(PublisherHistory::from_records_newest_first, (records,), history),
        call_ensures(PublisherHistory::records, (&history,), listed),
        call_ensures(PublisherHistory::newest, (&history,), newest),
        call_ensures(PublisherHistory::is_empty, (&history,), empty),
    ensures
        listed@ == records@,
        empty <==> records@.len() == 0,
        newest is None <==> records@.len() == 0,
        newest matches Some(r) ==> *r == records@[0],
{
}

/// A manifest is fetched again exactly if its payload is that of the newest
/// accepted one.
pub proof fn law_refetch_is_told_by_the_payload(
    record: RetainedManifestRecord,
    history: &PublisherHistory,
    refetch: bool,
)
    requires
        call_ensures(is_refetch, (&record, history), refetch),
    ensures
        refetch <==> history@.len() > 0 && history@[0].manifest_payload_hash
            == record.manifest_payload_hash,
{
}

} // verus!
