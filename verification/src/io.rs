//! The seams a shell implements: the clock and the persistence of trust.
//!
//! The client takes facts as data and performs no I/O itself. What it needs of
//! the outside are traits: [`Clock`], [`IdentityStore`] for the publisher
//! identity retained per site, and [`HistoryStore`] for the manifests accepted
//! per publisher. [`FixedClock`], [`MemoryIdentityStore`] and
//! [`MemoryHistoryStore`] implement them without any outside.
use crate::history::PublisherHistory;
use crate::protocol::{EntangledTimestamp, OnionAddress, PublisherPubkey, RetainedManifestRecord};
use crate::trust;
use crate::trust::{
    PersistenceIntent, RetainedIdentity, RetainedProvenance, TrustState, UserDecision,
};
use vstd::prelude::*;

verus! {

/// A source of the current time.
pub trait Clock {
    /// The current time.
    fn now(&self) -> EntangledTimestamp;
}

/// A clock that stands at one instant.
#[derive(Clone, Copy, Debug)]
pub struct FixedClock(pub EntangledTimestamp);

impl Clock for FixedClock {
    fn now(&self) -> (now: EntangledTimestamp)
        ensures
            now == self.0,
    {
        self.0
    }
}

/// An error of a store. Its text is for people: the client never branches on
/// it, but only tells "nothing is retained" from "the store failed or cannot be
/// trusted". The latter is never read as the former.
#[derive(Clone, Debug, PartialEq, Eq)]
pub struct StoreError(pub String);

impl StoreError {
    /// The error's text.
    pub fn message(&self) -> (text: &str)
        ensures
            text@ == self.0@,
    {
        self.0.as_str()
    }
}

/// What a store operation returns.
pub type StoreResult<T> = Result<T, StoreError>;

/// What is retained for a site once `intent` is applied to what was.
pub open spec fn after_intent(
    retained: Option<RetainedIdentity>,
    intent: PersistenceIntent,
) -> Option<RetainedIdentity> {
    match intent {
        PersistenceIntent::Nothing => retained,
        PersistenceIntent::RecordObservation { pubkey } => match retained {
            Some(r) => Some(r),
            None => Some(
                RetainedIdentity { pubkey, provenance: RetainedProvenance::Observed },
            ),
        },
        PersistenceIntent::PinIdentity { pubkey } => match retained {
            Some(r) if r.provenance != RetainedProvenance::Observed => Some(r),
            _ => Some(RetainedIdentity { pubkey, provenance: RetainedProvenance::Pinned }),
        },
        PersistenceIntent::MarkExternallyVerified { pubkey } => Some(
            RetainedIdentity { pubkey, provenance: RetainedProvenance::ExternallyVerified },
        ),
        PersistenceIntent::ReplaceIdentity { new_pubkey, externally_verified, .. } => Some(
            RetainedIdentity {
                pubkey: new_pubkey,
                provenance: if externally_verified {
                    RetainedProvenance::ExternallyVerified
                } else {
                    RetainedProvenance::Pinned
                },
            },
        ),
    }
}

/// The replaced keys of a site, newest first, once `intent` is applied.
pub open spec fn replaced_after(
    replaced: Seq<PublisherPubkey>,
    intent: PersistenceIntent,
) -> Seq<PublisherPubkey> {
    match intent {
        PersistenceIntent::ReplaceIdentity { replaced: key, .. } => seq![key] + replaced,
        _ => replaced,
    }
}

/// Apply `intent` to what is retained for a site. An observation is recorded
/// only where nothing is retained; a pin upgrades an observation and never
/// demotes; a verification and a confirmed replacement always take effect.
pub fn apply_intent(retained: Option<RetainedIdentity>, intent: &PersistenceIntent) -> (next:
    Option<RetainedIdentity>)
    ensures
        next == after_intent(retained, *intent),
{
    match *intent {
        PersistenceIntent::Nothing => retained,
        PersistenceIntent::RecordObservation { pubkey } => match retained {
            Some(r) => Some(r),
            None => Some(
                RetainedIdentity { pubkey, provenance: RetainedProvenance::Observed },
            ),
        },
        PersistenceIntent::PinIdentity { pubkey } => {
            if let Some(r) = retained {
                if r.provenance != RetainedProvenance::Observed {
                    return Some(r);
                }
            }
            Some(RetainedIdentity { pubkey, provenance: RetainedProvenance::Pinned })
        },
        PersistenceIntent::MarkExternallyVerified { pubkey } => Some(
            RetainedIdentity { pubkey, provenance: RetainedProvenance::ExternallyVerified },
        ),
        PersistenceIntent::ReplaceIdentity { new_pubkey, externally_verified, .. } => Some(
            RetainedIdentity {
                pubkey: new_pubkey,
                provenance: if externally_verified {
                    RetainedProvenance::ExternallyVerified
                } else {
                    RetainedProvenance::Pinned
                },
            },
        ),
    }
}

/// Apply `intent` to the replaced keys of a site.
pub fn apply_replaced(replaced: &Vec<PublisherPubkey>, intent: &PersistenceIntent) -> (next: Vec<
    PublisherPubkey,
>)
    ensures
        next@ == replaced_after(replaced@, *intent),
{
    let mut next = copied_keys(replaced);
    if let PersistenceIntent::ReplaceIdentity { replaced: key, .. } = *intent {
        next.insert(0, key);
        assert(next@ =~= seq![key] + replaced@);
    }
    next
}

/// A copy of a list of keys.
pub fn copied_keys(keys: &Vec<PublisherPubkey>) -> (copy: Vec<PublisherPubkey>)
    ensures
        copy@ == keys@,
{
    let mut copy: Vec<PublisherPubkey> = Vec::new();
    let mut i: usize = 0;
    while i < keys.len()
        invariant
            i <= keys.len(),
            copy@ == keys@.take(i as int),
        decreases keys.len() - i,
    {
        copy.push(keys[i]);
        assert(keys@.take(i + 1) =~= keys@.take(i as int).push(keys@[i as int]));
        i += 1;
    }
    assert(keys@.take(keys@.len() as int) =~= keys@);
    copy
}

/// Persistence of the publisher identity retained for a site.
///
/// The key is the site, not the publisher: a changed publisher key is found
/// only by looking under the site it is presented for. The shell loads before
/// it resolves trust, and applies the resulting intent only after the manifest
/// passed every verification stage.
pub trait IdentityStore {
    /// Load what is retained for `site`; `None` is first contact. A store that
    /// fails or cannot be trusted gives an error.
    fn load_identity(&self, site: &OnionAddress) -> StoreResult<Option<RetainedIdentity>>;

    /// Apply a persistence intent to `site`: what is retained becomes what
    /// [`apply_intent`] gives, and replaced keys are kept.
    fn apply(&mut self, site: &OnionAddress, intent: &PersistenceIntent) -> StoreResult<()>;
}

/// Persistence of the manifests accepted from a publisher.
pub trait HistoryStore {
    /// Load the history of `publisher`; an empty one is first contact. A store
    /// that fails or cannot be trusted gives an error.
    fn load_history(&self, publisher: &PublisherPubkey) -> StoreResult<PublisherHistory>;

    /// Append the record of a manifest that passed every verification stage as
    /// the newest of `publisher`.
    fn append_record(
        &mut self,
        publisher: &PublisherPubkey,
        record: &RetainedManifestRecord,
    ) -> StoreResult<()>;
}

/// What an in-memory store keeps for one site.
struct SiteEntry {
    site: OnionAddress,
    identity: Option<RetainedIdentity>,
    replaced: Vec<PublisherPubkey>,
}

/// An identity store in memory.
pub struct MemoryIdentityStore {
    entries: Vec<SiteEntry>,
}

impl MemoryIdentityStore {
    /// No site has two entries.
    #[verifier::type_invariant]
    spec fn sites_are_distinct(self) -> bool {
        distinct_sites(self.entries@)
    }

    /// What is retained for `site`.
    pub closed spec fn retained_for(&self, site: Seq<char>) -> Option<RetainedIdentity> {
        identity_in(self.entries@, site)
    }

    /// The replaced keys kept for `site`, newest first.
    pub closed spec fn replaced_for(&self, site: Seq<char>) -> Seq<PublisherPubkey> {
        replaced_in(self.entries@, site)
    }

    /// A fresh, empty store.
    pub fn new() -> (store: MemoryIdentityStore)
        ensures
            forall|site: Seq<char>| (#[trigger] store.retained_for(site)) is None,
            forall|site: Seq<char>|
                #[trigger] store.replaced_for(site) == Seq::<PublisherPubkey>::empty(),
    {
        MemoryIdentityStore { entries: Vec::new() }
    }

    /// Retain `identity` for `site` without going through an intent.
    pub fn seed(&mut self, site: OnionAddress, identity: RetainedIdentity)
        ensures
            final(self).retained_for(site@) == Some(identity),
            final(self).replaced_for(site@) == old(self).replaced_for(site@),
            forall|other: Seq<char>|
                other != site@ ==> #[trigger] final(self).retained_for(other) == old(
                    self,
                ).retained_for(other),
            forall|other: Seq<char>|
                other != site@ ==> #[trigger] final(self).replaced_for(other) == old(
                    self,
                ).replaced_for(other),
    {
        let replaced = self.replaced_keys(&site);
        self.put(&site, Some(identity), replaced);
    }

    /// The replaced keys kept for `site`, newest first.
    pub fn replaced_keys(&self, site: &OnionAddress) -> (keys: Vec<PublisherPubkey>)
        ensures
            keys@ == self.replaced_for(site@),
    {
        proof {
            use_type_invariant(&*self);
        }
        match self.position(site) {
            Some(i) => {
                proof {
                    lemma_entry_at(self.entries@, site@, i as int);
                }
                copied_keys(&self.entries[i].replaced)
            },
            None => Vec::new(),
        }
    }

    /// Where the entry of `site` is.
    fn position(&self, site: &OnionAddress) -> (position: Option<usize>)
        ensures
            match position {
                Some(i) => i < self.entries@.len() && self.entries@[i as int].site@ == site@,
                None => forall|j: int|
                    0 <= j < self.entries@.len() ==> (#[trigger] self.entries@[j]).site@ != site@,
            },
    {
        let mut i: usize = 0;
        while i < self.entries.len()
            invariant
                i <= self.entries@.len(),
                forall|j: int| 0 <= j < i ==> (#[trigger] self.entries@[j]).site@ != site@,
            decreases self.entries@.len() - i,
        {
            if self.entries[i].site == *site {
                return Some(i);
            }
            i += 1;
        }
        None
    }

    /// Set what is kept for `site`.
    fn put(
        &mut self,
        site: &OnionAddress,
        identity: Option<RetainedIdentity>,
        replaced: Vec<PublisherPubkey>,
    )
        ensures
            final(self).retained_for(site@) == identity,
            final(self).replaced_for(site@) == replaced@,
            forall|other: Seq<char>|
                other != site@ ==> #[trigger] final(self).retained_for(other) == old(
                    self,
                ).retained_for(other),
            forall|other: Seq<char>|
                other != site@ ==> #[trigger] final(self).replaced_for(other) == old(
                    self,
                ).replaced_for(other),
    {
        proof {
            use_type_invariant(&*self);
        }
        let position = self.position(site);
        let entry = SiteEntry { site: site.duplicate(), identity, replaced };
        let ghost before = self.entries@;
        let ghost placed = entry;
        let mut entries: Vec<SiteEntry> = Vec::new();
        std::mem::swap(&mut entries, &mut self.entries);
        let ghost at: int = match position {
            Some(i) => i as int,
            None => before.len() as int,
        };
        match position {
            Some(i) => {
                entries.set(i, entry);
            },
            None => {
                entries.push(entry);
            },
        }
        proof {
            assert(entries@[at] == placed);
            assert(forall|j: int|
                0 <= j < before.len() && j != at ==> #[trigger] entries@[j] == before[j]);
            assert(entries@.len() == (if at == before.len() {
                before.len() + 1
            } else {
                before.len()
            }));
            assert(distinct_sites(entries@));
            lemma_entry_at(entries@, site@, at);
            assert forall|other: Seq<char>| other != site@ implies #[trigger] identity_in(
                entries@,
                other,
            ) == identity_in(before, other) && replaced_in(entries@, other) == replaced_in(
                before,
                other,
            ) by {
                lemma_other_entries(before, entries@, at, site@, other);
            }
        }
        self.entries = entries;
        proof {
            assert forall|other: Seq<char>| other != site@ implies #[trigger] self.retained_for(
                other,
            ) == old(self).retained_for(other) by {
                assert(identity_in(self.entries@, other) == identity_in(before, other));
            }
            assert forall|other: Seq<char>| other != site@ implies #[trigger] self.replaced_for(
                other,
            ) == old(self).replaced_for(other) by {
                assert(identity_in(self.entries@, other) == identity_in(before, other));
            }
        }
    }
}

impl Default for MemoryIdentityStore {
    fn default() -> (store: MemoryIdentityStore)
        ensures
            forall|site: Seq<char>| (#[trigger] store.retained_for(site)) is None,
            forall|site: Seq<char>|
                #[trigger] store.replaced_for(site) == Seq::<PublisherPubkey>::empty(),
    {
        MemoryIdentityStore::new()
    }
}

impl IdentityStore for MemoryIdentityStore {
    fn load_identity(&self, site: &OnionAddress) -> (loaded: StoreResult<Option<RetainedIdentity>>)
        ensures
            loaded matches Ok(retained) && retained == self.retained_for(site@),
    {
        proof {
            use_type_invariant(&*self);
        }
        match self.position(site) {
            Some(i) => {
                proof {
                    lemma_entry_at(self.entries@, site@, i as int);
                }
                Ok(self.entries[i].identity)
            },
            None => Ok(None),
        }
    }

    fn apply(&mut self, site: &OnionAddress, intent: &PersistenceIntent) -> (applied: StoreResult<
        (),
    >)
        ensures
            applied is Ok,
            is_applied(*old(self), site@, *intent, *final(self)),
    {
        let retained = match self.load_identity(site) {
            Ok(retained) => retained,
            Err(e) => return Err(e),
        };
        let replaced = self.replaced_keys(site);
        let next = apply_intent(retained, intent);
        let next_replaced = apply_replaced(&replaced, intent);
        self.put(site, next, next_replaced);
        Ok(())
    }
}

/// `after` keeps what applying `intent` to `site` makes of `before`, and nothing
/// else of it has changed.
pub open spec fn is_applied(
    before: MemoryIdentityStore,
    site: Seq<char>,
    intent: PersistenceIntent,
    after: MemoryIdentityStore,
) -> bool {
    &&& after.retained_for(site) == after_intent(before.retained_for(site), intent)
    &&& after.replaced_for(site) == replaced_after(before.replaced_for(site), intent)
    &&& forall|other: Seq<char>|
        other != site ==> #[trigger] after.retained_for(other) == before.retained_for(other)
    &&& forall|other: Seq<char>|
        other != site ==> #[trigger] after.replaced_for(other) == before.replaced_for(other)
}

/// No site has two entries.
spec fn distinct_sites(entries: Seq<SiteEntry>) -> bool {
    forall|i: int, j: int|
        0 <= i < j < entries.len() ==> (#[trigger] entries[i]).site@ != (
        #[trigger] entries[j]).site@
}

/// Entry `i` is that of `site`.
spec fn is_entry_of(entries: Seq<SiteEntry>, site: Seq<char>, i: int) -> bool {
    0 <= i < entries.len() && entries[i].site@ == site
}

/// The identity that `entries` keep for `site`.
spec fn identity_in(entries: Seq<SiteEntry>, site: Seq<char>) -> Option<RetainedIdentity> {
    if exists|i: int| is_entry_of(entries, site, i) {
        entries[choose|i: int| is_entry_of(entries, site, i)].identity
    } else {
        None
    }
}

/// The replaced keys that `entries` keep for `site`.
spec fn replaced_in(entries: Seq<SiteEntry>, site: Seq<char>) -> Seq<PublisherPubkey> {
    if exists|i: int| is_entry_of(entries, site, i) {
        entries[choose|i: int| is_entry_of(entries, site, i)].replaced@
    } else {
        seq![]
    }
}

/// The entry found for a site is the one that is looked up.
proof fn lemma_entry_at(entries: Seq<SiteEntry>, site: Seq<char>, i: int)
    requires
        distinct_sites(entries),
        is_entry_of(entries, site, i),
    ensures
        identity_in(entries, site) == entries[i].identity,
        replaced_in(entries, site) == entries[i].replaced@,
{
    let k = choose|k: int| is_entry_of(entries, site, k);
    assert(is_entry_of(entries, site, k));
    if k < i {
        assert(entries[k].site@ != entries[i].site@);
    } else if i < k {
        assert(entries[i].site@ != entries[k].site@);
    }
}

/// Writing one site's entry leaves the others as they were.
proof fn lemma_other_entries(
    before: Seq<SiteEntry>,
    after: Seq<SiteEntry>,
    at: int,
    site: Seq<char>,
    other: Seq<char>,
)
    requires
        distinct_sites(before),
        distinct_sites(after),
        0 <= at <= before.len(),
        after.len() == (if at == before.len() {
            before.len() + 1
        } else {
            before.len()
        }),
        at < before.len() ==> before[at].site@ == site,
        after[at].site@ == site,
        forall|j: int| 0 <= j < before.len() && j != at ==> #[trigger] after[j] == before[j],
        other != site,
    ensures
        identity_in(after, other) == identity_in(before, other),
        replaced_in(after, other) == replaced_in(before, other),
{
    if exists|i: int| is_entry_of(before, other, i) {
        let i = choose|i: int| is_entry_of(before, other, i);
        assert(after[i] == before[i]);
        assert(is_entry_of(after, other, i));
        lemma_entry_at(before, other, i);
        lemma_entry_at(after, other, i);
    } else {
        assert forall|i: int| !is_entry_of(after, other, i) by {
            if is_entry_of(after, other, i) {
                assert(after[i] == before[i]);
                assert(is_entry_of(before, other, i));
            }
        }
    }
}

/// What an in-memory store keeps for one publisher.
struct PublisherEntry {
    publisher: PublisherPubkey,
    records: Vec<RetainedManifestRecord>,
}

/// A history store in memory.
pub struct MemoryHistoryStore {
    entries: Vec<PublisherEntry>,
}

impl MemoryHistoryStore {
    /// No publisher has two entries.
    #[verifier::type_invariant]
    spec fn publishers_are_distinct(self) -> bool {
        distinct_publishers(self.entries@)
    }

    /// The records kept for `publisher`, newest first.
    pub closed spec fn history_for(&self, publisher: PublisherPubkey) -> Seq<
        RetainedManifestRecord,
    > {
        records_in(self.entries@, publisher)
    }

    /// A fresh, empty store.
    pub fn new() -> (store: MemoryHistoryStore)
        ensures
            forall|publisher: PublisherPubkey|
                #[trigger] store.history_for(publisher) == Seq::<RetainedManifestRecord>::empty(),
    {
        MemoryHistoryStore { entries: Vec::new() }
    }

    /// Where the entry of `publisher` is.
    fn position(&self, publisher: &PublisherPubkey) -> (position: Option<usize>)
        ensures
            match position {
                Some(i) => is_records_of(self.entries@, *publisher, i as int),
                None => forall|j: int| !is_records_of(self.entries@, *publisher, j),
            },
    {
        let mut i: usize = 0;
        while i < self.entries.len()
            invariant
                i <= self.entries@.len(),
                forall|j: int| 0 <= j < i ==> !is_records_of(self.entries@, *publisher, j),
            decreases self.entries@.len() - i,
        {
            if self.entries[i].publisher == *publisher {
                return Some(i);
            }
            i += 1;
        }
        None
    }

    /// A copy of the records kept for `publisher`, newest first.
    fn records_of(&self, publisher: &PublisherPubkey) -> (records: Vec<RetainedManifestRecord>)
        ensures
            records@ == self.history_for(*publisher),
    {
        proof {
            use_type_invariant(&*self);
        }
        match self.position(publisher) {
            Some(i) => {
                proof {
                    lemma_records_at(self.entries@, *publisher, i as int);
                }
                copied_records(&self.entries[i].records)
            },
            None => Vec::new(),
        }
    }
}

impl Default for MemoryHistoryStore {
    fn default() -> (store: MemoryHistoryStore)
        ensures
            forall|publisher: PublisherPubkey|
                #[trigger] store.history_for(publisher) == Seq::<RetainedManifestRecord>::empty(),
    {
        MemoryHistoryStore::new()
    }
}

impl HistoryStore for MemoryHistoryStore {
    fn load_history(&self, publisher: &PublisherPubkey) -> (loaded: StoreResult<PublisherHistory>)
        ensures
            loaded matches Ok(history) && history@ == self.history_for(*publisher),
    {
        Ok(PublisherHistory::from_records_newest_first(self.records_of(publisher)))
    }

    fn append_record(
        &mut self,
        publisher: &PublisherPubkey,
        record: &RetainedManifestRecord,
    ) -> (appended: StoreResult<()>)
        ensures
            appended is Ok,
            is_appended(*old(self), *publisher, *record, *final(self)),
    {
        proof {
            use_type_invariant(&*self);
        }
        let position = self.position(publisher);
        let mut records = self.records_of(publisher);
        records.insert(0, *record);
        assert(records@ =~= seq![*record] + self.history_for(*publisher));
        let entry = PublisherEntry { publisher: *publisher, records };
        let ghost before = self.entries@;
        let ghost placed = entry;
        let mut entries: Vec<PublisherEntry> = Vec::new();
        std::mem::swap(&mut entries, &mut self.entries);
        let ghost at: int = match position {
            Some(i) => i as int,
            None => before.len() as int,
        };
        match position {
            Some(i) => {
                entries.set(i, entry);
            },
            None => {
                entries.push(entry);
            },
        }
        proof {
            assert(entries@[at] == placed);
            assert(forall|j: int|
                0 <= j < before.len() && j != at ==> #[trigger] entries@[j] == before[j]);
            assert(distinct_publishers(entries@)) by {
                if position is None {
                    assert forall|i: int, j: int| 0 <= i < j < entries@.len() implies (
                    #[trigger] entries@[i]).publisher != (#[trigger] entries@[j]).publisher by {
                        assert(!is_records_of(before, *publisher, i));
                    }
                }
            }
            lemma_records_at(entries@, *publisher, at);
            assert forall|other: PublisherPubkey| other != *publisher implies records_in(
                entries@,
                other,
            ) == #[trigger] records_in(before, other) by {
                lemma_other_records(before, entries@, at, *publisher, other);
            }
        }
        self.entries = entries;
        proof {
            assert forall|other: PublisherPubkey| other != *publisher implies (
            #[trigger] self.history_for(other)) == old(self).history_for(other) by {
                assert(records_in(before, other) == old(self).history_for(other));
            }
        }
        Ok(())
    }
}

/// `after` keeps `record` in front of what `before` keeps for `publisher`, and
/// nothing else of it has changed.
pub open spec fn is_appended(
    before: MemoryHistoryStore,
    publisher: PublisherPubkey,
    record: RetainedManifestRecord,
    after: MemoryHistoryStore,
) -> bool {
    &&& after.history_for(publisher) == seq![record] + before.history_for(publisher)
    &&& forall|other: PublisherPubkey|
        other != publisher ==> #[trigger] after.history_for(other) == before.history_for(other)
}

/// A copy of a list of records.
pub fn copied_records(records: &Vec<RetainedManifestRecord>) -> (copy: Vec<RetainedManifestRecord>)
    ensures
        copy@ == records@,
{
    let mut copy: Vec<RetainedManifestRecord> = Vec::new();
    let mut i: usize = 0;
    while i < records.len()
        invariant
            i <= records.len(),
            copy@ == records@.take(i as int),
        decreases records.len() - i,
    {
        copy.push(records[i]);
        assert(records@.take(i + 1) =~= records@.take(i as int).push(records@[i as int]));
        i += 1;
    }
    assert(records@.take(records@.len() as int) =~= records@);
    copy
}

/// No publisher has two entries.
spec fn distinct_publishers(entries: Seq<PublisherEntry>) -> bool {
    forall|i: int, j: int|
        0 <= i < j < entries.len() ==> (#[trigger] entries[i]).publisher != (
        #[trigger] entries[j]).publisher
}

/// Entry `i` is that of `publisher`.
spec fn is_records_of(entries: Seq<PublisherEntry>, publisher: PublisherPubkey, i: int) -> bool {
    0 <= i < entries.len() && entries[i].publisher == publisher
}

/// The records that `entries` keep for `publisher`.
spec fn records_in(entries: Seq<PublisherEntry>, publisher: PublisherPubkey) -> Seq<
    RetainedManifestRecord,
> {
    if exists|i: int| is_records_of(entries, publisher, i) {
        entries[choose|i: int| is_records_of(entries, publisher, i)].records@
    } else {
        seq![]
    }
}

/// The entry found for a publisher is the one that is looked up.
proof fn lemma_records_at(entries: Seq<PublisherEntry>, publisher: PublisherPubkey, i: int)
    requires
        distinct_publishers(entries),
        is_records_of(entries, publisher, i),
    ensures
        records_in(entries, publisher) == entries[i].records@,
{
    let k = choose|k: int| is_records_of(entries, publisher, k);
    assert(is_records_of(entries, publisher, k));
    if k < i {
        assert(entries[k].publisher != entries[i].publisher);
    } else if i < k {
        assert(entries[i].publisher != entries[k].publisher);
    }
}

/// Writing one publisher's entry leaves the others as they were.
proof fn lemma_other_records(
    before: Seq<PublisherEntry>,
    after: Seq<PublisherEntry>,
    at: int,
    publisher: PublisherPubkey,
    other: PublisherPubkey,
)
    requires
        distinct_publishers(before),
        distinct_publishers(after),
        0 <= at <= before.len(),
        after.len() == (if at == before.len() {
            before.len() + 1
        } else {
            before.len()
        }),
        at < before.len() ==> before[at].publisher == publisher,
        after[at].publisher == publisher,
        forall|j: int| 0 <= j < before.len() && j != at ==> #[trigger] after[j] == before[j],
        other != publisher,
    ensures
        records_in(after, other) == records_in(before, other),
{
    if exists|i: int| is_records_of(before, other, i) {
        let i = choose|i: int| is_records_of(before, other, i);
        assert(after[i] == before[i]);
        assert(is_records_of(after, other, i));
        lemma_records_at(before, other, i);
        lemma_records_at(after, other, i);
    } else {
        assert forall|i: int| !is_records_of(after, other, i) by {
            if is_records_of(after, other, i) {
                assert(after[i] == before[i]);
                assert(is_records_of(before, other, i));
            }
        }
    }
}

/// How firmly a record is held.
pub open spec fn firmness(retained: Option<RetainedIdentity>) -> nat {
    match retained {
        None => 0,
        Some(r) => match r.provenance {
            RetainedProvenance::Observed => 1,
            RetainedProvenance::Pinned => 2,
            RetainedProvenance::ExternallyVerified => 3,
        },
    }
}

/// What a session resolves is what the next session finds: once the intent of a
/// resolution is applied, the same key presented again resolves to the same
/// state with no further decision. A replacement confirmed without its identity
/// phrase is at first contact in its own session and a pin from then on.
pub proof fn law_resolution_survives_reload(
    presented: PublisherPubkey,
    retained: Option<RetainedIdentity>,
    decision: UserDecision,
)
    ensures
        ({
            let resolution = trust::resolution_of(presented, retained, decision);
            let stored = after_intent(retained, resolution.intent);
            let next = trust::resolved_state(presented, stored, UserDecision::NoDecision);
            if trust::mismatched(presented, retained) && decision == UserDecision::ConfirmNewIdentity {
                next == TrustState::TofuPinned
            } else {
                next == resolution.state
            }
        }),
{
}

/// Nothing but a confirmed replacement makes a record less firm, or takes it
/// away.
pub proof fn law_records_are_never_demoted(
    retained: Option<RetainedIdentity>,
    intent: PersistenceIntent,
)
    requires
        !(intent is ReplaceIdentity),
    ensures
        firmness(after_intent(retained, intent)) >= firmness(retained),
{
}

/// An observation never overwrites a record.
pub proof fn law_observation_never_overwrites(
    retained: RetainedIdentity,
    observed: PublisherPubkey,
)
    ensures
        after_intent(
            Some(retained),
            PersistenceIntent::RecordObservation { pubkey: observed },
        ) == Some(retained),
{
}

/// Replaced keys are never lost: an intent only ever puts a key in front.
pub proof fn law_replaced_keys_are_kept(
    replaced: Seq<PublisherPubkey>,
    intent: PersistenceIntent,
)
    ensures
        replaced_after(replaced, intent).len() >= replaced.len(),
        replaced_after(replaced, intent).skip(
            replaced_after(replaced, intent).len() - replaced.len(),
        ) == replaced,
{
    assert(replaced_after(replaced, intent).skip(
        replaced_after(replaced, intent).len() - replaced.len(),
    ) =~= replaced);
}

/// No resolution loses a key: the key retained for a site is still retained
/// once the intent is applied, or is the newest replaced one.
pub proof fn law_resolution_loses_no_key(
    presented: PublisherPubkey,
    retained: RetainedIdentity,
    decision: UserDecision,
    replaced: Seq<PublisherPubkey>,
)
    ensures
        ({
            let intent = trust::resolved_intent(presented, Some(retained), decision);
            ||| after_intent(Some(retained), intent) matches Some(r) && r.pubkey == retained.pubkey
            ||| replaced_after(replaced, intent).len() > 0 && replaced_after(replaced, intent)[0]
                == retained.pubkey
        }),
{
}

/// After any resolution something is retained, so that a later change of the
/// site's key is noticed.
pub proof fn law_resolution_arms_mismatch_detection(
    presented: PublisherPubkey,
    retained: Option<RetainedIdentity>,
    decision: UserDecision,
    later: PublisherPubkey,
)
    ensures
        ({
            let stored = after_intent(retained, trust::resolved_intent(presented, retained, decision));
            &&& stored is Some
            &&& later != stored->0.pubkey ==> trust::resolved_state(
                later,
                stored,
                UserDecision::NoDecision,
            ) == TrustState::ChangedMismatch
        }),
{
}

/// A fixed clock stands at its instant.
pub proof fn law_fixed_clock_stands(clock: FixedClock, now: EntangledTimestamp)
    requires
        call_ensures(<FixedClock as Clock>::now, (&clock,), now),
    ensures
        now == clock.0,
{
}

/// What an intent leaves retained. One that says nothing changes nothing; an
/// observation fills an empty place only; a pin fills an empty place or upgrades
/// an observation; a verification and a replacement always hold, and hold the
/// key they bring.
pub proof fn law_intent_takes_effect(
    retained: Option<RetainedIdentity>,
    intent: PersistenceIntent,
    next: Option<RetainedIdentity>,
)
    requires
        call_ensures(apply_intent, (retained, &intent), next),
    ensures
        intent is Nothing ==> next == retained,
        intent matches PersistenceIntent::RecordObservation { pubkey } ==> match retained {
            Some(_) => next == retained,
            None => next matches Some(r) && r.pubkey == pubkey && r.provenance
                == RetainedProvenance::Observed,
        },
        intent matches PersistenceIntent::PinIdentity { pubkey } ==> if retained is None
            || retained->0.provenance == RetainedProvenance::Observed {
            next matches Some(r) && r.pubkey == pubkey && r.provenance
                == RetainedProvenance::Pinned
        } else {
            next == retained
        },
        intent matches PersistenceIntent::MarkExternallyVerified { pubkey } ==> (next matches Some(
            r,
        ) && r.pubkey == pubkey && r.provenance == RetainedProvenance::ExternallyVerified),
        intent matches PersistenceIntent::ReplaceIdentity {
            new_pubkey,
            externally_verified,
            ..
        } ==> (next matches Some(r) && r.pubkey == new_pubkey && (r.provenance
            == RetainedProvenance::ExternallyVerified <==> externally_verified) && (r.provenance
            == RetainedProvenance::Pinned <==> !externally_verified)),
{
}

/// A replacement puts the replaced key in front of those replaced before; no
/// other intent touches them.
pub proof fn law_replaced_key_goes_in_front(
    replaced: &Vec<PublisherPubkey>,
    intent: PersistenceIntent,
    next: Vec<PublisherPubkey>,
)
    requires
        call_ensures(apply_replaced, (replaced, &intent), next),
    ensures
        match intent {
            PersistenceIntent::ReplaceIdentity { replaced: key, .. } => {
                &&& next@.len() == replaced@.len() + 1
                &&& next@[0] == key
                &&& forall|i: int| 0 <= i < replaced@.len() ==> next@[i + 1] == #[trigger] replaced@[i]
            },
            _ => next@ == replaced@,
        },
{
}

/// What is loaded from the store in memory is what the last intent left there,
/// and every other site keeps what it had.
pub proof fn law_memory_reads_back_identities(
    store: &mut MemoryIdentityStore,
    site: OnionAddress,
    intent: PersistenceIntent,
    other: OnionAddress,
    before: StoreResult<Option<RetainedIdentity>>,
    before_other: StoreResult<Option<RetainedIdentity>>,
    applied: StoreResult<()>,
    after: MemoryIdentityStore,
    loaded: StoreResult<Option<RetainedIdentity>>,
    loaded_other: StoreResult<Option<RetainedIdentity>>,
    next: Option<RetainedIdentity>,
)
    requires
        site@ != other@,
        call_ensures(
            <MemoryIdentityStore as IdentityStore>::load_identity,
            (old(store), &site),
            before,
        ),
        call_ensures(
            <MemoryIdentityStore as IdentityStore>::load_identity,
            (old(store), &other),
            before_other,
        ),
        call_ensures(
            <MemoryIdentityStore as IdentityStore>::apply,
            (store, &site, &intent),
            applied,
        ),
        after == *final(store),
        call_ensures(
            <MemoryIdentityStore as IdentityStore>::load_identity,
            (&after, &site),
            loaded,
        ),
        call_ensures(
            <MemoryIdentityStore as IdentityStore>::load_identity,
            (&after, &other),
            loaded_other,
        ),
        call_ensures(apply_intent, (before->Ok_0, &intent), next),
    ensures
        applied is Ok,
        loaded == Ok::<Option<RetainedIdentity>, StoreError>(next),
        loaded_other == before_other,
{
}

/// The history that is loaded from the store in memory has the appended record
/// in front of what was there, and every other publisher keeps its own.
pub proof fn law_memory_reads_back_histories(
    store: &mut MemoryHistoryStore,
    publisher: PublisherPubkey,
    record: RetainedManifestRecord,
    other: PublisherPubkey,
    before: PublisherHistory,
    before_other: PublisherHistory,
    appended: StoreResult<()>,
    after: MemoryHistoryStore,
    loaded: PublisherHistory,
    loaded_other: PublisherHistory,
)
    requires
        publisher != other,
        call_ensures(
            <MemoryHistoryStore as HistoryStore>::load_history,
            (old(store), &publisher),
            Ok(before),
        ),
        call_ensures(
            <MemoryHistoryStore as HistoryStore>::load_history,
            (old(store), &other),
            Ok(before_other),
        ),
        call_ensures(
            <MemoryHistoryStore as HistoryStore>::append_record,
            (store, &publisher, &record),
            appended,
        ),
        after == *final(store),
        call_ensures(
            <MemoryHistoryStore as HistoryStore>::load_history,
            (&after, &publisher),
            Ok(loaded),
        ),
        call_ensures(
            <MemoryHistoryStore as HistoryStore>::load_history,
            (&after, &other),
            Ok(loaded_other),
        ),
    ensures
        appended is Ok,
        loaded@ == seq![record] + before@,
        loaded_other@ == before_other@,
{
}

/// A fresh store in memory retains nothing, and a seeded one what it was seeded
/// with.
pub proof fn law_memory_starts_empty(
    fresh: MemoryIdentityStore,
    site: OnionAddress,
    loaded: StoreResult<Option<RetainedIdentity>>,
    replaced: Vec<PublisherPubkey>,
    store: &mut MemoryIdentityStore,
    identity: RetainedIdentity,
    after: MemoryIdentityStore,
    seeded: StoreResult<Option<RetainedIdentity>>,
)
    requires
        call_ensures(MemoryIdentityStore::new, (), fresh),
        call_ensures(
            <MemoryIdentityStore as IdentityStore>::load_identity,
            (&fresh, &site),
            loaded,
        ),
        call_ensures(MemoryIdentityStore::replaced_keys, (&fresh, &site), replaced),
        call_ensures(MemoryIdentityStore::seed, (store, site, identity), ()),
        after == *final(store),
        call_ensures(
            <MemoryIdentityStore as IdentityStore>::load_identity,
            (&after, &site),
            seeded,
        ),
    ensures
        loaded == Ok::<Option<RetainedIdentity>, StoreError>(None),
        replaced@.len() == 0,
        seeded == Ok::<Option<RetainedIdentity>, StoreError>(Some(identity)),
{
}

/// The keys that the store in memory has replaced for a site follow the intents
/// applied to it, and those of every other site stay.
pub proof fn law_memory_keeps_replaced_keys(
    store: &mut MemoryIdentityStore,
    site: OnionAddress,
    intent: PersistenceIntent,
    other: OnionAddress,
    before: Vec<PublisherPubkey>,
    before_other: Vec<PublisherPubkey>,
    applied: StoreResult<()>,
    after: MemoryIdentityStore,
    kept: Vec<PublisherPubkey>,
    kept_other: Vec<PublisherPubkey>,
)
    requires
        site@ != other@,
        call_ensures(MemoryIdentityStore::replaced_keys, (old(store), &site), before),
        call_ensures(MemoryIdentityStore::replaced_keys, (old(store), &other), before_other),
        call_ensures(
            <MemoryIdentityStore as IdentityStore>::apply,
            (store, &site, &intent),
            applied,
        ),
        after == *final(store),
        call_ensures(MemoryIdentityStore::replaced_keys, (&after, &site), kept),
        call_ensures(MemoryIdentityStore::replaced_keys, (&after, &other), kept_other),
    ensures
        kept@ == (match intent {
            PersistenceIntent::ReplaceIdentity { replaced, .. } => seq![replaced] + before@,
            _ => before@,
        }),
        kept_other@ == before_other@,
{
}

} // verus!
