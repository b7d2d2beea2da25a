//! The durable identity store: one protected record per site.
//!
//! The shell hands in what it found where the record belongs, how it parses a
//! record from its bytes and how it encodes one, and writes what it is told.
use crate::io;
use crate::io::{apply_replaced, MemoryIdentityStore, StoreError, StoreResult};
use crate::protocol;
use crate::protocol::{OnionAddress, PublisherPubkey};
use crate::store::dto;
use crate::store::dto::{IdentityDto, IDENTITY_V, IDENTITY_V1};
use crate::store::protect::prefixed;
use crate::store::root;
use crate::store::root::{ProtectedWrite, StoreRoot, StoredFile};
use crate::text;
use crate::trust::{PersistenceIntent, RetainedIdentity, RetainedProvenance};
use std::sync::Arc;
use vstd::prelude::*;

verus! {

/// An identity store over a store's files.
#[derive(Clone)]
pub struct FileIdentityStore {
    root: Arc<StoreRoot>,
}

/// What is to be written for an intent: the identity and its replaced keys.
pub open spec fn identity_to_write(dto: Option<IdentityDto>, intent: PersistenceIntent) -> Option<
    (RetainedIdentity, Seq<PublisherPubkey>),
> {
    let replaced = match dto {
        Some(d) => d.replaced_pubkeys@,
        None => seq![],
    };
    match intent {
        PersistenceIntent::Nothing => None,
        PersistenceIntent::RecordObservation { pubkey } => match dto {
            Some(_) => None,
            None => Some(
                (RetainedIdentity { pubkey, provenance: RetainedProvenance::Observed }, replaced),
            ),
        },
        PersistenceIntent::PinIdentity { pubkey } => match dto {
            Some(d) if d.stated_provenance() != Some(RetainedProvenance::Observed) => None,
            _ => Some(
                (RetainedIdentity { pubkey, provenance: RetainedProvenance::Pinned }, replaced),
            ),
        },
        PersistenceIntent::MarkExternallyVerified { pubkey } => Some(
            (
                RetainedIdentity { pubkey, provenance: RetainedProvenance::ExternallyVerified },
                replaced,
            ),
        ),
        PersistenceIntent::ReplaceIdentity { new_pubkey, replaced: key, externally_verified } => {
            Some(
                (
                    RetainedIdentity {
                        pubkey: new_pubkey,
                        provenance: if externally_verified {
                            RetainedProvenance::ExternallyVerified
                        } else {
                            RetainedProvenance::Pinned
                        },
                    },
                    seq![key] + replaced,
                ),
            )
        },
    }
}

/// A pin cannot be decided against a record whose shape is corrupt.
pub open spec fn pin_is_undecidable(dto: Option<IdentityDto>, intent: PersistenceIntent) -> bool {
    &&& intent is PinIdentity
    &&& dto matches Some(d)
    &&& d.stated_identity() is None
}

/// Decide what an intent writes over a record. An observation never overwrites;
/// a pin upgrades an observation and never demotes; a verification and a
/// replacement always write, and carry the replaced keys on.
pub fn plan_identity(dto: Option<&IdentityDto>, intent: &PersistenceIntent) -> (plan: StoreResult<
    Option<IdentityDto>,
>)
    ensures
        match plan {
            Ok(Some(d)) => {
                &&& !pin_is_undecidable(owned(dto), *intent)
                &&& identity_to_write(owned(dto), *intent) matches Some(write)
                &&& d.records(write.0, write.1)
            },
            Ok(None) => {
                &&& !pin_is_undecidable(owned(dto), *intent)
                &&& identity_to_write(owned(dto), *intent) is None
            },
            Err(e) => pin_is_undecidable(owned(dto), *intent) && e.0@ == owned(dto)->0.shape_text(),
        },
{
    let none: Vec<PublisherPubkey> = Vec::new();
    let replaced = match dto {
        Some(d) => apply_replaced(&d.replaced_pubkeys, intent),
        None => apply_replaced(&none, intent),
    };
    let identity = match *intent {
        PersistenceIntent::Nothing => return Ok(None),
        PersistenceIntent::RecordObservation { pubkey } => {
            if dto.is_some() {
                return Ok(None);
            }
            RetainedIdentity { pubkey, provenance: RetainedProvenance::Observed }
        },
        PersistenceIntent::PinIdentity { pubkey } => {
            if let Some(d) = dto {
                match d.to_identity() {
                    Ok(current) => if current.provenance != RetainedProvenance::Observed {
                        return Ok(None);
                    },
                    Err(e) => return Err(e),
                }
            }
            RetainedIdentity { pubkey, provenance: RetainedProvenance::Pinned }
        },
        PersistenceIntent::MarkExternallyVerified { pubkey } => RetainedIdentity {
            pubkey,
            provenance: RetainedProvenance::ExternallyVerified,
        },
        PersistenceIntent::ReplaceIdentity { new_pubkey, externally_verified, .. } => {
            RetainedIdentity {
                pubkey: new_pubkey,
                provenance: if externally_verified {
                    RetainedProvenance::ExternallyVerified
                } else {
                    RetainedProvenance::Pinned
                },
            }
        },
    };
    Ok(Some(IdentityDto::new(&identity, replaced)))
}

/// The record behind an optional reference.
pub open spec fn owned(dto: Option<&IdentityDto>) -> Option<IdentityDto> {
    match dto {
        Some(d) => Some(*d),
        None => None,
    }
}

/// The identity that a record states; nothing where there is none.
pub open spec fn identity_stated(dto: Option<IdentityDto>) -> Option<RetainedIdentity> {
    match dto {
        Some(d) => d.stated_identity(),
        None => None,
    }
}

/// The replaced keys of a record; none where there is none.
pub open spec fn replaced_stated(dto: Option<IdentityDto>) -> Seq<PublisherPubkey> {
    match dto {
        Some(d) => d.replaced_pubkeys@,
        None => seq![],
    }
}

/// The files keep what the in-memory store keeps: after an intent, a site whose
/// record is sound holds exactly what the intent leads to, whether a record was
/// written or the old one stands.
pub proof fn law_files_follow_the_intent(
    dto: Option<IdentityDto>,
    intent: PersistenceIntent,
    written: Option<IdentityDto>,
)
    requires
        dto matches Some(d) ==> d.stated_identity() is Some,
        match identity_to_write(dto, intent) {
            Some(write) => written matches Some(d) && d.records(write.0, write.1),
            None => written == dto,
        },
    ensures
        identity_stated(written) == io::after_intent(identity_stated(dto), intent),
        replaced_stated(written) == io::replaced_after(replaced_stated(dto), intent),
{
    if let Some(write) = identity_to_write(dto, intent) {
        dto::law_identity_record_round_trips(written->0, write.0, write.1);
    }
}

/// The record that parsing gave, once its version is known.
pub open spec fn record_outcome(
    parsed: Result<IdentityDto, String>,
    loaded: StoreResult<Option<IdentityDto>>,
) -> bool {
    match parsed {
        Ok(dto) => if dto.v == IDENTITY_V || dto.v == IDENTITY_V1 {
            loaded == Ok::<Option<IdentityDto>, StoreError>(Some(dto))
        } else {
            loaded matches Err(e) && e.0@ == "unsupported identity record version "@
                + text::decimal(dto.v as nat)
        },
        Err(why) => loaded matches Err(e) && e.0@ == "decode identity: "@ + why@,
    }
}

/// What loading a record gives.
pub open spec fn record_load<P: FnOnce(&[u8]) -> Result<IdentityDto, String>>(
    root: StoreRoot,
    file: StoredFile,
    parse: P,
    loaded: StoreResult<Option<IdentityDto>>,
) -> bool {
    match root.content_of(file) {
        None => loaded matches Err(e) && root.read_failure(file, e.0@),
        Some(None) => loaded == Ok::<Option<IdentityDto>, StoreError>(None),
        Some(Some(payload)) => exists|bytes: &[u8], parsed: Result<IdentityDto, String>|
            bytes@ == payload && #[trigger] call_ensures(parse, (bytes,), parsed)
                && record_outcome(parsed, loaded),
    }
}

/// What encoding and protecting a record gives.
pub open spec fn record_write<E: FnOnce(&IdentityDto) -> Result<Vec<u8>, String>>(
    root: StoreRoot,
    site: Seq<char>,
    identity: RetainedIdentity,
    replaced: Seq<PublisherPubkey>,
    encode: E,
    applied: StoreResult<Option<ProtectedWrite<'_>>>,
) -> bool {
    exists|record: &IdentityDto, encoded: Result<Vec<u8>, String>|
        {
            &&& record.records(identity, replaced)
            &&& #[trigger] call_ensures(encode, (record,), encoded)
            &&& match encoded {
                Err(why) => applied matches Err(e) && e.0@ == "encode identity: "@ + why@,
                Ok(bytes) => match applied {
                    Ok(Some(write)) => root::protects(
                        root,
                        "identities"@,
                        root::identity_file(site),
                        bytes@,
                        Ok(write),
                    ),
                    Ok(None) => false,
                    Err(e) => root::protects(
                        root,
                        "identities"@,
                        root::identity_file(site),
                        bytes@,
                        Err(e),
                    ),
                },
            }
        }
}

/// What applying an intent to a loaded record gives.
pub open spec fn application<E: FnOnce(&IdentityDto) -> Result<Vec<u8>, String>>(
    root: StoreRoot,
    site: Seq<char>,
    intent: PersistenceIntent,
    loaded: StoreResult<Option<IdentityDto>>,
    encode: E,
    applied: StoreResult<Option<ProtectedWrite<'_>>>,
) -> bool {
    match loaded {
        Err(e) => applied == Err::<Option<ProtectedWrite<'_>>, StoreError>(e),
        Ok(dto) => if pin_is_undecidable(dto, intent) {
            applied matches Err(e) && e.0@ == dto->0.shape_text()
        } else {
            match identity_to_write(dto, intent) {
                None => applied == Ok::<Option<ProtectedWrite<'_>>, StoreError>(None),
                Some(write) => record_write(root, site, write.0, write.1, encode, applied),
            }
        },
    }
}

/// What loading an identity gives.
pub open spec fn identity_load<P: FnOnce(&[u8]) -> Result<IdentityDto, String>>(
    root: StoreRoot,
    file: StoredFile,
    parse: P,
    loaded: StoreResult<Option<RetainedIdentity>>,
) -> bool {
    exists|dto: StoreResult<Option<IdentityDto>>| #[trigger]
        record_load(root, file, parse, dto) && match dto {
            Ok(Some(d)) => match d.stated_identity() {
                Some(identity) => loaded == Ok::<Option<RetainedIdentity>, StoreError>(
                    Some(identity),
                ),
                None => loaded matches Err(e) && e.0@ == d.shape_text(),
            },
            Ok(None) => loaded == Ok::<Option<RetainedIdentity>, StoreError>(None),
            Err(e) => loaded == Err::<Option<RetainedIdentity>, StoreError>(e),
        }
}

/// What applying an intent to a site gives, where `file` was found. Nothing is
/// read for an intent that persists nothing.
pub open spec fn intent_application<
    P: FnOnce(&[u8]) -> Result<IdentityDto, String>,
    E: FnOnce(&IdentityDto) -> Result<Vec<u8>, String>,
>(
    root: StoreRoot,
    site: Seq<char>,
    intent: PersistenceIntent,
    file: StoredFile,
    parse: P,
    encode: E,
    applied: StoreResult<Option<ProtectedWrite<'_>>>,
) -> bool {
    if intent is Nothing {
        applied == Ok::<Option<ProtectedWrite<'_>>, StoreError>(None)
    } else {
        exists|loaded: StoreResult<Option<IdentityDto>>| #[trigger]
            record_load(root, file, parse, loaded) && application(
                root,
                site,
                intent,
                loaded,
                encode,
                applied,
            )
    }
}

impl FileIdentityStore {
    /// The store's root.
    pub closed spec fn spec_root(&self) -> StoreRoot {
        *self.root
    }

    /// An identity store over `root`.
    pub fn new(root: Arc<StoreRoot>) -> (store: FileIdentityStore)
        ensures
            store.spec_root() == *root,
    {
        FileIdentityStore { root }
    }

    /// Load a record. Only a missing file is no record; one that does not
    /// verify, does not parse, or has an unknown version is an error.
    pub fn load_dto<P: FnOnce(&[u8]) -> Result<IdentityDto, String>>(
        &self,
        file: &StoredFile,
        parse: P,
    ) -> (loaded: StoreResult<Option<IdentityDto>>)
        requires
            forall|bytes: &[u8]| call_requires(parse, (bytes,)),
        ensures
            record_load(self.spec_root(), *file, parse, loaded),
    {
        let payload = match self.root.read_protected(file) {
            Ok(Some(payload)) => payload,
            Ok(None) => return Ok(None),
            Err(e) => return Err(e),
        };
        let bytes = payload.as_slice();
        let parsed = parse(bytes);
        assert(call_ensures(parse, (bytes,), parsed));
        match parsed {
            Ok(dto) => match dto.check_version() {
                Ok(()) => Ok(Some(dto)),
                Err(e) => Err(e),
            },
            Err(why) => Err(prefixed("decode identity: ", why.as_str())),
        }
    }

    /// Load the identity retained for a site from what was found where its
    /// record belongs. A record of an invalid shape is an error too.
    pub fn load_identity<P: FnOnce(&[u8]) -> Result<IdentityDto, String>>(
        &self,
        file: &StoredFile,
        parse: P,
    ) -> (loaded: StoreResult<Option<RetainedIdentity>>)
        requires
            forall|bytes: &[u8]| call_requires(parse, (bytes,)),
        ensures
            identity_load(self.spec_root(), *file, parse, loaded),
            *file is Missing <==> loaded == Ok::<Option<RetainedIdentity>, StoreError>(None),
    {
        let dto = self.load_dto(file, parse);
        assert(record_load(self.spec_root(), *file, parse, dto));
        match dto {
            Ok(Some(dto)) => match dto.to_identity() {
                Ok(identity) => Ok(Some(identity)),
                Err(e) => Err(e),
            },
            Ok(None) => Ok(None),
            Err(e) => Err(e),
        }
    }

    /// Apply an intent to a site, given what was found where its record belongs.
    /// The result is the record to write, if any. Nothing is read for an intent
    /// that persists nothing.
    pub fn apply<
        P: FnOnce(&[u8]) -> Result<IdentityDto, String>,
        E: FnOnce(&IdentityDto) -> Result<Vec<u8>, String>,
    >(
        &self,
        site: &OnionAddress,
        intent: &PersistenceIntent,
        file: &StoredFile,
        parse: P,
        encode: E,
    ) -> (applied: StoreResult<Option<ProtectedWrite<'_>>>)
        requires
            protocol::is_onion_form(site@),
            forall|bytes: &[u8]| call_requires(parse, (bytes,)),
            forall|record: &IdentityDto| call_requires(encode, (record,)),
        ensures
            intent_application(
                self.spec_root(),
                site@,
                *intent,
                *file,
                parse,
                encode,
                applied,
            ),
    {
        if let PersistenceIntent::Nothing = *intent {
            return Ok(None);
        }
        let loaded = self.load_dto(file, parse);
        assert(record_load(self.spec_root(), *file, parse, loaded));
        let dto = match loaded {
            Ok(dto) => dto,
            Err(e) => return Err(e),
        };
        let planned = match plan_identity(dto.as_ref(), intent) {
            Ok(Some(record)) => record,
            Ok(None) => return Ok(None),
            Err(e) => return Err(e),
        };
        let record = &planned;
        let encoded = encode(record);
        assert(call_ensures(encode, (record,), encoded));
        let bytes = match encoded {
            Ok(bytes) => bytes,
            Err(why) => return Err(prefixed("encode identity: ", why.as_str())),
        };
        match self.root.write_encoded(self.root.identity_path(site), bytes.as_slice()) {
            Ok(write) => Ok(Some(write)),
            Err(e) => Err(e),
        }
    }
}

/// A shell that parses what it encodes: whatever `encode` makes of a record,
/// `parse` makes that record of it again.
pub open spec fn is_identity_codec<
    P: FnOnce(&[u8]) -> Result<IdentityDto, String>,
    E: FnOnce(&IdentityDto) -> Result<Vec<u8>, String>,
>(parse: P, encode: E) -> bool {
    forall|
        record: &IdentityDto,
        encoded: Vec<u8>,
        bytes: &[u8],
        parsed: Result<IdentityDto, String>,
    |
        #[trigger] call_ensures(encode, (record,), Ok(encoded)) && #[trigger] call_ensures(
            parse,
            (bytes,),
            parsed,
        ) && bytes@ == encoded@ ==> (parsed matches Ok(dto) && dto.says_what(*record))
}

/// Reading gives back what was written: once the write that an intent asks for
/// is on disk, loading gives the identity and the replaced keys that it leads
/// to.
pub proof fn law_applied_intent_reads_back<
    P: FnOnce(&[u8]) -> Result<IdentityDto, String>,
    E: FnOnce(&IdentityDto) -> Result<Vec<u8>, String>,
>(
    root: StoreRoot,
    site: Seq<char>,
    intent: PersistenceIntent,
    dto: Option<IdentityDto>,
    encode: E,
    write: ProtectedWrite<'_>,
    parse: P,
    loaded: StoreResult<Option<IdentityDto>>,
)
    requires
        dto matches Some(d) ==> d.stated_identity() is Some,
        application(root, site, intent, Ok(dto), encode, Ok(Some(write))),
        is_identity_codec(parse, encode),
        record_load(root, StoredFile::Sealed(write.envelope), parse, loaded),
    ensures
        loaded matches Ok(Some(d)) && d.stated_identity() == io::after_intent(
            identity_stated(dto),
            intent,
        ) && d.replaced_pubkeys@ == io::replaced_after(replaced_stated(dto), intent),
{
    let (identity, replaced) = identity_to_write(dto, intent)->0;
    let (record, encoded) = choose|record: &IdentityDto, encoded: Result<Vec<u8>, String>|
        {
            &&& record.records(identity, replaced)
            &&& #[trigger] call_ensures(encode, (record,), encoded)
            &&& encoded matches Ok(bytes)
            &&& root::protects(
                root,
                "identities"@,
                root::identity_file(site),
                bytes@,
                Ok(write),
            )
        };
    let payload = encoded->Ok_0@;
    let (bytes, parsed) = choose|bytes: &[u8], parsed: Result<IdentityDto, String>|
        bytes@ == payload && #[trigger] call_ensures(parse, (bytes,), parsed) && record_outcome(
            parsed,
            loaded,
        );
    assert(call_ensures(encode, (record,), Ok(encoded->Ok_0)));
    assert(parsed->Ok_0.says_what(*record));
    assert(parsed->Ok_0.records(identity, replaced));
    law_files_follow_the_intent(dto, intent, Some(parsed->Ok_0));
}

/// What is found in a store's files where the record of `site` belongs.
pub open spec fn record_file(
    files: Map<(Seq<char>, Seq<char>), StoredFile>,
    site: Seq<char>,
) -> StoredFile {
    root::file_at(files, "identities"@, root::identity_file(site))
}

/// A store's files once what applying an intent gave is carried out.
pub open spec fn after_application(
    files: Map<(Seq<char>, Seq<char>), StoredFile>,
    applied: StoreResult<Option<ProtectedWrite<'_>>>,
) -> Map<(Seq<char>, Seq<char>), StoredFile> {
    match applied {
        Ok(Some(write)) => root::after_write(files, Ok(write)),
        _ => files,
    }
}

/// The files and a store in memory keep the same: for every site the files read
/// as a sound record, or as none, of what the store in memory retains and of the
/// keys it has replaced.
pub open spec fn keep_the_same<P: FnOnce(&[u8]) -> Result<IdentityDto, String>>(
    root: StoreRoot,
    files: Map<(Seq<char>, Seq<char>), StoredFile>,
    parse: P,
    memory: MemoryIdentityStore,
) -> bool {
    forall|site: Seq<char>, loaded: StoreResult<Option<IdentityDto>>| #[trigger]
        record_load(root, record_file(files, site), parse, loaded) ==> {
            &&& loaded matches Ok(dto)
            &&& dto matches Some(d) ==> d.stated_identity() is Some
            &&& identity_stated(dto) == memory.retained_for(site)
            &&& replaced_stated(dto) == memory.replaced_for(site)
        }
}

/// An intent is applied to the files and, unless it failed there, to a store in
/// memory.
pub open spec fn is_step<
    P: FnOnce(&[u8]) -> Result<IdentityDto, String>,
    E: FnOnce(&IdentityDto) -> Result<Vec<u8>, String>,
>(
    root: StoreRoot,
    parse: P,
    encode: E,
    step: (Seq<char>, PersistenceIntent),
    files: (Map<(Seq<char>, Seq<char>), StoredFile>, Map<(Seq<char>, Seq<char>), StoredFile>),
    memory: (MemoryIdentityStore, MemoryIdentityStore),
) -> bool {
    exists|applied: StoreResult<Option<ProtectedWrite<'_>>>|
        {
            &&& #[trigger] intent_application(
                root,
                step.0,
                step.1,
                record_file(files.0, step.0),
                parse,
                encode,
                applied,
            )
            &&& files.1 == after_application(files.0, applied)
            &&& match applied {
                Ok(_) => io::is_applied(memory.0, step.0, step.1, memory.1),
                Err(_) => memory.1 == memory.0,
            }
        }
}

/// Intents are applied one after the other, to the files and to a store in
/// memory.
pub open spec fn is_run<
    P: FnOnce(&[u8]) -> Result<IdentityDto, String>,
    E: FnOnce(&IdentityDto) -> Result<Vec<u8>, String>,
>(
    root: StoreRoot,
    parse: P,
    encode: E,
    steps: Seq<(Seq<char>, PersistenceIntent)>,
    files: Seq<Map<(Seq<char>, Seq<char>), StoredFile>>,
    memory: Seq<MemoryIdentityStore>,
) -> bool {
    &&& files.len() == steps.len() + 1
    &&& memory.len() == steps.len() + 1
    &&& forall|i: int|
        0 <= i < steps.len() ==> is_step(
            root,
            parse,
            encode,
            #[trigger] steps[i],
            (files[i], files[i + 1]),
            (memory[i], memory[i + 1]),
        )
}

/// Files in which no site has a record keep the same as a fresh store in memory.
pub proof fn law_fresh_stores_keep_the_same<P: FnOnce(&[u8]) -> Result<IdentityDto, String>>(
    root: StoreRoot,
    files: Map<(Seq<char>, Seq<char>), StoredFile>,
    parse: P,
    memory: MemoryIdentityStore,
)
    requires
        forall|site: Seq<char>| (#[trigger] record_file(files, site)) is Missing,
        forall|site: Seq<char>| (#[trigger] memory.retained_for(site)) is None,
        forall|site: Seq<char>|
            #[trigger] memory.replaced_for(site) == Seq::<PublisherPubkey>::empty(),
    ensures
        keep_the_same(root, files, parse, memory),
{
}

/// What one intent leaves the same: the files and the store in memory.
proof fn lemma_step_keeps_the_same<
    P: FnOnce(&[u8]) -> Result<IdentityDto, String>,
    E: FnOnce(&IdentityDto) -> Result<Vec<u8>, String>,
>(
    root: StoreRoot,
    parse: P,
    encode: E,
    step: (Seq<char>, PersistenceIntent),
    files: (Map<(Seq<char>, Seq<char>), StoredFile>, Map<(Seq<char>, Seq<char>), StoredFile>),
    memory: (MemoryIdentityStore, MemoryIdentityStore),
)
    requires
        is_identity_codec(parse, encode),
        keep_the_same(root, files.0, parse, memory.0),
        is_step(root, parse, encode, step, files, memory),
    ensures
        keep_the_same(root, files.1, parse, memory.1),
{
    let (site, intent) = step;
    let applied = choose|applied: StoreResult<Option<ProtectedWrite<'_>>>|
        {
            &&& #[trigger] intent_application(
                root,
                step.0,
                step.1,
                record_file(files.0, step.0),
                parse,
                encode,
                applied,
            )
            &&& files.1 == after_application(files.0, applied)
            &&& match applied {
                Ok(_) => io::is_applied(memory.0, step.0, step.1, memory.1),
                Err(_) => memory.1 == memory.0,
            }
        };
    if applied is Ok && !(intent is Nothing) {
        let found = choose|found: StoreResult<Option<IdentityDto>>| #[trigger]
            record_load(root, record_file(files.0, site), parse, found) && application(
                root,
                site,
                intent,
                found,
                encode,
                applied,
            );
        let dto = found->Ok_0;
        assert forall|other: Seq<char>, loaded: StoreResult<Option<IdentityDto>>| #[trigger]
            record_load(root, record_file(files.1, other), parse, loaded) implies {
            &&& loaded matches Ok(dto)
            &&& dto matches Some(d) ==> d.stated_identity() is Some
            &&& identity_stated(dto) == memory.1.retained_for(other)
            &&& replaced_stated(dto) == memory.1.replaced_for(other)
        } by {
            match identity_to_write(dto, intent) {
                None => {
                    law_files_follow_the_intent(dto, intent, dto);
                    assert(record_load(root, record_file(files.0, other), parse, loaded));
                },
                Some(_) => {
                    let write = applied->Ok_0->0;
                    if other == site {
                        law_applied_intent_reads_back(
                            root,
                            site,
                            intent,
                            dto,
                            encode,
                            write,
                            parse,
                            loaded,
                        );
                    } else {
                        root::law_sites_have_their_own_files(site, other);
                        assert(record_file(files.1, other) == record_file(files.0, other));
                        assert(record_load(root, record_file(files.0, other), parse, loaded));
                    }
                },
            }
        }
    } else {
        assert(files.1 == files.0);
        assert forall|other: Seq<char>, loaded: StoreResult<Option<IdentityDto>>| #[trigger]
            record_load(root, record_file(files.1, other), parse, loaded) implies {
            &&& loaded matches Ok(dto)
            &&& dto matches Some(d) ==> d.stated_identity() is Some
            &&& identity_stated(dto) == memory.1.retained_for(other)
            &&& replaced_stated(dto) == memory.1.replaced_for(other)
        } by {
            assert(record_load(root, record_file(files.0, other), parse, loaded));
        }
    }
}

/// The files and the store in memory keep the same after each of the intents.
proof fn lemma_run_keeps_the_same<
    P: FnOnce(&[u8]) -> Result<IdentityDto, String>,
    E: FnOnce(&IdentityDto) -> Result<Vec<u8>, String>,
>(
    root: StoreRoot,
    parse: P,
    encode: E,
    steps: Seq<(Seq<char>, PersistenceIntent)>,
    files: Seq<Map<(Seq<char>, Seq<char>), StoredFile>>,
    memory: Seq<MemoryIdentityStore>,
    n: int,
)
    requires
        is_identity_codec(parse, encode),
        keep_the_same(root, files[0], parse, memory[0]),
        is_run(root, parse, encode, steps, files, memory),
        0 <= n <= steps.len(),
    ensures
        keep_the_same(root, files[n], parse, memory[n]),
    decreases n,
{
    if n > 0 {
        lemma_run_keeps_the_same(root, parse, encode, steps, files, memory, n - 1);
        assert(is_step(
            root,
            parse,
            encode,
            steps[n - 1],
            (files[n - 1], files[n]),
            (memory[n - 1], memory[n]),
        ));
        lemma_step_keeps_the_same(
            root,
            parse,
            encode,
            steps[n - 1],
            (files[n - 1], files[n]),
            (memory[n - 1], memory[n]),
        );
    }
}

/// The durable store is the store in memory, written to files: whatever intents
/// are applied, to whatever sites and in whatever order, loading any site from
/// the files gives what the store in memory retains, and its record holds the
/// keys that the store in memory has replaced. An intent that fails leaves both
/// as they were.
pub proof fn law_files_and_memory_keep_the_same<
    P: FnOnce(&[u8]) -> Result<IdentityDto, String>,
    E: FnOnce(&IdentityDto) -> Result<Vec<u8>, String>,
>(
    root: StoreRoot,
    parse: P,
    encode: E,
    steps: Seq<(Seq<char>, PersistenceIntent)>,
    files: Seq<Map<(Seq<char>, Seq<char>), StoredFile>>,
    memory: Seq<MemoryIdentityStore>,
    site: Seq<char>,
    loaded: StoreResult<Option<RetainedIdentity>>,
)
    requires
        is_identity_codec(parse, encode),
        keep_the_same(root, files[0], parse, memory[0]),
        is_run(root, parse, encode, steps, files, memory),
        identity_load(root, record_file(files.last(), site), parse, loaded),
    ensures
        keep_the_same(root, files.last(), parse, memory.last()),
        loaded == Ok::<Option<RetainedIdentity>, StoreError>(memory.last().retained_for(site)),
{
    lemma_run_keeps_the_same(root, parse, encode, steps, files, memory, steps.len() as int);
    let dto = choose|dto: StoreResult<Option<IdentityDto>>| #[trigger]
        record_load(root, record_file(files.last(), site), parse, dto) && match dto {
            Ok(Some(d)) => match d.stated_identity() {
                Some(identity) => loaded == Ok::<Option<RetainedIdentity>, StoreError>(
                    Some(identity),
                ),
                None => loaded matches Err(e) && e.0@ == d.shape_text(),
            },
            Ok(None) => loaded == Ok::<Option<RetainedIdentity>, StoreError>(None),
            Err(e) => loaded == Err::<Option<RetainedIdentity>, StoreError>(e),
        };
    assert(dto is Ok);
}

/// What an intent does to a record that is there, sound or not: an observation
/// never touches it; a pin touches it only where it is a sound observation, and
/// refuses where it is unsound; a verification and a replacement write anew, with
/// the key they bring and the replaced keys carried on.
pub proof fn law_record_is_touched_as_its_intent_asks(
    dto: IdentityDto,
    stated: Result<RetainedIdentity, StoreError>,
    intent: PersistenceIntent,
    plan: StoreResult<Option<IdentityDto>>,
)
    requires
        call_ensures(IdentityDto::to_identity, (&dto,), stated),
        call_ensures(plan_identity, (Some(&dto), &intent), plan),
    ensures
        intent is Nothing || intent is RecordObservation ==> plan
            == Ok::<Option<IdentityDto>, StoreError>(None),
        intent matches PersistenceIntent::PinIdentity { pubkey } ==> match stated {
            Err(_) => plan is Err,
            Ok(i) => if i.provenance == RetainedProvenance::Observed {
                plan matches Ok(Some(d)) && d.pubkey == pubkey && d.stated_identity() == Some(
                    RetainedIdentity { pubkey, provenance: RetainedProvenance::Pinned },
                ) && d.replaced_pubkeys@ == dto.replaced_pubkeys@
            } else {
                plan == Ok::<Option<IdentityDto>, StoreError>(None)
            },
        },
        intent matches PersistenceIntent::MarkExternallyVerified { pubkey } ==> (plan matches Ok(
            Some(d),
        ) && d.stated_identity() == Some(
            RetainedIdentity { pubkey, provenance: RetainedProvenance::ExternallyVerified },
        ) && d.replaced_pubkeys@ == dto.replaced_pubkeys@),
        intent matches PersistenceIntent::ReplaceIdentity {
            new_pubkey,
            replaced,
            externally_verified,
        } ==> (plan matches Ok(Some(d)) && d.stated_identity() == Some(
            RetainedIdentity {
                pubkey: new_pubkey,
                provenance: if externally_verified {
                    RetainedProvenance::ExternallyVerified
                } else {
                    RetainedProvenance::Pinned
                },
            },
        ) && d.replaced_pubkeys@ == seq![replaced] + dto.replaced_pubkeys@),
{
    if let Some(write) = identity_to_write(Some(dto), intent) {
        if let Ok(Some(d)) = plan {
            dto::law_identity_record_round_trips(d, write.0, write.1);
        }
    }
}

/// Where there is no record, an observation, a pin, a verification and a
/// replacement each write the identity they bring; no other intent writes.
pub proof fn law_first_record_is_the_intents(
    intent: PersistenceIntent,
    plan: StoreResult<Option<IdentityDto>>,
    retained: Option<RetainedIdentity>,
)
    requires
        call_ensures(plan_identity, (None, &intent), plan),
        call_ensures(io::apply_intent, (None, &intent), retained),
    ensures
        plan is Ok,
        plan->Ok_0 is None <==> intent is Nothing,
        plan matches Ok(Some(d)) ==> d.stated_identity() == retained && retained is Some,
        plan matches Ok(Some(d)) ==> (match intent {
            PersistenceIntent::ReplaceIdentity { replaced, .. } => d.replaced_pubkeys@ == seq![
                replaced,
            ],
            _ => d.replaced_pubkeys@.len() == 0,
        }),
{
    if let Some(write) = identity_to_write(None, intent) {
        if let Ok(Some(d)) = plan {
            dto::law_identity_record_round_trips(d, write.0, write.1);
            assert(seq![intent->replaced] + Seq::<PublisherPubkey>::empty() =~= seq![
                intent->replaced,
            ]);
        }
    }
}

/// What is loaded of a site is what its file holds. A missing file is first
/// contact; a file that does not read, does not parse, is of an unknown version
/// or of a shape that is not that of its version is an error; any other gives the
/// identity that the parsed record states.
pub proof fn law_identity_is_loaded_from_its_file<
    P: FnOnce(&[u8]) -> Result<IdentityDto, String>,
>(
    store: FileIdentityStore,
    root: StoreRoot,
    file: StoredFile,
    parse: P,
    loaded: StoreResult<Option<RetainedIdentity>>,
    read: Result<Option<Vec<u8>>, StoreError>,
)
    requires
        store.spec_root() == root,
        call_ensures(FileIdentityStore::load_identity::<P>, (&store, &file, parse), loaded),
        call_ensures(StoreRoot::read_protected, (&root, &file), read),
    ensures
        match read {
            Err(_) => loaded is Err,
            Ok(None) => loaded == Ok::<Option<RetainedIdentity>, StoreError>(None),
            Ok(Some(payload)) => exists|bytes: &[u8], parsed: Result<IdentityDto, String>|
                {
                    &&& bytes@ == payload@
                    &&& #[trigger] call_ensures(parse, (bytes,), parsed)
                    &&& match parsed {
                        Err(_) => loaded is Err,
                        Ok(dto) => if dto.v == 2 && dto.externally_verified is None
                            && dto.provenance is Some && dto.provenance->0@ == "observed"@ {
                            loaded matches Ok(Some(i)) && i.pubkey == dto.pubkey && i.provenance
                                == RetainedProvenance::Observed
                        } else if dto.v == 2 && dto.externally_verified is None
                            && dto.provenance is Some && dto.provenance->0@ == "pinned"@ {
                            loaded matches Ok(Some(i)) && i.pubkey == dto.pubkey && i.provenance
                                == RetainedProvenance::Pinned
                        } else if dto.v == 2 && dto.externally_verified is None
                            && dto.provenance is Some && dto.provenance->0@ == "verified"@ {
                            loaded matches Ok(Some(i)) && i.pubkey == dto.pubkey && i.provenance
                                == RetainedProvenance::ExternallyVerified
                        } else if dto.v == 1 && dto.externally_verified is Some
                            && dto.provenance is None {
                            loaded matches Ok(Some(i)) && i.pubkey == dto.pubkey && (i.provenance
                                == RetainedProvenance::ExternallyVerified
                                <==> dto.externally_verified->0) && (i.provenance
                                == RetainedProvenance::Pinned <==> !dto.externally_verified->0)
                        } else {
                            loaded is Err
                        },
                    }
                },
        },
{
    let dto = choose|dto: StoreResult<Option<IdentityDto>>| #[trigger]
        record_load(root, file, parse, dto) && match dto {
            Ok(Some(d)) => match d.stated_identity() {
                Some(identity) => loaded == Ok::<Option<RetainedIdentity>, StoreError>(
                    Some(identity),
                ),
                None => loaded matches Err(e) && e.0@ == d.shape_text(),
            },
            Ok(None) => loaded == Ok::<Option<RetainedIdentity>, StoreError>(None),
            Err(e) => loaded == Err::<Option<RetainedIdentity>, StoreError>(e),
        };
    if let Ok(Some(payload)) = read {
        let (bytes, parsed) = choose|bytes: &[u8], parsed: Result<IdentityDto, String>|
            bytes@ == payload@ && #[trigger] call_ensures(parse, (bytes,), parsed)
                && record_outcome(parsed, dto);
        assert(call_ensures(parse, (bytes,), parsed));
        reveal_strlit("observed");
        reveal_strlit("pinned");
        reveal_strlit("verified");
        assert("observed"@[0] != "pinned"@[0]);
        assert("observed"@[0] != "verified"@[0]);
        assert("pinned"@[0] != "verified"@[0]);
    }
}

/// A file that does not read is never written over: whatever the intent, unless
/// it persists nothing, applying it is an error. An intent that persists nothing
/// writes nothing.
pub proof fn law_unread_record_is_never_overwritten<
    P: FnOnce(&[u8]) -> Result<IdentityDto, String>,
    E: FnOnce(&IdentityDto) -> Result<Vec<u8>, String>,
>(
    store: FileIdentityStore,
    root: StoreRoot,
    site: OnionAddress,
    intent: PersistenceIntent,
    file: StoredFile,
    parse: P,
    encode: E,
    applied: StoreResult<Option<ProtectedWrite<'_>>>,
    read: Result<Option<Vec<u8>>, StoreError>,
)
    requires
        store.spec_root() == root,
        call_ensures(
            FileIdentityStore::apply::<P, E>,
            (&store, &site, &intent, &file, parse, encode),
            applied,
        ),
        call_ensures(StoreRoot::read_protected, (&root, &file), read),
    ensures
        intent is Nothing ==> applied == Ok::<Option<ProtectedWrite<'_>>, StoreError>(None),
        !(intent is Nothing) && read is Err ==> applied is Err,
        applied matches Ok(Some(write)) ==> {
            &&& write.path.directory@ == "identities"@
            &&& write.path.file@ == site.text@ + ".json"@
            &&& read is Ok
        },
{
}

/// A record is loaded whole, or not at all: where a file reads, parses, and is of
/// a version that is known, the parsed record is what is loaded; otherwise there
/// is an error, and no record only where there is no file.
pub proof fn law_record_is_loaded_whole<P: FnOnce(&[u8]) -> Result<IdentityDto, String>>(
    store: FileIdentityStore,
    root: StoreRoot,
    file: StoredFile,
    parse: P,
    loaded: StoreResult<Option<IdentityDto>>,
    read: Result<Option<Vec<u8>>, StoreError>,
)
    requires
        store.spec_root() == root,
        call_ensures(FileIdentityStore::load_dto::<P>, (&store, &file, parse), loaded),
        call_ensures(StoreRoot::read_protected, (&root, &file), read),
    ensures
        match read {
            Err(_) => loaded is Err,
            Ok(None) => loaded == Ok::<Option<IdentityDto>, StoreError>(None),
            Ok(Some(payload)) => exists|bytes: &[u8], parsed: Result<IdentityDto, String>|
                {
                    &&& bytes@ == payload@
                    &&& #[trigger] call_ensures(parse, (bytes,), parsed)
                    &&& if parsed is Ok && (parsed->Ok_0.v == 1 || parsed->Ok_0.v == 2) {
                        loaded == Ok::<Option<IdentityDto>, StoreError>(Some(parsed->Ok_0))
                    } else {
                        loaded is Err
                    }
                },
        },
{
    if let Ok(Some(payload)) = read {
        let (bytes, parsed) = choose|bytes: &[u8], parsed: Result<IdentityDto, String>|
            bytes@ == payload@ && #[trigger] call_ensures(parse, (bytes,), parsed)
                && record_outcome(parsed, loaded);
        assert(call_ensures(parse, (bytes,), parsed));
    }
}

/// An intent is applied to what the file holds, or fails: over a file that reads
/// it succeeds only where the file parses and is of a version that is known, and
/// what it writes is what it plans for that record, encoded by the shell.
pub proof fn law_intent_is_applied_to_the_record<
    P: FnOnce(&[u8]) -> Result<IdentityDto, String>,
    E: FnOnce(&IdentityDto) -> Result<Vec<u8>, String>,
>(
    store: FileIdentityStore,
    root: StoreRoot,
    site: OnionAddress,
    intent: PersistenceIntent,
    file: StoredFile,
    parse: P,
    encode: E,
    applied: Option<ProtectedWrite<'_>>,
    payload: Vec<u8>,
)
    requires
        !(intent is Nothing),
        store.spec_root() == root,
        call_ensures(
            FileIdentityStore::apply::<P, E>,
            (&store, &site, &intent, &file, parse, encode),
            Ok(applied),
        ),
        call_ensures(StoreRoot::read_protected, (&root, &file), Ok(Some(payload))),
    ensures
        exists|bytes: &[u8], dto: IdentityDto|
            {
                &&& bytes@ == payload@
                &&& #[trigger] call_ensures(parse, (bytes,), Ok(dto))
                &&& dto.v == 1 || dto.v == 2
                &&& intent is RecordObservation ==> applied is None
                &&& intent is PinIdentity ==> dto.stated_identity() is Some
                &&& intent is PinIdentity ==> (applied is Some <==> dto.stated_identity()->0.provenance
                    == RetainedProvenance::Observed)
                &&& intent is MarkExternallyVerified || intent is ReplaceIdentity ==> applied is Some
                &&& applied matches Some(write) ==> exists|record: &IdentityDto, encoded: Vec<u8>|
                    {
                        &&& #[trigger] call_ensures(encode, (record,), Ok(encoded))
                        &&& root.content_of(StoredFile::Sealed(write.envelope)) == Some(
                            Some(encoded@),
                        )
                        &&& record.stated_identity() == io::after_intent(
                            dto.stated_identity(),
                            intent,
                        )
                        &&& record.replaced_pubkeys@ == io::replaced_after(
                            dto.replaced_pubkeys@,
                            intent,
                        )
                    }
            },
{
    let result = Ok::<Option<ProtectedWrite<'_>>, StoreError>(applied);
    let loaded = choose|loaded: StoreResult<Option<IdentityDto>>| #[trigger]
        record_load(root, file, parse, loaded) && application(
            root,
            site@,
            intent,
            loaded,
            encode,
            result,
        );
    let (bytes, parsed) = choose|bytes: &[u8], parsed: Result<IdentityDto, String>|
        bytes@ == payload@ && #[trigger] call_ensures(parse, (bytes,), parsed) && record_outcome(
            parsed,
            loaded,
        );
    let dto = parsed->Ok_0;
    assert(call_ensures(parse, (bytes,), Ok(dto)));
    if let Some(write) = applied {
        let (identity, replaced) = identity_to_write(Some(dto), intent)->0;
        let (record, encoded) = choose|record: &IdentityDto, encoded: Result<Vec<u8>, String>|
            {
                &&& record.records(identity, replaced)
                &&& #[trigger] call_ensures(encode, (record,), encoded)
                &&& encoded matches Ok(bytes)
                &&& root::protects(
                    root,
                    "identities"@,
                    root::identity_file(site@),
                    bytes@,
                    Ok(write),
                )
            };
        assert(call_ensures(encode, (record,), Ok(encoded->Ok_0)));
        dto::law_identity_record_round_trips(*record, identity, replaced);
    }
}

} // verus!
