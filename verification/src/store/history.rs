//! The durable history store: one protected file per publisher.
//!
//! The shell hands in what it found where the file belongs, how it parses a
//! file from its bytes and how it encodes one, and writes what it is told.
use crate::history::PublisherHistory;
use crate::io;
use crate::io::{MemoryHistoryStore, StoreError, StoreResult};
use crate::protocol::{PublisherPubkey, RetainedManifestRecord};
use crate::store::dto;
use crate::store::dto::{HistoryDto, ManifestRecordDto, HISTORY_V};
use crate::store::protect::prefixed;
use crate::store::root;
use crate::store::root::{ProtectedWrite, StoreRoot, StoredFile};
use crate::text;
use std::sync::Arc;
use vstd::prelude::*;

verus! {

/// A history store over a store's files.
#[derive(Clone)]
pub struct FileHistoryStore {
    root: Arc<StoreRoot>,
}

/// These are the records of this history, in order.
pub open spec fn record_history(
    dtos: Seq<ManifestRecordDto>,
    history: Seq<RetainedManifestRecord>,
) -> bool {
    dtos.len() == history.len() && forall|i: int|
        0 <= i < dtos.len() ==> (#[trigger] dtos[i]).records(history[i])
}

/// Each record is sound.
pub open spec fn all_sound(dtos: Seq<ManifestRecordDto>) -> bool {
    forall|i: int| 0 <= i < dtos.len() ==> is_sound(#[trigger] dtos[i])
}

/// A record is that of some retained manifest.
pub open spec fn is_sound(dto: ManifestRecordDto) -> bool {
    exists|record: RetainedManifestRecord| #[trigger] dto.records(record)
}

/// What is said of records of which one is unsound: what is said of the first
/// such.
pub open spec fn records_failure(dtos: Seq<ManifestRecordDto>, message: Seq<char>) -> bool {
    exists|i: int|
        {
            &&& 0 <= i < dtos.len()
            &&& !is_sound(#[trigger] dtos[i])
            &&& all_sound(dtos.take(i))
            &&& dtos[i].hash_failure(message)
        }
}

/// The history that these records are of. A single unsound record is an error:
/// a history that silently lost records would reopen what they close.
pub fn read_records(dtos: &Vec<ManifestRecordDto>) -> (history: StoreResult<PublisherHistory>)
    ensures
        match history {
            Ok(h) => record_history(dtos@, h@),
            Err(e) => !all_sound(dtos@) && records_failure(dtos@, e.0@),
        },
{
    let mut records: Vec<RetainedManifestRecord> = Vec::new();
    let mut i: usize = 0;
    while i < dtos.len()
        invariant
            i <= dtos@.len(),
            records@.len() == i,
            forall|j: int| 0 <= j < i ==> (#[trigger] dtos@[j]).records(records@[j]),
        decreases dtos@.len() - i,
    {
        match dtos[i].duplicate().into_record() {
            Ok(record) => records.push(record),
            Err(e) => {
                assert(!is_sound(dtos@[i as int]));
                assert(all_sound(dtos@.take(i as int))) by {
                    assert forall|j: int| 0 <= j < i implies is_sound(
                        #[trigger] dtos@.take(i as int)[j],
                    ) by {
                        assert(dtos@[j].records(records@[j]));
                    }
                }
                return Err(e);
            },
        }
        i += 1;
    }
    Ok(PublisherHistory::from_records_newest_first(records))
}

/// The file that keeps `record` in front of the records of an earlier file.
pub fn prepend_record(earlier: Option<HistoryDto>, record: &RetainedManifestRecord) -> (dto:
    HistoryDto)
    ensures
        is_prepended(earlier, *record, dto),
{
    let mut records = match earlier {
        Some(dto) => dto.records,
        None => Vec::new(),
    };
    let ghost before = records@;
    records.insert(0, ManifestRecordDto::from_record(record));
    assert(records@.skip(1) =~= before);
    HistoryDto { v: HISTORY_V, records }
}

/// `dto` keeps `record` in front of the records of an earlier file.
pub open spec fn is_prepended(
    earlier: Option<HistoryDto>,
    record: RetainedManifestRecord,
    dto: HistoryDto,
) -> bool {
    &&& dto.v == HISTORY_V
    &&& dto.records@.len() > 0
    &&& dto.records@[0].records(record)
    &&& dto.records@.skip(1) == (match earlier {
        Some(d) => d.records@,
        None => seq![],
    })
}

/// The file that parsing gave, once its version is known.
pub open spec fn file_outcome(
    parsed: Result<HistoryDto, String>,
    loaded: StoreResult<Option<HistoryDto>>,
) -> bool {
    match parsed {
        Ok(dto) => if dto.v == HISTORY_V {
            loaded == Ok::<Option<HistoryDto>, StoreError>(Some(dto))
        } else {
            loaded matches Err(e) && e.0@ == "unsupported history version "@ + text::decimal(
                dto.v as nat,
            )
        },
        Err(why) => loaded matches Err(e) && e.0@ == "decode history: "@ + why@,
    }
}

/// What loading a file gives.
pub open spec fn file_load<P: FnOnce(&[u8]) -> Result<HistoryDto, String>>(
    root: StoreRoot,
    file: StoredFile,
    parse: P,
    loaded: StoreResult<Option<HistoryDto>>,
) -> bool {
    match root.content_of(file) {
        None => loaded matches Err(e) && root.read_failure(file, e.0@),
        Some(None) => loaded == Ok::<Option<HistoryDto>, StoreError>(None),
        Some(Some(payload)) => exists|bytes: &[u8], parsed: Result<HistoryDto, String>|
            bytes@ == payload && #[trigger] call_ensures(parse, (bytes,), parsed) && file_outcome(
                parsed,
                loaded,
            ),
    }
}

/// What encoding and protecting a file gives.
pub open spec fn file_write<E: FnOnce(&HistoryDto) -> Result<Vec<u8>, String>>(
    root: StoreRoot,
    publisher: PublisherPubkey,
    earlier: Option<HistoryDto>,
    record: RetainedManifestRecord,
    encode: E,
    appended: StoreResult<ProtectedWrite<'_>>,
) -> bool {
    exists|dto: &HistoryDto, encoded: Result<Vec<u8>, String>|
        {
            &&& is_prepended(earlier, record, *dto)
            &&& #[trigger] call_ensures(encode, (dto,), encoded)
            &&& match encoded {
                Err(why) => appended matches Err(e) && e.0@ == "encode history: "@ + why@,
                Ok(bytes) => root::protects(
                    root,
                    "history"@,
                    root::history_file(publisher),
                    bytes@,
                    appended,
                ),
            }
        }
}

/// What loading a history gives.
pub open spec fn history_load<P: FnOnce(&[u8]) -> Result<HistoryDto, String>>(
    root: StoreRoot,
    file: StoredFile,
    parse: P,
    loaded: StoreResult<PublisherHistory>,
) -> bool {
    exists|dto: StoreResult<Option<HistoryDto>>| #[trigger]
        file_load(root, file, parse, dto) && match dto {
            Ok(Some(d)) => match loaded {
                Ok(h) => record_history(d.records@, h@),
                Err(e) => !all_sound(d.records@) && records_failure(d.records@, e.0@),
            },
            Ok(None) => loaded matches Ok(h) && h@.len() == 0,
            Err(e) => loaded == Err::<PublisherHistory, StoreError>(e),
        }
}

/// What appending a record gives, where `file` was found.
pub open spec fn append<
    P: FnOnce(&[u8]) -> Result<HistoryDto, String>,
    E: FnOnce(&HistoryDto) -> Result<Vec<u8>, String>,
>(
    root: StoreRoot,
    publisher: PublisherPubkey,
    record: RetainedManifestRecord,
    file: StoredFile,
    parse: P,
    encode: E,
    appended: StoreResult<ProtectedWrite<'_>>,
) -> bool {
    exists|loaded: StoreResult<Option<HistoryDto>>| #[trigger]
        file_load(root, file, parse, loaded) && match loaded {
            Err(e) => appended == Err::<ProtectedWrite<'_>, StoreError>(e),
            Ok(earlier) => file_write(root, publisher, earlier, record, encode, appended),
        }
}

impl FileHistoryStore {
    /// The store's root.
    pub closed spec fn spec_root(&self) -> StoreRoot {
        *self.root
    }

    /// A history store over `root`.
    pub fn new(root: Arc<StoreRoot>) -> (store: FileHistoryStore)
        ensures
            store.spec_root() == *root,
    {
        FileHistoryStore { root }
    }

    /// Load a file. Only a missing file is none; one that does not verify, does
    /// not parse, or has an unknown version is an error.
    pub fn load_dto<P: FnOnce(&[u8]) -> Result<HistoryDto, String>>(
        &self,
        file: &StoredFile,
        parse: P,
    ) -> (loaded: StoreResult<Option<HistoryDto>>)
        requires
            forall|bytes: &[u8]| call_requires(parse, (bytes,)),
        ensures
            file_load(self.spec_root(), *file, parse, loaded),
    {
        let payload = match self.root.read_protected(file) {
            Ok(Some(payload)) => payload,
            Ok(None) => return Ok(None),
            Err(e) => return Err(e),
        };
        let bytes = payload.as_slice();
        let parsed = parse(bytes);
        assert(call_ensures(parse, (bytes,), parsed));
        match parsed {
            Ok(dto) => match dto.check_version() {
                Ok(()) => Ok(Some(dto)),
                Err(e) => Err(e),
            },
            Err(why) => Err(prefixed("decode history: ", why.as_str())),
        }
    }

    /// Load the history of a publisher from what was found where its file
    /// belongs. A missing file is an empty history.
    pub fn load_history<P: FnOnce(&[u8]) -> Result<HistoryDto, String>>(
        &self,
        file: &StoredFile,
        parse: P,
    ) -> (loaded: StoreResult<PublisherHistory>)
        requires
            forall|bytes: &[u8]| call_requires(parse, (bytes,)),
        ensures
            history_load(self.spec_root(), *file, parse, loaded),
    {
        let dto = self.load_dto(file, parse);
        assert(file_load(self.spec_root(), *file, parse, dto));
        match dto {
            Ok(Some(dto)) => read_records(&dto.records),
            Ok(None) => Ok(PublisherHistory::new()),
            Err(e) => Err(e),
        }
    }

    /// Append a record as the newest of a publisher, given what was found where
    /// its file belongs. The result is the file to write.
    pub fn append_record<
        P: FnOnce(&[u8]) -> Result<HistoryDto, String>,
        E: FnOnce(&HistoryDto) -> Result<Vec<u8>, String>,
    >(
        &self,
        publisher: &PublisherPubkey,
        record: &RetainedManifestRecord,
        file: &StoredFile,
        parse: P,
        encode: E,
    ) -> (appended: StoreResult<ProtectedWrite<'_>>)
        requires
            forall|bytes: &[u8]| call_requires(parse, (bytes,)),
            forall|dto: &HistoryDto| call_requires(encode, (dto,)),
        ensures
            append(
                self.spec_root(),
                *publisher,
                *record,
                *file,
                parse,
                encode,
                appended,
            ),
    {
        let loaded = self.load_dto(file, parse);
        assert(file_load(self.spec_root(), *file, parse, loaded));
        let earlier = match loaded {
            Ok(earlier) => earlier,
            Err(e) => return Err(e),
        };
        let prepended = prepend_record(earlier, record);
        let dto = &prepended;
        let encoded = encode(dto);
        assert(call_ensures(encode, (dto,), encoded));
        let bytes = match encoded {
            Ok(bytes) => bytes,
            Err(why) => return Err(prefixed("encode history: ", why.as_str())),
        };
        self.root.write_encoded(self.root.history_path(publisher), bytes.as_slice())
    }
}

/// A shell that parses what it encodes: whatever `encode` makes of a file,
/// `parse` makes that file of it again.
pub open spec fn is_history_codec<
    P: FnOnce(&[u8]) -> Result<HistoryDto, String>,
    E: FnOnce(&HistoryDto) -> Result<Vec<u8>, String>,
>(parse: P, encode: E) -> bool {
    forall|
        dto: &HistoryDto,
        encoded: Vec<u8>,
        bytes: &[u8],
        parsed: Result<HistoryDto, String>,
    |
        #[trigger] call_ensures(encode, (dto,), Ok(encoded)) && #[trigger] call_ensures(
            parse,
            (bytes,),
            parsed,
        ) && bytes@ == encoded@ ==> (parsed matches Ok(d) && d.says_what(*dto))
}

/// Reading gives back what was written: once the file with an appended record is
/// on disk, it loads, and its history is that record in front of the history
/// that was there.
pub proof fn law_appended_record_survives_reload<
    P: FnOnce(&[u8]) -> Result<HistoryDto, String>,
    E: FnOnce(&HistoryDto) -> Result<Vec<u8>, String>,
>(
    root: StoreRoot,
    publisher: PublisherPubkey,
    earlier: Option<HistoryDto>,
    history: Seq<RetainedManifestRecord>,
    record: RetainedManifestRecord,
    encode: E,
    write: ProtectedWrite<'_>,
    parse: P,
    loaded: StoreResult<Option<HistoryDto>>,
    read: Seq<RetainedManifestRecord>,
)
    requires
        match earlier {
            Some(d) => record_history(d.records@, history),
            None => history.len() == 0,
        },
        file_write(root, publisher, earlier, record, encode, Ok(write)),
        is_history_codec(parse, encode),
        file_load(root, StoredFile::Sealed(write.envelope), parse, loaded),
    ensures
        loaded matches Ok(Some(d)) && record_history(d.records@, seq![record] + history)
            && all_sound(d.records@) && (record_history(d.records@, read) ==> read == seq![record]
            + history),
{
    let (dto, encoded) = choose|dto: &HistoryDto, encoded: Result<Vec<u8>, String>|
        {
            &&& is_prepended(earlier, record, *dto)
            &&& #[trigger] call_ensures(encode, (dto,), encoded)
            &&& encoded matches Ok(bytes)
            &&& root::protects(
                root,
                "history"@,
                root::history_file(publisher),
                bytes@,
                Ok(write),
            )
        };
    let payload = encoded->Ok_0@;
    let (bytes, parsed) = choose|bytes: &[u8], parsed: Result<HistoryDto, String>|
        bytes@ == payload && #[trigger] call_ensures(parse, (bytes,), parsed) && file_outcome(
            parsed,
            loaded,
        );
    assert(call_ensures(encode, (dto,), Ok(encoded->Ok_0)));
    let read_dto = parsed->Ok_0;
    assert(read_dto.says_what(*dto));
    let records = read_dto.records@;
    let rest = dto.records@.skip(1);
    assert(record_history(rest, history)) by {
        match earlier {
            Some(d) => assert(rest == d.records@),
            None => assert(rest.len() == 0),
        }
    }
    let appended = seq![record] + history;
    assert forall|i: int| 0 <= i < records.len() implies (#[trigger] records[i]).records(
        appended[i],
    ) by {
        assert(records[i].says_what(dto.records@[i]));
        if i > 0 {
            assert(rest[i - 1] == dto.records@[i]);
            assert(rest[i - 1].records(history[i - 1]));
        }
    }
    assert(record_history(records, appended));
    assert forall|i: int| 0 <= i < records.len() implies is_sound(#[trigger] records[i]) by {
        assert(records[i].records(appended[i]));
    }
    if record_history(records, read) {
        assert forall|i: int| 0 <= i < read.len() implies read[i] == appended[i] by {
            assert(records[i].records(read[i]));
            dto::law_manifest_record_round_trips(records[i], read[i], appended[i]);
        }
        assert(read =~= appended);
    }
}

/// What is found in a store's files where the history of `publisher` belongs.
pub open spec fn records_file(
    files: Map<(Seq<char>, Seq<char>), StoredFile>,
    publisher: PublisherPubkey,
) -> StoredFile {
    root::file_at(files, "history"@, root::history_file(publisher))
}

/// A file keeps `history`: it always reads as the records of that history, or as
/// none where the history is empty.
pub open spec fn keeps<P: FnOnce(&[u8]) -> Result<HistoryDto, String>>(
    root: StoreRoot,
    file: StoredFile,
    parse: P,
    history: Seq<RetainedManifestRecord>,
) -> bool {
    forall|loaded: StoreResult<Option<HistoryDto>>| #[trigger]
        file_load(root, file, parse, loaded) ==> match loaded {
            Ok(Some(d)) => record_history(d.records@, history),
            Ok(None) => history.len() == 0,
            Err(_) => false,
        }
}

/// A file that keeps a history loads as that history.
pub proof fn law_kept_history_is_loaded<P: FnOnce(&[u8]) -> Result<HistoryDto, String>>(
    root: StoreRoot,
    file: StoredFile,
    parse: P,
    history: Seq<RetainedManifestRecord>,
    loaded: StoreResult<PublisherHistory>,
)
    requires
        keeps(root, file, parse, history),
        history_load(root, file, parse, loaded),
    ensures
        loaded matches Ok(h) && h@ == history,
{
    let dto = choose|dto: StoreResult<Option<HistoryDto>>| #[trigger]
        file_load(root, file, parse, dto) && match dto {
            Ok(Some(d)) => match loaded {
                Ok(h) => record_history(d.records@, h@),
                Err(e) => !all_sound(d.records@) && records_failure(d.records@, e.0@),
            },
            Ok(None) => loaded matches Ok(h) && h@.len() == 0,
            Err(e) => loaded == Err::<PublisherHistory, StoreError>(e),
        };
    if let Ok(Some(d)) = dto {
        let records = d.records@;
        assert forall|i: int| 0 <= i < records.len() implies is_sound(#[trigger] records[i]) by {
            assert(records[i].records(history[i]));
        }
        let read = loaded->Ok_0@;
        assert forall|i: int| 0 <= i < read.len() implies read[i] == history[i] by {
            assert(records[i].records(read[i]));
            assert(records[i].records(history[i]));
            dto::law_manifest_record_round_trips(records[i], read[i], history[i]);
        }
        assert(read =~= history);
    } else {
        assert(loaded->Ok_0@ =~= history);
    }
}

/// A missing file keeps the empty history.
pub proof fn law_missing_file_keeps_nothing<P: FnOnce(&[u8]) -> Result<HistoryDto, String>>(
    root: StoreRoot,
    parse: P,
)
    ensures
        keeps(root, StoredFile::Missing, parse, seq![]),
{
}

/// Appending is exact: where the file of a publisher keeps a history, it keeps
/// the record in front of that history once it is appended, and as before where
/// appending fails. The files of the other publishers, and the records of all
/// sites, stay as they are.
pub proof fn law_append_is_exact<
    P: FnOnce(&[u8]) -> Result<HistoryDto, String>,
    E: FnOnce(&HistoryDto) -> Result<Vec<u8>, String>,
>(
    root: StoreRoot,
    files: Map<(Seq<char>, Seq<char>), StoredFile>,
    publisher: PublisherPubkey,
    history: Seq<RetainedManifestRecord>,
    record: RetainedManifestRecord,
    parse: P,
    encode: E,
    appended: StoreResult<ProtectedWrite<'_>>,
    other: PublisherPubkey,
    site: Seq<char>,
)
    requires
        is_history_codec(parse, encode),
        keeps(root, records_file(files, publisher), parse, history),
        append(root, publisher, record, records_file(files, publisher), parse, encode, appended),
    ensures
        appended is Ok ==> keeps(
            root,
            records_file(root::after_write(files, appended), publisher),
            parse,
            seq![record] + history,
        ),
        appended is Err ==> root::after_write(files, appended) == files,
        other != publisher ==> records_file(root::after_write(files, appended), other)
            == records_file(files, other),
        root::file_at(
            root::after_write(files, appended),
            "identities"@,
            root::identity_file(site),
        ) == root::file_at(files, "identities"@, root::identity_file(site)),
{
    let found = choose|found: StoreResult<Option<HistoryDto>>| #[trigger]
        file_load(root, records_file(files, publisher), parse, found) && match found {
            Err(e) => appended == Err::<ProtectedWrite<'_>, StoreError>(e),
            Ok(earlier) => file_write(root, publisher, earlier, record, encode, appended),
        };
    reveal_strlit("identities");
    reveal_strlit("history");
    assert("identities"@.len() != "history"@.len());
    if other != publisher {
        root::law_publishers_have_their_own_files(publisher, other);
    }
    if let Ok(write) = appended {
        let after = records_file(root::after_write(files, appended), publisher);
        assert(after == StoredFile::Sealed(write.envelope));
        assert forall|loaded: StoreResult<Option<HistoryDto>>| #[trigger]
            file_load(root, after, parse, loaded) implies match loaded {
            Ok(Some(d)) => record_history(d.records@, seq![record] + history),
            Ok(None) => false,
            Err(_) => false,
        } by {
            law_appended_record_survives_reload(
                root,
                publisher,
                found->Ok_0,
                history,
                record,
                encode,
                write,
                parse,
                loaded,
                history,
            );
        }
    }
}

/// A file that does not verify is never appended to: appending gives the error
/// that reading gives, and every file stays as it is.
pub proof fn law_unverified_history_is_untouched<
    P: FnOnce(&[u8]) -> Result<HistoryDto, String>,
    E: FnOnce(&HistoryDto) -> Result<Vec<u8>, String>,
>(
    root: StoreRoot,
    files: Map<(Seq<char>, Seq<char>), StoredFile>,
    publisher: PublisherPubkey,
    record: RetainedManifestRecord,
    parse: P,
    encode: E,
    appended: StoreResult<ProtectedWrite<'_>>,
)
    requires
        root.content_of(records_file(files, publisher)) is None,
        append(root, publisher, record, records_file(files, publisher), parse, encode, appended),
    ensures
        appended matches Err(e) && root.read_failure(records_file(files, publisher), e.0@),
        root::after_write(files, appended) == files,
{
}

/// The files and a store in memory keep the same history of every publisher.
pub open spec fn keep_the_same<P: FnOnce(&[u8]) -> Result<HistoryDto, String>>(
    root: StoreRoot,
    files: Map<(Seq<char>, Seq<char>), StoredFile>,
    parse: P,
    memory: MemoryHistoryStore,
) -> bool {
    forall|publisher: PublisherPubkey|
        keeps(
            root,
            #[trigger] records_file(files, publisher),
            parse,
            memory.history_for(publisher),
        )
}

/// The durable store is the store in memory, written to files: where the two
/// keep the same, they keep the same once a record is appended to both, to
/// whatever publisher.
pub proof fn law_append_keeps_the_same<
    P: FnOnce(&[u8]) -> Result<HistoryDto, String>,
    E: FnOnce(&HistoryDto) -> Result<Vec<u8>, String>,
>(
    root: StoreRoot,
    files: Map<(Seq<char>, Seq<char>), StoredFile>,
    publisher: PublisherPubkey,
    record: RetainedManifestRecord,
    parse: P,
    encode: E,
    write: ProtectedWrite<'_>,
    before: MemoryHistoryStore,
    after: MemoryHistoryStore,
)
    requires
        is_history_codec(parse, encode),
        keep_the_same(root, files, parse, before),
        append(root, publisher, record, records_file(files, publisher), parse, encode, Ok(write)),
        io::is_appended(before, publisher, record, after),
    ensures
        keep_the_same(root, root::after_write(files, Ok(write)), parse, after),
{
    let written = root::after_write(files, Ok::<ProtectedWrite<'_>, StoreError>(write));
    assert forall|other: PublisherPubkey|
        keeps(root, #[trigger] records_file(written, other), parse, after.history_for(other)) by {
        law_append_is_exact(
            root,
            files,
            publisher,
            before.history_for(publisher),
            record,
            parse,
            encode,
            Ok(write),
            other,
            seq![],
        );
        assert(keeps(root, records_file(files, other), parse, before.history_for(other)));
    }
}

/// The file that keeps one more record has it in front of the records of the
/// earlier file, which stay as they are and in their order.
pub proof fn law_record_goes_in_front(
    earlier: HistoryDto,
    record: RetainedManifestRecord,
    dto: HistoryDto,
    i: int,
)
    requires
        call_ensures(prepend_record, (Some(earlier), &record), dto),
    ensures
        dto.v == 1,
        dto.records@.len() == earlier.records@.len() + 1,
        dto.records@[0].issued_at == record.issued_at,
        dto.records@[0].runtime_pubkey == record.runtime_pubkey,
        0 <= i < earlier.records@.len() ==> dto.records@[i + 1] == earlier.records@[i],
{
    let rest = dto.records@.skip(1);
    assert(rest == earlier.records@);
    if 0 <= i < earlier.records@.len() {
        assert(rest[i] == dto.records@[i + 1]);
    }
}

/// A history is read record by record: each of its records is that of the entry
/// in its place, none is left out, and one unsound entry refuses the whole.
pub proof fn law_history_is_read_entry_by_entry(
    dtos: &Vec<ManifestRecordDto>,
    history: PublisherHistory,
    i: int,
)
    requires
        call_ensures(read_records, (dtos,), Ok(history)),
        0 <= i < dtos@.len(),
    ensures
        history@.len() == dtos@.len(),
        history@[i].issued_at == dtos@[i].issued_at,
        history@[i].runtime_pubkey == dtos@[i].runtime_pubkey,
        crate::encoding::hex_lower(history@[i].manifest_payload_hash@)
            == dtos@[i].payload_hash_hex@,
{
    assert(dtos@[i].records(history@[i]));
}

/// What is loaded of a publisher is what its file holds. A missing file is an
/// empty history; a file that does not read, does not parse or is of an unknown
/// version is an error; any other gives the records of the parsed file, in their
/// order, unless one of them is unsound.
pub proof fn law_history_is_loaded_from_its_file<P: FnOnce(&[u8]) -> Result<HistoryDto, String>>(
    store: FileHistoryStore,
    root: StoreRoot,
    file: StoredFile,
    parse: P,
    loaded: StoreResult<PublisherHistory>,
    read: Result<Option<Vec<u8>>, StoreError>,
)
    requires
        store.spec_root() == root,
        call_ensures(FileHistoryStore::load_history::<P>, (&store, &file, parse), loaded),
        call_ensures(StoreRoot::read_protected, (&root, &file), read),
    ensures
        match read {
            Err(_) => loaded is Err,
            Ok(None) => loaded matches Ok(h) && h@.len() == 0,
            Ok(Some(payload)) => exists|bytes: &[u8], parsed: Result<HistoryDto, String>|
                {
                    &&& bytes@ == payload@
                    &&& #[trigger] call_ensures(parse, (bytes,), parsed)
                    &&& parsed is Err || parsed->Ok_0.v != 1 ==> loaded is Err
                    &&& loaded matches Ok(h) ==> {
                        &&& h@.len() == parsed->Ok_0.records@.len()
                        &&& forall|i: int|
                            #![trigger h@[i]]
                            0 <= i < h@.len() ==> {
                                &&& h@[i].issued_at == parsed->Ok_0.records@[i].issued_at
                                &&& h@[i].runtime_pubkey == parsed->Ok_0.records@[i].runtime_pubkey
                                &&& crate::encoding::hex_lower(h@[i].manifest_payload_hash@)
                                    == parsed->Ok_0.records@[i].payload_hash_hex@
                            }
                    }
                    &&& parsed is Ok && parsed->Ok_0.v == 1 && (forall|i: int|
                        #![trigger parsed->Ok_0.records@[i]]
                        0 <= i < parsed->Ok_0.records@.len() ==> is_sound(
                            parsed->Ok_0.records@[i],
                        )) ==> loaded is Ok
                },
        },
{
    let dto = choose|dto: StoreResult<Option<HistoryDto>>| #[trigger]
        file_load(root, file, parse, dto) && match dto {
            Ok(Some(d)) => match loaded {
                Ok(h) => record_history(d.records@, h@),
                Err(e) => !all_sound(d.records@) && records_failure(d.records@, e.0@),
            },
            Ok(None) => loaded matches Ok(h) && h@.len() == 0,
            Err(e) => loaded == Err::<PublisherHistory, StoreError>(e),
        };
    if let Ok(Some(payload)) = read {
        let (bytes, parsed) = choose|bytes: &[u8], parsed: Result<HistoryDto, String>|
            bytes@ == payload@ && #[trigger] call_ensures(parse, (bytes,), parsed) && file_outcome(
                parsed,
                dto,
            );
        assert(call_ensures(parse, (bytes,), parsed));
        if let Ok(h) = loaded {
            let records = parsed->Ok_0.records@;
            assert forall|i: int|
                #![trigger h@[i]]
                0 <= i < h@.len() implies records[i].records(h@[i]) by {
                assert(records[i].records(h@[i]));
            }
        }
    }
}

/// What is appended goes to the file of its own publisher, and only where the
/// earlier file reads.
pub proof fn law_append_goes_to_its_publisher<
    P: FnOnce(&[u8]) -> Result<HistoryDto, String>,
    E: FnOnce(&HistoryDto) -> Result<Vec<u8>, String>,
>(
    store: FileHistoryStore,
    root: StoreRoot,
    publisher: PublisherPubkey,
    record: RetainedManifestRecord,
    file: StoredFile,
    parse: P,
    encode: E,
    write: ProtectedWrite<'_>,
    read: Result<Option<Vec<u8>>, StoreError>,
)
    requires
        store.spec_root() == root,
        call_ensures(
            FileHistoryStore::append_record::<P, E>,
            (&store, &publisher, &record, &file, parse, encode),
            Ok(write),
        ),
        call_ensures(StoreRoot::read_protected, (&root, &file), read),
    ensures
        read is Ok,
        write.path.directory@ == "history"@,
        write.path.file@ == crate::encoding::base64url(publisher.0@) + ".json"@,
{
}

/// A record is appended to what the file holds, or appending fails: over a file
/// that reads it succeeds only where the file parses and is of the version that
/// is known, and what is written keeps the record in front of the parsed ones.
pub proof fn law_record_is_appended_to_the_file<
    P: FnOnce(&[u8]) -> Result<HistoryDto, String>,
    E: FnOnce(&HistoryDto) -> Result<Vec<u8>, String>,
>(
    store: FileHistoryStore,
    root: StoreRoot,
    publisher: PublisherPubkey,
    record: RetainedManifestRecord,
    file: StoredFile,
    parse: P,
    encode: E,
    write: ProtectedWrite<'_>,
    payload: Vec<u8>,
)
    requires
        store.spec_root() == root,
        call_ensures(
            FileHistoryStore::append_record::<P, E>,
            (&store, &publisher, &record, &file, parse, encode),
            Ok(write),
        ),
        call_ensures(StoreRoot::read_protected, (&root, &file), Ok(Some(payload))),
    ensures
        exists|bytes: &[u8], earlier: HistoryDto, dto: &HistoryDto, encoded: Vec<u8>|
            {
                &&& bytes@ == payload@
                &&& #[trigger] call_ensures(parse, (bytes,), Ok(earlier))
                &&& earlier.v == 1
                &&& #[trigger] call_ensures(encode, (dto,), Ok(encoded))
                &&& root.content_of(StoredFile::Sealed(write.envelope)) == Some(Some(encoded@))
                &&& dto.v == 1
                &&& dto.records@.len() == earlier.records@.len() + 1
                &&& dto.records@[0].records(record)
                &&& dto.records@.skip(1) == earlier.records@
            },
{
    let loaded = choose|loaded: StoreResult<Option<HistoryDto>>| #[trigger]
        file_load(root, file, parse, loaded) && (loaded matches Ok(earlier) && file_write(
            root,
            publisher,
            earlier,
            record,
            encode,
            Ok(write),
        ));
    let (bytes, parsed) = choose|bytes: &[u8], parsed: Result<HistoryDto, String>|
        bytes@ == payload@ && #[trigger] call_ensures(parse, (bytes,), parsed) && file_outcome(
            parsed,
            loaded,
        );
    let earlier = parsed->Ok_0;
    assert(call_ensures(parse, (bytes,), Ok(earlier)));
    let (dto, encoded) = choose|dto: &HistoryDto, encoded: Result<Vec<u8>, String>|
        {
            &&& is_prepended(Some(earlier), record, *dto)
            &&& #[trigger] call_ensures(encode, (dto,), encoded)
            &&& encoded matches Ok(bytes)
            &&& root::protects(
                root,
                "history"@,
                root::history_file(publisher),
                bytes@,
                Ok(write),
            )
        };
    assert(call_ensures(encode, (dto,), Ok(encoded->Ok_0)));
    assert(dto.records@.skip(1).len() == dto.records@.len() - 1);
}

} // verus!
