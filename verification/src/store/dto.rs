//! The records a store writes.
//!
//! An identity record of version 2 names how it was established. Version 1
//! predates observations and has a flag instead; it is read, its meaning is
//! kept, and it is written again as version 2. Anything else is corruption.
use crate::encoding;
use crate::encoding::{hex_decode, hex_encode};
use crate::io::StoreError;
use crate::protocol::{EntangledTimestamp, PublisherPubkey, RetainedManifestRecord, RuntimePubkey};
use crate::text;
use crate::text::{decimal_text, joined};
use crate::trust::{RetainedIdentity, RetainedProvenance};
use vstd::prelude::*;
use vstd::string::*;

verus! {

/// The current version of identity records.
pub const IDENTITY_V: u32 = 2;

/// The version before provenance was recorded. It is still read.
pub const IDENTITY_V1: u32 = 1;

/// The current version of history files.
pub const HISTORY_V: u32 = 1;

/// An identity record.
#[derive(Clone, Debug, PartialEq, Eq)]
pub struct IdentityDto {
    /// The version of the record.
    pub v: u32,
    /// The retained publisher key.
    pub pubkey: PublisherPubkey,
    /// Version 2: how the record was established.
    pub provenance: Option<String>,
    /// Version 1: whether the key was verified externally.
    pub externally_verified: Option<bool>,
    /// The keys that this one replaced, newest first.
    pub replaced_pubkeys: Vec<PublisherPubkey>,
}

/// The name of a provenance.
pub open spec fn provenance_name(provenance: RetainedProvenance) -> Seq<char> {
    match provenance {
        RetainedProvenance::Observed => "observed"@,
        RetainedProvenance::Pinned => "pinned"@,
        RetainedProvenance::ExternallyVerified => "verified"@,
    }
}

/// The provenance of a name.
pub open spec fn named_provenance(name: Seq<char>) -> Option<RetainedProvenance> {
    if name == "observed"@ {
        Some(RetainedProvenance::Observed)
    } else if name == "pinned"@ {
        Some(RetainedProvenance::Pinned)
    } else if name == "verified"@ {
        Some(RetainedProvenance::ExternallyVerified)
    } else {
        None
    }
}

/// The name of a provenance.
pub fn provenance_str(provenance: RetainedProvenance) -> (name: &'static str)
    ensures
        name@ == provenance_name(provenance),
{
    match provenance {
        RetainedProvenance::Observed => "observed",
        RetainedProvenance::Pinned => "pinned",
        RetainedProvenance::ExternallyVerified => "verified",
    }
}

/// A text that ends in a number.
fn numbered(before: &str, number: u32) -> (message: String)
    ensures
        message@ == before@ + text::decimal(number as nat),
{
    joined(before, decimal_text(number as u64).as_str())
}

impl IdentityDto {
    /// The provenance that the record states, if its shape is that of its
    /// version.
    pub open spec fn stated_provenance(&self) -> Option<RetainedProvenance> {
        match (self.provenance, self.externally_verified) {
            (Some(name), None) => if self.v == IDENTITY_V {
                named_provenance(name@)
            } else {
                None
            },
            (None, Some(verified)) => if self.v == IDENTITY_V1 {
                Some(
                    if verified {
                        RetainedProvenance::ExternallyVerified
                    } else {
                        RetainedProvenance::Pinned
                    },
                )
            } else {
                None
            },
            _ => None,
        }
    }

    /// The identity that the record states.
    pub open spec fn stated_identity(&self) -> Option<RetainedIdentity> {
        match self.stated_provenance() {
            Some(provenance) => Some(RetainedIdentity { pubkey: self.pubkey, provenance }),
            None => None,
        }
    }

    /// What is said of a record whose shape is not that of its version.
    pub open spec fn shape_text(&self) -> Seq<char> {
        "identity record v"@ + text::decimal(self.v as nat)
            + " carries an invalid provenance shape"@
    }

    /// The two records say the same.
    pub open spec fn says_what(&self, other: IdentityDto) -> bool {
        &&& self.v == other.v
        &&& self.pubkey == other.pubkey
        &&& match (self.provenance, other.provenance) {
            (Some(a), Some(b)) => a@ == b@,
            (None, None) => true,
            _ => false,
        }
        &&& self.externally_verified == other.externally_verified
        &&& self.replaced_pubkeys@ == other.replaced_pubkeys@
    }

    /// This is a current record of `identity` and its replaced keys.
    pub open spec fn records(
        &self,
        identity: RetainedIdentity,
        replaced: Seq<PublisherPubkey>,
    ) -> bool {
        &&& self.v == IDENTITY_V
        &&& self.pubkey == identity.pubkey
        &&& self.provenance matches Some(name) && name@ == provenance_name(identity.provenance)
        &&& self.externally_verified is None
        &&& self.replaced_pubkeys@ == replaced
    }

    /// A current record of `identity` and its replaced keys.
    pub fn new(identity: &RetainedIdentity, replaced_pubkeys: Vec<PublisherPubkey>) -> (dto:
        IdentityDto)
        ensures
            dto.records(*identity, replaced_pubkeys@),
            dto.stated_identity() == Some(*identity),
    {
        let dto = IdentityDto {
            v: IDENTITY_V,
            pubkey: identity.pubkey,
            provenance: Some(provenance_str(identity.provenance).to_owned()),
            externally_verified: None,
            replaced_pubkeys,
        };
        proof {
            law_identity_record_round_trips(dto, *identity, replaced_pubkeys@);
        }
        dto
    }

    /// The identity that the record states. A shape that is not that of its
    /// version is corruption.
    pub fn to_identity(&self) -> (identity: Result<RetainedIdentity, StoreError>)
        ensures
            match identity {
                Ok(i) => self.stated_identity() == Some(i),
                Err(e) => self.stated_identity() is None && e.0@ == self.shape_text(),
            },
    {
        let provenance = match (&self.provenance, self.externally_verified) {
            (Some(name), None) => if self.v != IDENTITY_V {
                None
            } else if *name == "observed".to_owned() {
                Some(RetainedProvenance::Observed)
            } else if *name == "pinned".to_owned() {
                Some(RetainedProvenance::Pinned)
            } else if *name == "verified".to_owned() {
                Some(RetainedProvenance::ExternallyVerified)
            } else {
                None
            },
            (None, Some(verified)) => if self.v != IDENTITY_V1 {
                None
            } else if verified {
                Some(RetainedProvenance::ExternallyVerified)
            } else {
                Some(RetainedProvenance::Pinned)
            },
            _ => None,
        };
        match provenance {
            Some(provenance) => Ok(RetainedIdentity { pubkey: self.pubkey, provenance }),
            None => {
                let mut message = numbered("identity record v", self.v);
                message.append(" carries an invalid provenance shape");
                Err(StoreError(message))
            },
        }
    }

    /// Refuse an unknown version.
    pub fn check_version(&self) -> (checked: Result<(), StoreError>)
        ensures
            match checked {
                Ok(()) => self.v == IDENTITY_V || self.v == IDENTITY_V1,
                Err(e) => self.v != IDENTITY_V && self.v != IDENTITY_V1 && e.0@
                    == "unsupported identity record version "@ + text::decimal(
                        self.v as nat,
                    ),
            },
    {
        if self.v != IDENTITY_V && self.v != IDENTITY_V1 {
            return Err(StoreError(numbered("unsupported identity record version ", self.v)));
        }
        Ok(())
    }
}

/// A record read back states the identity it was made of.
pub proof fn law_identity_record_round_trips(
    dto: IdentityDto,
    identity: RetainedIdentity,
    replaced: Seq<PublisherPubkey>,
)
    requires
        dto.records(identity, replaced),
    ensures
        dto.stated_identity() == Some(identity),
{
    reveal_strlit("observed");
    reveal_strlit("pinned");
    reveal_strlit("verified");
    assert("observed"@[0] != "pinned"@[0]);
    assert("observed"@[0] != "verified"@[0]);
    assert("pinned"@[0] != "verified"@[0]);
}

/// A version 1 record keeps its meaning: it was a pin or a verification, and
/// never an observation.
pub proof fn law_version_one_is_read_losslessly(dto: IdentityDto, verified: bool)
    requires
        dto.v == IDENTITY_V1,
        dto.provenance is None,
        dto.externally_verified == Some(verified),
    ensures
        dto.stated_identity() == Some(
            RetainedIdentity {
                pubkey: dto.pubkey,
                provenance: if verified {
                    RetainedProvenance::ExternallyVerified
                } else {
                    RetainedProvenance::Pinned
                },
            },
        ),
{
}

/// A record of one retained manifest.
#[derive(Clone, Debug, PartialEq, Eq)]
pub struct ManifestRecordDto {
    /// When its canary was issued.
    pub issued_at: EntangledTimestamp,
    /// The runtime key its canary authorized.
    pub runtime_pubkey: RuntimePubkey,
    /// The hash of its payload, in lowercase hex.
    pub payload_hash_hex: String,
}

/// A text that is the lowercase hex of something.
pub open spec fn is_hex(text: Seq<char>) -> bool {
    exists|bytes: Seq<u8>| #[trigger] encoding::hex_lower(bytes) == text
}

impl ManifestRecordDto {
    /// This is the record of `record`.
    pub open spec fn records(&self, record: RetainedManifestRecord) -> bool {
        &&& self.issued_at == record.issued_at
        &&& self.runtime_pubkey == record.runtime_pubkey
        &&& self.payload_hash_hex@ == encoding::hex_lower(record.manifest_payload_hash@)
    }

    /// What is said of a record whose hash is not thirty-two bytes of lowercase
    /// hex.
    pub open spec fn hash_failure(&self, message: Seq<char>) -> bool {
        if !encoding::decoder_takes(self.payload_hash_hex@) || is_hex(self.payload_hash_hex@) {
            message == "payload_hash_hex is not 32 bytes"@
        } else {
            "payload_hash_hex not hex: "@.is_prefix_of(message)
        }
    }

    /// The record of `record`.
    pub fn from_record(record: &RetainedManifestRecord) -> (dto: ManifestRecordDto)
        ensures
            dto.records(*record),
    {
        ManifestRecordDto {
            issued_at: record.issued_at,
            runtime_pubkey: record.runtime_pubkey,
            payload_hash_hex: hex_encode(&record.manifest_payload_hash),
        }
    }

    /// The two records say the same.
    pub open spec fn says_what(&self, other: ManifestRecordDto) -> bool {
        &&& self.issued_at == other.issued_at
        &&& self.runtime_pubkey == other.runtime_pubkey
        &&& self.payload_hash_hex@ == other.payload_hash_hex@
    }

    /// A copy of this record.
    pub fn duplicate(&self) -> (copy: ManifestRecordDto)
        ensures
            copy == *self,
    {
        ManifestRecordDto {
            issued_at: self.issued_at,
            runtime_pubkey: self.runtime_pubkey,
            payload_hash_hex: self.payload_hash_hex.clone(),
        }
    }

    /// The retained manifest that this is the record of. A hash that is not
    /// thirty-two bytes of lowercase hex is corruption.
    pub fn into_record(self) -> (record: Result<RetainedManifestRecord, StoreError>)
        ensures
            match record {
                Ok(r) => self.records(r),
                Err(e) => {
                    &&& forall|r: RetainedManifestRecord| #![trigger self.records(r)] !self.records(r)
                    &&& self.hash_failure(e.0@)
                },
            },
    {
        let text = self.payload_hash_hex.as_str();
        if text.as_bytes().len() > usize::MAX / 8 {
            proof {
                assert forall|r: RetainedManifestRecord| !#[trigger] self.records(r) by {
                    encoding::lemma_hex_text(r.manifest_payload_hash@);
                }
            }
            return Err(StoreError("payload_hash_hex is not 32 bytes".to_owned()));
        }
        let bytes = match hex_decode(text) {
            Ok(bytes) => bytes,
            Err(e) => {
                let message = joined("payload_hash_hex not hex: ", e.as_str());
                assert("payload_hash_hex not hex: "@.is_prefix_of(message@));
                return Err(StoreError(message));
            },
        };
        proof {
            assert forall|r: RetainedManifestRecord| #[trigger]
                self.records(r) implies r.manifest_payload_hash@ == bytes@ by {
                encoding::law_hex_is_injective(r.manifest_payload_hash@, bytes@);
            }
        }
        if bytes.len() != 32 {
            return Err(StoreError("payload_hash_hex is not 32 bytes".to_owned()));
        }
        Ok(
            RetainedManifestRecord {
                issued_at: self.issued_at,
                runtime_pubkey: self.runtime_pubkey,
                manifest_payload_hash: array_of(&bytes),
            },
        )
    }
}

/// Thirty-two bytes as an array.
fn array_of(bytes: &Vec<u8>) -> (array: [u8; 32])
    requires
        bytes@.len() == 32,
    ensures
        array@ == bytes@,
{
    let mut array: [u8; 32] = [0u8; 32];
    let mut i: usize = 0;
    while i < 32
        invariant
            i <= 32,
            bytes@.len() == 32,
            forall|j: int| 0 <= j < i ==> array@[j] == bytes@[j],
        decreases 32 - i,
    {
        array[i] = bytes[i];
        i += 1;
    }
    assert(array@ =~= bytes@);
    array
}

/// A record read back is the one that was written: no two retained manifests
/// have the same record.
pub proof fn law_manifest_record_round_trips(
    dto: ManifestRecordDto,
    a: RetainedManifestRecord,
    b: RetainedManifestRecord,
)
    requires
        dto.records(a),
        dto.records(b),
    ensures
        a == b,
{
    encoding::law_hex_is_injective(a.manifest_payload_hash@, b.manifest_payload_hash@);
    assert(a.manifest_payload_hash =~= b.manifest_payload_hash);
}

/// A history file.
#[derive(Clone, Debug, PartialEq, Eq)]
pub struct HistoryDto {
    /// The version of the file.
    pub v: u32,
    /// The records, newest first.
    pub records: Vec<ManifestRecordDto>,
}

impl HistoryDto {
    /// The two files say the same.
    pub open spec fn says_what(&self, other: HistoryDto) -> bool {
        &&& self.v == other.v
        &&& self.records@.len() == other.records@.len()
        &&& forall|i: int|
            0 <= i < self.records@.len() ==> (#[trigger] self.records@[i]).says_what(
                other.records@[i],
            )
    }

    /// Refuse an unknown version.
    pub fn check_version(&self) -> (checked: Result<(), StoreError>)
        ensures
            match checked {
                Ok(()) => self.v == HISTORY_V,
                Err(e) => self.v != HISTORY_V && e.0@ == "unsupported history version "@
                    + text::decimal(self.v as nat),
            },
    {
        if self.v != HISTORY_V {
            return Err(StoreError(numbered("unsupported history version ", self.v)));
        }
        Ok(())
    }
}

/// A provenance goes by its name: observed, pinned or verified.
pub proof fn law_provenance_goes_by_its_name(provenance: RetainedProvenance, name: &'static str)
    requires
        call_ensures(provenance_str, (provenance,), name),
    ensures
        provenance == RetainedProvenance::Observed ==> name@ == "observed"@,
        provenance == RetainedProvenance::Pinned ==> name@ == "pinned"@,
        provenance == RetainedProvenance::ExternallyVerified ==> name@ == "verified"@,
{
}

/// A record states an identity exactly in one of two shapes: of version two with
/// the name of a provenance and no flag, which it states; or of version one with
/// a flag and no name, which is a verification or a pin. The key is the record's
/// own.
pub proof fn law_record_states_its_identity(
    dto: IdentityDto,
    identity: Result<RetainedIdentity, StoreError>,
)
    requires
        call_ensures(IdentityDto::to_identity, (&dto,), identity),
    ensures
        identity matches Ok(i) ==> i.pubkey == dto.pubkey,
        identity is Ok <==> {
            ||| dto.v == 2 && dto.externally_verified is None && (dto.provenance matches Some(name)
                && (name@ == "observed"@ || name@ == "pinned"@ || name@ == "verified"@))
            ||| dto.v == 1 && dto.externally_verified is Some && dto.provenance is None
        },
        identity matches Ok(i) ==> {
            &&& dto.provenance matches Some(name) ==> (i.provenance == RetainedProvenance::Observed
                <==> name@ == "observed"@)
            &&& dto.provenance matches Some(name) ==> (i.provenance == RetainedProvenance::Pinned
                <==> name@ == "pinned"@)
            &&& dto.externally_verified matches Some(verified) ==> i.provenance == (if verified {
                RetainedProvenance::ExternallyVerified
            } else {
                RetainedProvenance::Pinned
            })
        },
{
    reveal_strlit("observed");
    reveal_strlit("pinned");
    reveal_strlit("verified");
    assert("observed"@[0] != "pinned"@[0]);
    assert("observed"@[0] != "verified"@[0]);
    assert("pinned"@[0] != "verified"@[0]);
}

/// What is written of an identity is read as that identity, with the keys it
/// replaced, in the current version.
pub proof fn law_new_record_is_read_back(
    identity: RetainedIdentity,
    replaced: Vec<PublisherPubkey>,
    dto: IdentityDto,
    read: Result<RetainedIdentity, StoreError>,
    checked: Result<(), StoreError>,
)
    requires
        call_ensures(IdentityDto::new, (&identity, replaced), dto),
        call_ensures(IdentityDto::to_identity, (&dto,), read),
        call_ensures(IdentityDto::check_version, (&dto,), checked),
    ensures
        read matches Ok(i) && i == identity,
        checked is Ok,
        dto.v == 2,
        dto.replaced_pubkeys@ == replaced@,
{
}

/// Only the versions one and two of identity records are known, and only version
/// one of history files.
pub proof fn law_known_versions(
    dto: IdentityDto,
    checked: Result<(), StoreError>,
    file: HistoryDto,
    file_checked: Result<(), StoreError>,
)
    requires
        call_ensures(IdentityDto::check_version, (&dto,), checked),
        call_ensures(HistoryDto::check_version, (&file,), file_checked),
    ensures
        checked is Ok <==> dto.v == 1 || dto.v == 2,
        file_checked is Ok <==> file.v == 1,
{
}

/// What is written of a retained manifest is read as that manifest.
pub proof fn law_manifest_record_is_read_back(
    record: RetainedManifestRecord,
    dto: ManifestRecordDto,
    read: Result<RetainedManifestRecord, StoreError>,
)
    requires
        call_ensures(ManifestRecordDto::from_record, (&record,), dto),
        call_ensures(ManifestRecordDto::into_record, (dto,), read),
    ensures
        dto.issued_at == record.issued_at,
        dto.runtime_pubkey == record.runtime_pubkey,
        dto.payload_hash_hex@.len() == 64,
        read matches Ok(r) && r == record,
{
    assert(dto.records(record));
    if let Ok(r) = read {
        law_manifest_record_round_trips(dto, r, record);
    }
}

} // verus!
