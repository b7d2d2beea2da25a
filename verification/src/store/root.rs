//! The root of a store: its paths, its protection mode and its key.
//!
//! Opening a store decides, from what is on disk, which key applies, whether
//! the recorded mode is the requested one, and what a first use writes.
use crate::crypto;
use crate::crypto::{draw, random_error_text};
use crate::encoding;
use crate::encoding::base64url_encode;
use crate::io::StoreError;
use crate::protocol;
use crate::protocol::{OnionAddress, PublisherPubkey};
use crate::store::protect;
use crate::store::protect::{
    derive_key, generate_integrity_key, prefixed, Envelope, Protection, ProtectionTag, Protector,
};
use crate::text::joined;
use std::path::PathBuf;
use vstd::prelude::*;
use vstd::string::*;

verus! {

/// A path of the file system, carried as it is.
#[verifier::external_type_specification]
#[verifier::external_body]
pub struct ExPathBuf(std::path::PathBuf);

/// The version of store metadata.
pub const META_V: u32 = 1;

/// Bytes in the salt of an encrypted store.
pub const SALT_LEN: usize = 16;

/// The metadata of a store, written at its first use.
#[derive(Clone, Debug, PartialEq, Eq)]
pub struct StoreMeta {
    /// The version of the metadata.
    pub v: u32,
    /// The protection mode.
    pub protection: ProtectionTag,
    /// The salt of an encrypted store, in base64url.
    pub salt_b64: Option<String>,
}

/// What is on disk of a store that is being opened.
#[derive(Debug)]
pub struct StoreFiles {
    /// The HMAC key, if there is one.
    pub key: Option<Vec<u8>>,
    /// The metadata, if there are any.
    pub meta: Option<StoreMeta>,
}

/// A file of a store that is to be read or written.
pub struct StorePath<'a> {
    /// The store's base directory.
    pub base: &'a PathBuf,
    /// The directory below it.
    pub directory: &'static str,
    /// The file in that directory.
    pub file: String,
}

/// A file that is to be written atomically.
pub struct ProtectedWrite<'a> {
    /// Where.
    pub path: StorePath<'a>,
    /// What.
    pub envelope: Envelope,
}

/// What was found where a protected file belongs.
#[derive(Debug)]
pub enum StoredFile {
    /// There is no file.
    Missing,
    /// The file is no envelope; why not.
    Undecodable(String),
    /// The file's envelope.
    Sealed(Envelope),
}

/// A store that is open.
pub struct StoreRoot {
    base: PathBuf,
    protector: Protector,
}

/// A store that is open once these files are written.
pub struct Opening {
    /// The store.
    pub root: StoreRoot,
    /// The HMAC key to write.
    pub new_key: Option<Vec<u8>>,
    /// The metadata to write.
    pub new_meta: Option<StoreMeta>,
}

/// The recorded mode, if there is one, is not `expected`.
pub open spec fn mode_differs(meta: Option<StoreMeta>, expected: ProtectionTag) -> bool {
    meta matches Some(m) && m.protection != expected
}

/// The error of a store that was initialized in the other mode.
pub open spec fn other_mode() -> Seq<char> {
    "store was initialized in a different protection mode"@
}

/// Refuse a store whose recorded mode is not `expected`. A store without
/// metadata has no recorded mode.
pub fn check_mode(meta: &Option<StoreMeta>, expected: ProtectionTag) -> (checked: Result<
    (),
    StoreError,
>)
    ensures
        match checked {
            Ok(()) => !mode_differs(*meta, expected),
            Err(e) => mode_differs(*meta, expected) && e.0@ == other_mode(),
        },
{
    if let Some(meta) = meta {
        if meta.protection != expected {
            return Err(
                StoreError("store was initialized in a different protection mode".to_owned()),
            );
        }
    }
    Ok(())
}

impl Opening {
    /// The store is open with `key` in integrity mode.
    pub open spec fn has_integrity_key(&self, key: Seq<u8>) -> bool {
        self.root.spec_protector() matches Protector::Integrity { key: k } && k@ == key
    }

    /// The store is open with the cipher key of `passphrase` and `salt`.
    pub open spec fn has_cipher_key(&self, passphrase: Seq<u8>, salt: Seq<u8>) -> bool {
        self.root.spec_protector() matches Protector::Encrypted { key: k } && k@
            == crypto::argon2id_key(passphrase, salt)
    }

    /// Nothing is to be written.
    pub open spec fn writes_nothing(&self) -> bool {
        self.new_key is None && self.new_meta is None
    }
}

/// The metadata of an integrity store.
pub open spec fn is_integrity_meta(meta: Option<StoreMeta>) -> bool {
    meta matches Some(m) && m.v == META_V && m.protection == ProtectionTag::Integrity
        && m.salt_b64 is None
}

/// The metadata of an encrypted store with `salt`.
pub open spec fn is_encrypted_meta(meta: Option<StoreMeta>, salt: Seq<u8>) -> bool {
    &&& meta matches Some(m)
    &&& m.v == META_V
    &&& m.protection == ProtectionTag::Encrypted
    &&& m.salt_b64 matches Some(text)
    &&& text@ == encoding::base64url(salt)
}

/// What opening in integrity mode gives.
pub open spec fn integrity_opening(
    base: PathBuf,
    files: StoreFiles,
    opened: Result<Opening, StoreError>,
) -> bool {
    if mode_differs(files.meta, ProtectionTag::Integrity) {
        opened matches Err(e) && e.0@ == other_mode()
    } else {
        match files.key {
            Some(key) => opened matches Ok(o) && o.root.spec_base() == base
                && o.has_integrity_key(key@) && o.writes_nothing(),
            None => match opened {
                Ok(o) => {
                    &&& o.root.spec_base() == base
                    &&& o.new_key matches Some(key)
                    &&& key@.len() == 32
                    &&& crypto::drawn(key@)
                    &&& o.has_integrity_key(key@)
                    &&& is_integrity_meta(o.new_meta)
                },
                Err(e) => "rng: "@.is_prefix_of(e.0@) && crypto::source_failed(32),
            },
        }
    }
}

/// What opening in encrypted mode gives where the salt is `salt`.
pub open spec fn salted_opening(
    base: PathBuf,
    passphrase: Seq<u8>,
    salt: Seq<u8>,
    opened: Result<Opening, StoreError>,
) -> bool {
    match opened {
        Ok(o) => crypto::argon2_takes(passphrase, salt) && o.root.spec_base() == base
            && o.has_cipher_key(passphrase, salt) && o.new_key is None,
        Err(e) => !crypto::argon2_takes(passphrase, salt) && "argon2: "@.is_prefix_of(e.0@),
    }
}

/// What opening in encrypted mode gives.
pub open spec fn encrypted_opening(
    base: PathBuf,
    files: StoreFiles,
    passphrase: Seq<u8>,
    opened: Result<Opening, StoreError>,
) -> bool {
    match files.meta {
        Some(meta) => if meta.protection != ProtectionTag::Encrypted {
            opened matches Err(e) && e.0@ == other_mode()
        } else {
            match meta.salt_b64 {
                None => opened matches Err(e) && e.0@ == "encrypted store missing salt"@,
                Some(text) => match protect::decoded(text@) {
                    None => opened matches Err(e) && "salt base64: "@.is_prefix_of(e.0@),
                    Some(salt) => salted_opening(base, passphrase, salt, opened) && (opened
                        matches Ok(o) ==> o.new_meta is None),
                },
            }
        },
        None => {
            ||| opened matches Err(e) && "rng: "@.is_prefix_of(e.0@) && crypto::source_failed(
                SALT_LEN,
            )
            ||| exists|salt: Seq<u8>|
                salt.len() == SALT_LEN && crypto::drawn(salt) && #[trigger] salted_opening(
                    base,
                    passphrase,
                    salt,
                    opened,
                ) && (opened matches Ok(o) ==> is_encrypted_meta(o.new_meta, salt))
        },
    }
}

impl StoreRoot {
    /// The base directory.
    pub closed spec fn spec_base(&self) -> PathBuf {
        self.base
    }

    /// The protection mode with its key.
    pub closed spec fn spec_protector(&self) -> Protector {
        self.protector
    }

    /// What is kept where `file` was found: `Some(None)` where nothing is,
    /// `None` where what is there does not verify.
    pub open spec fn content_of(&self, file: StoredFile) -> Option<Option<Seq<u8>>> {
        match file {
            StoredFile::Missing => Some(None),
            StoredFile::Undecodable(_) => None,
            StoredFile::Sealed(envelope) => match self.spec_protector().payload_of(envelope) {
                Some(payload) => Some(Some(payload)),
                None => None,
            },
        }
    }

    /// The text of what is wrong with a file that does not read.
    pub open spec fn read_failure(&self, file: StoredFile, message: Seq<char>) -> bool {
        match file {
            StoredFile::Missing => false,
            StoredFile::Undecodable(why) => message == undecodable(self.spec_protector().mode())
                + why@,
            StoredFile::Sealed(envelope) => self.spec_protector().open_failure(envelope, message),
        }
    }

    /// Open a store in integrity mode. At first use a random key is generated,
    /// and the key and the metadata are to be written; later the key on disk
    /// applies. A store recorded in the other mode is refused, and nothing of it
    /// is overwritten.
    pub fn open_integrity(base: PathBuf, files: StoreFiles) -> (opened: Result<Opening, StoreError>)
        ensures
            integrity_opening(base, files, opened),
    {
        if let Err(e) = check_mode(&files.meta, ProtectionTag::Integrity) {
            return Err(e);
        }
        match files.key {
            Some(key) => Ok(
                Opening {
                    root: StoreRoot { base, protector: Protector::Integrity { key } },
                    new_key: None,
                    new_meta: None,
                },
            ),
            None => match generate_integrity_key() {
                Ok(key) => Ok(StoreRoot::initialize_integrity(base, key)),
                Err(e) => Err(e),
            },
        }
    }

    /// A new integrity store with a given key.
    pub fn initialize_integrity(base: PathBuf, key: Vec<u8>) -> (opening: Opening)
        ensures
            opening.root.spec_base() == base,
            opening.has_integrity_key(key@),
            opening.new_key matches Some(k) && k@ == key@,
            is_integrity_meta(opening.new_meta),
    {
        let copy = copied_bytes(&key);
        Opening {
            root: StoreRoot { base, protector: Protector::Integrity { key } },
            new_key: Some(copy),
            new_meta: Some(
                StoreMeta { v: META_V, protection: ProtectionTag::Integrity, salt_b64: None },
            ),
        }
    }

    /// Open a store in encrypted mode, with the key derived from `passphrase`
    /// and the store's salt. At first use a random salt is generated, and the
    /// metadata are to be written.
    pub fn open_encrypted(base: PathBuf, passphrase: &str, files: StoreFiles) -> (opened: Result<
        Opening,
        StoreError,
    >)
        ensures
            encrypted_opening(base, files, passphrase.spec_bytes(), opened),
    {
        match files.meta {
            Some(meta) => {
                if meta.protection != ProtectionTag::Encrypted {
                    return Err(
                        StoreError(
                            "store was initialized in a different protection mode".to_owned(),
                        ),
                    );
                }
                let text = match meta.salt_b64 {
                    Some(text) => text,
                    None => return Err(StoreError("encrypted store missing salt".to_owned())),
                };
                let salt = match protect::decode_text("salt base64: ", text.as_str()) {
                    Ok(salt) => salt,
                    Err(e) => return Err(e),
                };
                match derive_key(passphrase, salt.as_slice()) {
                    Ok(key) => Ok(
                        Opening {
                            root: StoreRoot { base, protector: Protector::Encrypted { key } },
                            new_key: None,
                            new_meta: None,
                        },
                    ),
                    Err(e) => Err(e),
                }
            },
            None => match draw(SALT_LEN) {
                Ok(salt) => StoreRoot::initialize_encrypted(base, passphrase, salt.as_slice()),
                Err(e) => Err(prefixed("rng: ", random_error_text(&e).as_str())),
            },
        }
    }

    /// A new encrypted store with a given salt.
    pub fn initialize_encrypted(base: PathBuf, passphrase: &str, salt: &[u8]) -> (opened: Result<
        Opening,
        StoreError,
    >)
        requires
            salt@.len() == SALT_LEN,
        ensures
            salted_opening(base, passphrase.spec_bytes(), salt@, opened),
            opened matches Ok(o) ==> is_encrypted_meta(o.new_meta, salt@),
    {
        match derive_key(passphrase, salt) {
            Ok(key) => Ok(
                Opening {
                    root: StoreRoot { base, protector: Protector::Encrypted { key } },
                    new_key: None,
                    new_meta: Some(
                        StoreMeta {
                            v: META_V,
                            protection: ProtectionTag::Encrypted,
                            salt_b64: Some(base64url_encode(salt)),
                        },
                    ),
                },
            ),
            Err(e) => Err(e),
        }
    }

    /// Open a store in the given mode. Encrypted mode needs a passphrase.
    pub fn open(
        base: PathBuf,
        protection: &Protection,
        passphrase: Option<&str>,
        files: StoreFiles,
    ) -> (opened: Result<Opening, StoreError>)
        ensures
            match (*protection, passphrase) {
                (Protection::Integrity, _) => integrity_opening(base, files, opened),
                (Protection::Encrypted, Some(p)) => encrypted_opening(
                    base,
                    files,
                    p.spec_bytes(),
                    opened,
                ),
                (Protection::Encrypted, None) => opened matches Err(e) && e.0@
                    == "encrypted store requires a passphrase"@,
            },
    {
        match protection {
            Protection::Integrity => StoreRoot::open_integrity(base, files),
            Protection::Encrypted => match passphrase {
                Some(passphrase) => StoreRoot::open_encrypted(base, passphrase, files),
                None => Err(StoreError("encrypted store requires a passphrase".to_owned())),
            },
        }
    }

    /// Where the identity of `site` is kept. The address of a site is safe in a
    /// file name.
    pub fn identity_path(&self, site: &OnionAddress) -> (path: StorePath<'_>)
        requires
            protocol::is_onion_form(site@),
        ensures
            *path.base == self.spec_base(),
            path.directory@ == "identities"@,
            path.file@ == identity_file(site@),
            is_safe_name(path.file@),
    {
        proof {
            law_identity_files_are_safe(site@);
        }
        StorePath {
            base: &self.base,
            directory: "identities",
            file: joined(site.text.as_str(), ".json"),
        }
    }

    /// Where the history of `publisher` is kept. The text of a key is safe in a
    /// file name.
    pub fn history_path(&self, publisher: &PublisherPubkey) -> (path: StorePath<'_>)
        ensures
            *path.base == self.spec_base(),
            path.directory@ == "history"@,
            path.file@ == history_file(*publisher),
            is_safe_name(path.file@),
    {
        proof {
            law_history_files_are_safe(*publisher);
        }
        StorePath {
            base: &self.base,
            directory: "history",
            file: joined(base64url_encode(&publisher.0).as_str(), ".json"),
        }
    }

    /// The store's protection mode.
    pub fn protection(&self) -> (protection: Protection)
        ensures
            protection == self.spec_protector().mode(),
    {
        match &self.protector {
            Protector::Integrity { .. } => Protection::Integrity,
            Protector::Encrypted { .. } => Protection::Encrypted,
        }
    }

    /// Whether a payload of `len` bytes can be protected.
    pub fn fits(&self, len: usize) -> (fits: bool)
        ensures
            fits == self.spec_protector().takes(len as nat),
    {
        match &self.protector {
            Protector::Integrity { .. } => len <= usize::MAX / 512,
            Protector::Encrypted { .. } => len <= usize::MAX / 512 - 16,
        }
    }

    /// Seal `payload`, to be written atomically to `path`.
    pub fn write_protected<'a>(&self, path: StorePath<'a>, payload: &[u8]) -> (write: Result<
        ProtectedWrite<'a>,
        StoreError,
    >)
        requires
            self.spec_protector().takes(payload@.len()),
        ensures
            seals(*self, path, payload@, write),
    {
        match self.protector.seal(payload) {
            Ok(envelope) => Ok(ProtectedWrite { path, envelope }),
            Err(e) => Err(e),
        }
    }

    /// Seal what was encoded for `path`, or refuse what is too large to protect.
    pub fn write_encoded<'a>(&self, path: StorePath<'a>, payload: &[u8]) -> (write: Result<
        ProtectedWrite<'a>,
        StoreError,
    >)
        requires
            *path.base == self.spec_base(),
        ensures
            protects(*self, path.directory@, path.file@, payload@, write),
    {
        if !self.fits(payload.len()) {
            return Err(StoreError("record too large".to_owned()));
        }
        self.write_protected(path, payload)
    }

    /// Open what was found where a protected file belongs. Only a missing file
    /// is nothing; one that is no envelope, or does not verify, is an error.
    pub fn read_protected(&self, file: &StoredFile) -> (payload: Result<
        Option<Vec<u8>>,
        StoreError,
    >)
        ensures
            match payload {
                Ok(Some(p)) => self.content_of(*file) == Some(Some(p@)),
                Ok(None) => *file is Missing && self.content_of(*file) == Some(None::<Seq<u8>>),
                Err(e) => self.content_of(*file) is None && self.read_failure(*file, e.0@),
            },
    {
        match file {
            StoredFile::Missing => Ok(None),
            StoredFile::Undecodable(why) => match self.protection() {
                Protection::Integrity => Err(prefixed("decode envelope: ", why.as_str())),
                Protection::Encrypted => Err(prefixed("decode aead envelope: ", why.as_str())),
            },
            StoredFile::Sealed(envelope) => match self.protector.open(envelope) {
                Ok(payload) => Ok(Some(payload)),
                Err(e) => Err(e),
            },
        }
    }
}

/// How the error of a file begins that is no envelope of the store's mode.
pub open spec fn undecodable(mode: Protection) -> Seq<char> {
    match mode {
        Protection::Integrity => "decode envelope: "@,
        Protection::Encrypted => "decode aead envelope: "@,
    }
}

/// `write` is what becomes of `payload` that goes to `path`: a protected write,
/// sealed in the store's mode and under a drawn nonce where the mode has one,
/// that reads back as the payload; or an error where it is not sealed.
pub open spec fn seals(
    root: StoreRoot,
    path: StorePath<'_>,
    payload: Seq<u8>,
    write: Result<ProtectedWrite<'_>, StoreError>,
) -> bool {
    match write {
        Ok(w) => {
            &&& w.path == path
            &&& root.spec_protector().is_seal_of(w.envelope, payload)
            &&& root.content_of(StoredFile::Sealed(w.envelope)) == Some(Some(payload))
        },
        Err(e) => root.spec_protector().seal_failure(payload.len(), e.0@),
    }
}

/// `write` is what becomes of `payload` that goes to a file: a protected write,
/// sealed in the store's mode and under a drawn nonce where the mode has one,
/// that reads back as the payload; or an error where it cannot be protected.
pub open spec fn protects(
    root: StoreRoot,
    directory: Seq<char>,
    file: Seq<char>,
    payload: Seq<u8>,
    write: Result<ProtectedWrite<'_>, StoreError>,
) -> bool {
    match write {
        Ok(w) => {
            &&& root.spec_protector().takes(payload.len())
            &&& *w.path.base == root.spec_base()
            &&& w.path.directory@ == directory
            &&& w.path.file@ == file
            &&& root.spec_protector().is_seal_of(w.envelope, payload)
            &&& root.content_of(StoredFile::Sealed(w.envelope)) == Some(Some(payload))
        },
        Err(e) => if root.spec_protector().takes(payload.len()) {
            root.spec_protector().seal_failure(payload.len(), e.0@)
        } else {
            e.0@ == "record too large"@
        },
    }
}

/// What is found in a store's files, kept by directory and name, where a file
/// belongs.
pub open spec fn file_at(
    files: Map<(Seq<char>, Seq<char>), StoredFile>,
    directory: Seq<char>,
    file: Seq<char>,
) -> StoredFile {
    if files.contains_key((directory, file)) {
        files[(directory, file)]
    } else {
        StoredFile::Missing
    }
}

/// A store's files once a protected write is carried out. An error writes
/// nothing.
pub open spec fn after_write(
    files: Map<(Seq<char>, Seq<char>), StoredFile>,
    write: Result<ProtectedWrite<'_>, StoreError>,
) -> Map<(Seq<char>, Seq<char>), StoredFile> {
    match write {
        Ok(w) => files.insert(
            (w.path.directory@, w.path.file@),
            StoredFile::Sealed(w.envelope),
        ),
        Err(_) => files,
    }
}

/// A store's metadata once an opening is carried out. A refusal writes nothing.
pub open spec fn meta_after(
    meta: Option<StoreMeta>,
    opened: Result<Opening, StoreError>,
) -> Option<StoreMeta> {
    match opened {
        Ok(o) if o.new_meta is Some => o.new_meta,
        _ => meta,
    }
}

/// A store's HMAC key once an opening is carried out. A refusal writes nothing.
pub open spec fn key_after(
    key: Option<Vec<u8>>,
    opened: Result<Opening, StoreError>,
) -> Option<Vec<u8>> {
    match opened {
        Ok(o) if o.new_key is Some => o.new_key,
        _ => key,
    }
}

/// The file that keeps the identity of a site.
pub open spec fn identity_file(site: Seq<char>) -> Seq<char> {
    site + ".json"@
}

/// The file that keeps the history of a publisher.
pub open spec fn history_file(publisher: PublisherPubkey) -> Seq<char> {
    encoding::base64url(publisher.0@) + ".json"@
}

/// A copy of a byte string.
fn copied_bytes(bytes: &Vec<u8>) -> (copy: Vec<u8>)
    ensures
        copy@ == bytes@,
{
    let mut copy: Vec<u8> = Vec::new();
    let mut i: usize = 0;
    while i < bytes.len()
        invariant
            i <= bytes@.len(),
            copy@ == bytes@.take(i as int),
        decreases bytes@.len() - i,
    {
        copy.push(bytes[i]);
        assert(bytes@.take(i + 1) =~= bytes@.take(i as int).push(bytes@[i as int]));
        i += 1;
    }
    assert(bytes@.take(bytes@.len() as int) =~= bytes@);
    copy
}

/// Only a missing file is nothing: whatever a file holds, it is either what it
/// opens to or an error.
pub proof fn law_only_a_missing_file_is_nothing(root: StoreRoot, file: StoredFile)
    ensures
        root.content_of(file) == Some(None::<Seq<u8>>) <==> file is Missing,
{
}

/// Reading gives back what was written: once a payload is written to a path,
/// that path reads as the payload, and every other path as before. Where it is
/// not sealed, every path reads as before.
pub proof fn law_written_file_reads_back(
    root: StoreRoot,
    files: Map<(Seq<char>, Seq<char>), StoredFile>,
    path: StorePath<'_>,
    payload: Seq<u8>,
    write: Result<ProtectedWrite<'_>, StoreError>,
    directory: Seq<char>,
    file: Seq<char>,
)
    requires
        seals(root, path, payload, write),
    ensures
        write is Ok ==> root.content_of(
            file_at(after_write(files, write), path.directory@, path.file@),
        ) == Some(Some(payload)),
        write is Err ==> after_write(files, write) == files,
        directory != path.directory@ || file != path.file@ ==> file_at(
            after_write(files, write),
            directory,
            file,
        ) == file_at(files, directory, file),
{
}

/// Two texts that differ make two file names.
proof fn lemma_suffix_injective(a: Seq<char>, b: Seq<char>, suffix: Seq<char>)
    requires
        a + suffix == b + suffix,
    ensures
        a == b,
{
    assert((a + suffix).len() == a.len() + suffix.len());
    assert((b + suffix).len() == b.len() + suffix.len());
    assert((a + suffix).take(a.len() as int) =~= a);
    assert((b + suffix).take(b.len() as int) =~= b);
}

/// Each site has a file of its own.
pub proof fn law_sites_have_their_own_files(site: Seq<char>, other: Seq<char>)
    requires
        site != other,
    ensures
        identity_file(site) != identity_file(other),
{
    if identity_file(site) == identity_file(other) {
        lemma_suffix_injective(site, other, ".json"@);
    }
}

/// Each publisher has a file of its own.
pub proof fn law_publishers_have_their_own_files(publisher: PublisherPubkey, other: PublisherPubkey)
    requires
        publisher != other,
    ensures
        history_file(publisher) != history_file(other),
{
    if history_file(publisher) == history_file(other) {
        lemma_suffix_injective(
            encoding::base64url(publisher.0@),
            encoding::base64url(other.0@),
            ".json"@,
        );
        encoding::law_base64url_is_injective(publisher.0@, other.0@);
        assert(publisher.0 =~= other.0);
    }
}

/// A character that is safe in a file name.
pub open spec fn is_file_safe(c: char) -> bool {
    encoding::is_base64url_symbol(c) || c == '.'
}

/// Every character of a file name is safe, so that it names a file in its
/// directory and no other.
pub open spec fn is_safe_name(name: Seq<char>) -> bool {
    forall|i: int| 0 <= i < name.len() ==> is_file_safe(#[trigger] name[i])
}

/// The file name of a publisher is safe.
pub proof fn law_history_files_are_safe(publisher: PublisherPubkey)
    ensures
        is_safe_name(history_file(publisher)),
{
    reveal_strlit(".json");
    let name = history_file(publisher);
    let key = encoding::base64url(publisher.0@);
    encoding::lemma_base64url_text(publisher.0@);
    assert forall|i: int| 0 <= i < name.len() implies is_file_safe(#[trigger] name[i]) by {
        if i < key.len() {
            assert(name[i] == key[i]);
        } else {
            assert(name[i] == ".json"@[i - key.len()]);
        }
    }
}

/// The file name of a site is safe.
pub proof fn law_identity_files_are_safe(site: Seq<char>)
    requires
        protocol::is_onion_form(site),
    ensures
        is_safe_name(identity_file(site)),
{
    reveal_strlit(".json");
    let name = identity_file(site);
    assert forall|i: int| 0 <= i < name.len() implies is_file_safe(#[trigger] name[i]) by {
        if i < 56 {
            assert(name[i] == site[i]);
        } else if i < 62 {
            assert(name[i] == site.skip(56)[i - 56]);
        } else {
            assert(name[i] == ".json"@[i - 62]);
        }
    }
}

/// A store that was initialized in integrity mode opens again with the key it
/// was given, and nothing more is written.
pub proof fn law_integrity_store_reopens(
    base: PathBuf,
    files: StoreFiles,
    first: Opening,
    again: StoreFiles,
    second: Result<Opening, StoreError>,
)
    requires
        files.key is None,
        integrity_opening(base, files, Ok(first)),
        again.key == first.new_key,
        again.meta == first.new_meta,
        integrity_opening(base, again, second),
    ensures
        second matches Ok(o) && o.writes_nothing() && o.has_integrity_key(first.new_key->0@)
            && first.has_integrity_key(first.new_key->0@),
{
}

/// A store that was initialized in encrypted mode opens again, under the same
/// passphrase, with the same cipher key, and nothing more is written.
pub proof fn law_encrypted_store_reopens(
    base: PathBuf,
    passphrase: Seq<u8>,
    salt: Seq<u8>,
    first: Opening,
    again: StoreFiles,
    second: Result<Opening, StoreError>,
)
    requires
        salt.len() == SALT_LEN,
        salted_opening(base, passphrase, salt, Ok(first)),
        is_encrypted_meta(first.new_meta, salt),
        again.meta == first.new_meta,
        encrypted_opening(base, again, passphrase, second),
    ensures
        second matches Ok(o) && o.writes_nothing() && o.has_cipher_key(passphrase, salt)
            && first.has_cipher_key(passphrase, salt),
{
    protect::lemma_encoded_decodes(salt);
}

/// The key decides what a file holds: two stores with the same integrity key, or
/// the same cipher key, make the same of every file.
pub proof fn law_same_key_reads_the_same(a: Opening, b: Opening, file: StoredFile)
    requires
        ({
            ||| exists|key: Seq<u8>| #[trigger]
                a.has_integrity_key(key) && b.has_integrity_key(key)
            ||| exists|passphrase: Seq<u8>, salt: Seq<u8>| #[trigger]
                a.has_cipher_key(passphrase, salt) && b.has_cipher_key(passphrase, salt)
        }),
    ensures
        a.root.content_of(file) == b.root.content_of(file),
{
}

/// What was written to an integrity store is there when it is opened again.
pub proof fn law_integrity_write_survives_reopening(
    base: PathBuf,
    files: StoreFiles,
    first: Opening,
    path: StorePath<'_>,
    payload: Seq<u8>,
    write: ProtectedWrite<'_>,
    stored: Map<(Seq<char>, Seq<char>), StoredFile>,
    again: StoreFiles,
    second: Result<Opening, StoreError>,
)
    requires
        integrity_opening(base, files, Ok(first)),
        seals(first.root, path, payload, Ok(write)),
        again.key == key_after(files.key, Ok(first)),
        again.meta == meta_after(files.meta, Ok(first)),
        integrity_opening(base, again, second),
    ensures
        second matches Ok(o) && o.writes_nothing() && o.root.content_of(
            file_at(after_write(stored, Ok(write)), path.directory@, path.file@),
        ) == Some(Some(payload)),
{
    let opened = second->Ok_0;
    let key = again.key->0@;
    assert(first.has_integrity_key(key) && opened.has_integrity_key(key));
    law_same_key_reads_the_same(first, opened, StoredFile::Sealed(write.envelope));
}

/// An encrypted store has a salt that its metadata record, whichever opening
/// wrote them.
proof fn lemma_encrypted_salt(
    base: PathBuf,
    files: StoreFiles,
    passphrase: Seq<u8>,
    first: Opening,
) -> (salt: Seq<u8>)
    requires
        encrypted_opening(base, files, passphrase, Ok(first)),
    ensures
        first.has_cipher_key(passphrase, salt),
        meta_after(files.meta, Ok(first)) matches Some(m) && m.protection
            == ProtectionTag::Encrypted && (m.salt_b64 matches Some(text) && protect::decoded(text@)
            == Some(salt)),
{
    match files.meta {
        Some(meta) => protect::decoded(meta.salt_b64->0@)->0,
        None => {
            let salt = choose|salt: Seq<u8>|
                salt.len() == SALT_LEN && crypto::drawn(salt) && #[trigger] salted_opening(
                    base,
                    passphrase,
                    salt,
                    Ok(first),
                ) && is_encrypted_meta(first.new_meta, salt);
            protect::lemma_encoded_decodes(salt);
            salt
        },
    }
}

/// What was written to an encrypted store is there when it is opened again under
/// the same passphrase.
pub proof fn law_encrypted_write_survives_reopening(
    base: PathBuf,
    files: StoreFiles,
    passphrase: Seq<u8>,
    first: Opening,
    path: StorePath<'_>,
    payload: Seq<u8>,
    write: ProtectedWrite<'_>,
    stored: Map<(Seq<char>, Seq<char>), StoredFile>,
    again: StoreFiles,
    second: Result<Opening, StoreError>,
)
    requires
        encrypted_opening(base, files, passphrase, Ok(first)),
        seals(first.root, path, payload, Ok(write)),
        again.meta == meta_after(files.meta, Ok(first)),
        encrypted_opening(base, again, passphrase, second),
    ensures
        second matches Ok(o) && o.writes_nothing() && o.root.content_of(
            file_at(after_write(stored, Ok(write)), path.directory@, path.file@),
        ) == Some(Some(payload)),
{
    let salt = lemma_encrypted_salt(base, files, passphrase, first);
    let opened = second->Ok_0;
    assert(first.has_cipher_key(passphrase, salt) && opened.has_cipher_key(passphrase, salt));
    law_same_key_reads_the_same(first, opened, StoredFile::Sealed(write.envelope));
}

/// Under another passphrase an encrypted store opens too, where Argon2id takes
/// that passphrase, with the key of that passphrase and the store's own salt. It
/// is never read as a store in which nothing is kept: what was written is there,
/// to be opened or to be an error.
pub proof fn law_other_passphrase_is_never_nothing(
    base: PathBuf,
    files: StoreFiles,
    passphrase: Seq<u8>,
    first: Opening,
    path: StorePath<'_>,
    payload: Seq<u8>,
    write: ProtectedWrite<'_>,
    stored: Map<(Seq<char>, Seq<char>), StoredFile>,
    again: StoreFiles,
    other: Seq<u8>,
    second: Result<Opening, StoreError>,
)
    requires
        encrypted_opening(base, files, passphrase, Ok(first)),
        seals(first.root, path, payload, Ok(write)),
        again.meta == meta_after(files.meta, Ok(first)),
        encrypted_opening(base, again, other, second),
    ensures
        exists|salt: Seq<u8>| #[trigger]
            first.has_cipher_key(passphrase, salt) && match second {
                Ok(o) => crypto::argon2_takes(other, salt) && o.has_cipher_key(other, salt),
                Err(e) => !crypto::argon2_takes(other, salt) && "argon2: "@.is_prefix_of(e.0@),
            },
        meta_after(again.meta, second) == again.meta,
        second matches Ok(o) ==> o.writes_nothing() && o.root.content_of(
            file_at(after_write(stored, Ok(write)), path.directory@, path.file@),
        ) != Some(None::<Seq<u8>>),
{
    let salt = lemma_encrypted_salt(base, files, passphrase, first);
    assert(first.has_cipher_key(passphrase, salt));
}

/// A store that was initialized in one mode is refused in the other, and its key
/// and metadata stay as they are.
pub proof fn law_other_mode_is_refused(
    base: PathBuf,
    files: StoreFiles,
    passphrase: Seq<u8>,
    integrity: Result<Opening, StoreError>,
    encrypted: Result<Opening, StoreError>,
)
    requires
        integrity_opening(base, files, integrity),
        encrypted_opening(base, files, passphrase, encrypted),
    ensures
        mode_differs(files.meta, ProtectionTag::Encrypted) ==> {
            &&& encrypted matches Err(e) && e.0@ == other_mode()
            &&& meta_after(files.meta, encrypted) == files.meta
            &&& key_after(files.key, encrypted) == files.key
        },
        mode_differs(files.meta, ProtectionTag::Integrity) ==> {
            &&& integrity matches Err(e) && e.0@ == other_mode()
            &&& meta_after(files.meta, integrity) == files.meta
            &&& key_after(files.key, integrity) == files.key
        },
{
}

/// A store is opened only in the mode it was initialized in.
pub proof fn law_modes_do_not_mix(
    base: PathBuf,
    files: StoreFiles,
    passphrase: Seq<u8>,
    integrity: Result<Opening, StoreError>,
    encrypted: Result<Opening, StoreError>,
)
    requires
        files.meta is Some,
        integrity_opening(base, files, integrity),
        encrypted_opening(base, files, passphrase, encrypted),
    ensures
        integrity is Err || encrypted is Err,
{
}

/// What is written to a file is what is read from it; a missing file is nothing,
/// and one that is no envelope is an error.
pub proof fn law_protected_file_reads_back(
    root: StoreRoot,
    path: StorePath<'_>,
    payload: &[u8],
    write: ProtectedWrite<'_>,
    read: Result<Option<Vec<u8>>, StoreError>,
    missing: Result<Option<Vec<u8>>, StoreError>,
    why: String,
    garbage: Result<Option<Vec<u8>>, StoreError>,
)
    requires
        call_ensures(StoreRoot::write_protected, (&root, path, payload), Ok(write)),
        call_ensures(
            StoreRoot::read_protected,
            (&root, &StoredFile::Sealed(write.envelope)),
            read,
        ),
        call_ensures(StoreRoot::read_protected, (&root, &StoredFile::Missing), missing),
        call_ensures(StoreRoot::read_protected, (&root, &StoredFile::Undecodable(why)), garbage),
    ensures
        write.path == path,
        read matches Ok(Some(p)) && p@ == payload@,
        missing matches Ok(None),
        garbage is Err,
{
}

/// A file is kept below the store's own base, under the name of its site or its
/// publisher.
pub proof fn law_files_are_named_by_what_they_keep(
    root: StoreRoot,
    site: OnionAddress,
    publisher: PublisherPubkey,
    identity: StorePath<'_>,
    history: StorePath<'_>,
)
    requires
        call_ensures(StoreRoot::identity_path, (&root, &site), identity),
        call_ensures(StoreRoot::history_path, (&root, &publisher), history),
    ensures
        *identity.base == root.spec_base(),
        identity.directory@ == "identities"@,
        identity.file@ == site.text@ + ".json"@,
        *history.base == root.spec_base(),
        history.directory@ == "history"@,
        history.file@ == encoding::base64url(publisher.0@) + ".json"@,
{
}

/// A store is opened in the mode that is asked for, and only where its recorded
/// mode, if it has one, is that mode. Encrypted mode needs a passphrase.
pub proof fn law_store_opens_in_the_mode_asked_for(
    base: PathBuf,
    protection: Protection,
    passphrase: Option<&str>,
    files: StoreFiles,
    opening: Opening,
    mode: Protection,
)
    requires
        call_ensures(
            StoreRoot::open,
            (base, &protection, passphrase, files),
            Ok(opening),
        ),
        call_ensures(StoreRoot::protection, (&opening.root,), mode),
    ensures
        mode == protection,
        opening.root.spec_base() == base,
        protection == Protection::Encrypted ==> passphrase is Some,
        files.meta matches Some(meta) ==> (meta.protection == ProtectionTag::Encrypted
            <==> protection == Protection::Encrypted),
        opening.new_meta matches Some(meta) ==> meta.v == 1 && (meta.protection
            == ProtectionTag::Encrypted <==> protection == Protection::Encrypted) && (
        meta.salt_b64 is Some <==> protection == Protection::Encrypted),
        files.key is Some || protection == Protection::Encrypted ==> opening.new_key is None,
        protection == Protection::Encrypted && files.meta is None ==> opening.new_meta is Some,
        protection == Protection::Integrity && files.key is None ==> opening.new_key is Some
            && opening.new_meta is Some,
        files.meta is Some && (files.key is Some || protection == Protection::Encrypted)
            ==> opening.new_meta is None,
{
}

/// A store without metadata has no recorded mode; one with metadata passes only
/// for the mode they record.
pub proof fn law_recorded_mode_is_checked(
    meta: Option<StoreMeta>,
    expected: ProtectionTag,
    checked: Result<(), StoreError>,
)
    requires
        call_ensures(check_mode, (&meta, expected), checked),
    ensures
        meta is None ==> checked is Ok,
        meta matches Some(m) ==> (checked is Ok <==> m.protection == expected),
{
}

/// What is encoded goes to its path and reads back. It is refused only where it
/// is too large to encode, or in encrypted mode.
pub proof fn law_encoded_file_reads_back(
    root: StoreRoot,
    path: StorePath<'_>,
    payload: &[u8],
    write: Result<ProtectedWrite<'_>, StoreError>,
    read: Result<Option<Vec<u8>>, StoreError>,
    mode: Protection,
)
    requires
        call_ensures(StoreRoot::write_encoded, (&root, path, payload), write),
        write matches Ok(w) ==> call_ensures(
            StoreRoot::read_protected,
            (&root, &StoredFile::Sealed(w.envelope)),
            read,
        ),
        call_ensures(StoreRoot::protection, (&root,), mode),
    ensures
        write matches Ok(w) ==> w.path.directory@ == path.directory@ && w.path.file@ == path.file@
            && (read matches Ok(Some(p)) && p@ == payload@),
        mode == Protection::Integrity ==> (write is Ok <==> payload@.len() <= usize::MAX / 512),
{
}

/// An integrity store opens with the key that is on disk, or with a drawn one
/// that is then to be written; it fails only where the other mode is recorded or
/// there is no key and none can be drawn.
pub proof fn law_integrity_opens_with_the_key_on_disk(
    base: PathBuf,
    files: StoreFiles,
    opened: Result<Opening, StoreError>,
)
    requires
        call_ensures(StoreRoot::open_integrity, (base, files), opened),
    ensures
        opened matches Ok(o) ==> (o.root.spec_protector() matches Protector::Integrity { key } && (
        match files.key {
            Some(k) => key@ == k@ && o.new_key is None && o.new_meta is None,
            None => o.new_key is Some && o.new_key->0@ == key@ && key@.len() == 32 && crypto::drawn(
                key@,
            ) && o.new_meta is Some,
        })),
        opened is Err ==> files.meta is Some && files.meta->0.protection
            == ProtectionTag::Encrypted || files.key is None && crypto::source_failed(32),
        files.meta is Some && files.meta->0.protection == ProtectionTag::Encrypted ==> opened
            is Err,
{
}

/// An encrypted store opens with the key of the passphrase and of the salt that
/// its metadata record, or of a drawn salt that is then to be recorded. Where the
/// metadata record the other mode, or no salt that decodes, it does not open.
pub proof fn law_encrypted_opens_with_the_recorded_salt(
    base: PathBuf,
    passphrase: &str,
    files: StoreFiles,
    opened: Result<Opening, StoreError>,
)
    requires
        call_ensures(StoreRoot::open_encrypted, (base, passphrase, files), opened),
    ensures
        opened matches Ok(o) ==> exists|salt: Seq<u8>|
            {
                &&& o.root.spec_protector() matches Protector::Encrypted { key }
                &&& key@ == #[trigger] crypto::argon2id_key(passphrase.spec_bytes(), salt)
                &&& match files.meta {
                    Some(meta) => {
                        &&& meta.protection == ProtectionTag::Encrypted
                        &&& meta.salt_b64 is Some
                        &&& meta.salt_b64->0@ == encoding::base64url(salt)
                        &&& o.new_meta is None
                    },
                    None => {
                        &&& salt.len() == 16
                        &&& crypto::drawn(salt)
                        &&& o.new_meta matches Some(meta)
                        &&& meta.protection == ProtectionTag::Encrypted
                        &&& meta.salt_b64 is Some
                        &&& meta.salt_b64->0@ == encoding::base64url(salt)
                    },
                }
                &&& o.new_key is None
            },
        opened is Err && files.meta is Some && files.meta->0.protection == ProtectionTag::Encrypted
            && files.meta->0.salt_b64 is Some ==> {
            ||| protect::decoded(files.meta->0.salt_b64->0@) is None
            ||| protect::decoded(files.meta->0.salt_b64->0@)->0.len() < 8
            ||| protect::decoded(files.meta->0.salt_b64->0@)->0.len() > 0xffff_ffff
            ||| passphrase.spec_bytes().len() > 0xffff_ffff
        },
        opened is Err && files.meta is None ==> crypto::source_failed(16)
            || passphrase.spec_bytes().len() > 0xffff_ffff,
{
    if let Ok(o) = opened {
        let salt = match files.meta {
            Some(meta) => protect::decoded(meta.salt_b64->0@)->0,
            None => choose|salt: Seq<u8>|
                salt.len() == SALT_LEN && crypto::drawn(salt) && #[trigger] salted_opening(
                    base,
                    passphrase.spec_bytes(),
                    salt,
                    opened,
                ) && is_encrypted_meta(o.new_meta, salt),
        };
        if let Protector::Encrypted { key } = o.root.spec_protector() {
            assert(key@ == crypto::argon2id_key(passphrase.spec_bytes(), salt));
        }
    }
}

} // verus!
