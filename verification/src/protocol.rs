//! The protocol vocabulary the client reasons about.
//!
//! Per-document verification (JSON parsing, signatures, canary windows, origin
//! binding) belongs to a separate verifier. The types here hold, as plain
//! values, what the client's own decisions read: keys, timestamps, diagnostics,
//! and the facts a manifest or an image block declares.
use vstd::prelude::*;
use vstd::string::*;

verus! {

/// Whether two 32-byte arrays hold the same bytes.
pub fn same_bytes(a: &[u8; 32], b: &[u8; 32]) -> (same: bool)
    ensures
        same == (*a == *b),
{
    let mut i: usize = 0;
    while i < 32
        invariant
            i <= 32,
            forall|j: int| 0 <= j < i ==> a[j] == b[j],
        decreases 32 - i,
    {
        if a[i] != b[i] {
            return false;
        }
        i += 1;
    }
    assert(*a =~= *b);
    true
}

/// A publisher's public identity key.
#[derive(Clone, Copy, Debug, Eq)]
pub struct PublisherPubkey(pub [u8; 32]);

impl PartialEq for PublisherPubkey {
    fn eq(&self, other: &PublisherPubkey) -> (same: bool) {
        same_bytes(&self.0, &other.0)
    }
}

impl vstd::std_specs::cmp::PartialEqSpecImpl for PublisherPubkey {
    open spec fn obeys_eq_spec() -> bool {
        true
    }

    open spec fn eq_spec(&self, other: &PublisherPubkey) -> bool {
        *self == *other
    }
}

/// A runtime key, authorized by a manifest's canary to sign documents.
#[derive(Clone, Copy, Debug, Eq)]
pub struct RuntimePubkey(pub [u8; 32]);

impl PartialEq for RuntimePubkey {
    fn eq(&self, other: &RuntimePubkey) -> (same: bool) {
        same_bytes(&self.0, &other.0)
    }
}

impl vstd::std_specs::cmp::PartialEqSpecImpl for RuntimePubkey {
    open spec fn obeys_eq_spec() -> bool {
        true
    }

    open spec fn eq_spec(&self, other: &RuntimePubkey) -> bool {
        *self == *other
    }
}

/// A carrier (onion) address: the site a manifest is fetched from.
#[derive(Clone, Debug, Eq)]
pub struct OnionAddress {
    /// The address text, for example fifty-six base32 characters and `.onion`.
    pub text: String,
}

impl View for OnionAddress {
    type V = Seq<char>;

    open spec fn view(&self) -> Seq<char> {
        self.text@
    }
}

impl PartialEq for OnionAddress {
    fn eq(&self, other: &OnionAddress) -> (same: bool) {
        self.text == other.text
    }
}

impl vstd::std_specs::cmp::PartialEqSpecImpl for OnionAddress {
    open spec fn obeys_eq_spec() -> bool {
        true
    }

    open spec fn eq_spec(&self, other: &OnionAddress) -> bool {
        self@ == other@
    }
}

impl OnionAddress {
    /// Wrap an address text.
    pub fn new(text: String) -> (address: OnionAddress)
        ensures
            address@ == text@,
    {
        OnionAddress { text }
    }

    /// A copy of this address.
    pub fn duplicate(&self) -> (copy: OnionAddress)
        ensures
            copy@ == self@,
    {
        OnionAddress { text: self.text.clone() }
    }
}

/// A lowercase base32 symbol, as onion addresses use them.
pub open spec fn is_base32_symbol(c: char) -> bool {
    'a' <= c <= 'z' || '2' <= c <= '7'
}

/// The shape of a version 3 onion address: fifty-six lowercase base32 symbols
/// followed by `.onion`.
pub open spec fn is_onion_form(text: Seq<char>) -> bool {
    &&& text.len() == 62
    &&& forall|i: int| 0 <= i < 56 ==> is_base32_symbol(#[trigger] text[i])
    &&& text.skip(56) == onion_suffix()
}

/// The end of every onion address.
pub open spec fn onion_suffix() -> Seq<char> {
    seq!['.', 'o', 'n', 'i', 'o', 'n']
}

impl OnionAddress {
    /// Whether the text has the form of an onion address.
    pub fn has_onion_form(&self) -> (has: bool)
        ensures
            has == is_onion_form(self@),
    {
        let mut i: usize = 0;
        let mut good = true;
        for c in it: self.text.as_str().chars()
            invariant
                it.seq() == self@,
                i == it.index() || i == 63,
                i <= 63,
                i == 63 ==> self@.len() > 62,
                i < 63 && good ==> forall|j: int|
                    0 <= j < i ==> (if j < 56 {
                        is_base32_symbol(#[trigger] self@[j])
                    } else {
                        self@[j] == onion_suffix()[j - 56]
                    }),
                i < 63 && !good ==> !is_onion_form(self@),
        {
            let ghost k = it.index() as int;
            if i < 62 {
                assert(self@[k] == c);
                let fits = if i < 56 {
                    ('a' <= c && c <= 'z') || ('2' <= c && c <= '7')
                } else if i == 56 {
                    c == '.'
                } else if i == 57 || i == 60 {
                    c == 'o'
                } else if i == 58 || i == 61 {
                    c == 'n'
                } else {
                    c == 'i'
                };
                if !fits {
                    proof {
                        if is_onion_form(self@) {
                            if k < 56 {
                                assert(is_base32_symbol(self@[k]));
                            } else {
                                assert(self@.skip(56)[k - 56] == self@[k]);
                            }
                        }
                    }
                    good = false;
                }
                i += 1;
            } else {
                i = 63;
            }
        }
        proof {
            if i == 62 && good {
                assert(self@.skip(56) =~= onion_suffix());
            }
        }
        i == 62 && good
    }
}

/// An instant of the protocol clock, as its strict text:
/// `YYYY-MM-DDTHH:MM:SSZ`.
///
/// The text has a fixed width and runs from the year down to the second, so
/// texts are ordered as the instants are.
#[derive(Clone, Copy, Debug, Eq)]
pub struct EntangledTimestamp(pub [u8; 20]);

impl PartialEq for EntangledTimestamp {
    fn eq(&self, other: &EntangledTimestamp) -> (same: bool) {
        let mut i: usize = 0;
        while i < 20
            invariant
                i <= 20,
                forall|j: int| 0 <= j < i ==> self.0[j] == other.0[j],
            decreases 20 - i,
        {
            if self.0[i] != other.0[i] {
                return false;
            }
            i += 1;
        }
        assert(self.0 =~= other.0);
        true
    }
}

impl vstd::std_specs::cmp::PartialEqSpecImpl for EntangledTimestamp {
    open spec fn obeys_eq_spec() -> bool {
        true
    }

    open spec fn eq_spec(&self, other: &EntangledTimestamp) -> bool {
        *self == *other
    }
}

/// A byte string read as a number, the first byte being the most significant.
pub open spec fn place_value(bytes: Seq<u8>) -> nat
    decreases bytes.len(),
{
    if bytes.len() == 0 {
        0
    } else {
        place_value(bytes.drop_last()) * 256 + bytes.last() as nat
    }
}

/// The character that stands at position `i` of a timestamp, unless a digit
/// does.
pub open spec fn timestamp_mark(i: int) -> Option<char> {
    if i == 4 || i == 7 {
        Some('-')
    } else if i == 10 {
        Some('T')
    } else if i == 13 || i == 16 {
        Some(':')
    } else if i == 19 {
        Some('Z')
    } else {
        None
    }
}

/// A text has the form of a timestamp: digits and marks in their places.
pub open spec fn is_timestamp_form(text: Seq<char>) -> bool {
    text.len() == 20 && forall|i: int|
        0 <= i < 20 ==> match timestamp_mark(i) {
            Some(mark) => #[trigger] text[i] == mark,
            None => '0' <= text[i] <= '9',
        }
}

impl EntangledTimestamp {
    /// Where the instant stands in time.
    pub open spec fn rank(self) -> nat {
        place_value(self.0@)
    }

    /// The text of the instant.
    pub open spec fn text(self) -> Seq<char> {
        Seq::new(20, |i: int| self.0[i] as char)
    }

    /// The instant of a text, if the text has the form of a timestamp.
    pub fn from_text(text: &str) -> (timestamp: Option<EntangledTimestamp>)
        ensures
            match timestamp {
                Some(t) => is_timestamp_form(text@) && t.text() == text@,
                None => !is_timestamp_form(text@),
            },
    {
        let mut bytes: [u8; 20] = [0u8; 20];
        let mut i: usize = 0;
        for c in it: text.chars()
            invariant
                it.seq() == text@,
                i == it.index(),
                i <= 20,
                forall|j: int|
                    0 <= j < i ==> bytes[j] as char == #[trigger] text@[j] && match timestamp_mark(
                        j,
                    ) {
                        Some(mark) => text@[j] == mark,
                        None => '0' <= text@[j] <= '9',
                    },
        {
            if i >= 20 {
                return None;
            }
            assert(text@[i as int] == c);
            let fits = if i == 4 || i == 7 {
                c == '-'
            } else if i == 10 {
                c == 'T'
            } else if i == 13 || i == 16 {
                c == ':'
            } else if i == 19 {
                c == 'Z'
            } else {
                '0' <= c && c <= '9'
            };
            if !fits {
                return None;
            }
            bytes[i] = c as u8;
            i += 1;
        }
        if i != 20 {
            return None;
        }
        let timestamp = EntangledTimestamp(bytes);
        assert(timestamp.text() =~= text@);
        Some(timestamp)
    }

    /// The text of the instant.
    pub fn to_text(&self) -> (text: String)
        ensures
            text@ == self.text(),
    {
        let mut text = String::new();
        let mut i: usize = 0;
        while i < 20
            invariant
                i <= 20,
                text@ == self.text().take(i as int),
            decreases 20 - i,
        {
            text.push(self.0[i] as char);
            assert(self.text().take(i + 1) =~= self.text().take(i as int).push(
                self.text()[i as int],
            ));
            i += 1;
        }
        assert(self.text().take(20) =~= self.text());
        text
    }

    /// Whether this instant comes before `other`.
    pub fn is_earlier_than(&self, other: &EntangledTimestamp) -> (earlier: bool)
        ensures
            earlier == (self.rank() < other.rank()),
    {
        let mut i: usize = 0;
        while i < 20
            invariant
                i <= 20,
                forall|j: int| 0 <= j < i ==> self.0[j] == other.0[j],
            decreases 20 - i,
        {
            if self.0[i] < other.0[i] {
                proof {
                    lemma_first_difference_decides(self.0@, other.0@, i as int);
                }
                return true;
            }
            if self.0[i] > other.0[i] {
                proof {
                    lemma_first_difference_decides(other.0@, self.0@, i as int);
                }
                return false;
            }
            i += 1;
        }
        assert(self.0@ =~= other.0@);
        false
    }
}

/// Of two byte strings of one length, the one with the smaller byte where they
/// first differ is the smaller number.
proof fn lemma_first_difference_decides(a: Seq<u8>, b: Seq<u8>, k: int)
    requires
        a.len() == b.len(),
        0 <= k < a.len(),
        forall|j: int| 0 <= j < k ==> a[j] == b[j],
        a[k] < b[k],
    ensures
        place_value(a) < place_value(b),
    decreases a.len(),
{
    if k == a.len() - 1 {
        assert(a.drop_last() =~= b.drop_last());
    } else {
        lemma_first_difference_decides(a.drop_last(), b.drop_last(), k);
    }
}

/// Distinct instants stand at distinct places in time.
pub proof fn law_rank_tells_instants_apart(a: EntangledTimestamp, b: EntangledTimestamp)
    requires
        a.rank() == b.rank(),
    ensures
        a == b,
{
    lemma_place_value_is_injective(a.0@, b.0@);
    assert(a.0 =~= b.0);
}

proof fn lemma_place_value_is_injective(a: Seq<u8>, b: Seq<u8>)
    requires
        a.len() == b.len(),
        place_value(a) == place_value(b),
    ensures
        a == b,
    decreases a.len(),
{
    if a.len() > 0 {
        lemma_place_value_is_injective(a.drop_last(), b.drop_last());
        assert(a =~= a.drop_last().push(a.last()));
        assert(b =~= b.drop_last().push(b.last()));
    } else {
        assert(a =~= b);
    }
}

/// The canary state of a publisher.
#[derive(Clone, Copy, Debug, PartialEq, Eq, Structural)]
pub enum CanaryState {
    /// Within its committed window.
    Fresh,
    /// Within its window, close to the end.
    NearExpiration,
    /// Past the committed refresh.
    Expired,
    /// Structurally invalid.
    Invalid,
    /// Not determinable, for want of a fetched manifest.
    Unavailable,
}

/// The diagnostics the client raises or relays.
#[derive(Clone, Copy, Debug, PartialEq, Eq, Structural)]
pub enum DiagnosticCode {
    /// A document's signature does not verify.
    ESigVerification,
    /// The canary's `issued_at` is older than one already accepted.
    ECanaryDowngrade,
    /// Two different manifests carry the same canary `issued_at`.
    ECanaryConflict,
    /// A fresh canary reuses an earlier runtime key.
    ECanaryRuntimeReuse,
    /// The manifest is bound to another carrier address.
    EBindOrigin,
    /// The presented publisher key differs from the retained one.
    ETrustMismatch,
    /// The user rejected the presented publisher key.
    ETrustUserRejected,
    /// A publisher was observed for the first time.
    ITrustFirstContact,
    /// The user pinned a publisher.
    ITrustTofuPinned,
    /// The user verified a publisher against its identity phrase.
    ITrustVerified,
    /// The response header names another media type than declared.
    WImageContentType,
    /// The image body is larger than permitted.
    WImageOversize,
    /// The image bytes do not have the declared hash.
    WImageHashMismatch,
    /// The image does not decode, or is animated.
    WImageDecodeFailed,
    /// The decoded dimensions are not the declared ones.
    WImageDimensions,
    /// The document's decoded-pixel budget is spent.
    WImageBudget,
    /// Any other code the document verifier reports.
    Verifier,
}

/// A diagnostic: its code, and the verifier's own rendering of it.
#[derive(Clone, Debug, PartialEq, Eq)]
pub struct Diagnostic {
    /// Which rule failed.
    pub code: DiagnosticCode,
    /// A human-readable rendering.
    pub detail: String,
}

/// What the client reads of a manifest's canary.
#[derive(Clone, Copy, Debug, PartialEq, Eq)]
pub struct Canary {
    /// The runtime key the canary authorizes.
    pub runtime_pubkey: RuntimePubkey,
    /// When the canary was issued; `None` where the wire text is not a strict
    /// timestamp.
    pub issued_at: Option<EntangledTimestamp>,
}

/// What the client reads of a manifest.
#[derive(Clone, Copy, Debug, PartialEq, Eq)]
pub struct Manifest {
    /// The publisher key the manifest presents.
    pub publisher_pubkey: PublisherPubkey,
    /// The canary.
    pub canary: Canary,
    /// The SHA-256 of the canonical manifest payload.
    pub payload_hash: [u8; 32],
}

/// What is retained of an accepted manifest.
#[derive(Clone, Copy, Debug, PartialEq, Eq)]
pub struct RetainedManifestRecord {
    /// When its canary was issued.
    pub issued_at: EntangledTimestamp,
    /// The runtime key its canary authorized.
    pub runtime_pubkey: RuntimePubkey,
    /// The SHA-256 of its canonical payload.
    pub manifest_payload_hash: [u8; 32],
}

/// The media types an image block may declare.
#[derive(Clone, Copy, Debug, PartialEq, Eq, Structural)]
pub enum ImageMediaType {
    /// `image/png`.
    Png,
    /// `image/jpeg`.
    Jpeg,
    /// `image/webp`.
    Webp,
}

/// A declared image block.
#[derive(Clone, Debug, PartialEq, Eq)]
pub struct ImageRef {
    /// The site path the image is fetched from.
    pub src: String,
    /// The declared SHA-256 of the image bytes.
    pub sha256: [u8; 32],
    /// The declared media type.
    pub media_type: ImageMediaType,
    /// The declared width in pixels.
    pub width: u32,
    /// The declared height in pixels.
    pub height: u32,
    /// Alternative text.
    pub alt: String,
    /// An optional caption.
    pub caption: Option<String>,
}

/// Time is told where two instants first differ: the one with the smaller
/// character there comes first. Equal instants come neither before nor after one
/// another.
pub proof fn law_first_difference_tells_time(
    a: EntangledTimestamp,
    b: EntangledTimestamp,
    k: int,
    earlier: bool,
)
    requires
        call_ensures(EntangledTimestamp::is_earlier_than, (&a, &b), earlier),
        0 <= k <= 20,
        forall|j: int| 0 <= j < k ==> a.0@[j] == b.0@[j],
        k < 20 ==> a.0@[k] != b.0@[k],
    ensures
        k < 20 ==> earlier == (a.0@[k] < b.0@[k]) && (a.rank() < b.rank() <==> a.0@[k] < b.0@[k]),
        k == 20 ==> !earlier && a.rank() == b.rank(),
{
    if k == 20 {
        assert(a.0@ =~= b.0@);
    } else if a.0@[k] < b.0@[k] {
        lemma_first_difference_decides(a.0@, b.0@, k);
    } else {
        lemma_first_difference_decides(b.0@, a.0@, k);
    }
}

/// Where two byte strings of one length first differ, or their length.
proof fn lemma_first_difference(a: Seq<u8>, b: Seq<u8>, from: int) -> (k: int)
    requires
        a.len() == b.len(),
        0 <= from <= a.len(),
        forall|j: int| 0 <= j < from ==> a[j] == b[j],
    ensures
        from <= k <= a.len(),
        forall|j: int| 0 <= j < k ==> a[j] == b[j],
        k < a.len() ==> a[k] != b[k],
    decreases a.len() - from,
{
    if from == a.len() || a[from] != b[from] {
        from
    } else {
        lemma_first_difference(a, b, from + 1)
    }
}

/// Instants are ordered by the calendar: by year, then by month, day, hour,
/// minute and second, each read as a decimal number.
pub proof fn law_time_follows_the_calendar(
    a: EntangledTimestamp,
    b: EntangledTimestamp,
    earlier: bool,
)
    requires
        is_timestamp_form(a.text()),
        is_timestamp_form(b.text()),
        call_ensures(EntangledTimestamp::is_earlier_than, (&a, &b), earlier),
    ensures
        ({
            let pair = |t: EntangledTimestamp, i: int|
                10 * (t.text()[i] as int - '0' as int) + (t.text()[i + 1] as int - '0' as int);
            let year = |t: EntangledTimestamp| 100 * pair(t, 0) + pair(t, 2);
            let (y, z) = (year(a), year(b));
            let before = if y != z {
                y < z
            } else if pair(a, 5) != pair(b, 5) {
                pair(a, 5) < pair(b, 5)
            } else if pair(a, 8) != pair(b, 8) {
                pair(a, 8) < pair(b, 8)
            } else if pair(a, 11) != pair(b, 11) {
                pair(a, 11) < pair(b, 11)
            } else if pair(a, 14) != pair(b, 14) {
                pair(a, 14) < pair(b, 14)
            } else {
                pair(a, 17) < pair(b, 17)
            };
            earlier == before && (a.rank() < b.rank() <==> before)
        }),
{
    let k = lemma_first_difference(a.0@, b.0@, 0);
    law_first_difference_tells_time(a, b, k, earlier);
    let (s, t) = (a.text(), b.text());
    assert forall|i: int| 0 <= i < 20 implies #[trigger] s[i] as int == a.0@[i] as int && t[i] as int
        == b.0@[i] as int by {}
    assert(forall|i: int| 0 <= i < 20 && timestamp_mark(i) is None ==> '0' <= #[trigger] s[i] <= '9');
    assert(forall|i: int| 0 <= i < 20 && timestamp_mark(i) is None ==> '0' <= #[trigger] t[i] <= '9');
    assert(forall|i: int|
        0 <= i < 20 && timestamp_mark(i) is Some ==> #[trigger] s[i] == t[i]);
    assert(forall|i: int| 0 <= i < k ==> #[trigger] s[i] == t[i]);
    assert(k < 20 ==> s[k] != t[k]);
    assert(k == 0 || s[0] == t[0]);
    assert(k <= 1 || s[1] == t[1]);
    assert(k <= 2 || s[2] == t[2]);
    assert(k <= 3 || s[3] == t[3]);
    assert(s[4] == t[4]);
    assert(k <= 5 || s[5] == t[5]);
    assert(k <= 6 || s[6] == t[6]);
    assert(s[7] == t[7]);
    assert(k <= 8 || s[8] == t[8]);
    assert(k <= 9 || s[9] == t[9]);
    assert(s[10] == t[10]);
    assert(k <= 11 || s[11] == t[11]);
    assert(k <= 12 || s[12] == t[12]);
    assert(s[13] == t[13]);
    assert(k <= 14 || s[14] == t[14]);
    assert(k <= 15 || s[15] == t[15]);
    assert(s[16] == t[16]);
    assert(k <= 17 || s[17] == t[17]);
    assert(k <= 18 || s[18] == t[18]);
    assert(s[19] == t[19]);
}

/// A text is a timestamp exactly if it reads `YYYY-MM-DDTHH:MM:SSZ` with a digit
/// for each letter of a number, and its bytes are its characters.
pub proof fn law_timestamp_is_its_strict_text(text: &str, timestamp: Option<EntangledTimestamp>)
    requires
        call_ensures(EntangledTimestamp::from_text, (text,), timestamp),
    ensures
        timestamp is Some <==> {
            &&& text@.len() == 20
            &&& text@[4] == '-' && text@[7] == '-' && text@[10] == 'T'
            &&& text@[13] == ':' && text@[16] == ':' && text@[19] == 'Z'
            &&& forall|i: int|
                #![trigger text@[i]]
                0 <= i < 20 && i != 4 && i != 7 && i != 10 && i != 13 && i != 16 && i != 19
                    ==> '0' <= text@[i] <= '9'
        },
        timestamp matches Some(t) ==> forall|i: int|
            0 <= i < 20 ==> #[trigger] t.0@[i] as char == text@[i],
{
    if let Some(t) = timestamp {
        assert forall|i: int| 0 <= i < 20 implies #[trigger] t.0@[i] as char == text@[i] by {
            assert(t.text()[i] == text@[i]);
        }
    }
    if is_timestamp_form(text@) {
        assert(text@[4] == '-' && text@[7] == '-' && text@[10] == 'T');
        assert(text@[13] == ':' && text@[16] == ':' && text@[19] == 'Z');
    }
}

/// What is written of an instant is the text it was read from.
pub proof fn law_timestamp_text_round_trips(
    text: &str,
    timestamp: EntangledTimestamp,
    written: String,
)
    requires
        call_ensures(EntangledTimestamp::from_text, (text,), Some(timestamp)),
        call_ensures(EntangledTimestamp::to_text, (&timestamp,), written),
    ensures
        written@ == text@,
{
}

/// An address has the form of an onion address exactly if it is fifty-six
/// lowercase letters or digits from two to seven, followed by `.onion`.
pub proof fn law_onion_form_is_label_and_suffix(address: OnionAddress, has: bool)
    requires
        call_ensures(OnionAddress::has_onion_form, (&address,), has),
    ensures
        has <==> {
            &&& address.text@.len() == 62
            &&& forall|i: int|
                0 <= i < 56 ==> 'a' <= #[trigger] address.text@[i] <= 'z' || '2'
                    <= address.text@[i] <= '7'
            &&& address.text@.subrange(56, 62) == seq!['.', 'o', 'n', 'i', 'o', 'n']
        },
{
    if address.text@.len() == 62 {
        assert(address.text@.skip(56) =~= address.text@.subrange(56, 62));
        assert(forall|i: int|
            0 <= i < 56 ==> is_base32_symbol(#[trigger] address.text@[i]) == ('a'
                <= address.text@[i] <= 'z' || '2' <= address.text@[i] <= '7'));
    }
}

/// Two keys are the same exactly if all their bytes are.
pub proof fn law_keys_are_compared_byte_by_byte(a: [u8; 32], b: [u8; 32], same: bool)
    requires
        call_ensures(same_bytes, (&a, &b), same),
    ensures
        same <==> forall|i: int| 0 <= i < 32 ==> #[trigger] a@[i] == b@[i],
{
    if forall|i: int| 0 <= i < 32 ==> #[trigger] a@[i] == b@[i] {
        assert(a@ =~= b@);
        assert(a =~= b);
    }
}

} // verus!
