//! The verification policy for image resources.
//!
//! An image is authenticated by hash before it is decoded, is decoded as the
//! media type its block declares and as no other, must have the declared
//! dimensions, must not be animated, and must fit the document's pixel budget.
//! A failure rejects the image alone, never its document, and the same image is
//! not tried again in a rendering session.
//!
//! Decoding is the one outside step: a [`Decoder`] that the shell implements.
use crate::crypto;
use crate::crypto::sha256_digest;
use crate::protocol::{same_bytes, DiagnosticCode, ImageMediaType, ImageRef};
use vstd::prelude::*;
use vstd::string::*;

verus! {

/// The most bytes an image body may have.
pub const MAX_IMAGE_BYTES: usize = 2 * 1024 * 1024;

/// The most pixels the images of a document may have together.
pub const MAX_DECODED_PIXELS: u64 = 16_777_216;

/// What a decoder reports of an image.
#[derive(Clone, Copy, Debug, PartialEq, Eq, Structural)]
pub struct Decoded {
    /// The width in pixels.
    pub width: u32,
    /// The height in pixels.
    pub height: u32,
    /// Whether the image is animated, in whatever format.
    pub animated: bool,
}

/// A decode failure. The cause is the shell's detail.
#[derive(Clone, Copy, Debug, PartialEq, Eq, Structural)]
pub struct DecodeError;

/// The decode step.
///
/// An implementation selects the decoder from `media_type` alone, reports the
/// true dimensions, reports animation in any format, and refuses an oversized
/// image by its header before it allocates.
pub trait Decoder {
    /// Whether these bytes may be handed to the decoder. Callers of the policy
    /// grant it for authenticated bytes alone, and `decode` demands it.
    open spec fn may_decode(&self, bytes: Seq<u8>, media_type: ImageMediaType) -> bool {
        true
    }

    /// Decode `bytes` as `media_type`.
    fn decode(&self, bytes: &[u8], media_type: ImageMediaType) -> Result<Decoded, DecodeError>
        requires
            self.may_decode(bytes@, media_type),
    ;
}

/// The decoded pixels a document has left.
///
/// Once an image would push the total past [`MAX_DECODED_PIXELS`], it and every
/// later image of the document is refused.
#[derive(Clone, Copy, Debug)]
pub struct ImageBudget {
    used: u64,
    exhausted: bool,
}

impl Default for ImageBudget {
    fn default() -> (budget: ImageBudget)
        ensures
            budget.pixels() == 0,
            !budget.is_exhausted(),
    {
        ImageBudget::new()
    }
}

impl ImageBudget {
    /// The budget is never exceeded.
    #[verifier::type_invariant]
    spec fn within_budget(self) -> bool {
        self.used <= MAX_DECODED_PIXELS
    }

    /// The pixels charged so far.
    pub closed spec fn pixels(self) -> nat {
        self.used as nat
    }

    /// Whether an image was refused already.
    pub closed spec fn is_exhausted(self) -> bool {
        self.exhausted
    }

    /// Whether an image of `width` by `height` still fits.
    pub open spec fn fits(self, width: u32, height: u32) -> bool {
        !self.is_exhausted() && self.pixels() + width * height <= MAX_DECODED_PIXELS
    }

    /// A fresh budget for a document.
    pub fn new() -> (budget: ImageBudget)
        ensures
            budget.pixels() == 0,
            !budget.is_exhausted(),
    {
        ImageBudget { used: 0, exhausted: false }
    }

    /// The pixels charged so far, which never exceed the budget.
    pub fn used(&self) -> (used: u64)
        ensures
            used == self.pixels(),
            used <= MAX_DECODED_PIXELS,
    {
        proof {
            use_type_invariant(&*self);
        }
        self.used
    }

    /// Charge an image that fits; refuse one that does not, and every image
    /// after it.
    pub fn try_charge(&mut self, width: u32, height: u32) -> (charged: bool)
        ensures
            charged == old(self).fits(width, height),
            final(self).pixels() == old(self).pixels() + (if charged {
                width * height
            } else {
                0
            }),
            final(self).is_exhausted() == !charged,
    {
        proof {
            use_type_invariant(&*self);
        }
        assert(0 <= width * height <= u32::MAX * u32::MAX) by (nonlinear_arith)
            requires
                0 <= width <= u32::MAX,
                0 <= height <= u32::MAX,
        ;
        let pixels: u64 = width as u64 * height as u64;
        let used = self.used;
        if !self.exhausted && pixels <= MAX_DECODED_PIXELS - used {
            *self = ImageBudget { used: used + pixels, exhausted: false };
            true
        } else {
            *self = ImageBudget { used, exhausted: true };
            false
        }
    }
}

/// What identifies an image for a retry: where it is, what it hashes to and how
/// it is decoded.
pub open spec fn image_triple(image: ImageRef) -> (Seq<char>, [u8; 32], ImageMediaType) {
    (image.src@, image.sha256, image.media_type)
}

/// An image that failed.
#[derive(Debug)]
struct FailedImage {
    src: String,
    sha256: [u8; 32],
    media_type: ImageMediaType,
}

/// The images that failed in this rendering session.
#[derive(Debug)]
pub struct NoRetrySet {
    failed: Vec<FailedImage>,
}

impl View for NoRetrySet {
    type V = Set<(Seq<char>, [u8; 32], ImageMediaType)>;

    closed spec fn view(&self) -> Set<(Seq<char>, [u8; 32], ImageMediaType)> {
        Set::new(
            |t: (Seq<char>, [u8; 32], ImageMediaType)|
                exists|i: int| 0 <= i < self.failed@.len() && failed_triple(self.failed@[i]) == t,
        )
    }
}

/// The triple of an image that failed.
spec fn failed_triple(failed: FailedImage) -> (Seq<char>, [u8; 32], ImageMediaType) {
    (failed.src@, failed.sha256, failed.media_type)
}

impl Default for NoRetrySet {
    fn default() -> (set: NoRetrySet)
        ensures
            set@ == Set::<(Seq<char>, [u8; 32], ImageMediaType)>::empty(),
    {
        NoRetrySet::new()
    }
}

impl Clone for NoRetrySet {
    fn clone(&self) -> (copy: NoRetrySet)
        ensures
            copy@ == self@,
    {
        proof {
            use_type_invariant(self);
        }
        let mut failed: Vec<FailedImage> = Vec::new();
        let mut i: usize = 0;
        while i < self.failed.len()
            invariant
                i <= self.failed@.len(),
                failed@.len() == i,
                forall|j: int|
                    0 <= j < i ==> failed_triple(#[trigger] failed@[j]) == failed_triple(
                        self.failed@[j],
                    ),
            decreases self.failed@.len() - i,
        {
            let entry = &self.failed[i];
            failed.push(
                FailedImage {
                    src: entry.src.clone(),
                    sha256: entry.sha256,
                    media_type: entry.media_type,
                },
            );
            i += 1;
        }
        let copy = NoRetrySet { failed };
        assert forall|t: (Seq<char>, [u8; 32], ImageMediaType)| copy@.contains(t)
            == #[trigger] self@.contains(t) by {
            if copy@.contains(t) {
                let i = choose|i: int|
                    0 <= i < copy.failed@.len() && failed_triple(copy.failed@[i]) == t;
                assert(failed_triple(self.failed@[i]) == t);
            }
            if self@.contains(t) {
                let i = choose|i: int|
                    0 <= i < self.failed@.len() && failed_triple(self.failed@[i]) == t;
                assert(failed_triple(copy.failed@[i]) == t);
            }
        }
        assert(copy@ =~= self@);
        copy
    }
}

impl NoRetrySet {
    /// No image is listed twice.
    #[verifier::type_invariant]
    spec fn lists_each_once(self) -> bool {
        forall|i: int, j: int|
            0 <= i < j < self.failed@.len() ==> failed_triple(#[trigger] self.failed@[i])
                != failed_triple(#[trigger] self.failed@[j])
    }

    /// The set of a fresh rendering session.
    pub fn new() -> (set: NoRetrySet)
        ensures
            set@ == Set::<(Seq<char>, [u8; 32], ImageMediaType)>::empty(),
    {
        let set = NoRetrySet { failed: Vec::new() };
        assert(set@ =~= Set::<(Seq<char>, [u8; 32], ImageMediaType)>::empty());
        set
    }

    /// Whether this image failed already.
    pub fn contains(&self, image: &ImageRef) -> (found: bool)
        ensures
            found == self@.contains(image_triple(*image)),
    {
        let mut i: usize = 0;
        while i < self.failed.len()
            invariant
                i <= self.failed@.len(),
                forall|j: int|
                    0 <= j < i ==> failed_triple(#[trigger] self.failed@[j]) != image_triple(
                        *image,
                    ),
            decreases self.failed@.len() - i,
        {
            let failed = &self.failed[i];
            if failed.src == image.src && same_bytes(&failed.sha256, &image.sha256)
                && failed.media_type == image.media_type {
                assert(failed_triple(self.failed@[i as int]) == image_triple(*image));
                return true;
            }
            i += 1;
        }
        false
    }

    /// Record that this image failed.
    pub fn record(&mut self, image: &ImageRef)
        ensures
            final(self)@ == old(self)@.insert(image_triple(*image)),
    {
        if self.contains(image) {
            assert(self@ =~= self@.insert(image_triple(*image)));
            return ;
        }
        proof {
            use_type_invariant(&*self);
        }
        let entry = FailedImage {
            src: image.src.clone(),
            sha256: image.sha256,
            media_type: image.media_type,
        };
        let ghost before = self.failed@;
        let ghost added = entry;
        let mut failed: Vec<FailedImage> = Vec::new();
        std::mem::swap(&mut failed, &mut self.failed);
        failed.push(entry);
        assert(failed_triple(added) == image_triple(*image));
        assert forall|i: int| 0 <= i < before.len() implies failed_triple(#[trigger] before[i])
            != image_triple(*image) by {
            if failed_triple(before[i]) == image_triple(*image) {
                assert(old(self)@.contains(image_triple(*image)));
            }
        }
        self.failed = failed;
        proof {
            let now = self.failed@;
            assert(now == before.push(added));
            assert forall|t: (Seq<char>, [u8; 32], ImageMediaType)| self@.contains(t)
                == #[trigger] old(self)@.insert(image_triple(*image)).contains(t) by {
                if self@.contains(t) {
                    let i = choose|i: int| 0 <= i < now.len() && failed_triple(now[i]) == t;
                    if i < before.len() {
                        assert(failed_triple(before[i]) == t);
                    }
                }
                if old(self)@.contains(t) {
                    let i = choose|i: int| 0 <= i < before.len() && failed_triple(before[i]) == t;
                    assert(failed_triple(now[i]) == t);
                }
                assert(failed_triple(now[before.len() as int]) == image_triple(*image));
            }
            assert(self@ =~= old(self)@.insert(image_triple(*image)));
        }
    }
}

/// The verdict on an image.
#[derive(Clone, Copy, Debug, PartialEq, Eq, Structural)]
pub enum ImageOutcome {
    /// The image may be rendered at these dimensions.
    Accept(Decoded),
    /// The image is rejected for this reason.
    Reject(DiagnosticCode),
}

impl ImageOutcome {
    /// Whether the image is accepted.
    pub fn is_accepted(&self) -> (accepted: bool)
        ensures
            accepted == (*self is Accept),
    {
        match self {
            ImageOutcome::Accept(_) => true,
            ImageOutcome::Reject(_) => false,
        }
    }

    /// Why the image is rejected.
    pub fn diagnostic(&self) -> (code: Option<DiagnosticCode>)
        ensures
            code == (match *self {
                ImageOutcome::Reject(c) => Some(c),
                ImageOutcome::Accept(_) => None,
            }),
    {
        match self {
            ImageOutcome::Reject(c) => Some(*c),
            ImageOutcome::Accept(_) => None,
        }
    }
}

/// The `Content-Type` that belongs to a declared media type.
pub open spec fn media_type_text(media_type: ImageMediaType) -> Seq<char> {
    match media_type {
        ImageMediaType::Png => "image/png"@,
        ImageMediaType::Jpeg => "image/jpeg"@,
        ImageMediaType::Webp => "image/webp"@,
    }
}

/// The `Content-Type` that belongs to a declared media type.
pub fn media_type_str(media_type: ImageMediaType) -> (text: &'static str)
    ensures
        text@ == media_type_text(media_type),
{
    match media_type {
        ImageMediaType::Png => "image/png",
        ImageMediaType::Jpeg => "image/jpeg",
        ImageMediaType::Webp => "image/webp",
    }
}

/// Unicode white space.
pub open spec fn is_space(c: char) -> bool {
    '\u{9}' <= c <= '\u{d}' || c == ' ' || c == '\u{85}' || c == '\u{a0}' || c == '\u{1680}'
        || '\u{2000}' <= c <= '\u{200a}' || c == '\u{2028}' || c == '\u{2029}' || c == '\u{202f}'
        || c == '\u{205f}' || c == '\u{3000}'
}

/// The lowercase form of an ASCII letter; any other character as it is.
pub open spec fn ascii_lower(c: char) -> char {
    if 'A' <= c <= 'Z' {
        (c as int + 32) as char
    } else {
        c
    }
}

/// The part of a header value before its parameters.
pub open spec fn before_parameters(text: Seq<char>) -> Seq<char>
    decreases text.len(),
{
    if text.len() == 0 || text[0] == ';' {
        seq![]
    } else {
        seq![text[0]] + before_parameters(text.skip(1))
    }
}

/// `text` without its leading white space.
pub open spec fn trimmed_start(text: Seq<char>) -> Seq<char>
    decreases text.len(),
{
    if text.len() > 0 && is_space(text[0]) {
        trimmed_start(text.skip(1))
    } else {
        text
    }
}

/// `text` without its trailing white space.
pub open spec fn trimmed_end(text: Seq<char>) -> Seq<char>
    decreases text.len(),
{
    if text.len() > 0 && is_space(text.last()) {
        trimmed_end(text.drop_last())
    } else {
        text
    }
}

/// The media type a `Content-Type` value names: what stands before its
/// parameters, trimmed, in lower case.
pub open spec fn essence(content_type: Seq<char>) -> Seq<char> {
    trimmed_end(trimmed_start(before_parameters(content_type))).map_values(|c: char| ascii_lower(c))
}

/// Whether a character is Unicode white space.
fn is_space_char(c: char) -> (space: bool)
    ensures
        space == is_space(c),
{
    ('\u{9}' <= c && c <= '\u{d}') || c == ' ' || c == '\u{85}' || c == '\u{a0}' || c == '\u{1680}'
        || ('\u{2000}' <= c && c <= '\u{200a}') || c == '\u{2028}' || c == '\u{2029}' || c
        == '\u{202f}' || c == '\u{205f}' || c == '\u{3000}'
}

/// The lowercase form of an ASCII letter.
fn ascii_lower_char(c: char) -> (lower: char)
    ensures
        lower == ascii_lower(c),
{
    if 'A' <= c && c <= 'Z' {
        (c as u8 + 32) as char
    } else {
        c
    }
}

/// A text without `;` up to `k` starts with those characters.
proof fn lemma_before_parameters(text: Seq<char>, k: int)
    requires
        0 <= k <= text.len(),
        forall|i: int| 0 <= i < k ==> #[trigger] text[i] != ';',
    ensures
        before_parameters(text) == text.take(k) + before_parameters(text.skip(k)),
    decreases k,
{
    if k == 0 {
        assert(text.skip(0) =~= text);
        assert(text.take(0) + before_parameters(text) =~= before_parameters(text));
    } else {
        let rest = text.skip(1);
        assert forall|i: int| 0 <= i < k - 1 implies #[trigger] rest[i] != ';' by {
            assert(rest[i] == text[i + 1]);
        }
        lemma_before_parameters(rest, k - 1);
        assert(rest.skip(k - 1) =~= text.skip(k));
        assert(text.take(k) =~= seq![text[0]] + rest.take(k - 1));
        assert(before_parameters(text) =~= text.take(k) + before_parameters(text.skip(k)));
    }
}

/// The characters before the parameters.
fn essence_chars(content_type: &str) -> (chars: Vec<char>)
    ensures
        chars@ == before_parameters(content_type@),
{
    let mut chars: Vec<char> = Vec::new();
    let mut done = false;
    for c in it: content_type.chars()
        invariant
            it.seq() == content_type@,
            done ==> chars@ == before_parameters(content_type@),
            !done ==> chars@ == content_type@.take(it.index() as int) && forall|i: int|
                0 <= i < it.index() ==> #[trigger] content_type@[i] != ';',
    {
        let ghost k = it.index() as int;
        if !done {
            if c == ';' {
                proof {
                    lemma_before_parameters(content_type@, k);
                    assert(content_type@.skip(k)[0] == ';');
                    assert(before_parameters(content_type@.skip(k)) =~= seq![]);
                    assert(before_parameters(content_type@) =~= content_type@.take(k));
                }
                done = true;
            } else {
                chars.push(c);
                assert(content_type@.take(k + 1) =~= content_type@.take(k).push(c));
            }
        }
    }
    proof {
        let n = content_type@.len() as int;
        if !done {
            lemma_before_parameters(content_type@, n);
            assert(content_type@.take(n) + before_parameters(content_type@.skip(n))
                =~= content_type@.take(n));
        }
    }
    chars
}

/// Leading white space is what is skipped.
proof fn lemma_trimmed_start(text: Seq<char>, k: int)
    requires
        0 <= k <= text.len(),
        forall|i: int| 0 <= i < k ==> is_space(#[trigger] text[i]),
        k < text.len() ==> !is_space(text[k]),
    ensures
        trimmed_start(text) == text.skip(k),
    decreases k,
{
    if k == 0 {
        assert(text.skip(0) =~= text);
    } else {
        let rest = text.skip(1);
        assert forall|i: int| 0 <= i < k - 1 implies is_space(#[trigger] rest[i]) by {
            assert(rest[i] == text[i + 1]);
        }
        lemma_trimmed_start(rest, k - 1);
        assert(rest.skip(k - 1) =~= text.skip(k));
    }
}

/// Trailing white space is what is dropped.
proof fn lemma_trimmed_end(text: Seq<char>, k: int)
    requires
        0 <= k <= text.len(),
        forall|i: int| k <= i < text.len() ==> is_space(#[trigger] text[i]),
        k > 0 ==> !is_space(text[k - 1]),
    ensures
        trimmed_end(text) == text.take(k),
    decreases text.len() - k,
{
    if k == text.len() {
        assert(text.take(k) =~= text);
    } else {
        lemma_trimmed_end(text.drop_last(), k);
        assert(text.drop_last().take(k) =~= text.take(k));
    }
}

/// Whether a response's `Content-Type` names the declared media type. The value
/// may carry parameters, and case does not matter.
pub fn content_type_matches(content_type: &str, declared: ImageMediaType) -> (matches: bool)
    ensures
        matches == (essence(content_type@) == media_type_text(declared)),
{
    let chars = essence_chars(content_type);
    let ghost head = chars@;
    let mut start: usize = 0;
    while start < chars.len() && is_space_char(chars[start])
        invariant
            start <= chars@.len(),
            forall|i: int| 0 <= i < start ==> is_space(#[trigger] chars@[i]),
        decreases chars@.len() - start,
    {
        start += 1;
    }
    proof {
        lemma_trimmed_start(head, start as int);
    }
    let mut end: usize = chars.len();
    while end > start && is_space_char(chars[end - 1])
        invariant
            start <= end <= chars@.len(),
            forall|i: int| end <= i < chars@.len() ==> is_space(#[trigger] chars@[i]),
        decreases end - start,
    {
        end -= 1;
    }
    let ghost trimmed = head.subrange(start as int, end as int);
    proof {
        let tail = head.skip(start as int);
        assert forall|i: int| end - start <= i < tail.len() implies is_space(#[trigger] tail[i]) by {
            assert(tail[i] == head[i + start]);
        }
        lemma_trimmed_end(tail, end - start);
        assert(tail.take(end - start) =~= trimmed);
        assert(essence(content_type@) == trimmed.map_values(|c: char| ascii_lower(c)));
    }
    let expected = media_type_str(declared);
    let ghost named = essence(content_type@);
    let mut i: usize = start;
    for c in it: expected.chars()
        invariant
            it.seq() == expected@,
            named == trimmed.map_values(|c: char| ascii_lower(c)),
            trimmed == chars@.subrange(start as int, end as int),
            named == essence(content_type@),
            expected@ == media_type_text(declared),
            start <= end <= chars@.len(),
            i == start + it.index(),
            i <= end,
            named.take(it.index() as int) == expected@.take(it.index() as int),
    {
        let ghost k = it.index() as int;
        if i >= end {
            assert(named.len() == k);
            assert(named != expected@);
            return false;
        }
        assert(named[k] == ascii_lower(chars@[i as int]));
        if ascii_lower_char(chars[i]) != c {
            assert(expected@[k] == c);
            assert(named != expected@);
            return false;
        }
        assert(named.take(k + 1) =~= named.take(k).push(named[k]));
        assert(expected@.take(k + 1) =~= expected@.take(k).push(c));
        i += 1;
    }
    proof {
        let n = expected@.len() as int;
        assert(expected@.take(n) =~= expected@);
        if i == end {
            assert(named.take(n) =~= named);
        } else {
            assert(named.len() > n);
        }
    }
    i == end
}

/// What is wrong with an image before it is decoded: its `Content-Type`, then
/// its size, then its hash.
pub open spec fn screening(image: ImageRef, body: Seq<u8>, content_type: Seq<char>) -> Option<
    DiagnosticCode,
> {
    if essence(content_type) != media_type_text(image.media_type) {
        Some(DiagnosticCode::WImageContentType)
    } else if body.len() > MAX_IMAGE_BYTES {
        Some(DiagnosticCode::WImageOversize)
    } else if crypto::sha256(body) != image.sha256@ {
        Some(DiagnosticCode::WImageHashMismatch)
    } else {
        None
    }
}

/// The verdict on an image that a decoder reported `decoded` for.
pub open spec fn decoded_verdict(
    image: ImageRef,
    decoded: Result<Decoded, DecodeError>,
    budget: ImageBudget,
) -> ImageOutcome {
    match decoded {
        Err(_) => ImageOutcome::Reject(DiagnosticCode::WImageDecodeFailed),
        Ok(d) => if d.animated {
            ImageOutcome::Reject(DiagnosticCode::WImageDecodeFailed)
        } else if d.width != image.width || d.height != image.height {
            ImageOutcome::Reject(DiagnosticCode::WImageDimensions)
        } else if !budget.fits(d.width, d.height) {
            ImageOutcome::Reject(DiagnosticCode::WImageBudget)
        } else {
            ImageOutcome::Accept(d)
        },
    }
}

/// What a verdict does to the budget: an accepted image is charged, an image
/// that does not fit exhausts the budget, and any other leaves it alone.
pub open spec fn budget_settles(
    before: ImageBudget,
    outcome: ImageOutcome,
    after: ImageBudget,
) -> bool {
    match outcome {
        ImageOutcome::Accept(d) => after.pixels() == before.pixels() + d.width * d.height
            && !after.is_exhausted(),
        ImageOutcome::Reject(DiagnosticCode::WImageBudget) => after.pixels() == before.pixels()
            && after.is_exhausted(),
        ImageOutcome::Reject(_) => after == before,
    }
}

/// Screen an image before it is decoded: the response's `Content-Type` against
/// the declared media type, the size of the body, and its hash.
pub fn screen(image: &ImageRef, body: &[u8], content_type: &str) -> (code: Option<DiagnosticCode>)
    ensures
        code == screening(*image, body@, content_type@),
{
    if !content_type_matches(content_type, image.media_type) {
        return Some(DiagnosticCode::WImageContentType);
    }
    if body.len() > MAX_IMAGE_BYTES {
        return Some(DiagnosticCode::WImageOversize);
    }
    let digest = sha256_digest(body);
    if !same_bytes(&digest, &image.sha256) {
        proof {
            if digest@ == image.sha256@ {
                assert(digest =~= image.sha256);
            }
        }
        return Some(DiagnosticCode::WImageHashMismatch);
    }
    None
}

/// Conclude on an image for which the decoder reported `decoded`: a failed or
/// animated decode, then the dimensions, then the budget.
pub fn conclude(
    image: &ImageRef,
    decoded: Result<Decoded, DecodeError>,
    budget: &mut ImageBudget,
) -> (outcome: ImageOutcome)
    ensures
        outcome == decoded_verdict(*image, decoded, *old(budget)),
        budget_settles(*old(budget), outcome, *final(budget)),
{
    let decoded = match decoded {
        Ok(decoded) => decoded,
        Err(_) => return ImageOutcome::Reject(DiagnosticCode::WImageDecodeFailed),
    };
    if decoded.animated {
        return ImageOutcome::Reject(DiagnosticCode::WImageDecodeFailed);
    }
    if decoded.width != image.width || decoded.height != image.height {
        return ImageOutcome::Reject(DiagnosticCode::WImageDimensions);
    }
    if !budget.try_charge(decoded.width, decoded.height) {
        return ImageOutcome::Reject(DiagnosticCode::WImageBudget);
    }
    ImageOutcome::Accept(decoded)
}

/// Run every check on an image. It is decoded only where nothing is wrong with
/// it before, and the verdict then is that on what the decoder reported.
fn run_checks<D: Decoder>(
    image: &ImageRef,
    body: &[u8],
    content_type: &str,
    decoder: &D,
    budget: &mut ImageBudget,
) -> (outcome: ImageOutcome)
    requires
        screening(*image, body@, content_type@) is None ==> decoder.may_decode(
            body@,
            image.media_type,
        ),
    ensures
        budget_settles(*old(budget), outcome, *final(budget)),
        match screening(*image, body@, content_type@) {
            Some(code) => outcome == ImageOutcome::Reject(code),
            None => exists|decoded: Result<Decoded, DecodeError>|
                #[trigger] call_ensures(D::decode, (decoder, body, image.media_type), decoded)
                    && outcome == decoded_verdict(*image, decoded, *old(budget)),
        },
{
    if let Some(code) = screen(image, body, content_type) {
        return ImageOutcome::Reject(code);
    }
    let decoded = decoder.decode(body, image.media_type);
    assert(call_ensures(D::decode, (decoder, body, image.media_type), decoded));
    conclude(image, decoded, budget)
}

/// Verify a fetched image against its block.
///
/// `body` is the exact body of the response and `content_type` its header. An
/// image that failed in this session is not tried again. The decoder is called
/// only for an image that did not fail before and passes the screening: for no
/// other is [`Decoder::may_decode`] granted. On any rejection the
/// image is recorded in `no_retry`; a verdict never touches other images.
pub fn verify_image<D: Decoder>(
    image: &ImageRef,
    body: &[u8],
    content_type: &str,
    decoder: &D,
    budget: &mut ImageBudget,
    no_retry: &mut NoRetrySet,
) -> (outcome: ImageOutcome)
    requires
        !old(no_retry)@.contains(image_triple(*image)) && screening(
            *image,
            body@,
            content_type@,
        ) is None ==> decoder.may_decode(body@, image.media_type),
    ensures
        final(no_retry)@ == (if outcome is Accept {
            old(no_retry)@
        } else {
            old(no_retry)@.insert(image_triple(*image))
        }),
        budget_settles(*old(budget), outcome, *final(budget)),
        if old(no_retry)@.contains(image_triple(*image)) {
            outcome == ImageOutcome::Reject(DiagnosticCode::WImageDecodeFailed)
        } else {
            match screening(*image, body@, content_type@) {
                Some(code) => outcome == ImageOutcome::Reject(code),
                None => exists|decoded: Result<Decoded, DecodeError>|
                    #[trigger] call_ensures(D::decode, (decoder, body, image.media_type), decoded)
                        && outcome == decoded_verdict(*image, decoded, *old(budget)),
            }
        },
{
    if no_retry.contains(image) {
        assert(no_retry@.insert(image_triple(*image)) =~= no_retry@);
        return ImageOutcome::Reject(DiagnosticCode::WImageDecodeFailed);
    }
    let outcome = run_checks(image, body, content_type, decoder, budget);
    if !outcome.is_accepted() {
        no_retry.record(image);
    }
    outcome
}

/// Nothing is decoded that was not authenticated: [`verify_image`] hands the
/// decoder only a body that passes the screening, and such a body has the
/// declared hash, is no larger than permitted, and came as the declared type.
pub proof fn law_screened_body_is_authentic(image: ImageRef, body: Seq<u8>, content_type: Seq<char>)
    requires
        screening(image, body, content_type) is None,
    ensures
        crypto::sha256(body) == image.sha256@,
        body.len() <= MAX_IMAGE_BYTES,
        essence(content_type) == media_type_text(image.media_type),
{
}

/// An accepted image has exactly the declared dimensions, is not animated, and
/// fits the budget.
pub proof fn law_accepted_image_is_as_declared(
    image: ImageRef,
    decoded: Result<Decoded, DecodeError>,
    budget: ImageBudget,
)
    requires
        decoded_verdict(image, decoded, budget) is Accept,
    ensures
        decoded_verdict(image, decoded, budget) == ImageOutcome::Accept(
            Decoded { width: image.width, height: image.height, animated: false },
        ),
        !budget.is_exhausted(),
        budget.pixels() + image.width * image.height <= MAX_DECODED_PIXELS,
{
}

/// Once an image did not fit, every later image is refused, however small.
pub proof fn law_exhausted_budget_refuses_all(
    before: ImageBudget,
    refused: ImageOutcome,
    after: ImageBudget,
    image: ImageRef,
    decoded: Result<Decoded, DecodeError>,
)
    requires
        refused == ImageOutcome::Reject(DiagnosticCode::WImageBudget),
        budget_settles(before, refused, after),
    ensures
        decoded_verdict(image, decoded, after) is Reject,
        budget_settles(after, decoded_verdict(image, decoded, after), after),
{
}

/// The names of the media types, spelled out.
proof fn lemma_names_spelled_out()
    ensures
        media_type_text(ImageMediaType::Png) == seq!['i', 'm', 'a', 'g', 'e', '/', 'p', 'n', 'g'],
        media_type_text(ImageMediaType::Jpeg) == seq![
            'i',
            'm',
            'a',
            'g',
            'e',
            '/',
            'j',
            'p',
            'e',
            'g',
        ],
        media_type_text(ImageMediaType::Webp) == seq![
            'i',
            'm',
            'a',
            'g',
            'e',
            '/',
            'w',
            'e',
            'b',
            'p',
        ],
{
    reveal_strlit("image/png");
    reveal_strlit("image/jpeg");
    reveal_strlit("image/webp");
    assert(media_type_text(ImageMediaType::Png) =~= seq![
        'i',
        'm',
        'a',
        'g',
        'e',
        '/',
        'p',
        'n',
        'g',
    ]);
    assert(media_type_text(ImageMediaType::Jpeg) =~= seq![
        'i',
        'm',
        'a',
        'g',
        'e',
        '/',
        'j',
        'p',
        'e',
        'g',
    ]);
    assert(media_type_text(ImageMediaType::Webp) =~= seq![
        'i',
        'm',
        'a',
        'g',
        'e',
        '/',
        'w',
        'e',
        'b',
        'p',
    ]);
}

/// A value of lowercase letters and a slash names what it says.
proof fn lemma_bare_name(text: Seq<char>)
    requires
        forall|i: int|
            0 <= i < text.len() ==> 'a' <= #[trigger] text[i] <= 'z' || text[i] == '/',
    ensures
        essence(text) == text,
{
    let n = text.len() as int;
    lemma_before_parameters(text, n);
    assert(before_parameters(text.skip(n)) =~= seq![]);
    assert(text.take(n) + before_parameters(text.skip(n)) =~= text);
    lemma_trimmed_start(text, 0);
    assert(text.skip(0) =~= text);
    lemma_trimmed_end(text, n);
    assert(text.take(n) =~= text);
    assert(text.map_values(|c: char| ascii_lower(c)) =~= text);
}

/// Each media type goes by its registered name, and by no other's: `image/png`,
/// `image/jpeg` and `image/webp` pass for the type that they name and for
/// neither of the others.
pub proof fn law_each_type_goes_by_its_name(
    content_type: &str,
    declared: ImageMediaType,
    passes: bool,
)
    requires
        call_ensures(content_type_matches, (content_type, declared), passes),
    ensures
        content_type@ == seq!['i', 'm', 'a', 'g', 'e', '/', 'p', 'n', 'g'] ==> (passes <==> declared
            == ImageMediaType::Png),
        content_type@ == seq!['i', 'm', 'a', 'g', 'e', '/', 'j', 'p', 'e', 'g'] ==> (passes
            <==> declared == ImageMediaType::Jpeg),
        content_type@ == seq!['i', 'm', 'a', 'g', 'e', '/', 'w', 'e', 'b', 'p'] ==> (passes
            <==> declared == ImageMediaType::Webp),
{
    lemma_names_spelled_out();
    let png = media_type_text(ImageMediaType::Png);
    let jpeg = media_type_text(ImageMediaType::Jpeg);
    let webp = media_type_text(ImageMediaType::Webp);
    assert(png[6] != jpeg[6] && jpeg[6] != webp[6] && png[6] != webp[6]);
    lemma_bare_name(png);
    lemma_bare_name(jpeg);
    lemma_bare_name(webp);
}

/// The text for a media type is its registered name, spelled out.
pub proof fn law_media_types_are_registered_names(media_type: ImageMediaType, text: &'static str)
    requires
        call_ensures(media_type_str, (media_type,), text),
    ensures
        media_type == ImageMediaType::Png ==> text@ == seq![
            'i',
            'm',
            'a',
            'g',
            'e',
            '/',
            'p',
            'n',
            'g',
        ],
        media_type == ImageMediaType::Jpeg ==> text@ == seq![
            'i',
            'm',
            'a',
            'g',
            'e',
            '/',
            'j',
            'p',
            'e',
            'g',
        ],
        media_type == ImageMediaType::Webp ==> text@ == seq![
            'i',
            'm',
            'a',
            'g',
            'e',
            '/',
            'w',
            'e',
            'b',
            'p',
        ],
{
    lemma_names_spelled_out();
}

/// Parameters do not matter: whatever stands behind a semicolon, the value names
/// what it named without it.
pub proof fn law_parameters_do_not_matter(
    value: &str,
    with_parameters: &str,
    parameters: Seq<char>,
    declared: ImageMediaType,
    passes: bool,
    passes_with: bool,
)
    requires
        with_parameters@ == value@ + seq![';'] + parameters,
        call_ensures(content_type_matches, (value, declared), passes),
        call_ensures(content_type_matches, (with_parameters, declared), passes_with),
    ensures
        passes == passes_with,
{
    lemma_parameters_are_cut(value@, parameters);
}

/// What stands before the first semicolon is the same with more behind one.
proof fn lemma_parameters_are_cut(value: Seq<char>, parameters: Seq<char>)
    ensures
        before_parameters(value + seq![';'] + parameters) == before_parameters(value),
    decreases value.len(),
{
    let longer = value + seq![';'] + parameters;
    if value.len() > 0 {
        assert(longer[0] == value[0]);
        assert(longer.skip(1) =~= value.skip(1) + seq![';'] + parameters);
        lemma_parameters_are_cut(value.skip(1), parameters);
    }
}

/// Case does not matter: two values that differ only in the case of ASCII
/// letters name the same.
pub proof fn law_case_does_not_matter(
    value: &str,
    other: &str,
    declared: ImageMediaType,
    passes: bool,
    passes_other: bool,
)
    requires
        value@.len() == other@.len(),
        forall|i: int|
            0 <= i < value@.len() ==> #[trigger] value@[i] == other@[i] || ('A' <= value@[i] <= 'Z'
                && other@[i] as int == value@[i] as int + 32),
        call_ensures(content_type_matches, (value, declared), passes),
        call_ensures(content_type_matches, (other, declared), passes_other),
    ensures
        passes == passes_other,
{
    lemma_case_before_parameters(value@, other@);
    let (a, b) = (before_parameters(value@), before_parameters(other@));
    lemma_case_trimmed_start(a, b);
    let (c, d) = (trimmed_start(a), trimmed_start(b));
    lemma_case_trimmed_end(c, d);
    let (e, f) = (trimmed_end(c), trimmed_end(d));
    assert(e.map_values(|x: char| ascii_lower(x)) =~= f.map_values(|x: char| ascii_lower(x)));
}

/// Two texts differ at most in that the first has capitals where the second has
/// the small letters.
spec fn same_but_for_case(a: Seq<char>, b: Seq<char>) -> bool {
    a.len() == b.len() && forall|i: int|
        0 <= i < a.len() ==> #[trigger] a[i] == b[i] || ('A' <= a[i] <= 'Z' && b[i] as int
            == a[i] as int + 32)
}

proof fn lemma_case_before_parameters(a: Seq<char>, b: Seq<char>)
    requires
        same_but_for_case(a, b),
    ensures
        same_but_for_case(before_parameters(a), before_parameters(b)),
    decreases a.len(),
{
    if a.len() > 0 {
        assert(a[0] == ';' <==> b[0] == ';');
        assert(same_but_for_case(a.skip(1), b.skip(1))) by {
            assert forall|i: int| 0 <= i < a.skip(1).len() implies #[trigger] a.skip(1)[i] == b.skip(
                1,
            )[i] || ('A' <= a.skip(1)[i] <= 'Z' && b.skip(1)[i] as int == a.skip(1)[i] as int
                + 32) by {
                assert(a.skip(1)[i] == a[i + 1] && b.skip(1)[i] == b[i + 1]);
            }
        }
        lemma_case_before_parameters(a.skip(1), b.skip(1));
        if a[0] != ';' {
            let (x, y) = (before_parameters(a), before_parameters(b));
            let (r, s) = (before_parameters(a.skip(1)), before_parameters(b.skip(1)));
            assert forall|i: int| 0 <= i < x.len() implies #[trigger] x[i] == y[i] || ('A' <= x[i]
                <= 'Z' && y[i] as int == x[i] as int + 32) by {
                if i == 0 {
                    assert(x[0] == a[0] && y[0] == b[0]);
                } else {
                    assert(x[i] == r[i - 1] && y[i] == s[i - 1]);
                }
            }
        }
    }
}

proof fn lemma_case_trimmed_start(a: Seq<char>, b: Seq<char>)
    requires
        same_but_for_case(a, b),
    ensures
        same_but_for_case(trimmed_start(a), trimmed_start(b)),
    decreases a.len(),
{
    if a.len() > 0 {
        assert(is_space(a[0]) <==> is_space(b[0]));
        assert forall|i: int| 0 <= i < a.skip(1).len() implies #[trigger] a.skip(1)[i] == b.skip(
            1,
        )[i] || ('A' <= a.skip(1)[i] <= 'Z' && b.skip(1)[i] as int == a.skip(1)[i] as int
            + 32) by {
            assert(a.skip(1)[i] == a[i + 1] && b.skip(1)[i] == b[i + 1]);
        }
        lemma_case_trimmed_start(a.skip(1), b.skip(1));
    }
}

proof fn lemma_case_trimmed_end(a: Seq<char>, b: Seq<char>)
    requires
        same_but_for_case(a, b),
    ensures
        same_but_for_case(trimmed_end(a), trimmed_end(b)),
    decreases a.len(),
{
    if a.len() > 0 {
        let n = a.len() - 1;
        assert(a.last() == a[n] && b.last() == b[n]);
        assert(is_space(a[n]) <==> is_space(b[n]));
        assert forall|i: int| 0 <= i < a.drop_last().len() implies #[trigger] a.drop_last()[i]
            == b.drop_last()[i] || ('A' <= a.drop_last()[i] <= 'Z' && b.drop_last()[i] as int
            == a.drop_last()[i] as int + 32) by {
            assert(a.drop_last()[i] == a[i] && b.drop_last()[i] == b[i]);
        }
        lemma_case_trimmed_end(a.drop_last(), b.drop_last());
    }
}

/// White space around the name does not matter: a value that names a type names
/// it too with a blank or a tab in front, or behind.
pub proof fn law_blanks_around_do_not_matter(
    value: &str,
    padded: &str,
    blank: char,
    declared: ImageMediaType,
    passes: bool,
    passes_padded: bool,
)
    requires
        blank == ' ' || blank == '\u{9}',
        padded@ == seq![blank] + value@ || ((forall|i: int|
            0 <= i < value@.len() ==> #[trigger] value@[i] != ';') && padded@ == value@ + seq![
            blank,
        ]),
        call_ensures(content_type_matches, (value, declared), passes),
        call_ensures(content_type_matches, (padded, declared), passes_padded),
    ensures
        passes == passes_padded,
{
    let v = value@;
    let p = padded@;
    if p == seq![blank] + v {
        assert(p[0] == blank);
        assert(p.skip(1) =~= v);
        assert(before_parameters(p) == seq![blank] + before_parameters(v));
        let head = before_parameters(p);
        assert(head[0] == blank);
        assert(head.skip(1) =~= before_parameters(v));
        assert(trimmed_start(head) == trimmed_start(before_parameters(v)));
    } else {
        let n = v.len() as int;
        lemma_before_parameters(v, n);
        assert(before_parameters(v.skip(n)) =~= seq![]);
        assert(v.take(n) + before_parameters(v.skip(n)) =~= v);
        assert forall|i: int| 0 <= i < n + 1 implies #[trigger] p[i] != ';' by {
            if i < n {
                assert(p[i] == v[i]);
            }
        }
        lemma_before_parameters(p, n + 1);
        assert(before_parameters(p.skip(n + 1)) =~= seq![]);
        assert(p.take(n + 1) + before_parameters(p.skip(n + 1)) =~= p);
        lemma_trailing_blank(v, blank);
    }
}

/// A trailing blank is trimmed, also where nothing else is left.
proof fn lemma_trailing_blank(text: Seq<char>, blank: char)
    requires
        is_space(blank),
    ensures
        trimmed_end(trimmed_start(text + seq![blank])) == trimmed_end(trimmed_start(text)),
    decreases text.len(),
{
    let longer = text + seq![blank];
    if text.len() == 0 {
        assert(longer.skip(1) =~= text);
        assert(longer[0] == blank);
    } else if is_space(text[0]) {
        assert(longer[0] == text[0]);
        assert(longer.skip(1) =~= text.skip(1) + seq![blank]);
        lemma_trailing_blank(text.skip(1), blank);
    } else {
        assert(longer[0] == text[0]);
        assert(trimmed_start(longer) == longer);
        assert(longer.last() == blank);
        assert(longer.drop_last() =~= text);
    }
}

/// Nothing else passes: a value that passes for a type holds that type's name,
/// in whatever case, with nothing but white space around it up to its end or to
/// a semicolon. White space is no letter, digit, slash or semicolon.
pub proof fn law_only_the_name_passes(
    content_type: &str,
    declared: ImageMediaType,
    name: &'static str,
) -> (at: (int, int))
    requires
        call_ensures(content_type_matches, (content_type, declared), true),
        call_ensures(media_type_str, (declared,), name),
    ensures
        ({
            let (start, end) = at;
            let value = content_type@;
            &&& 0 <= start
            &&& start + name@.len() <= end <= value.len()
            &&& end == value.len() || value[end] == ';'
            &&& forall|i: int|
                0 <= i < name@.len() ==> #[trigger] value[start + i] == name@[i] || ('A'
                    <= value[start + i] <= 'Z' && value[start + i] as int + 32 == name@[i] as int)
            &&& forall|i: int|
                #![trigger value[i]]
                0 <= i < start || start + name@.len() <= i < end ==> {
                    &&& !('a' <= value[i] <= 'z') && !('A' <= value[i] <= 'Z')
                    &&& !('0' <= value[i] <= '9') && value[i] != '/' && value[i] != ';'
                }
        }),
{
    let value = content_type@;
    let head = before_parameters(value);
    let end = lemma_head_ends(value);
    let start = lemma_start_of(head);
    let tail = head.skip(start);
    let kept = lemma_end_of(tail);
    let word = tail.take(kept);
    lemma_trimmed_start(head, start);
    lemma_trimmed_end(tail, kept);
    let named = word.map_values(|c: char| ascii_lower(c));
    assert(named == essence(value));
    assert(named == name@);
    assert(word.len() == name@.len());
    assert forall|i: int| 0 <= i < name@.len() implies #[trigger] value[start + i] == name@[i] || (
    'A' <= value[start + i] <= 'Z' && value[start + i] as int + 32 == name@[i] as int) by {
        assert(word[i] == value[start + i]);
        assert(named[i] == ascii_lower(word[i]));
    }
    assert forall|i: int|
        #![trigger value[i]]
        0 <= i < start || start + name@.len() <= i < end implies {
        &&& !('a' <= value[i] <= 'z') && !('A' <= value[i] <= 'Z')
        &&& !('0' <= value[i] <= '9') && value[i] != '/' && value[i] != ';'
    } by {
        assert(head[i] == value[i]);
        if i >= start {
            assert(tail[i - start] == value[i]);
        }
        assert(is_space(value[i]));
    }
    (start, end)
}

/// Where the part before the parameters ends.
proof fn lemma_head_ends(value: Seq<char>) -> (end: int)
    ensures
        0 <= end <= value.len(),
        before_parameters(value) == value.take(end),
        end == value.len() || value[end] == ';',
    decreases value.len(),
{
    if value.len() == 0 || value[0] == ';' {
        assert(value.take(0) =~= seq![]);
        0
    } else {
        let rest = lemma_head_ends(value.skip(1));
        assert(value.take(rest + 1) =~= seq![value[0]] + value.skip(1).take(rest));
        rest + 1
    }
}

/// How much white space a text starts with.
proof fn lemma_start_of(text: Seq<char>) -> (k: int)
    ensures
        0 <= k <= text.len(),
        forall|i: int| 0 <= i < k ==> is_space(#[trigger] text[i]),
        k < text.len() ==> !is_space(text[k]),
    decreases text.len(),
{
    if text.len() == 0 || !is_space(text[0]) {
        0
    } else {
        let rest = text.skip(1);
        let k = lemma_start_of(rest);
        assert forall|i: int| 0 <= i < k + 1 implies is_space(#[trigger] text[i]) by {
            if i > 0 {
                assert(rest[i - 1] == text[i]);
            }
        }
        k + 1
    }
}

/// How much of a text is left without the white space at its end.
proof fn lemma_end_of(text: Seq<char>) -> (k: int)
    ensures
        0 <= k <= text.len(),
        forall|i: int| k <= i < text.len() ==> is_space(#[trigger] text[i]),
        k > 0 ==> !is_space(text[k - 1]),
    decreases text.len(),
{
    if text.len() == 0 || !is_space(text.last()) {
        text.len() as int
    } else {
        let rest = text.drop_last();
        let k = lemma_end_of(rest);
        assert forall|i: int| k <= i < text.len() implies is_space(#[trigger] text[i]) by {
            if i < rest.len() {
                assert(rest[i] == text[i]);
            }
        }
        k
    }
}

/// White space is what Unicode says it is, and nothing in ASCII but the blank
/// and the five controls from tab to carriage return.
pub proof fn law_white_space_is_unicodes(c: char)
    ensures
        (c as int) < 0x80 ==> (is_space(c) <==> 9 <= c as int <= 13 || c as int == 32),
        c as int >= 0x80 ==> (is_space(c) <==> seq![
            0x85int,
            0xa0,
            0x1680,
            0x2000,
            0x2001,
            0x2002,
            0x2003,
            0x2004,
            0x2005,
            0x2006,
            0x2007,
            0x2008,
            0x2009,
            0x200a,
            0x2028,
            0x2029,
            0x202f,
            0x205f,
            0x3000,
        ].contains(c as int)),
{
    let spaces = seq![
        0x85int,
        0xa0,
        0x1680,
        0x2000,
        0x2001,
        0x2002,
        0x2003,
        0x2004,
        0x2005,
        0x2006,
        0x2007,
        0x2008,
        0x2009,
        0x200a,
        0x2028,
        0x2029,
        0x202f,
        0x205f,
        0x3000,
    ];
    let n = c as int;
    if n >= 0x80 && is_space(c) {
        let i = if n == 0x85 {
            0int
        } else if n == 0xa0 {
            1
        } else if n == 0x1680 {
            2
        } else if n <= 0x200a {
            n - 0x2000 + 3
        } else if n == 0x2028 {
            14
        } else if n == 0x2029 {
            15
        } else if n == 0x202f {
            16
        } else if n == 0x205f {
            17
        } else {
            18
        };
        assert(spaces[i] == n);
    }
}

/// An image passes the screening exactly if its header names the declared type,
/// its body has at most two mebibytes, and its hash is the declared one. The
/// header is looked at first, then the size, then the hash.
pub proof fn law_screening_is_in_order(
    image: ImageRef,
    body: &[u8],
    content_type: &str,
    named: bool,
    code: Option<DiagnosticCode>,
)
    requires
        call_ensures(content_type_matches, (content_type, image.media_type), named),
        call_ensures(screen, (&image, body, content_type), code),
    ensures
        code == Some(DiagnosticCode::WImageContentType) <==> !named,
        code == Some(DiagnosticCode::WImageOversize) <==> named && body@.len() > 2097152,
        code == Some(DiagnosticCode::WImageHashMismatch) <==> named && body@.len() <= 2097152
            && crypto::sha256(body@) != image.sha256@,
        code is None <==> named && body@.len() <= 2097152 && crypto::sha256(body@) == image.sha256@,
{
}

/// A decoded image is accepted, as it was decoded, exactly if the decoder
/// succeeded, nothing moves, both dimensions are the declared ones and its
/// pixels fit into what is left of sixteen mebipixels. The reasons against it
/// come in that order.
pub proof fn law_decoded_image_is_judged_in_order(
    image: ImageRef,
    decoded: Result<Decoded, DecodeError>,
    budget: &mut ImageBudget,
    outcome: ImageOutcome,
)
    requires
        call_ensures(conclude, (&image, decoded, budget), outcome),
    ensures
        ({
            let fits = !old(budget).is_exhausted() && old(budget).pixels() + decoded->Ok_0.width
                * decoded->Ok_0.height <= 16777216;
            let still = decoded is Ok && !decoded->Ok_0.animated;
            let sized = decoded->Ok_0.width == image.width && decoded->Ok_0.height == image.height;
            &&& outcome == ImageOutcome::Reject(DiagnosticCode::WImageDecodeFailed) <==> !still
            &&& outcome == ImageOutcome::Reject(DiagnosticCode::WImageDimensions) <==> still
                && !sized
            &&& outcome == ImageOutcome::Reject(DiagnosticCode::WImageBudget) <==> still && sized
                && !fits
            &&& outcome is Accept <==> still && sized && fits
            &&& outcome matches ImageOutcome::Accept(d) ==> Ok::<Decoded, DecodeError>(d) == decoded
        }),
        outcome is Accept ==> final(budget).pixels() == old(budget).pixels() + image.width
            * image.height,
        outcome is Reject ==> final(budget).pixels() == old(budget).pixels(),
        final(budget).is_exhausted() <==> old(budget).is_exhausted() || outcome
            == ImageOutcome::Reject(DiagnosticCode::WImageBudget),
{
}

/// Charging an image is all or nothing: its pixels are added if together with
/// the earlier ones they are at most sixteen mebipixels and no image was refused
/// before; otherwise nothing is added, and every later image is refused.
pub proof fn law_charge_is_all_or_nothing(
    budget: &mut ImageBudget,
    width: u32,
    height: u32,
    charged: bool,
)
    requires
        call_ensures(ImageBudget::try_charge, (budget, width, height), charged),
    ensures
        charged <==> !old(budget).is_exhausted() && old(budget).pixels() + width * height
            <= 16777216,
        charged ==> final(budget).pixels() == old(budget).pixels() + width * height
            && !final(budget).is_exhausted(),
        !charged ==> final(budget).is_exhausted() && final(budget).pixels() == old(budget).pixels(),
{
}

/// A fresh budget has everything left, and a budget tells what was charged.
pub proof fn law_fresh_budget_is_whole(fresh: ImageBudget, budget: ImageBudget, used: u64)
    requires
        call_ensures(ImageBudget::new, (), fresh),
        call_ensures(ImageBudget::used, (&budget,), used),
    ensures
        fresh.pixels() == 0 && !fresh.is_exhausted(),
        used == budget.pixels(),
        used <= 16777216,
{
}

/// An image is told from another by where it is, what it hashes to and what type
/// it declares, and by nothing else.
pub proof fn law_images_are_told_apart(a: ImageRef, b: ImageRef)
    ensures
        image_triple(a) == image_triple(b) <==> a.src@ == b.src@ && a.sha256 == b.sha256
            && a.media_type == b.media_type,
{
}

/// An image that failed is found again, and so are all that failed before; no
/// other image is.
pub proof fn law_failed_image_is_found_again(
    set: &mut NoRetrySet,
    failed: ImageRef,
    after: NoRetrySet,
    image: ImageRef,
    found_before: bool,
    found: bool,
)
    requires
        call_ensures(NoRetrySet::contains, (old(set), &image), found_before),
        call_ensures(NoRetrySet::record, (set, &failed), ()),
        after == *final(set),
        call_ensures(NoRetrySet::contains, (&after, &image), found),
    ensures
        found <==> found_before || (image.src@ == failed.src@ && image.sha256 == failed.sha256
            && image.media_type == failed.media_type),
{
}

/// A fresh session has no image that failed.
pub proof fn law_fresh_session_retries_all(set: NoRetrySet, image: ImageRef, found: bool)
    requires
        call_ensures(NoRetrySet::new, (), set),
        call_ensures(NoRetrySet::contains, (&set, &image), found),
    ensures
        !found,
{
}

/// An image that failed before is rejected without a look at what came, and the
/// budget and the set stay as they are.
pub proof fn law_failed_image_is_not_tried_again<D: Decoder>(
    image: ImageRef,
    body: &[u8],
    content_type: &str,
    decoder: &D,
    budget: &mut ImageBudget,
    no_retry: &mut NoRetrySet,
    outcome: ImageOutcome,
)
    requires
        call_ensures(
            verify_image::<D>,
            (&image, body, content_type, decoder, budget, no_retry),
            outcome,
        ),
        old(no_retry)@.contains((image.src@, image.sha256, image.media_type)),
    ensures
        outcome == ImageOutcome::Reject(DiagnosticCode::WImageDecodeFailed),
        final(no_retry)@ == old(no_retry)@,
        *final(budget) == *old(budget),
{
    assert(old(no_retry)@.insert(image_triple(image)) =~= old(no_retry)@);
}

/// An image that did not fail before is judged by its screening and, only where
/// that finds nothing, by what the decoder reports of that very body as the
/// declared type. It is remembered as failed exactly if it is rejected.
pub proof fn law_image_is_judged_by_what_came<D: Decoder>(
    image: ImageRef,
    body: &[u8],
    content_type: &str,
    decoder: &D,
    budget: &mut ImageBudget,
    no_retry: &mut NoRetrySet,
    screened: Option<DiagnosticCode>,
    outcome: ImageOutcome,
)
    requires
        call_ensures(
            verify_image::<D>,
            (&image, body, content_type, decoder, budget, no_retry),
            outcome,
        ),
        !old(no_retry)@.contains((image.src@, image.sha256, image.media_type)),
        call_ensures(screen, (&image, body, content_type), screened),
    ensures
        screened matches Some(code) ==> outcome == ImageOutcome::Reject(code) && *final(budget)
            == *old(budget),
        screened is None ==> exists|decoded: Result<Decoded, DecodeError>|
            {
                &&& #[trigger] call_ensures(
                    D::decode,
                    (decoder, body, image.media_type),
                    decoded,
                )
                &&& match decoded {
                    Err(_) => outcome == ImageOutcome::Reject(DiagnosticCode::WImageDecodeFailed),
                    Ok(d) => {
                        let fits = !old(budget).is_exhausted() && old(budget).pixels() + d.width
                            * d.height <= 16777216;
                        if d.animated {
                            outcome == ImageOutcome::Reject(DiagnosticCode::WImageDecodeFailed)
                        } else if d.width != image.width || d.height != image.height {
                            outcome == ImageOutcome::Reject(DiagnosticCode::WImageDimensions)
                        } else if fits {
                            &&& outcome == ImageOutcome::Accept(d)
                            &&& final(budget).pixels() == old(budget).pixels() + d.width * d.height
                        } else {
                            &&& outcome == ImageOutcome::Reject(DiagnosticCode::WImageBudget)
                            &&& final(budget).is_exhausted()
                        }
                    },
                }
            },
        outcome is Accept ==> final(no_retry)@ == old(no_retry)@,
        outcome is Reject ==> final(no_retry)@ == old(no_retry)@.insert(
            (image.src@, image.sha256, image.media_type),
        ),
{
}

/// A verdict is an acceptance exactly where it has no diagnostic, and its
/// diagnostic is the reason of the rejection.
pub proof fn law_verdict_is_accepted_or_explained(
    outcome: ImageOutcome,
    accepted: bool,
    code: Option<DiagnosticCode>,
)
    requires
        call_ensures(ImageOutcome::is_accepted, (&outcome,), accepted),
        call_ensures(ImageOutcome::diagnostic, (&outcome,), code),
    ensures
        accepted <==> code is None,
        accepted <==> outcome is Accept,
        outcome matches ImageOutcome::Reject(c) ==> code == Some(c),
{
}

} // verus!
