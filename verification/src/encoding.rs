//! Text encodings of byte strings: lowercase hex and unpadded base64url.
//!
//! The encodings are computed by the `data_encoding` crate. What they are is
//! stated here, symbol by symbol, and that they lose nothing is proved from
//! that statement.
use vstd::prelude::*;
use vstd::string::*;
use vstd::utf8::*;

verus! {

/// The lowercase hex digit of a value below sixteen.
pub open spec fn hex_digit(value: int) -> char {
    if value < 10 {
        ('0' as int + value) as char
    } else {
        ('a' as int + value - 10) as char
    }
}

/// The lowercase hex encoding: two digits per byte, the high one first.
pub open spec fn hex_lower(bytes: Seq<u8>) -> Seq<char> {
    Seq::new(
        2 * bytes.len(),
        |i: int|
            hex_digit(
                if i % 2 == 0 {
                    bytes[i / 2] as int / 16
                } else {
                    bytes[i / 2] as int % 16
                },
            ),
    )
}

/// The base64url symbol of a value below sixty-four.
pub open spec fn base64url_symbol(value: int) -> char {
    if value < 26 {
        ('A' as int + value) as char
    } else if value < 52 {
        ('a' as int + value - 26) as char
    } else if value < 62 {
        ('0' as int + value - 52) as char
    } else if value == 62 {
        '-'
    } else {
        '_'
    }
}

/// The byte at `k`, or zero past the end.
pub open spec fn byte_or_zero(bytes: Seq<u8>, k: int) -> int {
    if 0 <= k < bytes.len() {
        bytes[k] as int
    } else {
        0
    }
}

/// The `i`-th group of six bits, with zero bits past the end.
pub open spec fn sextet(bytes: Seq<u8>, i: int) -> int {
    let k = 3 * (i / 4);
    if i % 4 == 0 {
        byte_or_zero(bytes, k) / 4
    } else if i % 4 == 1 {
        (byte_or_zero(bytes, k) % 4) * 16 + byte_or_zero(bytes, k + 1) / 16
    } else if i % 4 == 2 {
        (byte_or_zero(bytes, k + 1) % 16) * 4 + byte_or_zero(bytes, k + 2) / 64
    } else {
        byte_or_zero(bytes, k + 2) % 64
    }
}

/// The unpadded base64url encoding: one symbol per started group of six bits.
pub open spec fn base64url(bytes: Seq<u8>) -> Seq<char> {
    Seq::new(((4 * bytes.len() + 2) / 3) as nat, |i: int| base64url_symbol(sextet(bytes, i)))
}

/// A text short enough for `data_encoding` to take.
pub open spec fn decoder_takes(text: Seq<char>) -> bool {
    encode_utf8(text).len() <= usize::MAX / 8
}

/// `data_encoding::HEXLOWER.encode`: the lowercase hex text of `bytes`. The
/// call panics on an input longer than `usize::MAX / 512`.
#[verifier::external_body]
pub(crate) fn hex_encode(bytes: &[u8]) -> (text: String)
    requires
        bytes@.len() <= usize::MAX / 512,
    ensures
        text@ == hex_lower(bytes@),
{
    data_encoding::HEXLOWER.encode(bytes)
}

/// `data_encoding::HEXLOWER.decode`: the bytes whose lowercase hex text is
/// `text`; the crate's error text where `text` is no such text, uppercase digits
/// included. The call panics on an input longer than `usize::MAX / 8`.
#[verifier::external_body]
pub(crate) fn hex_decode(text: &str) -> (bytes: Result<Vec<u8>, String>)
    requires
        decoder_takes(text@),
    ensures
        match bytes {
            Ok(b) => hex_lower(b@) == text@,
            Err(_) => forall|b: Seq<u8>| #[trigger] hex_lower(b) != text@,
        },
{
    data_encoding::HEXLOWER.decode(text.as_bytes()).map_err(|e| e.to_string())
}

/// `data_encoding::BASE64URL_NOPAD.encode`: the unpadded base64url text of
/// `bytes`. The call panics on an input longer than `usize::MAX / 512`.
#[verifier::external_body]
pub(crate) fn base64url_encode(bytes: &[u8]) -> (text: String)
    requires
        bytes@.len() <= usize::MAX / 512,
    ensures
        text@ == base64url(bytes@),
{
    data_encoding::BASE64URL_NOPAD.encode(bytes)
}

/// `data_encoding::BASE64URL_NOPAD.decode`: the bytes whose unpadded base64url
/// text is `text`; the crate's error text where `text` is no such text (a foreign
/// symbol, an impossible length, padding, nonzero trailing bits). The call panics
/// on an input longer than `usize::MAX / 8`.
#[verifier::external_body]
pub(crate) fn base64url_decode(text: &str) -> (bytes: Result<Vec<u8>, String>)
    requires
        decoder_takes(text@),
    ensures
        match bytes {
            Ok(b) => base64url(b@) == text@,
            Err(_) => forall|b: Seq<u8>| #[trigger] base64url(b) != text@,
        },
{
    data_encoding::BASE64URL_NOPAD.decode(text.as_bytes()).map_err(|e| e.to_string())
}

/// Distinct values below sixteen have distinct hex digits.
proof fn lemma_hex_digit_injective(v: int, w: int)
    requires
        0 <= v < 16,
        0 <= w < 16,
        hex_digit(v) == hex_digit(w),
    ensures
        v == w,
{
}

/// Hex encoding loses nothing: distinct byte strings have distinct texts.
pub proof fn law_hex_is_injective(a: Seq<u8>, b: Seq<u8>)
    requires
        hex_lower(a) == hex_lower(b),
    ensures
        a == b,
{
    assert(hex_lower(a).len() == 2 * a.len());
    assert(hex_lower(b).len() == 2 * b.len());
    assert forall|k: int| 0 <= k < a.len() implies a[k] == b[k] by {
        assert(hex_lower(a)[2 * k] == hex_digit(a[k] as int / 16));
        assert(hex_lower(b)[2 * k] == hex_digit(b[k] as int / 16));
        assert(hex_lower(a)[2 * k + 1] == hex_digit(a[k] as int % 16));
        assert(hex_lower(b)[2 * k + 1] == hex_digit(b[k] as int % 16));
        lemma_hex_digit_injective(a[k] as int / 16, b[k] as int / 16);
        lemma_hex_digit_injective(a[k] as int % 16, b[k] as int % 16);
    }
    assert(a =~= b);
}

/// A group of six bits is below sixty-four.
proof fn lemma_sextet_range(bytes: Seq<u8>, i: int)
    requires
        0 <= i,
    ensures
        0 <= sextet(bytes, i) < 64,
{
}

/// Distinct values below sixty-four have distinct symbols.
proof fn lemma_base64url_symbol_injective(v: int, w: int)
    requires
        0 <= v < 64,
        0 <= w < 64,
        base64url_symbol(v) == base64url_symbol(w),
    ensures
        v == w,
{
}

/// Equal encodings have equal groups of six bits.
proof fn lemma_equal_sextets(a: Seq<u8>, b: Seq<u8>, i: int)
    requires
        base64url(a) == base64url(b),
        0 <= i < base64url(a).len(),
    ensures
        sextet(a, i) == sextet(b, i),
{
    assert(base64url(a)[i] == base64url_symbol(sextet(a, i)));
    assert(base64url(b)[i] == base64url_symbol(sextet(b, i)));
    lemma_sextet_range(a, i);
    lemma_sextet_range(b, i);
    lemma_base64url_symbol_injective(sextet(a, i), sextet(b, i));
}

/// Base64url encoding loses nothing: distinct byte strings have distinct texts.
pub proof fn law_base64url_is_injective(a: Seq<u8>, b: Seq<u8>)
    requires
        base64url(a) == base64url(b),
    ensures
        a == b,
{
    assert(base64url(a).len() == (4 * a.len() + 2) / 3);
    assert(base64url(b).len() == (4 * b.len() + 2) / 3);
    assert(a.len() == b.len());
    assert forall|k: int| 0 <= k < a.len() implies a[k] == b[k] by {
        let m = k / 3;
        if k % 3 == 0 {
            lemma_equal_sextets(a, b, 4 * m);
            lemma_equal_sextets(a, b, 4 * m + 1);
            assert((4 * m) / 4 == m && (4 * m + 1) / 4 == m);
            assert(a[k] as int / 4 == b[k] as int / 4);
            assert(sextet(a, 4 * m + 1) / 16 == a[k] as int % 4);
            assert(sextet(b, 4 * m + 1) / 16 == b[k] as int % 4);
        } else if k % 3 == 1 {
            lemma_equal_sextets(a, b, 4 * m + 1);
            lemma_equal_sextets(a, b, 4 * m + 2);
            assert((4 * m + 1) / 4 == m && (4 * m + 2) / 4 == m);
            assert(sextet(a, 4 * m + 1) % 16 == a[k] as int / 16);
            assert(sextet(b, 4 * m + 1) % 16 == b[k] as int / 16);
            assert(sextet(a, 4 * m + 2) / 4 == a[k] as int % 16);
            assert(sextet(b, 4 * m + 2) / 4 == b[k] as int % 16);
        } else {
            lemma_equal_sextets(a, b, 4 * m + 2);
            lemma_equal_sextets(a, b, 4 * m + 3);
            assert((4 * m + 2) / 4 == m && (4 * m + 3) / 4 == m);
            assert(sextet(a, 4 * m + 2) % 4 == a[k] as int / 64);
            assert(sextet(b, 4 * m + 2) % 4 == b[k] as int / 64);
            assert(sextet(a, 4 * m + 3) == a[k] as int % 64);
            assert(sextet(b, 4 * m + 3) == b[k] as int % 64);
        }
    }
    assert(a =~= b);
}

/// A symbol of the base64url alphabet.
pub open spec fn is_base64url_symbol(c: char) -> bool {
    'A' <= c <= 'Z' || 'a' <= c <= 'z' || '0' <= c <= '9' || c == '-' || c == '_'
}

/// A base64url text holds symbols of its alphabet only, and as many UTF-8
/// bytes as symbols.
pub proof fn lemma_base64url_text(bytes: Seq<u8>)
    ensures
        forall|i: int|
            0 <= i < base64url(bytes).len() ==> is_base64url_symbol(#[trigger] base64url(bytes)[i]),
        encode_utf8(base64url(bytes)).len() == base64url(bytes).len(),
        base64url(bytes).len() <= 2 * bytes.len(),
{
    let text = base64url(bytes);
    assert forall|i: int| 0 <= i < text.len() implies is_base64url_symbol(#[trigger] text[i]) by {
        lemma_sextet_range(bytes, i);
    }
    assert(is_ascii_chars(text));
    is_ascii_chars_encode_utf8(text);
}

/// A hex text holds as many UTF-8 bytes as digits.
pub proof fn lemma_hex_text(bytes: Seq<u8>)
    ensures
        encode_utf8(hex_lower(bytes)).len() == 2 * bytes.len(),
{
    let text = hex_lower(bytes);
    assert(is_ascii_chars(text));
    is_ascii_chars_encode_utf8(text);
}

} // verus!
