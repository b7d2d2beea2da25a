//! Text the client composes: decimal numbers, and publisher text made safe to
//! set beside the client's own.
use vstd::prelude::*;
use vstd::string::*;

verus! {

/// `String::push`: the character goes to the end.
pub assume_specification[ std::string::String::push ](s: &mut std::string::String, ch: char)
    ensures
        final(s)@ == old(s)@.push(ch),
;

/// The decimal digits of `n`, most significant first, without leading zeros.
pub open spec fn decimal(n: nat) -> Seq<char>
    decreases n,
{
    let last = ('0' as int + n % 10) as char;
    if n < 10 {
        seq![last]
    } else {
        decimal(n / 10).push(last)
    }
}

/// The digit character of a value below ten.
fn digit(value: u64) -> (c: char)
    requires
        value < 10,
    ensures
        c == ('0' as int + value) as char,
{
    ('0' as u8 + value as u8) as char
}

/// The decimal text of `n`.
pub fn decimal_text(n: u64) -> (text: String)
    ensures
        text@ == decimal(n as nat),
    decreases n,
{
    if n < 10 {
        let mut text = String::new();
        text.push(digit(n));
        assert(text@ =~= decimal(n as nat));
        text
    } else {
        let mut text = decimal_text(n / 10);
        text.push(digit(n % 10));
        text
    }
}

/// `prefix` followed by `rest`.
pub fn joined(prefix: &str, rest: &str) -> (text: String)
    ensures
        text@ == prefix@ + rest@,
{
    let mut text = prefix.to_owned();
    text.append(rest);
    text
}

/// The directional formatting characters: the marks, the embeddings and
/// overrides with their terminator, and the isolates with theirs.
pub open spec fn is_bidi_control(c: char) -> bool {
    c == '\u{061C}' || c == '\u{200E}' || c == '\u{200F}' || '\u{202A}' <= c <= '\u{202E}'
        || '\u{2066}' <= c <= '\u{2069}'
}

/// A visible stand-in for each directional formatting character: its code point.
pub open spec fn visible_form(c: char) -> Seq<char> {
    match c {
        '\u{061C}' => "<U+061C>"@,
        '\u{200E}' => "<U+200E>"@,
        '\u{200F}' => "<U+200F>"@,
        '\u{202A}' => "<U+202A>"@,
        '\u{202B}' => "<U+202B>"@,
        '\u{202C}' => "<U+202C>"@,
        '\u{202D}' => "<U+202D>"@,
        '\u{202E}' => "<U+202E>"@,
        '\u{2066}' => "<U+2066>"@,
        '\u{2067}' => "<U+2067>"@,
        '\u{2068}' => "<U+2068>"@,
        '\u{2069}' => "<U+2069>"@,
        _ => seq![c],
    }
}

/// `text` with each directional formatting character made visible.
pub open spec fn made_visible(text: Seq<char>) -> Seq<char>
    decreases text.len(),
{
    if text.len() == 0 {
        seq![]
    } else {
        made_visible(text.drop_last()) + visible_form(text.last())
    }
}

/// `text` as it is shown: made visible, in a first-strong isolate of its own.
pub open spec fn isolated(text: Seq<char>) -> Seq<char> {
    seq!['\u{2068}'] + made_visible(text) + seq!['\u{2069}']
}

/// The stand-in for a directional formatting character; `None` for any other.
fn control_name(c: char) -> (name: Option<&'static str>)
    ensures
        match name {
            Some(n) => is_bidi_control(c) && n@ == visible_form(c),
            None => !is_bidi_control(c),
        },
{
    match c {
        '\u{061C}' => Some("<U+061C>"),
        '\u{200E}' => Some("<U+200E>"),
        '\u{200F}' => Some("<U+200F>"),
        '\u{202A}' => Some("<U+202A>"),
        '\u{202B}' => Some("<U+202B>"),
        '\u{202C}' => Some("<U+202C>"),
        '\u{202D}' => Some("<U+202D>"),
        '\u{202E}' => Some("<U+202E>"),
        '\u{2066}' => Some("<U+2066>"),
        '\u{2067}' => Some("<U+2067>"),
        '\u{2068}' => Some("<U+2068>"),
        '\u{2069}' => Some("<U+2069>"),
        _ => None,
    }
}

/// Publisher text as it is shown.
pub fn isolate(text: &str) -> (shown: String)
    ensures
        shown@ == isolated(text@),
{
    let mut shown = String::new();
    shown.push('\u{2068}');
    assert(shown@ =~= seq!['\u{2068}'] + made_visible(text@.take(0)));
    for c in it: text.chars()
        invariant
            it.seq() == text@,
            shown@ == seq!['\u{2068}'] + made_visible(text@.take(it.index() as int)),
    {
        proof {
            let k = it.index() as int;
            assert(text@.take(k + 1).drop_last() =~= text@.take(k));
            assert(text@.take(k + 1).last() == c);
        }
        match control_name(c) {
            Some(name) => shown.append(name),
            None => shown.push(c),
        }
        assert(shown@ =~= seq!['\u{2068}'] + (made_visible(text@.take(it.index() as int))
            + visible_form(c)));
    }
    assert(text@.take(text@.len() as int) =~= text@);
    shown.push('\u{2069}');
    assert(shown@ =~= isolated(text@));
    shown
}

/// Nothing but the enclosing isolate steers direction: between its first and
/// last character, shown text holds no directional formatting character.
pub proof fn law_shown_text_has_no_inner_controls(text: Seq<char>)
    ensures
        isolated(text).len() >= 2,
        isolated(text).first() == '\u{2068}',
        isolated(text).last() == '\u{2069}',
        forall|i: int|
            0 < i < isolated(text).len() - 1 ==> !is_bidi_control(#[trigger] isolated(text)[i]),
{
    lemma_made_visible_has_no_controls(text);
    assert forall|i: int| 0 < i < isolated(text).len() - 1 implies !is_bidi_control(
        #[trigger] isolated(text)[i],
    ) by {
        assert(isolated(text)[i] == made_visible(text)[i - 1]);
    }
}

/// Text without directional formatting characters is shown as it is, inside its
/// isolate.
pub proof fn law_plain_text_is_shown_unchanged(text: Seq<char>)
    requires
        forall|i: int| 0 <= i < text.len() ==> !is_bidi_control(#[trigger] text[i]),
    ensures
        isolated(text) == seq!['\u{2068}'] + text + seq!['\u{2069}'],
{
    lemma_made_visible_keeps_plain_text(text);
}

proof fn lemma_made_visible_keeps_plain_text(text: Seq<char>)
    requires
        forall|i: int| 0 <= i < text.len() ==> !is_bidi_control(#[trigger] text[i]),
    ensures
        made_visible(text) == text,
    decreases text.len(),
{
    if text.len() > 0 {
        lemma_made_visible_keeps_plain_text(text.drop_last());
        assert(visible_form(text.last()) == seq![text.last()]);
        assert(made_visible(text) =~= text);
    }
}

proof fn lemma_made_visible_has_no_controls(text: Seq<char>)
    ensures
        forall|i: int|
            0 <= i < made_visible(text).len() ==> !is_bidi_control(
                #[trigger] made_visible(text)[i],
            ),
    decreases text.len(),
{
    if text.len() > 0 {
        lemma_made_visible_has_no_controls(text.drop_last());
        lemma_visible_form_has_no_controls(text.last());
        let head = made_visible(text.drop_last());
        let tail = visible_form(text.last());
        assert(made_visible(text) == head + tail);
        assert forall|i: int| 0 <= i < made_visible(text).len() implies !is_bidi_control(
            #[trigger] made_visible(text)[i],
        ) by {
            if i < head.len() {
                assert(made_visible(text)[i] == head[i]);
            } else {
                assert(made_visible(text)[i] == tail[i - head.len()]);
            }
        }
    }
}

proof fn lemma_visible_form_has_no_controls(c: char)
    ensures
        forall|i: int|
            0 <= i < visible_form(c).len() ==> !is_bidi_control(#[trigger] visible_form(c)[i]),
{
    reveal_strlit("<U+061C>");
    reveal_strlit("<U+200E>");
    reveal_strlit("<U+200F>");
    reveal_strlit("<U+202A>");
    reveal_strlit("<U+202B>");
    reveal_strlit("<U+202C>");
    reveal_strlit("<U+202D>");
    reveal_strlit("<U+202E>");
    reveal_strlit("<U+2066>");
    reveal_strlit("<U+2067>");
    reveal_strlit("<U+2068>");
    reveal_strlit("<U+2069>");
}

/// The number that a text of decimal digits writes.
pub open spec fn number_of(digits: Seq<char>) -> int
    decreases digits.len(),
{
    if digits.len() == 0 {
        0
    } else {
        number_of(digits.drop_last()) * 10 + (digits.last() as int - '0' as int)
    }
}

/// Decimal digits read as the number they write.
pub proof fn lemma_decimal_reads_back(n: nat)
    ensures
        decimal(n).len() > 0,
        number_of(decimal(n)) == n,
        forall|i: int| 0 <= i < decimal(n).len() ==> '0' <= #[trigger] decimal(n)[i] <= '9',
        n > 0 ==> decimal(n)[0] != '0',
        n == 0 ==> decimal(n).len() == 1,
    decreases n,
{
    let text = decimal(n);
    if n < 10 {
        assert(text.drop_last() =~= seq![]);
        assert(number_of(seq![]) == 0);
    } else {
        lemma_decimal_reads_back(n / 10);
        assert(text.drop_last() =~= decimal(n / 10));
        assert forall|i: int| 0 <= i < text.len() implies '0' <= #[trigger] text[i] <= '9' by {
            if i < text.len() - 1 {
                assert(text[i] == decimal(n / 10)[i]);
            }
        }
        assert(text[0] == decimal(n / 10)[0]);
    }
}

/// A number is written as it is read: its text is made of decimal digits that
/// read as the number, without a leading zero.
pub proof fn law_decimal_text_reads_back(n: u64, text: String)
    requires
        call_ensures(decimal_text, (n,), text),
    ensures
        number_of(text@) == n,
        text@.len() > 0,
        forall|i: int| 0 <= i < text@.len() ==> '0' <= #[trigger] text@[i] <= '9',
        text@.len() > 1 ==> text@[0] != '0',
{
    lemma_decimal_reads_back(n as nat);
}

/// Two texts are joined as they are, the first in front.
pub proof fn law_joined_texts_follow_each_other(prefix: &str, rest: &str, text: String)
    requires
        call_ensures(joined, (prefix, rest), text),
    ensures
        text@.len() == prefix@.len() + rest@.len(),
        forall|i: int| 0 <= i < prefix@.len() ==> #[trigger] text@[i] == prefix@[i],
        forall|i: int| 0 <= i < rest@.len() ==> text@[prefix@.len() + i] == #[trigger] rest@[i],
{
}

/// The directional formatting characters are those twelve of Unicode: the three
/// marks, the five embeddings and overrides, and the four isolates.
pub proof fn law_twelve_characters_steer_direction(c: char)
    ensures
        is_bidi_control(c) <==> {
            ||| c as int == 0x61c || c as int == 0x200e || c as int == 0x200f
            ||| c as int == 0x202a || c as int == 0x202b || c as int == 0x202c
            ||| c as int == 0x202d || c as int == 0x202e
            ||| c as int == 0x2066 || c as int == 0x2067 || c as int == 0x2068
            ||| c as int == 0x2069
        },
{
}

/// The value of an uppercase hex digit.
pub open spec fn hex_value(c: char) -> int {
    if '0' <= c <= '9' {
        c as int - '0' as int
    } else {
        c as int - 'A' as int + 10
    }
}

/// A directional formatting character is shown by its own code point, written
/// `<U+` and four hex digits and `>`; every other character as it is.
pub proof fn law_controls_are_shown_by_code_point(c: char)
    ensures
        !is_bidi_control(c) ==> visible_form(c) == seq![c],
        is_bidi_control(c) ==> {
            let form = visible_form(c);
            &&& form.len() == 8
            &&& form[0] == '<' && form[1] == 'U' && form[2] == '+' && form[7] == '>'
            &&& c as int == ((hex_value(form[3]) * 16 + hex_value(form[4])) * 16 + hex_value(
                form[5],
            )) * 16 + hex_value(form[6])
        },
{
    reveal_strlit("<U+061C>");
    reveal_strlit("<U+200E>");
    reveal_strlit("<U+200F>");
    reveal_strlit("<U+202A>");
    reveal_strlit("<U+202B>");
    reveal_strlit("<U+202C>");
    reveal_strlit("<U+202D>");
    reveal_strlit("<U+202E>");
    reveal_strlit("<U+2066>");
    reveal_strlit("<U+2067>");
    reveal_strlit("<U+2068>");
    reveal_strlit("<U+2069>");
}

proof fn lemma_made_visible_joins(a: Seq<char>, b: Seq<char>)
    ensures
        made_visible(a + b) == made_visible(a) + made_visible(b),
    decreases b.len(),
{
    if b.len() == 0 {
        assert(a + b =~= a);
        assert(made_visible(a) + made_visible(b) =~= made_visible(a));
    } else {
        lemma_made_visible_joins(a, b.drop_last());
        assert((a + b).drop_last() =~= a + b.drop_last());
        assert((a + b).last() == b.last());
        assert(made_visible(a + b) =~= made_visible(a) + made_visible(b));
    }
}

/// Publisher text is shown character by character, in its order, none dropped
/// and none repeated: what is shown of two texts one after the other is what is
/// shown of the first and then of the second, in one isolate.
pub proof fn law_text_is_shown_in_its_order(
    first: &str,
    second: &str,
    both: &str,
    shown_first: String,
    shown_second: String,
    shown_both: String,
)
    requires
        both@ == first@ + second@,
        call_ensures(isolate, (first,), shown_first),
        call_ensures(isolate, (second,), shown_second),
        call_ensures(isolate, (both,), shown_both),
    ensures
        shown_both@ == shown_first@.drop_last() + shown_second@.skip(1),
{
    lemma_made_visible_joins(first@, second@);
    assert(shown_both@ =~= shown_first@.drop_last() + shown_second@.skip(1));
}

/// A single character is shown in an isolate of its own: as it is, or by its code
/// point where it would steer direction.
pub proof fn law_character_is_shown_isolated(text: &str, shown: String, c: char)
    requires
        text@ == seq![c],
        call_ensures(isolate, (text,), shown),
    ensures
        shown@.first() == '\u{2068}',
        shown@.last() == '\u{2069}',
        !is_bidi_control(c) ==> shown@ == seq!['\u{2068}', c, '\u{2069}'],
        is_bidi_control(c) ==> {
            &&& shown@.len() == 10
            &&& shown@[1] == '<' && shown@[2] == 'U' && shown@[3] == '+' && shown@[8] == '>'
            &&& c as int == ((hex_value(shown@[4]) * 16 + hex_value(shown@[5])) * 16 + hex_value(
                shown@[6],
            )) * 16 + hex_value(shown@[7])
        },
{
    assert(text@.drop_last() =~= seq![]);
    assert(made_visible(seq![]) =~= seq![]);
    assert(made_visible(text@) =~= visible_form(c));
    law_controls_are_shown_by_code_point(c);
    let form = visible_form(c);
    assert(shown@ == seq!['\u{2068}'] + form + seq!['\u{2069}']);
    if is_bidi_control(c) {
        assert(forall|i: int| 0 <= i < 8 ==> shown@[i + 1] == #[trigger] form[i]);
        assert(shown@[4] == form[3]);
        assert(shown@[5] == form[4]);
        assert(shown@[6] == form[5]);
        assert(shown@[7] == form[6]);
        assert(shown@[1] == form[0] && shown@[2] == form[1] && shown@[3] == form[2] && shown@[8]
            == form[7]);
    } else {
        assert(shown@ =~= seq!['\u{2068}', c, '\u{2069}']);
    }
}

} // verus!
