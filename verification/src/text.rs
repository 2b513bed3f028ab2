//! Text primitives: comparison, concatenation and decimal rendering.

use vstd::prelude::*;
use vstd::string::*;
use vstd::utf8::*;

verus! {

/// Whether two texts hold the same characters.
pub fn same_text(left: &str, right: &str) -> (same: bool)
    ensures
        same == (left@ == right@),
{
    let a: &[u8] = left.as_bytes();
    let b: &[u8] = right.as_bytes();
    proof {
        encode_utf8_decode_utf8(left@);
        encode_utf8_decode_utf8(right@);
    }
    if a.len() != b.len() {
        return false;
    }
    let mut i: usize = 0;
    while i < a.len()
        invariant
            i <= a@.len(),
            a@.len() == b@.len(),
            a@ == encode_utf8(left@),
            b@ == encode_utf8(right@),
            decode_utf8(encode_utf8(left@)) == left@,
            decode_utf8(encode_utf8(right@)) == right@,
            forall|j: int| 0 <= j < i ==> a@[j] == b@[j],
        decreases a@.len() - i,
    {
        if a[i] != b[i] {
            return false;
        }
        i = i + 1;
    }
    assert(a@ =~= b@);
    true
}

/// The text of `left` followed by that of `right`.
pub fn join(left: &str, right: &str) -> (joined: String)
    ensures
        joined@ == left@ + right@,
{
    let mut joined: String = left.to_owned();
    joined.append(right);
    joined
}

/// Three texts one after the other.
pub fn join3(first: &str, second: &str, third: &str) -> (joined: String)
    ensures
        joined@ == first@ + second@ + third@,
{
    let mut joined: String = first.to_owned();
    joined.append(second);
    joined.append(third);
    joined
}

/// The place of the first such character, or the length where there is none.
pub open spec fn first_char(text: Seq<char>, mark: char) -> nat
    decreases text.len(),
{
    if text.len() == 0 || text[0] == mark {
        0
    } else {
        1 + first_char(text.drop_first(), mark)
    }
}

/// The first place of a mark is the one before which there is none.
pub proof fn lemma_first_char(text: Seq<char>, mark: char, place: nat)
    requires
        place <= text.len(),
        forall|j: int| 0 <= j < place ==> #[trigger] text[j] != mark,
        place < text.len() ==> text[place as int] == mark,
    ensures
        first_char(text, mark) == place,
    decreases place,
{
    if place > 0 {
        let rest = text.drop_first();
        assert(text[0] != mark);
        assert forall|j: int| 0 <= j < place - 1 implies #[trigger] rest[j] != mark by {
            assert(text[j + 1] != mark);
        }
        lemma_first_char(rest, mark, (place - 1) as nat);
    }
}

/// The place of the first such character, or the length where there is none.
pub fn find_char(text: &str, mark: char) -> (place: usize)
    ensures
        place == first_char(text@, mark),
        place <= text@.len(),
{
    let count: usize = text.unicode_len();
    let mut i: usize = 0;
    while i < count
        invariant
            count == text@.len(),
            i <= count,
            forall|j: int| 0 <= j < i ==> #[trigger] text@[j] != mark,
        decreases count - i,
    {
        if text.get_char(i) == mark {
            proof {
                lemma_first_char(text@, mark, i as nat);
            }
            return i;
        }
        i = i + 1;
    }
    proof {
        lemma_first_char(text@, mark, i as nat);
    }
    i
}

/// The text before the first such character: all of it where there is none.
pub open spec fn head_of(text: Seq<char>, mark: char) -> Seq<char> {
    text.subrange(0, first_char(text, mark) as int)
}

/// The text before the first such character: all of it where there is none.
pub fn head<'a>(text: &'a str, mark: char) -> (front: &'a str)
    ensures
        front@ == head_of(text@, mark),
{
    let place: usize = find_char(text, mark);
    text.substring_char(0, place)
}

/// Whether an optional text is this text.
pub fn is_text(found: Option<&str>, expected: &str) -> (same: bool)
    ensures
        same == (match found {
            Some(text) => text@ == expected@,
            None => false,
        }),
{
    match found {
        Some(text) => same_text(text, expected),
        None => false,
    }
}

/// The characters of an optional text.
pub open spec fn maybe(text: Option<String>) -> Option<Seq<char>> {
    match text {
        Some(text) => Some(text@),
        None => None,
    }
}

/// The characters of an optional borrowed text.
pub open spec fn maybe_str(text: Option<&str>) -> Option<Seq<char>> {
    match text {
        Some(text) => Some(text@),
        None => None,
    }
}

/// The result of a fallible call with its message taken as characters.
pub open spec fn told<T>(outcome: Result<T, String>) -> Result<T, Seq<char>> {
    match outcome {
        Ok(value) => Ok(value),
        Err(message) => Err(message@),
    }
}

/// The result of a fallible call that yields text, all of it taken as characters.
pub open spec fn told_text(outcome: Result<String, String>) -> Result<Seq<char>, Seq<char>> {
    match outcome {
        Ok(value) => Ok(value@),
        Err(message) => Err(message@),
    }
}

/// The character of a decimal digit.
pub open spec fn digit_char(digit: nat) -> char {
    if digit == 0 {
        '0'
    } else if digit == 1 {
        '1'
    } else if digit == 2 {
        '2'
    } else if digit == 3 {
        '3'
    } else if digit == 4 {
        '4'
    } else if digit == 5 {
        '5'
    } else if digit == 6 {
        '6'
    } else if digit == 7 {
        '7'
    } else if digit == 8 {
        '8'
    } else {
        '9'
    }
}

/// The canonical decimal text of a number: no sign and no leading zero.
pub open spec fn decimal(value: nat) -> Seq<char>
    decreases value,
{
    if value < 10 {
        seq![digit_char(value)]
    } else {
        decimal(value / 10).push(digit_char(value % 10))
    }
}

fn digit_text(digit: u64) -> (text: &'static str)
    requires
        digit < 10,
    ensures
        text@ == seq![digit_char(digit as nat)],
{
    proof {
        reveal_strlit("0");
        reveal_strlit("1");
        reveal_strlit("2");
        reveal_strlit("3");
        reveal_strlit("4");
        reveal_strlit("5");
        reveal_strlit("6");
        reveal_strlit("7");
        reveal_strlit("8");
        reveal_strlit("9");
    }
    let text: &'static str = if digit == 0 {
        "0"
    } else if digit == 1 {
        "1"
    } else if digit == 2 {
        "2"
    } else if digit == 3 {
        "3"
    } else if digit == 4 {
        "4"
    } else if digit == 5 {
        "5"
    } else if digit == 6 {
        "6"
    } else if digit == 7 {
        "7"
    } else if digit == 8 {
        "8"
    } else {
        "9"
    };
    assert(text@ =~= seq![digit_char(digit as nat)]);
    text
}

/// Renders a number as decimal text.
pub fn decimal_text(value: u64) -> (text: String)
    ensures
        text@ == decimal(value as nat),
    decreases value,
{
    if value < 10 {
        digit_text(value).to_owned()
    } else {
        let mut text: String = decimal_text(value / 10);
        text.append(digit_text(value % 10));
        assert(text@ =~= decimal(value as nat));
        text
    }
}

/// Whether a text starts with another.
pub open spec fn has_prefix(text: Seq<char>, prefix: Seq<char>) -> bool {
    prefix.len() <= text.len() && text.subrange(0, prefix.len() as int) == prefix
}

/// Whether a text ends with another.
pub open spec fn has_suffix(text: Seq<char>, suffix: Seq<char>) -> bool {
    suffix.len() <= text.len() && text.subrange(text.len() - suffix.len(), text.len() as int)
        == suffix
}

/// Whether a text starts with another.
pub fn starts_with(text: &str, prefix: &str) -> (starts: bool)
    ensures
        starts == has_prefix(text@, prefix@),
{
    let length: usize = prefix.unicode_len();
    if length > text.unicode_len() {
        return false;
    }
    same_text(text.substring_char(0, length), prefix)
}

/// Whether a text ends with another.
pub fn ends_with(text: &str, suffix: &str) -> (ends: bool)
    ensures
        ends == has_suffix(text@, suffix@),
{
    let length: usize = suffix.unicode_len();
    let whole: usize = text.unicode_len();
    if length > whole {
        return false;
    }
    same_text(text.substring_char(whole - length, whole), suffix)
}

/// The first place at which a text stands in another.
pub open spec fn text_place(text: Seq<char>, part: Seq<char>) -> Option<nat>
    decreases text.len(),
{
    if has_prefix(text, part) {
        Some(0)
    } else if text.len() == 0 {
        None
    } else {
        match text_place(text.drop_first(), part) {
            Some(place) => Some(place + 1),
            None => None,
        }
    }
}

proof fn lemma_text_place(text: Seq<char>, part: Seq<char>, start: nat)
    requires
        start <= text.len(),
        forall|i: int|
            0 <= i < start ==> !has_prefix(
                #[trigger] text.subrange(i, text.len() as int),
                part,
            ),
    ensures
        text_place(text, part) == (match text_place(
            text.subrange(start as int, text.len() as int),
            part,
        ) {
            Some(place) => Some((start + place) as nat),
            None => None,
        }),
    decreases start,
{
    if start > 0 {
        lemma_text_place(text, part, (start - 1) as nat);
        let before = text.subrange(start - 1, text.len() as int);
        assert(!has_prefix(text.subrange(start - 1, text.len() as int), part));
        assert(before.drop_first() =~= text.subrange(start as int, text.len() as int));
    } else {
        assert(text.subrange(0, text.len() as int) =~= text);
    }
}

/// The first place at which a text stands in another.
pub fn find_text(text: &str, part: &str) -> (found: Option<usize>)
    ensures
        match found {
            Some(place) => text_place(text@, part@) == Some(place as nat) && place + part@.len()
                <= text@.len(),
            None => text_place(text@, part@) is None,
        },
{
    let whole: usize = text.unicode_len();
    let length: usize = part.unicode_len();
    let mut place: usize = 0;
    while place < whole && length <= whole - place
        invariant
            whole == text@.len(),
            length == part@.len(),
            place <= whole,
            forall|i: int|
                0 <= i < place ==> !has_prefix(
                    #[trigger] text@.subrange(i, text@.len() as int),
                    part@,
                ),
        decreases whole - place,
    {
        let ghost rest = text@.subrange(place as int, whole as int);
        let here: &str = text.substring_char(place, place + length);
        assert(rest.subrange(0, length as int) =~= here@);
        if same_text(here, part) {
            proof {
                lemma_text_place(text@, part@, place as nat);
            }
            return Some(place);
        }
        place = place + 1;
    }
    proof {
        lemma_text_place(text@, part@, place as nat);
        lemma_short_text(text@.subrange(place as int, whole as int), part@);
    }
    if place == whole && length == 0 {
        return Some(place);
    }
    None
}

proof fn lemma_short_text(text: Seq<char>, part: Seq<char>)
    requires
        text.len() == 0 || text.len() < part.len(),
    ensures
        text_place(text, part) == (if part.len() == 0 {
            Some(0nat)
        } else {
            None
        }),
    decreases text.len(),
{
    if part.len() == 0 {
        assert(text.subrange(0, 0) =~= part);
    } else if text.len() > 0 {
        lemma_short_text(text.drop_first(), part);
    }
}

/// Whether a text stands somewhere in another.
pub open spec fn holds_text(text: Seq<char>, part: Seq<char>) -> bool {
    text_place(text, part) is Some
}

/// Whether a text stands somewhere in another.
pub fn contains_text(text: &str, part: &str) -> (found: bool)
    ensures
        found == holds_text(text@, part@),
{
    find_text(text, part).is_some()
}

/// Whether a character is white space by the Unicode property of that name.
pub open spec fn is_space(c: char) -> bool {
    ||| '\u{9}' <= c <= '\u{d}'
    ||| c == ' '
    ||| c == '\u{85}'
    ||| c == '\u{a0}'
    ||| c == '\u{1680}'
    ||| '\u{2000}' <= c <= '\u{200a}'
    ||| c == '\u{2028}'
    ||| c == '\u{2029}'
    ||| c == '\u{202f}'
    ||| c == '\u{205f}'
    ||| c == '\u{3000}'
}

fn space(c: char) -> (is: bool)
    ensures
        is == is_space(c),
{
    ('\u{9}' <= c && c <= '\u{d}') || c == ' ' || c == '\u{85}' || c == '\u{a0}' || c == '\u{1680}'
        || ('\u{2000}' <= c && c <= '\u{200a}') || c == '\u{2028}' || c == '\u{2029}' || c
        == '\u{202f}' || c == '\u{205f}' || c == '\u{3000}'
}

/// A text without the white space at its front.
pub open spec fn without_front(text: Seq<char>) -> Seq<char>
    decreases text.len(),
{
    if text.len() > 0 && is_space(text[0]) {
        without_front(text.drop_first())
    } else {
        text
    }
}

/// A text without the white space at its end.
pub open spec fn without_end(text: Seq<char>) -> Seq<char>
    decreases text.len(),
{
    if text.len() > 0 && is_space(text.last()) {
        without_end(text.drop_last())
    } else {
        text
    }
}

/// A text without the white space at its front and at its end.
pub open spec fn trimmed(text: Seq<char>) -> Seq<char> {
    without_end(without_front(text))
}

/// A text without the white space at its front and at its end.
pub fn trim<'a>(text: &'a str) -> (inner: &'a str)
    ensures
        inner@ == trimmed(text@),
{
    let whole: usize = text.unicode_len();
    let mut start: usize = 0;
    assert(text@.subrange(0, whole as int) =~= text@);
    while start < whole && space(text.get_char(start))
        invariant
            whole == text@.len(),
            start <= whole,
            without_front(text@) == without_front(text@.subrange(start as int, whole as int)),
        decreases whole - start,
    {
        let ghost rest = text@.subrange(start as int, whole as int);
        assert(rest.drop_first() =~= text@.subrange(start + 1, whole as int));
        start = start + 1;
    }
    let ghost front = text@.subrange(start as int, whole as int);
    assert(without_front(text@) == front);
    let mut end: usize = whole;
    while end > start && space(text.get_char(end - 1))
        invariant
            whole == text@.len(),
            start <= end <= whole,
            without_end(front) == without_end(text@.subrange(start as int, end as int)),
        decreases end - start,
    {
        let ghost rest = text@.subrange(start as int, end as int);
        assert(rest.drop_last() =~= text@.subrange(start as int, end - 1));
        assert(rest.last() == text@[end - 1]);
        end = end - 1;
    }
    assert(end > start ==> text@.subrange(start as int, end as int).last() == text@[end - 1]);
    text.substring_char(start, end)
}

/// `std::str::from_utf8`: the text of bytes that are UTF-8, nothing for any other bytes.
#[verifier::external_body]
pub(crate) fn utf8_text(bytes: &[u8]) -> (text: Option<&str>)
    ensures
        match text {
            Some(text) => valid_utf8(bytes@) && text@ == decode_utf8(bytes@),
            None => !valid_utf8(bytes@),
        },
{
    std::str::from_utf8(bytes).ok()
}

/// The bytes of two texts in a row are the bytes of the one and then those of the other.
pub proof fn lemma_encoded_in_a_row(left: Seq<char>, right: Seq<char>)
    ensures
        encode_utf8(left + right) == encode_utf8(left) + encode_utf8(right),
    decreases left.len(),
{
    if left.len() == 0 {
        assert(left + right =~= right);
        assert(encode_utf8(left) + encode_utf8(right) =~= encode_utf8(right));
    } else {
        lemma_encoded_in_a_row(left.drop_first(), right);
        assert((left + right).drop_first() =~= left.drop_first() + right);
        assert((left + right)[0] == left[0]);
        assert(encode_utf8(left + right) =~= encode_utf8(left) + encode_utf8(right));
    }
}

} // verus!
