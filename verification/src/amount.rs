//! Amounts in decimal text.

use vstd::prelude::*;
use vstd::string::*;
use vstd::utf8::*;
use crate::json::{Json, JsonNumber, JsonView, NumberView, lemma_kinds};
use crate::text::{decimal, told};

verus! {

/// The satoshis that a requester gives in an ordinary swap.
pub const INPUT_AMOUNT_SAT: u64 = 100_000;

/// The satoshis that a requester gets in an ordinary swap.
pub const OUTPUT_AMOUNT_SAT: u64 = 98_400;

/// The satoshis that each of two requests for one reservation asks to give.
pub const DOUBLE_RESERVATION_INPUT_AMOUNT_SAT: u64 = 1_000_000;

/// The satoshis that the reservation which is granted sets aside.
pub const DOUBLE_RESERVATION_OUTPUT_AMOUNT_SAT: u64 = 986_790;

/// The most fees that each of two requests for one reservation admits.
pub const DOUBLE_RESERVATION_MAXIMUM_TOTAL_FEE_SAT: u64 = 50_000;

/// Whether a byte is a decimal digit.
pub open spec fn is_digit(byte: u8) -> bool {
    48 <= byte <= 57
}

/// Whether every byte is a decimal digit.
pub open spec fn all_digits(text: Seq<u8>) -> bool {
    forall|i: int| 0 <= i < text.len() ==> is_digit(#[trigger] text[i])
}

/// The number that decimal digits stand for.
pub open spec fn digits_value(text: Seq<u8>) -> nat
    decreases text.len(),
{
    if text.len() == 0 {
        0
    } else {
        digits_value(text.drop_last()) * 10 + (text.last() - 48) as nat
    }
}

/// Whether bytes are a canonical decimal number: digits, without a zero before others.
pub open spec fn canonical(bytes: Seq<u8>) -> bool {
    bytes.len() > 0 && all_digits(bytes) && !(bytes.len() > 1 && bytes[0] == 48)
}

/// What a canonical decimal amount reads as.
pub open spec fn amount_reading(text: Seq<char>) -> Result<u64, Seq<char>> {
    let bytes = encode_utf8(text);
    if !canonical(bytes) {
        Err("amount is not canonical decimal"@)
    } else if digits_value(bytes) > u64::MAX {
        Err("amount exceeds u64"@)
    } else {
        Ok(digits_value(bytes) as u64)
    }
}

/// What a canonical decimal amount reads as: it can be had exactly where every part that it rests
/// on can, and each part of it is the one that its name says.
pub proof fn law_amount_is_read_from_its_parts(text: Seq<char>)
    ensures
        ({
            let read = amount_reading(text);
            let bytes = encode_utf8(text);
            let given = read->Ok_0;
            &&& read is Ok <==> {
                &&& canonical(bytes)
                &&& digits_value(bytes) <= u64::MAX
            }
            &&& read is Ok ==> {
                &&& given == digits_value(bytes) as u64
            }
        }),
{
}

proof fn lemma_digits_grow(text: Seq<u8>, end: int)
    requires
        all_digits(text),
        0 <= end <= text.len(),
    ensures
        digits_value(text.subrange(0, end)) <= digits_value(text),
    decreases text.len(),
{
    if end < text.len() {
        assert(text.drop_last().subrange(0, end) =~= text.subrange(0, end));
        assert forall|i: int| 0 <= i < text.drop_last().len() implies is_digit(
            #[trigger] text.drop_last()[i],
        ) by {
            assert(is_digit(text[i]));
        }
        lemma_digits_grow(text.drop_last(), end);
        assert(is_digit(text[text.len() - 1]));
    } else {
        assert(text.subrange(0, end) =~= text);
    }
}

/// Reads digits of a slice up to an end, `None` where the number exceeds `u64`.
fn read_digits(text: &[u8], start: usize, end: usize) -> (value: Option<u64>)
    requires
        start <= end <= text@.len(),
        all_digits(text@.subrange(start as int, end as int)),
    ensures
        match value {
            Some(value) => value == digits_value(text@.subrange(start as int, end as int)),
            None => digits_value(text@.subrange(start as int, end as int)) > u64::MAX,
        },
{
    let ghost whole = text@.subrange(start as int, end as int);
    let mut value: u64 = 0;
    let mut i: usize = start;
    assert(whole.subrange(0, 0) =~= Seq::<u8>::empty());
    while i < end
        invariant
            start <= i <= end <= text@.len(),
            whole == text@.subrange(start as int, end as int),
            all_digits(whole),
            value == digits_value(whole.subrange(0, i - start)),
        decreases end - i,
    {
        assert(is_digit(whole[i - start]));
        let digit: u64 = (text[i] - 48) as u64;
        proof {
            let next = whole.subrange(0, i - start + 1);
            assert(next.drop_last() =~= whole.subrange(0, i - start));
            assert(next.last() == text@[i as int]);
            lemma_digits_grow(whole, i - start + 1);
        }
        if value > u64::MAX / 10 {
            return None;
        }
        let scaled: u64 = value * 10;
        if digit > u64::MAX - scaled {
            return None;
        }
        value = scaled + digit;
        i = i + 1;
    }
    assert(whole.subrange(0, i - start) =~= whole);
    Some(value)
}

fn digits_only(text: &[u8], start: usize, end: usize) -> (only: bool)
    requires
        start <= end <= text@.len(),
    ensures
        only == all_digits(text@.subrange(start as int, end as int)),
{
    let mut i: usize = start;
    while i < end
        invariant
            start <= i <= end <= text@.len(),
            forall|j: int| start <= j < i ==> is_digit(#[trigger] text@[j]),
        decreases end - i,
    {
        if text[i] < 48 || text[i] > 57 {
            assert(!is_digit(text@.subrange(start as int, end as int)[i - start]));
            return false;
        }
        i = i + 1;
    }
    true
}

/// Reads a canonical decimal amount.
pub fn canonical_u64(value: &str) -> (amount: Result<u64, String>)
    ensures
        told(amount) == amount_reading(value@),
{
    let text: &[u8] = value.as_bytes();
    assert(text@.subrange(0, text@.len() as int) =~= text@);
    if text.len() == 0 || !digits_only(text, 0, text.len()) || (text.len() > 1 && text[0] == 48) {
        return Err("amount is not canonical decimal".to_owned());
    }
    match read_digits(text, 0, text.len()) {
        Some(amount) => Ok(amount),
        None => Err("amount exceeds u64".to_owned()),
    }
}

/// What text reads as in the manner of `str::parse::<u64>`: digits behind an optional plus sign.
pub open spec fn parsed_u64(text: Seq<char>) -> Option<u64> {
    let bytes = encode_utf8(text);
    let digits = if bytes.len() > 1 && bytes[0] == 43 {
        bytes.subrange(1, bytes.len() as int)
    } else {
        bytes
    };
    if digits.len() == 0 || !all_digits(digits) || digits_value(digits) > u64::MAX {
        None
    } else {
        Some(digits_value(digits) as u64)
    }
}

/// Reads an unsigned number: digits behind an optional plus sign.
pub fn parse_u64(value: &str) -> (number: Option<u64>)
    ensures
        number == parsed_u64(value@),
{
    let text: &[u8] = value.as_bytes();
    assert(text@.subrange(0, text@.len() as int) =~= text@);
    let start: usize = if text.len() > 1 && text[0] == 43 {
        1
    } else {
        0
    };
    if start == text.len() || !digits_only(text, start, text.len()) {
        return None;
    }
    read_digits(text, start, text.len())
}

/// The place of the first byte of a value, or the length where there is none.
pub open spec fn first_place(bytes: Seq<u8>, wanted: u8) -> nat
    decreases bytes.len(),
{
    if bytes.len() == 0 || bytes[0] == wanted {
        0
    } else {
        1 + first_place(bytes.drop_first(), wanted)
    }
}

/// The first place is where the byte stands, with none of its value before it.
pub proof fn lemma_first_place(bytes: Seq<u8>, wanted: u8, place: nat)
    requires
        place <= bytes.len(),
        forall|j: int| 0 <= j < place ==> #[trigger] bytes[j] != wanted,
        place < bytes.len() ==> bytes[place as int] == wanted,
    ensures
        first_place(bytes, wanted) == place,
    decreases place,
{
    if place > 0 {
        let rest = bytes.drop_first();
        assert(bytes[0] != wanted);
        assert forall|j: int| 0 <= j < place - 1 implies #[trigger] rest[j] != wanted by {
            assert(bytes[j + 1] != wanted);
        }
        lemma_first_place(rest, wanted, (place - 1) as nat);
    }
}

/// The place of the first byte of a value, or the length where there is none.
pub fn find_byte(bytes: &[u8], wanted: u8) -> (place: usize)
    ensures
        place == first_place(bytes@, wanted),
        place <= bytes@.len(),
{
    let mut i: usize = 0;
    while i < bytes.len()
        invariant
            i <= bytes@.len(),
            forall|j: int| 0 <= j < i ==> #[trigger] bytes@[j] != wanted,
        decreases bytes@.len() - i,
    {
        if bytes[i] == wanted {
            proof {
                lemma_first_place(bytes@, wanted, i as nat);
            }
            return i;
        }
        i = i + 1;
    }
    proof {
        lemma_first_place(bytes@, wanted, i as nat);
    }
    i
}

/// A power of ten.
pub open spec fn ten_to(exponent: nat) -> nat
    decreases exponent,
{
    if exponent == 0 {
        1
    } else {
        10 * ten_to((exponent - 1) as nat)
    }
}

/// The satoshis of a whole number of bitcoin and a decimal fraction.
pub open spec fn satoshis(whole: nat, fraction: Seq<u8>) -> nat {
    whole * 100_000_000 + digits_value(fraction) * ten_to((8 - fraction.len()) as nat)
}

/// The satoshis that the text of a bitcoin amount reads as.
pub open spec fn bitcoin_text_reading(text: Seq<char>) -> Result<u64, Seq<char>> {
    let bytes = encode_utf8(text);
    let dot = first_place(bytes, 46) as int;
    let whole = bytes.subrange(0, dot);
    let fraction = if dot < bytes.len() {
        bytes.subrange(dot + 1, bytes.len() as int)
    } else {
        Seq::<u8>::empty()
    };
    if fraction.len() > 8 || !all_digits(whole) || !all_digits(fraction) {
        Err("Bitcoin amount is not a bounded decimal"@)
    } else if whole.len() == 0 || digits_value(whole) > u64::MAX {
        Err("Bitcoin whole amount exceeds u64"@)
    } else if satoshis(digits_value(whole), fraction) > u64::MAX {
        Err("Bitcoin amount exceeds u64 satoshis"@)
    } else {
        Ok(satoshis(digits_value(whole), fraction) as u64)
    }
}

/// The satoshis that the text of a bitcoin amount reads as: it can be had exactly where every part
/// that it rests on can, and each part of it is the one that its name says.
pub proof fn law_bitcoin_text_is_read_from_its_parts(text: Seq<char>)
    ensures
        ({
            let read = bitcoin_text_reading(text);
            let bytes = encode_utf8(text);
            let dot = first_place(bytes, 46) as int;
            let whole = bytes.subrange(0, dot);
            let fraction = (
                if dot < bytes.len() {
                    bytes.subrange(dot + 1, bytes.len() as int)
                } else { Seq::<u8>::empty() }
            );
            let given = read->Ok_0;
            &&& read is Ok <==> {
                &&& fraction.len() <= 8
                &&& all_digits(whole)
                &&& all_digits(fraction)
                &&& whole.len() != 0
                &&& digits_value(whole) <= u64::MAX
                &&& satoshis(digits_value(whole), fraction) <= u64::MAX
            }
            &&& read is Ok ==> {
                &&& given == satoshis(digits_value(whole), fraction) as u64
            }
        }),
{
}

/// The satoshis that a bitcoin amount in a document reads as.
pub open spec fn bitcoin_reading(amount: JsonView) -> Result<u64, Seq<char>> {
    match amount {
        JsonView::Number(NumberView::Unsigned(whole)) => if whole * 100_000_000 > u64::MAX {
            Err("Bitcoin amount exceeds u64 satoshis"@)
        } else {
            Ok((whole * 100_000_000) as u64)
        },
        JsonView::Number(NumberView::Negative(_)) => Err(
            "Bitcoin amount is not a bounded decimal"@,
        ),
        JsonView::Number(NumberView::Decimal(text)) => bitcoin_text_reading(text),
        _ => Err("Bitcoin amount is not numeric"@),
    }
}

proof fn lemma_fraction_bound(fraction: Seq<u8>)
    requires
        all_digits(fraction),
    ensures
        digits_value(fraction) < ten_to(fraction.len()),
    decreases fraction.len(),
{
    if fraction.len() > 0 {
        let front = fraction.drop_last();
        assert forall|i: int| 0 <= i < front.len() implies is_digit(#[trigger] front[i]) by {
            assert(is_digit(fraction[i]));
        }
        lemma_fraction_bound(front);
        assert(is_digit(fraction[fraction.len() - 1]));
        assert(ten_to(fraction.len()) == 10 * ten_to(front.len()));
    }
}

/// The satoshis of the text of a bitcoin amount.
fn bitcoin_text_to_sat(text: &str) -> (amount: Result<u64, String>)
    ensures
        told(amount) == bitcoin_text_reading(text@),
{
    let bytes: &[u8] = text.as_bytes();
    let dot: usize = find_byte(bytes, 46);
    let start: usize = if dot < bytes.len() {
        dot + 1
    } else {
        dot
    };
    assert(bytes@.subrange(bytes@.len() as int, bytes@.len() as int) =~= Seq::<u8>::empty());
    if bytes.len() - start > 8 || !digits_only(bytes, 0, dot) || !digits_only(
        bytes,
        start,
        bytes.len(),
    ) {
        return Err("Bitcoin amount is not a bounded decimal".to_owned());
    }
    let ghost fraction = bytes@.subrange(start as int, bytes@.len() as int);
    if dot == 0 {
        return Err("Bitcoin whole amount exceeds u64".to_owned());
    }
    let whole: u64 = match read_digits(bytes, 0, dot) {
        Some(whole) => whole,
        None => {
            return Err("Bitcoin whole amount exceeds u64".to_owned());
        },
    };
    proof {
        lemma_fraction_bound(fraction);
        reveal_with_fuel(ten_to, 10);
    }
    let mut fractional: u64 = match read_digits(bytes, start, bytes.len()) {
        Some(value) => value,
        None => {
            return Err("Bitcoin fractional amount is invalid".to_owned());
        },
    };
    let mut places: usize = bytes.len() - start;
    assert(ten_to((places - fraction.len()) as nat) == 1);
    assert(fractional * 1 == fractional) by (nonlinear_arith);
    while places < 8
        invariant
            fraction.len() <= places <= 8,
            all_digits(fraction),
            digits_value(fraction) < ten_to(fraction.len()),
            fractional == digits_value(fraction) * ten_to((places - fraction.len()) as nat),
            fractional < ten_to(places as nat),
        decreases 8 - places,
    {
        proof {
            reveal_with_fuel(ten_to, 10);
            let value = digits_value(fraction);
            let scale = ten_to((places - fraction.len()) as nat);
            assert(ten_to((places + 1 - fraction.len()) as nat) == 10 * scale);
            assert(value * (10 * scale) == 10 * (value * scale)) by (nonlinear_arith);
        }
        fractional = fractional * 10;
        places = places + 1;
    }
    proof {
        reveal_with_fuel(ten_to, 10);
    }
    match whole.checked_mul(100_000_000) {
        Some(amount) => match amount.checked_add(fractional) {
            Some(amount) => Ok(amount),
            None => Err("Bitcoin amount exceeds u64 satoshis".to_owned()),
        },
        None => Err("Bitcoin amount exceeds u64 satoshis".to_owned()),
    }
}

/// The satoshis of a bitcoin amount in a document.
pub fn btc_value_to_sat(value: &Json) -> (amount: Result<u64, String>)
    ensures
        told(amount) == bitcoin_reading(value@),
{
    proof {
        lemma_kinds(*value);
    }
    match value {
        Json::Number(JsonNumber::Unsigned(whole)) => match whole.checked_mul(100_000_000) {
            Some(amount) => Ok(amount),
            None => Err("Bitcoin amount exceeds u64 satoshis".to_owned()),
        },
        Json::Number(JsonNumber::Negative(_)) => Err(
            "Bitcoin amount is not a bounded decimal".to_owned(),
        ),
        Json::Number(JsonNumber::Decimal(text)) => bitcoin_text_to_sat(text.as_str()),
        _ => Err("Bitcoin amount is not numeric".to_owned()),
    }
}

proof fn lemma_decimal_digits(value: nat)
    ensures
        is_ascii_chars(decimal(value)),
        decimal(value).len() > 0,
        all_digits(encode_utf8(decimal(value))),
        digits_value(encode_utf8(decimal(value))) == value,
        value > 0 ==> encode_utf8(decimal(value))[0] != 48,
        value < 10 ==> decimal(value).len() == 1,
        encode_utf8(decimal(value)).len() == decimal(value).len(),
    decreases value,
{
    let text = decimal(value);
    if value < 10 {
        is_ascii_chars_encode_utf8(text);
        let bytes = encode_utf8(text);
        assert(bytes[0] == text[0] as u8);
        assert(bytes.drop_last() =~= Seq::<u8>::empty());
        assert(digits_value(bytes.drop_last()) == 0);
    } else {
        let front = decimal(value / 10);
        lemma_decimal_digits(value / 10);
        assert forall|i: int| 0 <= i < text.len() implies '\0' <= #[trigger] text[i] <= '\u{7f}' by {
            if i < front.len() {
                assert(text[i] == front[i]);
            }
        }
        is_ascii_chars_encode_utf8(front);
        is_ascii_chars_encode_utf8(text);
        let bytes = encode_utf8(text);
        assert(bytes.drop_last() =~= encode_utf8(front)) by {
            assert forall|i: int| 0 <= i < front.len() implies bytes.drop_last()[i] == encode_utf8(
                front,
            )[i] by {
                assert(bytes[i] == text[i] as u8);
                assert(text[i] == front[i]);
                assert(encode_utf8(front)[i] == front[i] as u8);
            }
        }
        assert(bytes[bytes.len() - 1] == text[text.len() - 1] as u8);
        assert forall|i: int| 0 <= i < bytes.len() implies is_digit(#[trigger] bytes[i]) by {
            if i < front.len() {
                assert(bytes[i] == bytes.drop_last()[i]);
                assert(is_digit(encode_utf8(front)[i]));
            }
        }
        assert(bytes[0] == bytes.drop_last()[0]);
    }
}

/// Reading the decimal text of an amount gives the amount back.
pub proof fn law_amount_reads_back(amount: u64)
    ensures
        amount_reading(decimal(amount as nat)) == Ok::<u64, Seq<char>>(amount),
        parsed_u64(decimal(amount as nat)) == Some(amount),
{
    lemma_decimal_digits(amount as nat);
    let bytes = encode_utf8(decimal(amount as nat));
    assert(is_digit(bytes[0]));
}

proof fn lemma_canonical_positive(bytes: Seq<u8>)
    requires
        canonical(bytes),
        bytes[0] != 48,
    ensures
        digits_value(bytes) > 0,
    decreases bytes.len(),
{
    assert(is_digit(bytes[0]));
    assert(is_digit(bytes[bytes.len() - 1]));
    if bytes.len() > 1 {
        let front = bytes.drop_last();
        assert forall|i: int| 0 <= i < front.len() implies is_digit(#[trigger] front[i]) by {
            assert(is_digit(bytes[i]));
        }
        lemma_canonical_positive(front);
    }
}

proof fn lemma_canonical_unique(first: Seq<u8>, second: Seq<u8>)
    requires
        canonical(first),
        canonical(second),
        digits_value(first) == digits_value(second),
    ensures
        first == second,
    decreases first.len(),
{
    let first_front = first.drop_last();
    let second_front = second.drop_last();
    assert(is_digit(first[first.len() - 1]));
    assert(is_digit(second[second.len() - 1]));
    assert(all_digits(first_front)) by {
        assert forall|i: int| 0 <= i < first_front.len() implies is_digit(
            #[trigger] first_front[i],
        ) by {
            assert(is_digit(first[i]));
        }
    }
    assert(all_digits(second_front)) by {
        assert forall|i: int| 0 <= i < second_front.len() implies is_digit(
            #[trigger] second_front[i],
        ) by {
            assert(is_digit(second[i]));
        }
    }
    if first.len() > 1 {
        lemma_canonical_positive(first_front);
    }
    if second.len() > 1 {
        lemma_canonical_positive(second_front);
    }
    if first.len() == 1 {
        assert(digits_value(first_front) == 0);
    }
    if second.len() == 1 {
        assert(digits_value(second_front) == 0);
    }
    assert(digits_value(first_front) == digits_value(second_front));
    assert(first.last() == second.last());
    if first.len() > 1 {
        lemma_canonical_unique(first_front, second_front);
        assert(first =~= first_front.push(first.last()));
        assert(second =~= second_front.push(second.last()));
    } else {
        assert(first =~= second);
    }
}

/// An amount has one canonical text: two texts that read as the same amount are the same.
pub proof fn law_amount_text_is_unique(first: Seq<char>, second: Seq<char>)
    requires
        amount_reading(first) is Ok,
        amount_reading(first) == amount_reading(second),
    ensures
        first == second,
        first == decimal(amount_reading(first)->Ok_0 as nat),
{
    let amount = amount_reading(first)->Ok_0;
    let written = decimal(amount as nat);
    law_amount_reads_back(amount);
    lemma_canonical_unique(encode_utf8(first), encode_utf8(second));
    lemma_canonical_unique(encode_utf8(first), encode_utf8(written));
    encode_utf8_decode_utf8(first);
    encode_utf8_decode_utf8(second);
    encode_utf8_decode_utf8(written);
}

/// The decimal text of a number is made of the characters of digits.
pub proof fn lemma_decimal_chars(value: nat)
    ensures
        decimal(value).len() > 0,
        forall|i: int|
            0 <= i < decimal(value).len() ==> '0' <= #[trigger] decimal(value)[i] <= '9',
        encode_utf8(decimal(value)).len() == decimal(value).len(),
    decreases value,
{
    lemma_decimal_digits(value);
    if value >= 10 {
        lemma_decimal_chars(value / 10);
        let front = decimal(value / 10);
        assert forall|i: int| 0 <= i < decimal(value).len() implies '0' <= #[trigger] decimal(
            value,
        )[i] <= '9' by {
            if i < front.len() {
                assert(decimal(value)[i] == front[i]);
            }
        }
    }
}

/// No digits that read as a number are fewer than those of its decimal text.
pub proof fn lemma_decimal_is_shortest(digits: Seq<u8>)
    requires
        digits.len() > 0,
        all_digits(digits),
    ensures
        decimal(digits_value(digits)).len() <= digits.len(),
    decreases digits.len(),
{
    let front = digits.drop_last();
    let value = digits_value(digits);
    assert(is_digit(digits[digits.len() - 1]));
    if digits.len() == 1 {
        assert(digits_value(front) == 0);
    } else {
        assert forall|i: int| 0 <= i < front.len() implies is_digit(#[trigger] front[i]) by {
            assert(is_digit(digits[i]));
        }
        lemma_decimal_is_shortest(front);
        if value >= 10 {
            assert(value / 10 == digits_value(front));
        }
    }
}

} // verus!
