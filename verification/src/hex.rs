//! Lowercase hexadecimal text.

use vstd::prelude::*;
use vstd::string::*;
use vstd::utf8::*;
use crate::text::{decimal, decimal_text, join, told};

verus! {

/// The most characters a hexadecimal artifact may have.
pub const HEX_TEXT_LIMIT: usize = 2_000_000;

/// The value of a lowercase hexadecimal digit.
pub open spec fn nibble(byte: u8) -> Option<u8> {
    if 48 <= byte <= 57 {
        Some((byte - 48) as u8)
    } else if 97 <= byte <= 102 {
        Some((byte - 87) as u8)
    } else {
        None
    }
}

/// Whether every byte is a lowercase hexadecimal digit.
pub open spec fn all_nibbles(text: Seq<u8>) -> bool {
    forall|i: int| 0 <= i < text.len() ==> nibble(#[trigger] text[i]) is Some
}

/// The byte that two digits stand for.
pub open spec fn pair_byte(high: u8, low: u8) -> u8 {
    (nibble(high)->0 * 16 + nibble(low)->0) as u8
}

/// The bytes that pairs of digits stand for.
pub open spec fn paired(text: Seq<u8>) -> Seq<u8> {
    Seq::new(text.len() / 2, |i: int| pair_byte(text[2 * i], text[2 * i + 1]))
}

/// What a hexadecimal artifact reads as: its bytes, or why it is refused.
pub open spec fn hex_reading(text: Seq<char>) -> Result<Seq<u8>, Seq<char>> {
    let bytes = encode_utf8(text);
    if bytes.len() == 0 || bytes.len() % 2 != 0 || bytes.len() > HEX_TEXT_LIMIT {
        Err("hexadecimal artifact is empty, odd, or unbounded"@)
    } else if !all_nibbles(bytes) {
        Err("hexadecimal artifact is not lowercase"@)
    } else {
        Ok(paired(bytes))
    }
}

/// What a hexadecimal artifact reads as: it can be had exactly where every part that it rests on
/// can, and each part of it is the one that its name says.
pub proof fn law_hex_is_read_from_its_parts(text: Seq<char>)
    ensures
        ({
            let read = hex_reading(text);
            let bytes = encode_utf8(text);
            let given = read->Ok_0;
            &&& read is Ok <==> {
                &&& bytes.len() != 0
                &&& bytes.len() % 2 == 0
                &&& bytes.len() <= HEX_TEXT_LIMIT
                &&& all_nibbles(bytes)
            }
            &&& read is Ok ==> {
                &&& given == paired(bytes)
            }
        }),
{
}

/// The character of a digit value.
pub open spec fn hex_char(value: int) -> char {
    "0123456789abcdef"@[value]
}

/// The lowercase hexadecimal text of bytes.
pub open spec fn hex_text(bytes: Seq<u8>) -> Seq<char> {
    Seq::new(
        2 * bytes.len(),
        |i: int|
            if i % 2 == 0 {
                hex_char(bytes[i / 2] as int / 16)
            } else {
                hex_char(bytes[i / 2] as int % 16)
            },
    )
}

/// Whether a text is thirty-two bytes in lowercase hexadecimal.
pub open spec fn is_lower_hex_32(text: Seq<char>) -> bool {
    encode_utf8(text).len() == 64 && all_nibbles(encode_utf8(text))
}

/// A byte sequence that a fallible call returned, or its message.
pub open spec fn told_bytes(outcome: Result<Vec<u8>, String>) -> Result<Seq<u8>, Seq<char>> {
    match outcome {
        Ok(bytes) => Ok(bytes@),
        Err(message) => Err(message@),
    }
}

/// Thirty-two bytes that a fallible call returned, or its message.
pub open spec fn told_array(outcome: Result<[u8; 32], String>) -> Result<Seq<u8>, Seq<char>> {
    match outcome {
        Ok(bytes) => Ok(bytes@),
        Err(message) => Err(message@),
    }
}

/// The value of a lowercase hexadecimal digit.
pub fn hex_nibble(value: u8) -> (digit: Result<u8, String>)
    ensures
        told(digit) == (match nibble(value) {
            Some(digit) => Ok(digit),
            None => Err("hexadecimal artifact is not lowercase"@),
        }),
{
    if 48 <= value && value <= 57 {
        Ok(value - 48)
    } else if 97 <= value && value <= 102 {
        Ok(value - 87)
    } else {
        Err("hexadecimal artifact is not lowercase".to_owned())
    }
}

/// Decodes a lowercase hexadecimal artifact.
pub fn decode_hex(value: &str) -> (decoded: Result<Vec<u8>, String>)
    ensures
        told_bytes(decoded) == hex_reading(value@),
{
    let text: &[u8] = value.as_bytes();
    if text.len() == 0 || text.len() % 2 != 0 || text.len() > HEX_TEXT_LIMIT {
        return Err("hexadecimal artifact is empty, odd, or unbounded".to_owned());
    }
    let mut bytes: Vec<u8> = Vec::new();
    let mut i: usize = 0;
    while i < text.len()
        invariant
            text@ == encode_utf8(value@),
            text@.len() % 2 == 0,
            0 < text@.len() <= HEX_TEXT_LIMIT,
            i <= text@.len(),
            i % 2 == 0,
            bytes@.len() == i / 2,
            forall|j: int| 0 <= j < i ==> nibble(#[trigger] text@[j]) is Some,
            forall|j: int|
                0 <= j < i / 2 ==> #[trigger] bytes@[j] == pair_byte(
                    text@[2 * j],
                    text@[2 * j + 1],
                ),
        decreases text@.len() - i,
    {
        let high: u8 = match hex_nibble(text[i]) {
            Ok(digit) => digit,
            Err(message) => {
                assert(nibble(text@[i as int]) is None);
                return Err(message);
            },
        };
        let low: u8 = match hex_nibble(text[i + 1]) {
            Ok(digit) => digit,
            Err(message) => {
                assert(nibble(text@[i + 1]) is None);
                return Err(message);
            },
        };
        let byte: u8 = high * 16 + low;
        bytes.push(byte);
        i = i + 2;
    }
    assert(bytes@ =~= paired(text@));
    Ok(bytes)
}

/// Renders bytes as lowercase hexadecimal text.
pub fn lower_hex(bytes: &[u8]) -> (text: String)
    ensures
        text@ == hex_text(bytes@),
{
    let digits: &'static str = "0123456789abcdef";
    proof {
        reveal_strlit("0123456789abcdef");
    }
    let mut text: String = String::new();
    let mut i: usize = 0;
    while i < bytes.len()
        invariant
            digits@ == "0123456789abcdef"@,
            digits@.len() == 16,
            digits.is_ascii(),
            i <= bytes@.len(),
            text@.len() == 2 * i,
            forall|j: int| 0 <= j < 2 * i ==> #[trigger] text@[j] == hex_text(bytes@)[j],
        decreases bytes@.len() - i,
    {
        let byte: u8 = bytes[i];
        let high: usize = (byte / 16) as usize;
        let low: usize = (byte % 16) as usize;
        let ghost before = text@;
        text.append(digits.substring_ascii(high, high + 1));
        text.append(digits.substring_ascii(low, low + 1));
        assert(text@ =~= before.push(hex_char(high as int)).push(hex_char(low as int)));
        assert((2 * i) / 2 == i && (2 * i + 1) / 2 == i);
        i = i + 1;
    }
    assert(text@ =~= hex_text(bytes@));
    text
}

/// Checks that a text is thirty-two bytes in lowercase hexadecimal.
pub fn require_lower_hex_32(value: &str, label: &str) -> (checked: Result<(), String>)
    ensures
        told(checked) == (if is_lower_hex_32(value@) {
            Ok(())
        } else {
            Err(label@ + " is not lowercase 32-byte hex"@)
        }),
{
    let text: &[u8] = value.as_bytes();
    if text.len() != 64 {
        return Err(join(label, " is not lowercase 32-byte hex"));
    }
    let mut i: usize = 0;
    while i < text.len()
        invariant
            text@ == encode_utf8(value@),
            text@.len() == 64,
            i <= text@.len(),
            forall|j: int| 0 <= j < i ==> nibble(#[trigger] text@[j]) is Some,
        decreases text@.len() - i,
    {
        let byte: u8 = text[i];
        if !((48 <= byte && byte <= 57) || (97 <= byte && byte <= 102)) {
            assert(nibble(text@[i as int]) is None);
            return Err(join(label, " is not lowercase 32-byte hex"));
        }
        i = i + 1;
    }
    Ok(())
}

fn array_of(bytes: &Vec<u8>, backwards: bool) -> (array: [u8; 32])
    requires
        bytes@.len() == 32,
    ensures
        array@ == (if backwards {
            bytes@.reverse()
        } else {
            bytes@
        }),
{
    let mut array: [u8; 32] = [0; 32];
    let mut i: usize = 0;
    while i < 32
        invariant
            i <= 32,
            bytes@.len() == 32,
            forall|j: int|
                0 <= j < i ==> #[trigger] array@[j] == (if backwards {
                    bytes@[31 - j]
                } else {
                    bytes@[j]
                }),
        decreases 32 - i,
    {
        array[i] = if backwards {
            bytes[31 - i]
        } else {
            bytes[i]
        };
        i = i + 1;
    }
    assert(array@ =~= (if backwards {
        bytes@.reverse()
    } else {
        bytes@
    }));
    array
}

/// What an identity key reads as.
pub open spec fn key_reading(text: Seq<char>) -> Result<Seq<u8>, Seq<char>> {
    if encode_utf8(text).len() != 64 {
        Err("identity key is not 32-byte lowercase hex"@)
    } else {
        hex_reading(text)
    }
}

/// What an identity key reads as: it can be had exactly where every part that it rests on can, and
/// each part of it is the one that its name says.
pub proof fn law_key_is_read_from_its_parts(text: Seq<char>)
    ensures
        ({
            let read = key_reading(text);
            let given = read->Ok_0;
            &&& read is Ok <==> {
                &&& encode_utf8(text).len() == 64
                &&& hex_reading(text) is Ok
            }
            &&& read is Ok ==> {
                &&& given == hex_reading(text)->Ok_0
            }
        }),
{
}

/// Decodes a thirty-two byte identity key.
pub fn decode_lower_hex_32(value: &str) -> (decoded: Result<[u8; 32], String>)
    ensures
        told_array(decoded) == key_reading(value@),
{
    if value.as_bytes().len() != 64 {
        return Err("identity key is not 32-byte lowercase hex".to_owned());
    }
    match decode_hex(value) {
        Ok(bytes) => Ok(array_of(&bytes, false)),
        Err(message) => Err(message),
    }
}

/// What a transaction identifier reads as in wire order, which is the reverse of how it is shown.
pub open spec fn txid_wire_reading(text: Seq<char>) -> Result<Seq<u8>, Seq<char>> {
    if is_lower_hex_32(text) {
        Ok(paired(encode_utf8(text)).reverse())
    } else {
        Err("transaction ID"@ + " is not lowercase 32-byte hex"@)
    }
}

/// What a transaction identifier reads as in wire order, which is the reverse of how it is shown:
/// it can be had exactly where every part that it rests on can, and each part of it is the one that
/// its name says.
pub proof fn law_txid_wire_is_read_from_its_parts(text: Seq<char>)
    ensures
        ({
            let read = txid_wire_reading(text);
            let given = read->Ok_0;
            &&& read is Ok <==> {
                &&& is_lower_hex_32(text)
            }
            &&& read is Ok ==> {
                &&& given == paired(encode_utf8(text)).reverse()
            }
        }),
{
}

/// The wire bytes of a transaction identifier as it is shown.
pub fn display_txid_wire(value: &str) -> (wire: Result<[u8; 32], String>)
    ensures
        told_array(wire) == txid_wire_reading(value@),
{
    match require_lower_hex_32(value, "transaction ID") {
        Ok(_) => {},
        Err(message) => {
            return Err(message);
        },
    }
    match decode_hex(value) {
        Ok(bytes) => Ok(array_of(&bytes, true)),
        Err(message) => Err(message),
    }
}

/// What an artifact of an exact length reads as.
pub open spec fn fixed_reading(text: Seq<char>, label: Seq<char>, size: usize) -> Result<
    Seq<u8>,
    Seq<char>,
> {
    match hex_reading(text) {
        Ok(bytes) => if bytes.len() == size {
            Ok(bytes)
        } else {
            Err(label + " is not "@ + decimal(size as nat) + " bytes"@)
        },
        Err(message) => Err(message),
    }
}

/// What an artifact of an exact length reads as: it can be had exactly where every part that it
/// rests on can, and each part of it is the one that its name says.
pub proof fn law_fixed_is_read_from_its_parts(text: Seq<char>, label: Seq<char>, size: usize)
    ensures
        ({
            let read = fixed_reading(text, label, size);
            let bytes = hex_reading(text)->Ok_0;
            let given = read->Ok_0;
            &&& read is Ok <==> {
                &&& hex_reading(text) is Ok
                &&& bytes.len() == size
            }
            &&& read is Ok ==> {
                &&& given == bytes
            }
        }),
{
}

/// Decodes a hexadecimal artifact that must have an exact length.
pub fn decode_fixed_hex<const SIZE: usize>(value: &str, label: &str) -> (decoded: Result<
    Vec<u8>,
    String,
>)
    ensures
        told_bytes(decoded) == fixed_reading(value@, label@, SIZE),
{
    match decode_hex(value) {
        Ok(bytes) => if bytes.len() == SIZE {
            Ok(bytes)
        } else {
            let mut message: String = join(label, " is not ");
            message.append(decimal_text(SIZE as u64).as_str());
            message.append(" bytes");
            Err(message)
        },
        Err(message) => Err(message),
    }
}

proof fn lemma_hex_char(value: int)
    requires
        0 <= value < 16,
    ensures
        nibble(hex_char(value) as u8) == Some(value as u8),
        '\0' <= hex_char(value) <= '\u{7f}',
{
    reveal_strlit("0123456789abcdef");
}

proof fn lemma_hex_text_bytes(bytes: Seq<u8>)
    ensures
        encode_utf8(hex_text(bytes)).len() == 2 * bytes.len(),
        forall|i: int|
            0 <= i < 2 * bytes.len() ==> #[trigger] encode_utf8(hex_text(bytes))[i] == hex_text(
                bytes,
            )[i] as u8,
{
    let text = hex_text(bytes);
    assert forall|i: int| 0 <= i < text.len() implies '\0' <= #[trigger] text[i] <= '\u{7f}' by {
        if i % 2 == 0 {
            lemma_hex_char(bytes[i / 2] as int / 16);
        } else {
            lemma_hex_char(bytes[i / 2] as int % 16);
        }
    }
    is_ascii_chars_encode_utf8(text);
}

/// Reading the text of bytes gives the bytes back, as long as an artifact of that size is admitted.
pub proof fn law_hex_reads_back(bytes: Seq<u8>)
    requires
        0 < bytes.len(),
        2 * bytes.len() <= HEX_TEXT_LIMIT,
    ensures
        hex_reading(hex_text(bytes)) == Ok::<Seq<u8>, Seq<char>>(bytes),
{
    let text = encode_utf8(hex_text(bytes));
    lemma_hex_text_bytes(bytes);
    assert forall|i: int| 0 <= i < text.len() implies nibble(#[trigger] text[i]) is Some by {
        if i % 2 == 0 {
            lemma_hex_char(bytes[i / 2] as int / 16);
        } else {
            lemma_hex_char(bytes[i / 2] as int % 16);
        }
    }
    assert(all_nibbles(text));
    assert(paired(text) =~= bytes) by {
        assert forall|i: int| 0 <= i < bytes.len() implies #[trigger] paired(text)[i]
            == bytes[i] by {
            lemma_hex_char(bytes[i] as int / 16);
            lemma_hex_char(bytes[i] as int % 16);
            assert((2 * i) / 2 == i && (2 * i + 1) / 2 == i);
            assert(text[2 * i] == hex_text(bytes)[2 * i] as u8);
            assert(text[2 * i + 1] == hex_text(bytes)[2 * i + 1] as u8);
        }
    }
}

proof fn lemma_nibble_char(byte: u8)
    requires
        nibble(byte) is Some,
    ensures
        nibble(byte)->0 < 16,
        hex_char(nibble(byte)->0 as int) as u8 == byte,
        hex_char(nibble(byte)->0 as int) as u32 == byte,
{
    reveal_strlit("0123456789abcdef");
}

/// A text that reads as bytes is the text of those bytes: there is one text for each.
pub proof fn law_hex_text_is_unique(text: Seq<char>)
    requires
        hex_reading(text) is Ok,
    ensures
        hex_text(hex_reading(text)->Ok_0) == text,
{
    let encoded = encode_utf8(text);
    let bytes = paired(encoded);
    let again = hex_text(bytes);
    lemma_hex_text_bytes(bytes);
    assert(encode_utf8(again) =~= encoded) by {
        assert forall|i: int| 0 <= i < encoded.len() implies #[trigger] encode_utf8(again)[i]
            == encoded[i] by {
            let pair = i / 2;
            let high = encoded[2 * pair];
            let low = encoded[2 * pair + 1];
            assert(nibble(encoded[2 * pair]) is Some);
            assert(nibble(encoded[2 * pair + 1]) is Some);
            lemma_nibble_char(high);
            lemma_nibble_char(low);
            assert(bytes[pair] == pair_byte(high, low));
            assert(bytes[pair] as int / 16 == nibble(high)->0);
            assert(bytes[pair] as int % 16 == nibble(low)->0);
            assert(encode_utf8(again)[i] == again[i] as u8);
        }
    }
    encode_utf8_decode_utf8(text);
    encode_utf8_decode_utf8(again);
}

/// Showing wire bytes backwards and reading them again gives the wire bytes.
pub proof fn law_txid_wire_reads_back(wire: Seq<u8>)
    requires
        wire.len() == 32,
    ensures
        txid_wire_reading(hex_text(wire.reverse())) == Ok::<Seq<u8>, Seq<char>>(wire),
{
    law_hex_reads_back(wire.reverse());
    lemma_hex_text_bytes(wire.reverse());
    assert(wire.reverse().reverse() =~= wire);
}

} // verus!
