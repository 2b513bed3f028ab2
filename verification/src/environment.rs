//! The settings that the laboratory is run with.

use vstd::prelude::*;
use vstd::string::*;
use vstd::utf8::*;
use crate::amount::{parse_u64, parsed_u64};
use crate::conflict::{acquired_ancestor, has_ancestor};
use crate::json::Json;
use crate::text::{
    ends_with, find_char, first_char, has_prefix, has_suffix, join, same_text, starts_with, told,
    told_text,
};

verus! {

/// A port as text, or a message.
pub open spec fn port_of(text: Seq<char>, invalid: Seq<char>) -> Result<u16, Seq<char>> {
    match parsed_u64(text) {
        Some(port) if port <= u16::MAX => Ok(port as u16),
        _ => Err(invalid),
    }
}

/// A port as text, or a message: it can be had exactly where every part that it rests on can, and
/// each part of it is the one that its name says.
pub proof fn law_port_of_is_read_from_its_parts(text: Seq<char>, invalid: Seq<char>)
    ensures
        ({
            let read = port_of(text, invalid);
            let port = parsed_u64(text)->0;
            let given = read->Ok_0;
            &&& read is Ok <==> {
                &&& parsed_u64(text) is Some
                &&& port <= u16::MAX
            }
            &&& read is Ok ==> {
                &&& given == port as u16
            }
        }),
{
}

/// A port as text, or a message.
pub fn parse_port(text: &str, invalid: &str) -> (port: Result<u16, String>)
    ensures
        told(port) == port_of(text@, invalid@),
{
    match parse_u64(text) {
        Some(port) if port <= 0xffff => Ok(port as u16),
        _ => Err(invalid.to_owned()),
    }
}

/// How many confirmations end a journey.
pub open spec fn confirmations_of(text: Seq<char>) -> Result<u64, Seq<char>> {
    match parsed_u64(text) {
        None => Err("smoke terminal confirmation count is invalid"@),
        Some(count) => if 1 <= count <= 288 {
            Ok(count)
        } else {
            Err("smoke terminal confirmation count is outside its bound"@)
        },
    }
}

/// How many confirmations end a journey: it can be had exactly where every part that it rests on
/// can, and each part of it is the one that its name says.
pub proof fn law_confirmations_of_is_read_from_its_parts(text: Seq<char>)
    ensures
        ({
            let read = confirmations_of(text);
            let count = parsed_u64(text)->0;
            let given = read->Ok_0;
            &&& read is Ok <==> {
                &&& parsed_u64(text) is Some
                &&& 1 <= count <= 288
            }
            &&& read is Ok ==> {
                &&& given == count
            }
        }),
{
}

/// How many confirmations end a journey.
pub fn terminal_confirmations(text: &str) -> (count: Result<u64, String>)
    ensures
        told(count) == confirmations_of(text@),
{
    match parse_u64(text) {
        None => Err("smoke terminal confirmation count is invalid".to_owned()),
        Some(count) => if 1 <= count && count <= 288 {
            Ok(count)
        } else {
            Err("smoke terminal confirmation count is outside its bound".to_owned())
        },
    }
}

/// Checks that a provider is one of two.
pub fn check_provider_index(provider_index: usize) -> (checked: Result<(), String>)
    ensures
        told(checked) == (if provider_index > 1 {
            Err("adversarial provider index is outside the two-provider topology"@)
        } else {
            Ok(())
        }),
{
    if provider_index > 1 {
        Err("adversarial provider index is outside the two-provider topology".to_owned())
    } else {
        Ok(())
    }
}

/// How the settings of a Bitcoin node of the laboratory start.
pub open spec fn node_prefix_of(suffix: Seq<char>) -> Result<Seq<char>, Seq<char>> {
    if suffix == "A"@ || suffix == "B"@ {
        Ok("IMMORTAL_LAB_ADVERSARIAL_BITCOIND_"@ + suffix)
    } else {
        Err("adversarial bitcoind suffix must be A or B"@)
    }
}

/// How the settings of a Bitcoin node of the laboratory start: it can be had exactly where every
/// part that it rests on can, and each part of it is the one that its name says.
pub proof fn law_node_prefix_of_is_read_from_its_parts(suffix: Seq<char>)
    ensures
        ({
            let read = node_prefix_of(suffix);
            let given = read->Ok_0;
            &&& read is Ok <==> {
                &&& (suffix == "A"@ || suffix == "B"@)
            }
            &&& read is Ok ==> {
                &&& given == "IMMORTAL_LAB_ADVERSARIAL_BITCOIND_"@ + suffix
            }
        }),
{
}

/// How the settings of a Bitcoin node of the laboratory start.
pub fn node_prefix(suffix: &str) -> (prefix: Result<String, String>)
    ensures
        told_text(prefix) == node_prefix_of(suffix@),
{
    if same_text(suffix, "A") || same_text(suffix, "B") {
        Ok(join("IMMORTAL_LAB_ADVERSARIAL_BITCOIND_", suffix))
    } else {
        Err("adversarial bitcoind suffix must be A or B".to_owned())
    }
}

/// The message for a setting that is missing.
pub fn missing_setting(name: &str) -> (message: String)
    ensures
        message@ == name@ + " is required for the funded smoke"@,
{
    join(name, " is required for the funded smoke")
}

/// Whether a byte is a control character.
pub open spec fn is_control(byte: u8) -> bool {
    byte < 0x20 || byte == 0x7f
}

/// Whether a text is free of control characters.
pub open spec fn is_printable(text: Seq<char>) -> bool {
    forall|i: int| 0 <= i < encode_utf8(text).len() ==> !is_control(#[trigger] encode_utf8(text)[i])
}

fn printable(text: &str) -> (is: bool)
    ensures
        is == is_printable(text@),
{
    let bytes: &[u8] = text.as_bytes();
    let mut i: usize = 0;
    while i < bytes.len()
        invariant
            i <= bytes@.len(),
            bytes@ == encode_utf8(text@),
            forall|j: int| 0 <= j < i ==> !is_control(#[trigger] encode_utf8(text@)[j]),
        decreases bytes@.len() - i,
    {
        if bytes[i] < 0x20 || bytes[i] == 0x7f {
            assert(is_control(encode_utf8(text@)[i as int]));
            return false;
        }
        i = i + 1;
    }
    true
}

/// Whether a URL is that of the health of a local provider.
pub open spec fn is_health_url(url: Seq<char>) -> bool {
    &&& encode_utf8(url).len() <= 2_048
    &&& is_printable(url)
    &&& has_prefix(url, "http://127.0.0.1:"@)
    &&& has_suffix(url, "/healthz"@)
}

fn health_url(url: &str) -> (is: bool)
    ensures
        is == is_health_url(url@),
{
    let length: usize = url.as_bytes().len();
    length <= 2_048 && printable(url) && starts_with(url, "http://127.0.0.1:") && ends_with(
        url,
        "/healthz",
    )
}

/// The two parts of a text with one comma; nothing where it has none or more.
pub open spec fn two_parts(text: Seq<char>) -> Option<(Seq<char>, Seq<char>)> {
    let place = first_char(text, ',');
    if place >= text.len() {
        None
    } else {
        let second = text.subrange(place as int + 1, text.len() as int);
        if first_char(second, ',') < second.len() {
            None
        } else {
            Some((text.subrange(0, place as int), second))
        }
    }
}

/// What the health URLs of two providers read as.
pub open spec fn health_urls_reading(value: Seq<char>) -> Result<(Seq<char>, Seq<char>), Seq<char>> {
    match two_parts(value) {
        None => Err("funded topology requires exactly two provider health URLs"@),
        Some((first, second)) => if first == second || !is_health_url(first) || !is_health_url(
            second,
        ) {
            Err("funded topology health URLs must be distinct bounded loopback URLs"@)
        } else {
            Ok((first, second))
        },
    }
}

/// What the health URLs of two providers read as: it can be had exactly where every part that it
/// rests on can, and each part of it is the one that its name says.
pub proof fn law_health_urls_is_read_from_its_parts(value: Seq<char>)
    ensures
        ({
            let read = health_urls_reading(value);
            let first = two_parts(value)->Some_0.0;
            let second = two_parts(value)->Some_0.1;
            let given = read->Ok_0;
            &&& read is Ok <==> {
                &&& two_parts(value) is Some
                &&& first != second
                &&& is_health_url(first)
                &&& is_health_url(second)
            }
            &&& read is Ok ==> {
                &&& given.0 == first
                &&& given.1 == second
            }
        }),
{
}

/// The health URLs of two providers.
pub fn exact_topology_health_urls(value: &str) -> (urls: Result<(String, String), String>)
    ensures
        crate::boltz::told_pair(urls) == health_urls_reading(value@),
{
    let length: usize = value.unicode_len();
    let place: usize = find_char(value, ',');
    if place >= length {
        return Err("funded topology requires exactly two provider health URLs".to_owned());
    }
    let first: &str = value.substring_char(0, place);
    let second: &str = value.substring_char(place + 1, length);
    if find_char(second, ',') < second.unicode_len() {
        return Err("funded topology requires exactly two provider health URLs".to_owned());
    }
    if same_text(first, second) || !health_url(first) || !health_url(second) {
        return Err(
            "funded topology health URLs must be distinct bounded loopback URLs".to_owned(),
        );
    }
    Ok((first.to_owned(), second.to_owned()))
}

/// The URLs of two providers that are accepted differ and are local.
pub proof fn law_health_urls_are_distinct_and_local(value: Seq<char>)
    requires
        health_urls_reading(value) is Ok,
    ensures
        health_urls_reading(value) matches Ok((first, second)) && first != second && has_prefix(
            first,
            "http://127.0.0.1:"@,
        ) && has_prefix(second, "http://127.0.0.1:"@),
{
}

/// The longest part of a label that is kept, in bytes.
pub const LABEL_MAX_BYTES: usize = 80;

/// A label, cut to the bytes that are kept.
pub open spec fn kept_label(label: Seq<char>) -> Seq<char> {
    let bytes = encode_utf8(label);
    if bytes.len() > LABEL_MAX_BYTES {
        decode_utf8(bytes.subrange(0, LABEL_MAX_BYTES as int))
    } else {
        label
    }
}

/// The name that a request to a node is sent under. A label that is cut must be cut between two
/// characters.
pub fn request_label(label: &str) -> (name: String)
    requires
        encode_utf8(label@).len() > LABEL_MAX_BYTES ==> is_char_boundary(
            encode_utf8(label@),
            LABEL_MAX_BYTES as int,
        ),
    ensures
        name@ == "funded-smoke:"@ + kept_label(label@),
{
    let length: usize = label.as_bytes().len();
    if length > LABEL_MAX_BYTES {
        let (front, _): (&str, &str) = label.split_at(LABEL_MAX_BYTES);
        proof {
            encode_utf8_decode_utf8(front@);
        }
        join("funded-smoke:", front)
    } else {
        join("funded-smoke:", label)
    }
}

/// The name that a request to a node is sent under, where the label can be cut.
pub fn request_name(label: &str) -> (name: Option<String>)
    ensures
        match name {
            Some(name) => name@ == "funded-smoke:"@ + kept_label(label@),
            None => encode_utf8(label@).len() > LABEL_MAX_BYTES && !is_char_boundary(
                encode_utf8(label@),
                LABEL_MAX_BYTES as int,
            ),
        },
{
    let length: usize = label.as_bytes().len();
    if length > LABEL_MAX_BYTES && !label.is_char_boundary(LABEL_MAX_BYTES) {
        return None;
    }
    Some(request_label(label))
}

/// A time before another, by ten seconds for each unit of a random byte.
pub open spec fn blurred(now: u64, byte: u8) -> u64 {
    if now >= byte * 10 {
        (now - byte * 10) as u64
    } else {
        0
    }
}

/// A time before another, by ten seconds for each unit of a random byte.
pub fn blurred_time(now: u64, byte: u8) -> (time: u64)
    ensures
        time == blurred(now, byte),
{
    let seconds: u64 = byte as u64 * 10;
    if now >= seconds {
        now - seconds
    } else {
        0
    }
}

/// A sealed record is never dated after it was made, and by no more than some minutes before.
pub proof fn law_blurred_time_is_near(now: u64, byte: u8)
    ensures
        blurred(now, byte) <= now,
        now - blurred(now, byte) <= 2_550,
{
}

/// What a node answers while a lock waits for an ancestor.
pub enum MempoolReply {
    Entry(Json),
    Absent,
    Failed(String),
}

/// What one round of waiting for an ancestor shows: whether the lock has acquired it.
pub open spec fn ancestor_reading(reply: MempoolReply, expired: bool) -> Result<bool, Seq<char>> {
    match reply {
        MempoolReply::Failed(message) => Err(
            "could not inspect zero-conf ancestor state: "@ + message@,
        ),
        MempoolReply::Entry(entry) if has_ancestor(entry@) => Ok(true),
        _ => if expired {
            Err("zero-conf funding did not acquire an unconfirmed ancestor"@)
        } else {
            Ok(false)
        },
    }
}

/// What one round of waiting for an ancestor shows.
pub fn has_acquired(reply: &MempoolReply, expired: bool) -> (acquired: Result<bool, String>)
    ensures
        told(acquired) == ancestor_reading(*reply, expired),
{
    let waits: Result<bool, String> = if expired {
        Err("zero-conf funding did not acquire an unconfirmed ancestor".to_owned())
    } else {
        Ok(false)
    };
    match reply {
        MempoolReply::Failed(message) => Err(
            join("could not inspect zero-conf ancestor state: ", message.as_str()),
        ),
        MempoolReply::Entry(entry) => if acquired_ancestor(entry) {
            Ok(true)
        } else {
            waits
        },
        MempoolReply::Absent => waits,
    }
}

} // verus!
