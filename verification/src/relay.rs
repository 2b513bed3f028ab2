//! The messages that a relay sends and is sent.

use vstd::prelude::*;
use vstd::string::*;
use vstd::utf8::*;
use crate::control::told_json;
use crate::direct::{EventView, same_event};
use crate::json::{
    Json, JsonObject, JsonView, items_of, items_view, lemma_items_view, member, member_text,
    no_members, number_doc, text_doc, text_of, texts_doc, u64_of,
};
use crate::record::{Event, has_tag, tag_values};
use crate::text::{is_text, join3, same_text, told, told_text};
use crate::wire::{document_end, first_document_end};

verus! {

/// The offering that the laboratory deals with.
pub const OFFERING_ID: &'static str = "immortal-funded-btc-lightning";

/// The kind of an offering.
pub const OFFERING_KIND: u16 = 39_601;

/// Whether a byte is white space between the parts of a message.
pub open spec fn is_blank(byte: u8) -> bool {
    byte == 0x20 || byte == 0x09 || byte == 0x0a || byte == 0x0c || byte == 0x0d
}

fn blank(byte: u8) -> (is: bool)
    ensures
        is == is_blank(byte),
{
    byte == 0x20 || byte == 0x09 || byte == 0x0a || byte == 0x0c || byte == 0x0d
}

/// The first place from an offset on that is no white space; `None` where there is none.
pub open spec fn next_part(bytes: Seq<u8>, offset: int) -> Option<int>
    decreases bytes.len() - offset,
{
    if offset < 0 || offset >= bytes.len() {
        None
    } else if !is_blank(bytes[offset]) {
        Some(offset)
    } else {
        next_part(bytes, offset + 1)
    }
}

fn find_part(bytes: &[u8], offset: usize) -> (found: Option<usize>)
    ensures
        match found {
            Some(place) => next_part(bytes@, offset as int) == Some(place as int) && place
                < bytes@.len(),
            None => next_part(bytes@, offset as int) is None,
        },
{
    let mut place: usize = offset;
    while place < bytes.len()
        invariant
            next_part(bytes@, offset as int) == next_part(bytes@, place as int),
        decreases bytes@.len() - place,
    {
        if !blank(bytes[place]) {
            return Some(place);
        }
        place = place + 1;
    }
    None
}

/// The first place of a byte from an offset on; `None` where there is none.
pub open spec fn next_byte(bytes: Seq<u8>, wanted: u8, offset: int) -> Option<int>
    decreases bytes.len() - offset,
{
    if offset < 0 || offset >= bytes.len() {
        None
    } else if bytes[offset] == wanted {
        Some(offset)
    } else {
        next_byte(bytes, wanted, offset + 1)
    }
}

fn find_bracket(bytes: &[u8]) -> (found: Option<usize>)
    ensures
        match found {
            Some(place) => next_byte(bytes@, 0x5b, 0) == Some(place as int) && place < bytes@.len(),
            None => next_byte(bytes@, 0x5b, 0) is None,
        },
{
    let mut place: usize = 0;
    while place < bytes.len()
        invariant
            next_byte(bytes@, 0x5b, 0) == next_byte(bytes@, 0x5b, place as int),
        decreases bytes@.len() - place,
    {
        if bytes[place] == 0x5b {
            return Some(place);
        }
        place = place + 1;
    }
    None
}

/// Where an element starts: behind a comma unless it is the first.
pub open spec fn element_start(bytes: Seq<u8>, offset: int, first: bool) -> Option<int> {
    match next_part(bytes, offset) {
        None => None,
        Some(place) => if first {
            Some(place)
        } else if bytes[place] != 0x2c {
            None
        } else {
            next_part(bytes, place + 1)
        },
    }
}

/// Where an element ends that starts here: behind the document that stands there.
pub open spec fn element_end(bytes: Seq<u8>, start: int) -> Option<int> {
    if !is_char_boundary(bytes, start) {
        None
    } else {
        match first_document_end(decode_utf8(bytes.subrange(start, bytes.len() as int))) {
            None => None,
            Some(length) => if start + length > usize::MAX {
                None
            } else {
                Some(start + length)
            },
        }
    }
}

/// Where an element of an array stands, so many elements behind an offset.
pub open spec fn element_span(bytes: Seq<u8>, offset: int, first: bool, skipped: nat) -> Option<
    (int, int),
>
    decreases skipped,
{
    match element_start(bytes, offset, first) {
        None => None,
        Some(start) => match element_end(bytes, start) {
            None => None,
            Some(end) => if skipped > 0 {
                element_span(bytes, end, false, (skipped - 1) as nat)
            } else if end <= bytes.len() && is_char_boundary(bytes, end) {
                Some((start, end))
            } else {
                None
            },
        },
    }
}

/// Where an element of the array in a text stands, counted in bytes.
pub open spec fn raw_element(text: Seq<char>, index: nat) -> Option<(int, int)> {
    let bytes = encode_utf8(text);
    match next_byte(bytes, 0x5b, 0) {
        None => None,
        Some(place) => element_span(bytes, place + 1, true, index),
    }
}

fn find_start(bytes: &[u8], offset: usize, first: bool) -> (found: Option<usize>)
    ensures
        match found {
            Some(place) => element_start(bytes@, offset as int, first) == Some(place as int)
                && place < bytes@.len(),
            None => element_start(bytes@, offset as int, first) is None,
        },
{
    let place: usize = match find_part(bytes, offset) {
        Some(place) => place,
        None => {
            return None;
        },
    };
    if first {
        return Some(place);
    }
    if bytes[place] != 0x2c {
        return None;
    }
    find_part(bytes, place + 1)
}

fn find_end(input: &str, start: usize) -> (found: Option<usize>)
    requires
        start < encode_utf8(input@).len(),
    ensures
        match found {
            Some(end) => element_end(encode_utf8(input@), start as int) == Some(end as int),
            None => element_end(encode_utf8(input@), start as int) is None,
        },
{
    if !input.is_char_boundary(start) {
        return None;
    }
    let (_, rest): (&str, &str) = input.split_at(start);
    proof {
        encode_utf8_decode_utf8(rest@);
    }
    match document_end(rest) {
        None => None,
        Some(length) => start.checked_add(length),
    }
}

/// The bytes of an element of the array in a text, exactly as they stand there.
pub fn relay_array_element_raw(input: &str, target_index: usize) -> (element: Option<&str>)
    ensures
        match (element, raw_element(input@, target_index as nat)) {
            (Some(element), Some((start, end))) => encode_utf8(element@) == encode_utf8(
                input@,
            ).subrange(start, end),
            (None, None) => true,
            _ => false,
        },
{
    let bytes: &[u8] = input.as_bytes();
    let length: usize = bytes.len();
    let mut offset: usize = match find_bracket(bytes) {
        Some(place) => place + 1,
        None => {
            return None;
        },
    };
    let mut skipped: usize = target_index;
    let mut first: bool = true;
    let ghost whole = encode_utf8(input@);
    while skipped > 0
        invariant
            bytes@ == whole,
            whole == encode_utf8(input@),
            raw_element(input@, target_index as nat) == element_span(
                whole,
                offset as int,
                first,
                skipped as nat,
            ),
        decreases skipped,
    {
        let start: usize = match find_start(bytes, offset, first) {
            Some(start) => start,
            None => {
                return None;
            },
        };
        offset = match find_end(input, start) {
            Some(end) => end,
            None => {
                return None;
            },
        };
        first = false;
        skipped = skipped - 1;
    }
    let start: usize = match find_start(bytes, offset, first) {
        Some(start) => start,
        None => {
            return None;
        },
    };
    let end: usize = match find_end(input, start) {
        Some(end) => end,
        None => {
            return None;
        },
    };
    if end > length || !input.is_char_boundary(end) {
        return None;
    }
    let (front, _): (&str, &str) = input.split_at(end);
    proof {
        encode_utf8_valid_utf8(input@);
        lemma_boundary_of_front(whole, start as int, end as int);
    }
    let (_, element): (&str, &str) = front.split_at(start);
    assert(encode_utf8(element@) =~= whole.subrange(start as int, end as int));
    Some(element)
}

proof fn lemma_boundary_of_front(bytes: Seq<u8>, start: int, end: int)
    requires
        valid_utf8(bytes),
        0 <= start <= end <= bytes.len(),
        is_char_boundary(bytes, start),
        is_char_boundary(bytes, end),
    ensures
        valid_utf8(bytes.subrange(0, end)),
        is_char_boundary(bytes.subrange(0, end), start),
{
    let front = bytes.subrange(0, end);
    valid_utf8_split(bytes, end);
    if start == end {
        is_char_boundary_start_end_of_seq(front);
    } else {
        is_char_boundary_iff_not_is_continuation_byte(bytes, start);
        is_char_boundary_iff_not_is_continuation_byte(front, start);
        assert(front[start] == bytes[start]);
    }
}

/// The element of an array, where the document is one that long.
pub open spec fn element_of(message: JsonView, index: int) -> Option<JsonView> {
    match items_of(Some(message)) {
        Some(items) if index < items.len() => Some(items[index]),
        _ => None,
    }
}

fn find_element<'a>(message: &'a Json, index: usize) -> (found: Option<&'a Json>)
    ensures
        crate::json::seen(found) == element_of(message@, index as int),
{
    match message.as_array() {
        None => None,
        Some(items) => {
            proof {
                lemma_items_view(items@);
            }
            if index < items.len() {
                assert(items_view(items@)[index as int] == items@[index as int]@);
                Some(&items[index])
            } else {
                None
            }
        },
    }
}

/// Whether a message starts with a word.
pub open spec fn starts_as(message: JsonView, word: Seq<char>) -> bool {
    text_of(element_of(message, 0)) == Some(word)
}

fn message_starts(message: &Json, word: &str) -> (is: bool)
    ensures
        is == starts_as(message@, word@),
{
    match find_element(message, 0) {
        Some(first) => is_text(first.as_str(), word),
        None => false,
    }
}

/// What the first message of a relay reads as: the challenge that it wants signed.
pub open spec fn challenge_reading(message: JsonView) -> Result<Seq<char>, Seq<char>> {
    match text_of(element_of(message, 1)) {
        Some(challenge) if starts_as(message, "AUTH"@) => Ok(challenge),
        _ => Err("relay did not send NIP-42 challenge"@),
    }
}

/// What the first message of a relay reads as: it can be had exactly where every part that it rests
/// on can, and each part of it is the one that its name says.
pub proof fn law_challenge_is_read_from_its_parts(message: JsonView)
    ensures
        ({
            let read = challenge_reading(message);
            let given = read->Ok_0;
            &&& read is Ok <==> {
                &&& text_of(element_of(message, 1)) is Some
                &&& starts_as(message, "AUTH"@)
            }
            &&& read is Ok ==> {
                &&& given == text_of(element_of(message, 1))->0
            }
        }),
{
}

/// The challenge that a relay wants signed.
pub fn relay_challenge(message: &Json) -> (challenge: Result<String, String>)
    ensures
        told_text(challenge) == challenge_reading(message@),
{
    if message_starts(message, "AUTH") {
        if let Some(second) = find_element(message, 1) {
            if let Some(challenge) = second.as_str() {
                return Ok(challenge.to_owned());
            }
        }
    }
    Err("relay did not send NIP-42 challenge".to_owned())
}

/// The event that a message of a subscription carries; `None` where it carries none.
pub open spec fn carried_event(message: JsonView) -> Option<JsonView> {
    if starts_as(message, "EVENT"@) {
        element_of(message, 2)
    } else {
        None
    }
}

/// The event that a message of a subscription carries.
pub fn message_event<'a>(message: &'a Json) -> (event: Option<&'a Json>)
    ensures
        crate::json::seen(event) == carried_event(message@),
{
    if message_starts(message, "EVENT") {
        find_element(message, 2)
    } else {
        None
    }
}

/// What the event of the requester's own subscription reads as: `None` where the message carries
/// none, and its exact bytes where it is one.
pub open spec fn private_event_reading(text: Seq<char>, message: JsonView) -> Result<
    Option<(int, int)>,
    Seq<char>,
> {
    match carried_event(message) {
        None => Ok(None),
        Some(JsonView::Object(_)) => match raw_element(text, 2) {
            None => Err("could not retain exact funded gift-wrap bytes"@),
            Some(span) => Ok(Some(span)),
        },
        Some(_) => Err("funded subscription payload is not an event"@),
    }
}

/// The exact bytes of the event that a message of the requester's own subscription carries.
pub fn private_event<'a>(text: &'a str, message: &Json) -> (event: Result<Option<&'a str>, String>)
    ensures
        match (event, private_event_reading(text@, message@)) {
            (Ok(None), Ok(None)) => true,
            (Ok(Some(event)), Ok(Some((start, end)))) => encode_utf8(event@) == encode_utf8(
                text@,
            ).subrange(start, end),
            (Err(found), Err(expected)) => found@ == expected,
            _ => false,
        },
{
    match message_event(message) {
        None => Ok(None),
        Some(value) => match value.as_object() {
            None => Err("funded subscription payload is not an event".to_owned()),
            Some(_) => match relay_array_element_raw(text, 2) {
                None => Err("could not retain exact funded gift-wrap bytes".to_owned()),
                Some(event) => Ok(Some(event)),
            },
        },
    }
}

/// Whether a message says that a subscription has caught up.
pub open spec fn is_end_of(message: JsonView, subscription: Seq<char>) -> bool {
    message == texts_doc(seq!["EOSE"@, subscription])
}

/// Whether a message says that a subscription has caught up.
pub fn ends_history(message: &Json, subscription: &str) -> (ends: bool)
    ensures
        ends == is_end_of(message@, subscription@),
{
    let parts: Vec<&str> = vec!["EOSE", subscription];
    assert(crate::json::name_views(parts@) =~= seq!["EOSE"@, subscription@]);
    message.same(&Json::texts(&parts))
}

/// Whether an event is the offering that the laboratory deals with.
pub open spec fn is_offering(event: Event) -> bool {
    event.kind == OFFERING_KIND && tag_values(event.tags@, "d"@).contains(OFFERING_ID@)
}

/// Whether an event is the offering that the laboratory deals with.
pub fn is_funded_offering(event: &Event) -> (is: bool)
    ensures
        is == is_offering(*event),
{
    event.kind == OFFERING_KIND && has_tag(event, "d", OFFERING_ID)
}

/// An array of one text.
fn one_text(text: &str) -> (document: Json)
    ensures
        document@ == texts_doc(seq![text@]),
{
    let texts: Vec<&str> = vec![text];
    assert(crate::json::name_views(texts@) =~= seq![text@]);
    Json::texts(&texts)
}

fn one_number(value: u64) -> (document: Json)
    ensures
        document@ == JsonView::Array(seq![number_doc(value)]),
{
    let items: Vec<Json> = vec![Json::number(value)];
    proof {
        lemma_items_view(items@);
        assert(items_view(items@) =~= seq![number_doc(value)]);
    }
    Json::array(items)
}

fn request(subscription: &str, filter: Json) -> (message: Json)
    ensures
        message@ == request_doc(subscription@, filter@),
{
    let items: Vec<Json> = vec![Json::text("REQ"), Json::text(subscription), filter];
    proof {
        lemma_items_view(items@);
        assert(items_view(items@) =~= seq![text_doc("REQ"@), text_doc(subscription@), filter@]);
    }
    Json::array(items)
}

/// The message that opens a subscription.
pub open spec fn request_doc(subscription: Seq<char>, filter: JsonView) -> JsonView {
    JsonView::Array(seq![text_doc("REQ"@), text_doc(subscription), filter])
}

/// The message that looks for the offering.
pub open spec fn discovery_doc() -> JsonView {
    request_doc(
        "funded-provider-discovery"@,
        JsonView::Object(
            no_members().insert("kinds"@, JsonView::Array(seq![number_doc(39_601)])).insert(
                "#d"@,
                texts_doc(seq![OFFERING_ID@]),
            ).insert("limit"@, number_doc(8)),
        ),
    )
}

/// The message that looks for the offering.
pub fn discovery_request() -> (message: Json)
    ensures
        message@ == discovery_doc(),
{
    request(
        "funded-provider-discovery",
        Json::object(
            JsonObject::new().with("kinds", one_number(39_601)).with(
                "#d",
                one_text(OFFERING_ID),
            ).with_number("limit", 8),
        ),
    )
}

/// The message that subscribes to what is sealed for a recipient.
pub open spec fn subscription_doc(recipient: Seq<char>) -> JsonView {
    request_doc(
        "funded-requester"@,
        JsonView::Object(
            no_members().insert("kinds"@, JsonView::Array(seq![number_doc(1_059)])).insert(
                "#p"@,
                texts_doc(seq![recipient]),
            ).insert("limit"@, number_doc(512)),
        ),
    )
}

/// The message that subscribes to what is sealed for a recipient.
pub fn subscription_request(recipient: &str) -> (message: Json)
    ensures
        message@ == subscription_doc(recipient@),
{
    request(
        "funded-requester",
        Json::object(
            JsonObject::new().with("kinds", one_number(1_059)).with(
                "#p",
                one_text(recipient),
            ).with_number("limit", 512),
        ),
    )
}

/// What a message reads as for someone who waits for the acknowledgement of an event: nothing yet,
/// or whether the relay took it.
pub open spec fn acknowledgement_of(message: JsonView, shown: Seq<char>, event_id: Seq<char>) -> Option<
    Result<(), Seq<char>>,
> {
    if !starts_as(message, "OK"@) || text_of(element_of(message, 1)) != Some(event_id) {
        None
    } else if crate::json::bool_of(element_of(message, 2)) == Some(true) {
        Some(Ok(()))
    } else {
        Some(Err("relay rejected event "@ + event_id + ": "@ + shown))
    }
}

/// Whether a message acknowledges an event; `shown` is the message as text.
pub fn acknowledgement(message: &Json, shown: &str, event_id: &str) -> (found: Option<
    Result<(), String>,
>)
    ensures
        (match found {
            Some(outcome) => Some(told(outcome)),
            None => None,
        }) == acknowledgement_of(message@, shown@, event_id@),
{
    let names_event: bool = match find_element(message, 1) {
        Some(second) => is_text(second.as_str(), event_id),
        None => false,
    };
    if !message_starts(message, "OK") || !names_event {
        return None;
    }
    if let Some(third) = find_element(message, 2) {
        if let Some(accepted) = third.as_bool() {
            if accepted {
                return Some(Ok(()));
            }
        }
    }
    let mut refusal: String = join3("relay rejected event ", event_id, ": ");
    refusal.append(shown);
    Some(Err(refusal))
}

/// A message acknowledges at most one event.
pub proof fn law_acknowledgement_names_one_event(
    message: JsonView,
    shown: Seq<char>,
    first: Seq<char>,
    second: Seq<char>,
)
    requires
        acknowledgement_of(message, shown, first) is Some,
        acknowledgement_of(message, shown, second) is Some,
    ensures
        first == second,
{
}

/// The identifiers of records.
pub open spec fn record_ids(records: Seq<Event>) -> Seq<Seq<char>> {
    records.map_values(|event: Event| event.id@)
}

/// What an entry of an archive was rebuilt as, by how its record came: the record, and the document
/// that the rebuilt delivery writes as, or why it could not be written.
pub enum Rebuilt {
    /// Signed here: the identifier of the record is known.
    LocallySigned { id: String, document: Result<Json, String> },
    /// Unwrapped: the whole record is known.
    GiftWrap { record: Event, document: Result<Json, String> },
    /// Came over the direct channel, and so is not rebuilt.
    Direct,
}

/// What an entry of an archive was rebuilt as.
#[verifier::ext_equal]
pub enum RebuiltView {
    LocallySigned { id: Seq<char>, document: Result<JsonView, Seq<char>> },
    GiftWrap { record: EventView, document: Result<JsonView, Seq<char>> },
    Direct,
}

impl View for Rebuilt {
    type V = RebuiltView;

    open spec fn view(&self) -> RebuiltView {
        match *self {
            Rebuilt::LocallySigned { id, document } => RebuiltView::LocallySigned {
                id: id@,
                document: told_json(document),
            },
            Rebuilt::GiftWrap { record, document } => RebuiltView::GiftWrap {
                record: record@,
                document: told_json(document),
            },
            Rebuilt::Direct => RebuiltView::Direct,
        }
    }
}

/// The restoring of an archive of deliveries, entry by entry.
pub struct DeliveryRestore {
    /// The identifiers that the entries so far have named.
    pub archive_ids: Vec<String>,
}

/// What an archive reads as before its entries are looked at.
pub open spec fn archive_reading(archive: JsonView, records: Seq<Event>) -> Result<(), Seq<char>> {
    match items_of(Some(archive)) {
        None => Err("funded delivery archive is not an array"@),
        Some(entries) => if entries.len() != records.len() {
            Err("funded delivery archive does not cover every signed record"@)
        } else if !record_ids(records).no_duplicates() {
            Err("funded signed-record set contains a duplicate event ID"@)
        } else {
            Ok(())
        },
    }
}

/// What an archive reads as before its entries are looked at: it holds exactly where every one of
/// these conditions does.
pub proof fn law_archive_holds_by_its_parts(archive: JsonView, records: Seq<Event>)
    ensures
        ({
            let read = archive_reading(archive, records);
            &&& read is Ok <==> {
                &&& items_of(Some(archive)) is Some
                &&& items_of(Some(archive))->0.len() == records.len()
                &&& record_ids(records).no_duplicates()
            }
        }),
{
}

/// A record that an entry of an archive names.
pub struct ArchivedRecord {
    pub place: usize,
    pub observed_at: u64,
    pub provenance: Json,
}

/// What an entry of an archive reads as, after entries that named these identifiers.
pub open spec fn entry_reading(entry: JsonView, named: Seq<Seq<char>>, records: Seq<Event>) -> Result<
    (Seq<char>, u64, JsonView),
    Seq<char>,
> {
    match member_text(entry, "event_id"@) {
        None => Err("funded delivery archive has no event ID"@),
        Some(id) => if named.contains(id) {
            Err("funded delivery archive contains a duplicate event ID"@)
        } else if !record_ids(records).contains(id) {
            Err("funded delivery archive refers outside the session"@)
        } else {
            match u64_of(member(entry, "observed_at"@)) {
                None => Err("funded delivery archive has no observation time"@),
                Some(observed_at) => match member(entry, "provenance"@) {
                    None => Err("funded delivery archive has no provenance"@),
                    Some(provenance) => Ok((id, observed_at, provenance)),
                },
            }
        },
    }
}

/// What an entry of an archive reads as, after entries that named these identifiers: it can be had
/// exactly where every part that it rests on can, and each part of it is the one that its name
/// says.
pub proof fn law_entry_is_read_from_its_parts(
    entry: JsonView,
    named: Seq<Seq<char>>,
    records: Seq<Event>,
)
    ensures
        ({
            let read = entry_reading(entry, named, records);
            let id = member_text(entry, "event_id"@)->0;
            let given = read->Ok_0;
            &&& read is Ok <==> {
                &&& member_text(entry, "event_id"@) is Some
                &&& !(named.contains(id))
                &&& record_ids(records).contains(id)
                &&& u64_of(member(entry, "observed_at"@)) is Some
                &&& member(entry, "provenance"@) is Some
            }
            &&& read is Ok ==> {
                &&& given.0 == id
                &&& given.1 == u64_of(member(entry, "observed_at"@))->0
                &&& given.2 == member(entry, "provenance"@)->0
            }
        }),
{
}

fn all_distinct(records: &Vec<Event>) -> (distinct: bool)
    ensures
        distinct == record_ids(records@).no_duplicates(),
{
    let mut i: usize = 0;
    while i < records.len()
        invariant
            i <= records@.len(),
            forall|a: int, b: int|
                0 <= a < b < i ==> (#[trigger] records@[a]).id@ != (#[trigger] records@[b]).id@,
        decreases records@.len() - i,
    {
        let mut j: usize = 0;
        while j < i
            invariant
                j <= i < records@.len(),
                forall|a: int| 0 <= a < j ==> (#[trigger] records@[a]).id@ != records@[i as int].id@,
            decreases i - j,
        {
            if same_text(records[j].id.as_str(), records[i].id.as_str()) {
                assert(record_ids(records@)[j as int] == record_ids(records@)[i as int]);
                return false;
            }
            j = j + 1;
        }
        i = i + 1;
    }
    assert forall|a: int, b: int| 0 <= a < records@.len() && 0 <= b < records@.len() && a
        != b implies #[trigger] record_ids(records@)[a] != #[trigger] record_ids(records@)[b] by {
        if a < b {
            assert(records@[a].id@ != records@[b].id@);
        } else {
            assert(records@[b].id@ != records@[a].id@);
        }
    }
    true
}

fn find_record(records: &Vec<Event>, id: &str) -> (found: Option<usize>)
    ensures
        match found {
            Some(place) => place < records@.len() && records@[place as int].id@ == id@,
            None => !record_ids(records@).contains(id@),
        },
{
    let mut i: usize = 0;
    while i < records.len()
        invariant
            i <= records@.len(),
            forall|j: int| 0 <= j < i ==> (#[trigger] record_ids(records@)[j]) != id@,
        decreases records@.len() - i,
    {
        if same_text(records[i].id.as_str(), id) {
            return Some(i);
        }
        assert(record_ids(records@)[i as int] == records@[i as int].id@);
        i = i + 1;
    }
    None
}

/// Texts by what they say.
pub open spec fn names(values: Seq<String>) -> Seq<Seq<char>> {
    crate::contract::strings(values)
}

impl DeliveryRestore {
    /// Opens an archive: it has one entry for each record, and the records are distinct.
    pub fn open(archive: &Json, records: &Vec<Event>) -> (restore: Result<DeliveryRestore, String>)
        ensures
            match (restore, archive_reading(archive@, records@)) {
                (Ok(restore), Ok(_)) => names(restore.archive_ids@) == Seq::<Seq<char>>::empty(),
                (Err(message), Err(expected)) => message@ == expected,
                _ => false,
            },
    {
        let entries: &Vec<Json> = match archive.as_array() {
            Some(entries) => entries,
            None => {
                return Err("funded delivery archive is not an array".to_owned());
            },
        };
        proof {
            lemma_items_view(entries@);
        }
        if entries.len() != records.len() {
            return Err("funded delivery archive does not cover every signed record".to_owned());
        }
        if !all_distinct(records) {
            return Err("funded signed-record set contains a duplicate event ID".to_owned());
        }
        let restore: DeliveryRestore = DeliveryRestore { archive_ids: Vec::new() };
        assert(names(restore.archive_ids@) =~= Seq::<Seq<char>>::empty());
        Ok(restore)
    }

    fn has_named(&self, id: &str) -> (named: bool)
        ensures
            named == names(self.archive_ids@).contains(id@),
    {
        let mut i: usize = 0;
        while i < self.archive_ids.len()
            invariant
                i <= self.archive_ids@.len(),
                forall|j: int| 0 <= j < i ==> (#[trigger] names(self.archive_ids@)[j]) != id@,
            decreases self.archive_ids@.len() - i,
        {
            assert(names(self.archive_ids@)[i as int] == self.archive_ids@[i as int]@);
            if same_text(self.archive_ids[i].as_str(), id) {
                return true;
            }
            i = i + 1;
        }
        false
    }

    /// Takes an entry: the record that it names, when it was seen and how it came.
    pub fn take(&mut self, entry: &Json, records: &Vec<Event>) -> (taken: Result<
        ArchivedRecord,
        String,
    >)
        ensures
            match (taken, entry_reading(entry@, names(old(self).archive_ids@), records@)) {
                (Ok(taken), Ok((id, observed_at, provenance))) => {
                    &&& taken.place < records@.len()
                    &&& records@[taken.place as int].id@ == id
                    &&& taken.observed_at == observed_at
                    &&& taken.provenance@ == provenance
                    &&& names(final(self).archive_ids@) == names(old(self).archive_ids@).push(id)
                },
                (Err(message), Err(expected)) => message@ == expected && *final(self) == *old(self),
                _ => false,
            },
    {
        let id: &str = match entry.text_at("event_id") {
            Some(id) => id,
            None => {
                return Err("funded delivery archive has no event ID".to_owned());
            },
        };
        if self.has_named(id) {
            return Err("funded delivery archive contains a duplicate event ID".to_owned());
        }
        let place: usize = match find_record(records, id) {
            Some(place) => place,
            None => {
                return Err("funded delivery archive refers outside the session".to_owned());
            },
        };
        assert(record_ids(records@)[place as int] == id@);
        let observed_at: u64 = match entry.u64_at("observed_at") {
            Some(observed_at) => observed_at,
            None => {
                return Err("funded delivery archive has no observation time".to_owned());
            },
        };
        let provenance: Json = match entry.get("provenance") {
            Some(provenance) => provenance.copy(),
            None => {
                return Err("funded delivery archive has no provenance".to_owned());
            },
        };
        self.archive_ids.push(id.to_owned());
        assert(names(self.archive_ids@) =~= names(old(self).archive_ids@).push(id@));
        Ok(ArchivedRecord { place, observed_at, provenance })
    }

    /// Closes an archive: its entries name exactly the records.
    pub fn close(&self, records: &Vec<Event>) -> (closed: Result<(), String>)
        ensures
            told(closed) == (if names(self.archive_ids@).to_set() == record_ids(records@).to_set() {
                Ok(())
            } else {
                Err("funded delivery archive event IDs differ from the session"@)
            }),
    {
        let ghost ids = names(self.archive_ids@);
        let ghost known = record_ids(records@);
        let mut i: usize = 0;
        while i < records.len()
            invariant
                i <= records@.len(),
                ids == names(self.archive_ids@),
                known == record_ids(records@),
                forall|j: int| 0 <= j < i ==> ids.contains(#[trigger] known[j]),
            decreases records@.len() - i,
        {
            assert(known[i as int] == records@[i as int].id@);
            if !self.has_named(records[i].id.as_str()) {
                proof {
                    assert(known.to_set().contains(known[i as int]));
                    assert(!ids.to_set().contains(known[i as int]));
                }
                return Err("funded delivery archive event IDs differ from the session".to_owned());
            }
            i = i + 1;
        }
        let mut k: usize = 0;
        while k < self.archive_ids.len()
            invariant
                k <= self.archive_ids@.len(),
                ids == names(self.archive_ids@),
                known == record_ids(records@),
                forall|j: int| 0 <= j < k ==> known.contains(#[trigger] ids[j]),
            decreases self.archive_ids@.len() - k,
        {
            assert(ids[k as int] == self.archive_ids@[k as int]@);
            match find_record(records, self.archive_ids[k].as_str()) {
                Some(place) => {
                    assert(known[place as int] == ids[k as int]);
                },
                None => {
                    proof {
                        assert(ids.to_set().contains(ids[k as int]));
                        assert(!known.to_set().contains(ids[k as int]));
                    }
                    return Err(
                        "funded delivery archive event IDs differ from the session".to_owned(),
                    );
                },
            }
            k = k + 1;
        }
        assert(ids.to_set() =~= known.to_set());
        Ok(())
    }
}

/// What a rebuilt document reads as, held against the entry that it was rebuilt from.
pub open spec fn rewritten_reading(document: Result<JsonView, Seq<char>>, entry: JsonView) -> Result<
    (),
    Seq<char>,
> {
    match document {
        Err(message) => Err(message),
        Ok(document) => if document == entry {
            Ok(())
        } else {
            Err("funded delivery archive differs from its reconstructed signed receipt"@)
        },
    }
}

/// What a rebuilt entry reads as, held against the record that the entry names and the entry
/// itself.
pub open spec fn restored_reading(rebuilt: RebuiltView, record: EventView, entry: JsonView) -> Result<
    (),
    Seq<char>,
> {
    match rebuilt {
        RebuiltView::Direct => Err("funded relay archive cannot contain direct provenance"@),
        RebuiltView::LocallySigned { id, document } => if id != record.id {
            Err("local delivery restored another signed record"@)
        } else {
            rewritten_reading(document, entry)
        },
        RebuiltView::GiftWrap { record: restored, document } => if restored != record {
            Err("gift-wrap delivery restored another signed record"@)
        } else {
            rewritten_reading(document, entry)
        },
    }
}

fn check_rewritten(document: &Result<Json, String>, entry: &Json) -> (checked: Result<(), String>)
    ensures
        told(checked) == rewritten_reading(told_json(*document), entry@),
{
    match document {
        Err(message) => Err(message.as_str().to_owned()),
        Ok(document) => if document.same(entry) {
            Ok(())
        } else {
            Err("funded delivery archive differs from its reconstructed signed receipt".to_owned())
        },
    }
}

/// Checks that a delivery could be restored: it is the record that its entry names, and writes as
/// the entry does.
pub fn check_restored_delivery(rebuilt: &Rebuilt, record: &Event, entry: &Json) -> (checked: Result<
    (),
    String,
>)
    ensures
        told(checked) == restored_reading(rebuilt@, record@, entry@),
{
    match rebuilt {
        Rebuilt::Direct => Err("funded relay archive cannot contain direct provenance".to_owned()),
        Rebuilt::LocallySigned { id, document } => {
            if !same_text(id.as_str(), record.id.as_str()) {
                return Err("local delivery restored another signed record".to_owned());
            }
            check_rewritten(document, entry)
        },
        Rebuilt::GiftWrap { record: restored, document } => {
            if !same_event(restored, record) {
                return Err("gift-wrap delivery restored another signed record".to_owned());
            }
            check_rewritten(document, entry)
        },
    }
}

/// What an entry was rebuilt as, or why it could not be.
pub open spec fn rebuilt_view(rebuilt: Result<Rebuilt, String>) -> Result<RebuiltView, Seq<char>> {
    match rebuilt {
        Ok(rebuilt) => Ok(rebuilt@),
        Err(message) => Err(message@),
    }
}

/// What an entry was rebuilt as, or why it could not be: it can be had exactly where every part
/// that it rests on can, and each part of it is the one that its name says.
pub proof fn law_rebuilt_view_is_read_from_its_parts(rebuilt: Result<Rebuilt, String>)
    ensures
        ({
            let read = rebuilt_view(rebuilt);
            let given = read->Ok_0;
            &&& read is Ok <==> {
                &&& rebuilt is Ok
            }
            &&& read is Ok ==> {
                &&& given == rebuilt->Ok_0@
            }
        }),
{
}

/// What the entries were rebuilt as.
pub open spec fn rebuilt_views(rebuilt: Seq<Result<Rebuilt, String>>) -> Seq<
    Result<RebuiltView, Seq<char>>,
> {
    rebuilt.map_values(|one: Result<Rebuilt, String>| rebuilt_view(one))
}

/// Where a record of an identifier stands, where the records have one.
pub open spec fn place_named(records: Seq<Event>, id: Seq<char>) -> int {
    choose|i: int| 0 <= i < records.len() && (#[trigger] records[i]).id@ == id
}

/// The record of an identifier, where the records have it once.
pub open spec fn record_named(records: Seq<Event>, id: Seq<char>) -> EventView {
    records[place_named(records, id)]@
}

/// The identifiers that the entries of an archive name, from one of them on and after those that
/// were named before; or what is wrong with the first entry that is refused.
pub open spec fn entries_reading(
    entries: Seq<JsonView>,
    rebuilt: Seq<Result<RebuiltView, Seq<char>>>,
    records: Seq<Event>,
    named: Seq<Seq<char>>,
    from: int,
) -> Result<Seq<Seq<char>>, Seq<char>>
    decreases entries.len() - from,
{
    if from < 0 || from >= entries.len() {
        Ok(named)
    } else {
        match entry_reading(entries[from], named, records) {
            Err(message) => Err(message),
            Ok((id, observed_at, provenance)) => match rebuilt[from] {
                Err(message) => Err(message),
                Ok(one) => match restored_reading(one, record_named(records, id), entries[from]) {
                    Err(message) => Err(message),
                    Ok(_) => entries_reading(entries, rebuilt, records, named.push(id), from + 1),
                },
            },
        }
    }
}

/// What a whole archive reads as, held against the records of its session and what its entries were
/// rebuilt as.
pub open spec fn deliveries_reading(
    archive: JsonView,
    records: Seq<Event>,
    rebuilt: Seq<Result<RebuiltView, Seq<char>>>,
) -> Result<(), Seq<char>> {
    match archive_reading(archive, records) {
        Err(message) => Err(message),
        Ok(_) => match entries_reading(
            items_of(Some(archive))->0,
            rebuilt,
            records,
            Seq::empty(),
            0,
        ) {
            Err(message) => Err(message),
            Ok(named) => if named.to_set() == record_ids(records).to_set() {
                Ok(())
            } else {
                Err("funded delivery archive event IDs differ from the session"@)
            },
        },
    }
}

/// What a whole archive reads as, held against the records of its session and what its entries were
/// rebuilt as: it holds exactly where every one of these conditions does.
pub proof fn law_deliveries_holds_by_its_parts(
    archive: JsonView,
    records: Seq<Event>,
    rebuilt: Seq<Result<RebuiltView, Seq<char>>>,
)
    ensures
        ({
            let read = deliveries_reading(archive, records, rebuilt);
            &&& read is Ok <==> {
                &&& archive_reading(archive, records) is Ok
                &&& entries_reading(items_of(Some(archive))->0, rebuilt, records, Seq::empty(), 0) is Ok
                &&& entries_reading(
                    items_of(Some(archive))->0,
                    rebuilt,
                    records,
                    Seq::empty(),
                    0,
                )->Ok_0.to_set() == record_ids(records).to_set()
            }
        }),
{
}

/// Checks a whole archive: one entry for each record of the session, each of which was rebuilt as
/// the record that it names and writes as it did. `rebuilt` has what each entry was rebuilt as.
pub fn restore_funded_deliveries(
    archive: &Json,
    records: &Vec<Event>,
    rebuilt: &Vec<Result<Rebuilt, String>>,
) -> (checked: Result<(), String>)
    requires
        items_of(Some(archive@)) is Some ==> rebuilt@.len() == items_of(Some(archive@))->0.len(),
    ensures
        told(checked) == deliveries_reading(archive@, records@, rebuilt_views(rebuilt@)),
{
    let mut restore: DeliveryRestore = DeliveryRestore::open(archive, records)?;
    let entries: &Vec<Json> = match archive.as_array() {
        Some(entries) => entries,
        None => {
            return Err("funded delivery archive is not an array".to_owned());
        },
    };
    let ghost items = items_of(Some(archive@))->0;
    let ghost made = rebuilt_views(rebuilt@);
    proof {
        lemma_items_view(entries@);
    }
    let mut i: usize = 0;
    while i < entries.len()
        invariant
            i <= entries@.len(),
            entries@.len() == items.len(),
            rebuilt@.len() == items.len(),
            items == items_of(Some(archive@))->0,
            archive_reading(archive@, records@) is Ok,
            forall|j: int| 0 <= j < entries@.len() ==> items[j] == (#[trigger] entries@[j])@,
            made == rebuilt_views(rebuilt@),
            record_ids(records@).no_duplicates(),
            entries_reading(items, made, records@, Seq::empty(), 0) == entries_reading(
                items,
                made,
                records@,
                names(restore.archive_ids@),
                i as int,
            ),
        decreases entries@.len() - i,
    {
        assert(items[i as int] == entries@[i as int]@);
        assert(made[i as int] == rebuilt_view(rebuilt@[i as int]));
        let taken: ArchivedRecord = restore.take(&entries[i], records)?;
        let ghost id = records@[taken.place as int].id@;
        proof {
            let found = place_named(records@, id);
            assert(record_ids(records@)[found] == record_ids(records@)[taken.place as int]);
            assert(found == taken.place);
            assert(record_named(records@, id) == records@[taken.place as int]@);
        }
        match &rebuilt[i] {
            Err(message) => {
                return Err(message.as_str().to_owned());
            },
            Ok(one) => {
                check_restored_delivery(one, &records[taken.place], &entries[i])?;
            },
        }
        i = i + 1;
    }
    restore.close(records)
}

/// The identifier that an entry of an archive names.
pub open spec fn entry_id(entry: JsonView) -> Option<Seq<char>> {
    member_text(entry, "event_id"@)
}

/// The document that an entry was rebuilt as.
pub open spec fn rebuilt_document(rebuilt: Result<RebuiltView, Seq<char>>) -> Option<JsonView> {
    match rebuilt {
        Ok(RebuiltView::LocallySigned { document: Ok(document), .. }) => Some(document),
        Ok(RebuiltView::GiftWrap { document: Ok(document), .. }) => Some(document),
        _ => None,
    }
}

/// Whether an entry was rebuilt as the record of the session that it names.
pub open spec fn is_rebuilt_as_named(
    rebuilt: Result<RebuiltView, Seq<char>>,
    record: EventView,
) -> bool {
    match rebuilt {
        Ok(RebuiltView::LocallySigned { id, .. }) => id == record.id,
        Ok(RebuiltView::GiftWrap { record: restored, .. }) => restored == record,
        _ => false,
    }
}

/// Entries that were all accepted are what they were rebuilt as, and name distinct records.
pub proof fn lemma_entries_are_exact(
    entries: Seq<JsonView>,
    rebuilt: Seq<Result<RebuiltView, Seq<char>>>,
    records: Seq<Event>,
    named: Seq<Seq<char>>,
    from: int,
)
    requires
        0 <= from <= entries.len(),
        named.len() == from,
        named.no_duplicates(),
        entries_reading(entries, rebuilt, records, named, from) is Ok,
    ensures
        ({
            let all = entries_reading(entries, rebuilt, records, named, from)->Ok_0;
            &&& all.len() == entries.len()
            &&& all.no_duplicates()
            &&& forall|i: int| 0 <= i < from ==> all[i] == named[i]
            &&& forall|i: int|
                from <= i < entries.len() ==> entry_id(#[trigger] entries[i]) == Some(all[i])
                    && record_ids(records).contains(all[i]) && rebuilt_document(rebuilt[i])
                    == Some(entries[i]) && is_rebuilt_as_named(
                    rebuilt[i],
                    record_named(records, all[i]),
                )
        }),
    decreases entries.len() - from,
{
    if from < entries.len() {
        let id = entry_reading(entries[from], named, records)->Ok_0.0;
        let next = named.push(id);
        assert(next.no_duplicates()) by {
            assert forall|i: int, j: int| 0 <= i < next.len() && 0 <= j < next.len() && i
                != j implies next[i] != next[j] by {
                if i == from {
                    assert(named.contains(named[j]));
                } else if j == from {
                    assert(named.contains(named[i]));
                }
            }
        }
        lemma_entries_are_exact(entries, rebuilt, records, next, from + 1);
        let all = entries_reading(entries, rebuilt, records, next, from + 1)->Ok_0;
        assert(all[from] == next[from]);
        assert forall|i: int| 0 <= i < from implies all[i] == named[i] by {
            assert(all[i] == next[i]);
        }
    }
}

/// An archive that was restored is exactly what its entries were rebuilt as, in their order; its
/// entries name distinct records, each was rebuilt as the record that it names, and together they
/// name the records of the session, which are distinct as well.
pub proof fn law_restored_archive_is_exact(
    archive: JsonView,
    records: Seq<Event>,
    rebuilt: Seq<Result<RebuiltView, Seq<char>>>,
)
    requires
        deliveries_reading(archive, records, rebuilt) is Ok,
    ensures
        archive is Array,
        ({
            let entries = archive->Array_0;
            let ids = entries.map_values(|entry: JsonView| entry_id(entry)->0);
            &&& entries.len() == records.len()
            &&& record_ids(records).no_duplicates()
            &&& ids.no_duplicates()
            &&& ids.to_set() == record_ids(records).to_set()
            &&& forall|i: int|
                0 <= i < entries.len() ==> entry_id(#[trigger] entries[i]) is Some
                    && rebuilt_document(rebuilt[i]) == Some(entries[i]) && is_rebuilt_as_named(
                    rebuilt[i],
                    record_named(records, ids[i]),
                )
        }),
{
    let entries = archive->Array_0;
    let ids = entries.map_values(|entry: JsonView| entry_id(entry)->0);
    let none = Seq::<Seq<char>>::empty();
    lemma_entries_are_exact(entries, rebuilt, records, none, 0);
    let all = entries_reading(entries, rebuilt, records, none, 0)->Ok_0;
    assert(ids =~= all);
}

/// An archive is refused where it leaves a record out, where two of its entries name the same
/// record, and where an entry is not what it was rebuilt as.
pub proof fn law_inexact_archive_is_refused(
    entries: Seq<JsonView>,
    records: Seq<Event>,
    rebuilt: Seq<Result<RebuiltView, Seq<char>>>,
    first: int,
    second: int,
)
    requires
        0 <= first < entries.len(),
        0 <= second < entries.len(),
        entries.len() != records.len() || (first != second && entry_id(entries[first]) == entry_id(
            entries[second],
        )) || rebuilt_document(rebuilt[first]) != Some(entries[first]),
    ensures
        deliveries_reading(JsonView::Array(entries), records, rebuilt) is Err,
{
    if deliveries_reading(JsonView::Array(entries), records, rebuilt) is Ok {
        law_restored_archive_is_exact(JsonView::Array(entries), records, rebuilt);
        let ids = entries.map_values(|entry: JsonView| entry_id(entry)->0);
        assert(ids[first] == entry_id(entries[first])->0);
        assert(ids[second] == entry_id(entries[second])->0);
    }
}

/// An archive whose entries were all taken names each record once.
pub proof fn law_full_archive_names_every_record(named: Seq<Seq<char>>, records: Seq<Event>)
    requires
        named.no_duplicates(),
        named.len() == records.len(),
        record_ids(records).no_duplicates(),
        forall|i: int| 0 <= i < named.len() ==> record_ids(records).contains(#[trigger] named[i]),
    ensures
        named.to_set() == record_ids(records).to_set(),
{
    let known = record_ids(records);
    named.unique_seq_to_set();
    known.unique_seq_to_set();
    assert(named.to_set().subset_of(known.to_set())) by {
        assert forall|id: Seq<char>| named.to_set().contains(id) implies known.to_set().contains(
            id,
        ) by {
            let i = choose|i: int| 0 <= i < named.len() && named[i] == id;
            assert(known.contains(named[i]));
        }
    }
    vstd::set_lib::lemma_subset_equality(named.to_set(), known.to_set());
}

} // verus!
