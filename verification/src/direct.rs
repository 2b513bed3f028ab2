//! The direct recovery channel: what is sent over it and what is taken from it.

use vstd::prelude::*;
use vstd::string::*;
use crate::control::{said, told_json};
use crate::json::{
    Json, JsonObject, JsonView, complete_by, items_of, items_view, lemma_items_view, member,
    members_of, name_views, no_members, text_doc,
};
use crate::contract::strings;
use crate::record::{
    Event, EventTag, RecordKinds, has_only_tag, lemma_filter_empty, lemma_filter_step, tag_values,
};
use crate::terminal::copy_items;
use crate::text::{same_text, told};

verus! {

/// The most bytes that a request over the direct channel may have.
pub const DIRECT_REQUEST_MAX_BYTES: usize = 2_097_152;

/// The most bytes that a response over the direct channel may have.
pub const DOOMSDAY_DIRECT_RECOVERY_MAX_BYTES: usize = 8_388_608;

/// The kind of a sealed record.
pub const GIFT_WRAP_KIND: u16 = 1_059;

/// The records that the requester sends: their own RFQ, contract and statuses.
pub open spec fn is_sent_directly(kinds: RecordKinds, requester: Seq<char>) -> spec_fn(Event) -> bool {
    |record: Event|
        record.pubkey@ == requester && (record.kind == kinds.rfq || record.kind == kinds.contract
            || record.kind == kinds.status)
}

/// The records at some places.
pub open spec fn at_places(records: Seq<Event>, places: Seq<usize>) -> Seq<Event> {
    places.map_values(|place: usize| records[place as int])
}

/// The places of the records that the requester sends, in their order.
pub fn direct_recovery_selection(records: &Vec<Event>, kinds: RecordKinds, requester_pubkey: &str) -> (
places: Vec<usize>)
    ensures
        forall|i: int| 0 <= i < places@.len() ==> #[trigger] places@[i] < records@.len(),
        at_places(records@, places@) == records@.filter(is_sent_directly(kinds, requester_pubkey@)),
{
    let ghost keep = is_sent_directly(kinds, requester_pubkey@);
    let mut places: Vec<usize> = Vec::new();
    let mut i: usize = 0;
    proof {
        lemma_filter_empty(records@, keep);
        assert(at_places(records@, places@) =~= records@.subrange(0, 0).filter(keep));
    }
    while i < records.len()
        invariant
            i <= records@.len(),
            keep == is_sent_directly(kinds, requester_pubkey@),
            forall|j: int| 0 <= j < places@.len() ==> #[trigger] places@[j] < records@.len(),
            at_places(records@, places@) == records@.subrange(0, i as int).filter(keep),
        decreases records@.len() - i,
    {
        let ghost before = places@;
        proof {
            lemma_filter_step(records@, keep, i as int);
        }
        if same_text(records[i].pubkey.as_str(), requester_pubkey) && (records[i].kind == kinds.rfq
            || records[i].kind == kinds.contract || records[i].kind == kinds.status) {
            places.push(i);
            assert(at_places(records@, places@) =~= at_places(records@, before).push(
                records@[i as int],
            ));
        }
        i = i + 1;
    }
    assert(records@.subrange(0, i as int) =~= records@);
    places
}

/// Whether a sealed record is addressed to exactly one party.
pub open spec fn is_sealed_for(wrap: Event, recipient: Seq<char>) -> bool {
    wrap.kind == GIFT_WRAP_KIND && tag_values(wrap.tags@, "p"@) == seq![recipient]
}

/// Checks that a record to be sent is sealed for the provider.
pub fn check_outgoing_wrap(wrap: &Event, provider_pubkey: &str) -> (checked: Result<(), String>)
    ensures
        told(checked) == (if is_sealed_for(*wrap, provider_pubkey@) {
            Ok(())
        } else {
            Err("direct recovery produced a bare or misaddressed record"@)
        }),
{
    if wrap.kind == GIFT_WRAP_KIND && has_only_tag(wrap, "p", provider_pubkey) {
        Ok(())
    } else {
        Err("direct recovery produced a bare or misaddressed record".to_owned())
    }
}

/// Checks that a record that came is sealed for the requester.
pub fn check_incoming_wrap(wrap: &Event, requester_pubkey: &str) -> (checked: Result<(), String>)
    ensures
        told(checked) == (if is_sealed_for(*wrap, requester_pubkey@) {
            Ok(())
        } else {
            Err("direct recovery returned a bare or misaddressed record"@)
        }),
{
    if wrap.kind == GIFT_WRAP_KIND && has_only_tag(wrap, "p", requester_pubkey) {
        Ok(())
    } else {
        Err("direct recovery returned a bare or misaddressed record".to_owned())
    }
}

/// What a request over the direct channel reads as.
pub open spec fn direct_request_reading(wraps: Seq<JsonView>) -> Result<JsonView, Seq<char>> {
    if wraps.len() == 0 || wraps.len() > 32 {
        Err("direct recovery request is empty or exceeds its wrap bound"@)
    } else {
        Ok(
            JsonView::Object(
                no_members().insert(
                    "schema"@,
                    text_doc("openagents.immortal.provider-direct-recovery-request.v1"@),
                ).insert("wraps"@, JsonView::Array(wraps)),
            ),
        )
    }
}

/// What a request over the direct channel reads as: it can be had exactly where every part that it
/// rests on can, and each part of it is the one that its name says.
pub proof fn law_direct_request_is_read_from_its_parts(wraps: Seq<JsonView>)
    ensures
        ({
            let read = direct_request_reading(wraps);
            let given = read->Ok_0;
            &&& read is Ok <==> {
                &&& wraps.len() != 0
                &&& wraps.len() <= 32
            }
            &&& read is Ok ==> {
                &&& given == JsonView::Object(
                    no_members()
                        .insert(
                            "schema"@,
                            text_doc("openagents.immortal.provider-direct-recovery-request.v1"@),
                        )
                        .insert("wraps"@, JsonView::Array(wraps)),
                )
            }
        }),
{
}

/// The document of a request over the direct channel.
pub fn direct_request_document(wraps: Vec<Json>) -> (document: Result<Json, String>)
    ensures
        told_json(document) == direct_request_reading(items_view(wraps@)),
{
    proof {
        lemma_items_view(wraps@);
    }
    if wraps.len() == 0 || wraps.len() > 32 {
        return Err("direct recovery request is empty or exceeds its wrap bound".to_owned());
    }
    Ok(
        Json::object(
            JsonObject::new().with_text(
                "schema",
                "openagents.immortal.provider-direct-recovery-request.v1",
            ).with("wraps", Json::array(wraps)),
        ),
    )
}

/// The four bytes of a length, the most significant first.
pub open spec fn length_prefix(length: nat) -> Seq<u8> {
    seq![
        (length / 0x100_0000) as u8,
        (length / 0x1_0000 % 0x100) as u8,
        (length / 0x100 % 0x100) as u8,
        (length % 0x100) as u8,
    ]
}

/// The length that four bytes stand for, the most significant first.
pub open spec fn prefix_length(prefix: Seq<u8>) -> nat {
    (prefix[0] * 0x100_0000 + prefix[1] * 0x1_0000 + prefix[2] * 0x100 + prefix[3]) as nat
}

/// A request as it goes over the wire: its length and then its bytes.
pub fn frame_direct_request(request: &Vec<u8>) -> (framed: Result<Vec<u8>, String>)
    ensures
        match framed {
            Ok(framed) => request@.len() <= DIRECT_REQUEST_MAX_BYTES && framed@ == length_prefix(
                request@.len(),
            ) + request@,
            Err(message) => request@.len() > DIRECT_REQUEST_MAX_BYTES && message@
                == "direct recovery request exceeds its byte bound"@,
        },
{
    if request.len() > DIRECT_REQUEST_MAX_BYTES {
        return Err("direct recovery request exceeds its byte bound".to_owned());
    }
    let length: usize = request.len();
    let mut framed: Vec<u8> = Vec::new();
    framed.push((length / 0x100_0000) as u8);
    framed.push((length / 0x1_0000 % 0x100) as u8);
    framed.push((length / 0x100 % 0x100) as u8);
    framed.push((length % 0x100) as u8);
    assert(framed@ =~= length_prefix(length as nat));
    let mut i: usize = 0;
    while i < request.len()
        invariant
            i <= request@.len(),
            length == request@.len(),
            framed@ == length_prefix(length as nat) + request@.subrange(0, i as int),
        decreases request@.len() - i,
    {
        framed.push(request[i]);
        assert(framed@ =~= length_prefix(length as nat) + request@.subrange(0, i + 1));
        i = i + 1;
    }
    assert(request@.subrange(0, i as int) =~= request@);
    Ok(framed)
}

/// What the length of a response reads as.
pub open spec fn response_length_reading(prefix: Seq<u8>) -> Result<nat, Seq<char>> {
    let length = prefix_length(prefix);
    if length == 0 || length > DOOMSDAY_DIRECT_RECOVERY_MAX_BYTES {
        Err("direct recovery response is empty or exceeds its bound"@)
    } else {
        Ok(length)
    }
}

/// What the length of a response reads as: it can be had exactly where every part that it rests on
/// can, and each part of it is the one that its name says.
pub proof fn law_response_length_is_read_from_its_parts(prefix: Seq<u8>)
    ensures
        ({
            let read = response_length_reading(prefix);
            let length = prefix_length(prefix);
            let given = read->Ok_0;
            &&& read is Ok <==> {
                &&& length != 0
                &&& length <= DOOMSDAY_DIRECT_RECOVERY_MAX_BYTES
            }
            &&& read is Ok ==> {
                &&& given == length
            }
        }),
{
}

/// The length of the response that follows its four bytes.
pub fn direct_response_length(prefix: [u8; 4]) -> (length: Result<usize, String>)
    ensures
        (match length {
            Ok(length) => Ok(length as nat),
            Err(message) => Err(message@),
        }) == response_length_reading(prefix@),
{
    let length: u64 = prefix[0] as u64 * 0x100_0000 + prefix[1] as u64 * 0x1_0000
        + prefix[2] as u64 * 0x100 + prefix[3] as u64;
    if length == 0 || length > 8_388_608 {
        return Err("direct recovery response is empty or exceeds its bound".to_owned());
    }
    Ok(length as usize)
}

/// A length that is written before a message is read back from its four bytes.
pub proof fn law_length_prefix_reads_back(length: nat)
    requires
        length < 0x1_0000_0000,
    ensures
        prefix_length(length_prefix(length)) == length,
{
}

/// The records that a response carries.
pub open spec fn direct_response_reading(document: JsonView) -> Result<Seq<JsonView>, Seq<char>> {
    match members_of(Some(document)) {
        Some(members) if complete_by(members, seq!["schema"@, "wraps"@]) => if said(
            members,
            "schema"@,
        ) != Some("openagents.immortal.provider-direct-recovery-response.v1"@) {
            Err("direct recovery response schema is unsupported"@)
        } else {
            match items_of(member(JsonView::Object(members), "wraps"@)) {
                Some(wraps) if wraps.len() <= 512 => Ok(wraps),
                _ => Err("direct recovery response wraps exceed their bound"@),
            }
        },
        _ => Err("direct recovery response has unknown or missing members"@),
    }
}

/// The records that a response carries: it can be had exactly where every part that it rests on
/// can, and each part of it is the one that its name says.
pub proof fn law_direct_response_is_read_from_its_parts(document: JsonView)
    ensures
        ({
            let read = direct_response_reading(document);
            let members = members_of(Some(document))->0;
            let wraps = items_of(member(JsonView::Object(members), "wraps"@))->0;
            let given = read->Ok_0;
            &&& read is Ok <==> {
                &&& members_of(Some(document)) is Some
                &&& complete_by(members, seq!["schema"@, "wraps"@])
                &&& said(members, "schema"@) == Some(
                    "openagents.immortal.provider-direct-recovery-response.v1"@,
                )
                &&& items_of(member(JsonView::Object(members), "wraps"@)) is Some
                &&& wraps.len() <= 512
            }
            &&& read is Ok ==> {
                &&& given == wraps
            }
        }),
{
}

/// The records that a response carries, still sealed.
pub fn direct_response_wraps(document: &Json) -> (wraps: Result<Vec<Json>, String>)
    ensures
        (match wraps {
            Ok(wraps) => Ok(items_view(wraps@)),
            Err(message) => Err(message@),
        }) == direct_response_reading(document@),
{
    let names: Vec<&'static str> = vec!["schema", "wraps"];
    assert(name_views(names@) =~= seq!["schema"@, "wraps"@]);
    let members: &JsonObject = match document.as_object() {
        Some(members) => members,
        None => {
            return Err("direct recovery response has unknown or missing members".to_owned());
        },
    };
    if !members.is_complete(&names) {
        return Err("direct recovery response has unknown or missing members".to_owned());
    }
    if !members.says("schema", "openagents.immortal.provider-direct-recovery-response.v1") {
        return Err("direct recovery response schema is unsupported".to_owned());
    }
    let wraps: Option<&Vec<Json>> = match members.get("wraps") {
        Some(value) => value.as_array(),
        None => None,
    };
    match wraps {
        Some(wraps) => {
            proof {
                lemma_items_view(wraps@);
            }
            if wraps.len() <= 512 {
                Ok(copy_items(wraps))
            } else {
                Err("direct recovery response wraps exceed their bound".to_owned())
            }
        },
        None => Err("direct recovery response wraps exceed their bound".to_owned()),
    }
}

/// What a tag is.
#[verifier::ext_equal]
pub struct EventTagView {
    pub name: Seq<char>,
    pub values: Seq<Seq<char>>,
}

/// What a record is.
#[verifier::ext_equal]
pub struct EventView {
    pub id: Seq<char>,
    pub pubkey: Seq<char>,
    pub created_at: u64,
    pub kind: u16,
    pub tags: Seq<EventTagView>,
    pub content: Seq<char>,
    pub sig: Seq<char>,
}

impl View for EventTag {
    type V = EventTagView;

    open spec fn view(&self) -> EventTagView {
        EventTagView { name: self.name@, values: strings(self.values@) }
    }
}

impl View for Event {
    type V = EventView;

    open spec fn view(&self) -> EventView {
        EventView {
            id: self.id@,
            pubkey: self.pubkey@,
            created_at: self.created_at,
            kind: self.kind,
            tags: self.tags@.map_values(|tag: EventTag| tag@),
            content: self.content@,
            sig: self.sig@,
        }
    }
}

fn same_values(left: &Vec<String>, right: &Vec<String>) -> (same: bool)
    ensures
        same == (strings(left@) == strings(right@)),
{
    assert(strings(left@).len() == left@.len());
    assert(strings(right@).len() == right@.len());
    if left.len() != right.len() {
        return false;
    }
    let mut i: usize = 0;
    while i < left.len()
        invariant
            i <= left@.len(),
            left@.len() == right@.len(),
            forall|j: int| 0 <= j < i ==> #[trigger] strings(left@)[j] == strings(right@)[j],
        decreases left@.len() - i,
    {
        assert(strings(left@)[i as int] == left@[i as int]@);
        assert(strings(right@)[i as int] == right@[i as int]@);
        if !same_text(left[i].as_str(), right[i].as_str()) {
            return false;
        }
        i = i + 1;
    }
    assert(strings(left@) =~= strings(right@));
    true
}

/// Whether two records are the same.
pub fn same_event(left: &Event, right: &Event) -> (same: bool)
    ensures
        same == (left@ == right@),
{
    let ghost views = |tag: EventTag| tag@;
    if !same_text(left.id.as_str(), right.id.as_str()) || !same_text(
        left.pubkey.as_str(),
        right.pubkey.as_str(),
    ) || left.created_at != right.created_at || left.kind != right.kind || !same_text(
        left.content.as_str(),
        right.content.as_str(),
    ) || !same_text(left.sig.as_str(), right.sig.as_str()) {
        return false;
    }
    assert(left@.tags.len() == left.tags@.len());
    assert(right@.tags.len() == right.tags@.len());
    if left.tags.len() != right.tags.len() {
        return false;
    }
    let mut i: usize = 0;
    while i < left.tags.len()
        invariant
            i <= left.tags@.len(),
            left.tags@.len() == right.tags@.len(),
            left@.tags.len() == left.tags@.len(),
            right@.tags.len() == right.tags@.len(),
            forall|j: int| 0 <= j < i ==> #[trigger] left@.tags[j] == right@.tags[j],
        decreases left.tags@.len() - i,
    {
        assert(left@.tags[i as int] == left.tags@[i as int]@);
        assert(right@.tags[i as int] == right.tags@[i as int]@);
        if !same_text(left.tags[i].name.as_str(), right.tags[i].name.as_str()) || !same_values(
            &left.tags[i].values,
            &right.tags[i].values,
        ) {
            assert(left@.tags[i as int] != right@.tags[i as int]);
            return false;
        }
        i = i + 1;
    }
    assert(left@.tags =~= right@.tags);
    true
}

/// What becomes of a record that came over the direct channel.
pub enum DirectRecord {
    /// It is handed to the client.
    Ingest,
    /// It is a close, which is held back until the end of each leg has been verified.
    HoldClose,
    /// It is the close that is held back already.
    SameClose,
}

/// What a record that came over the direct channel reads as.
pub open spec fn direct_record_reading(
    record: EventView,
    kinds: RecordKinds,
    provider: Seq<char>,
    pending: Option<EventView>,
) -> Result<DirectRecord, Seq<char>> {
    if record.pubkey != provider {
        Err("direct recovery returned a non-provider record"@)
    } else if record.kind != kinds.close {
        Ok(DirectRecord::Ingest)
    } else {
        match pending {
            None => Ok(DirectRecord::HoldClose),
            Some(existing) => if existing == record {
                Ok(DirectRecord::SameClose)
            } else {
                Err("direct recovery returned conflicting provider Closes"@)
            },
        }
    }
}

/// What a record that came over the direct channel reads as: it can be had exactly where every part
/// that it rests on can, and each part of it is the one that its name says.
pub proof fn law_direct_record_is_read_from_its_parts(
    record: EventView,
    kinds: RecordKinds,
    provider: Seq<char>,
    pending: Option<EventView>,
)
    ensures
        ({
            let read = direct_record_reading(record, kinds, provider, pending);
            let given = read->Ok_0;
            let case_1 = record.kind != kinds.close;
            let case_2 = {
                &&& record.kind == kinds.close
                &&& pending is None
            };
            let case_3 = {
                &&& record.kind == kinds.close
                &&& pending is Some
                &&& pending->0 == record
            };
            &&& read is Ok <==> {
                &&& record.pubkey == provider
                &&& case_1 || case_2 || case_3
            }
            &&& read is Ok && case_1 ==> {
                &&& given == DirectRecord::Ingest
            }
            &&& read is Ok && case_2 ==> {
                &&& given == DirectRecord::HoldClose
            }
            &&& read is Ok && case_3 ==> {
                &&& given == DirectRecord::SameClose
            }
        }),
{
}

/// The close that is held back, where there is one.
pub open spec fn pending_view(pending: Option<Event>) -> Option<EventView> {
    match pending {
        Some(event) => Some(event@),
        None => None,
    }
}

/// What becomes of a record that came over the direct channel.
pub fn take_direct_record(
    record: &Event,
    kinds: RecordKinds,
    provider_pubkey: &str,
    pending: &Option<Event>,
) -> (taken: Result<DirectRecord, String>)
    ensures
        told(taken) == direct_record_reading(
            record@,
            kinds,
            provider_pubkey@,
            pending_view(*pending),
        ),
{
    if !same_text(record.pubkey.as_str(), provider_pubkey) {
        return Err("direct recovery returned a non-provider record".to_owned());
    }
    if record.kind != kinds.close {
        return Ok(DirectRecord::Ingest);
    }
    match pending {
        None => Ok(DirectRecord::HoldClose),
        Some(existing) => if same_event(existing, record) {
            Ok(DirectRecord::SameClose)
        } else {
            Err("direct recovery returned conflicting provider Closes".to_owned())
        },
    }
}

/// What the close that came over the direct channel reads as.
pub open spec fn direct_close_reading(
    pending: Option<Event>,
    provider: Seq<char>,
    outcome: Seq<char>,
) -> Result<(), Seq<char>> {
    match pending {
        None => Err("direct recovery has no provider Close"@),
        Some(close) => if close.pubkey@ == provider && tag_values(close.tags@, "outcome"@) == seq![
            outcome,
        ] {
            Ok(())
        } else {
            Err("direct recovery returned another provider Close"@)
        },
    }
}

/// What the close that came over the direct channel reads as: it holds exactly where every one of
/// these conditions does.
pub proof fn law_direct_close_holds_by_its_parts(
    pending: Option<Event>,
    provider: Seq<char>,
    outcome: Seq<char>,
)
    ensures
        ({
            let read = direct_close_reading(pending, provider, outcome);
            let close = pending->0;
            &&& read is Ok <==> {
                &&& pending is Some
                &&& close.pubkey@ == provider
                &&& tag_values(close.tags@, "outcome"@) == seq![outcome]
            }
        }),
{
}

/// Checks the close that came over the direct channel before its evidence is looked at.
pub fn check_direct_close(pending: &Option<Event>, provider_pubkey: &str, outcome: &str) -> (checked:
    Result<(), String>)
    ensures
        told(checked) == direct_close_reading(*pending, provider_pubkey@, outcome@),
{
    match pending {
        None => Err("direct recovery has no provider Close".to_owned()),
        Some(close) => if same_text(close.pubkey.as_str(), provider_pubkey) && has_only_tag(
            close,
            "outcome",
            outcome,
        ) {
            Ok(())
        } else {
            Err("direct recovery returned another provider Close".to_owned())
        },
    }
}

} // verus!
