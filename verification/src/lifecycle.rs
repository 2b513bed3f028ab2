//! The proof of a swap's life: which records were signed and which transactions settled it.

use vstd::prelude::*;
use vstd::string::*;
use crate::control::{counted, said, told_json};
use crate::hex::{is_lower_hex_32, require_lower_hex_32};
use crate::json::{
    Json, JsonObject, JsonView, member, member_text, name_views, no_members, step, text_doc, text_of,
    texts_doc,
};
use crate::record::{
    Event, RecordKinds, lemma_filter_empty, lemma_filter_step, of_kind, only_record,
    profile_reading, record_profile,
};
use crate::text::{decimal, decimal_text, join3, maybe_str, same_text, told_text};

verus! {

/// A transaction and one of its outputs, as text.
pub open spec fn outpoint_text(transaction_id: Seq<char>, output_index: u32) -> Seq<char> {
    transaction_id + ":"@ + decimal(output_index as nat)
}

/// A transaction and one of its outputs, as text.
pub fn outpoint(transaction_id: &str, output_index: u32) -> (text: String)
    ensures
        text@ == outpoint_text(transaction_id@, output_index),
{
    join3(transaction_id, ":", decimal_text(output_index as u64).as_str())
}

/// What the funding that a provider status reports reads as.
pub open spec fn outpoint_reading(content: Seq<char>) -> Result<(Seq<char>, u32), Seq<char>> {
    match profile_reading(content) {
        Err(message) => Err(message),
        Ok(profile) => match said(profile, "transaction_id"@) {
            None => Err("provider funding Status has no transaction ID"@),
            Some(id) => if !is_lower_hex_32(id) {
                Err("provider funding transaction ID"@ + " is not lowercase 32-byte hex"@)
            } else {
                let index = if profile.dom().contains("output_index"@) {
                    counted(profile, "output_index"@)
                } else {
                    counted(profile, "vout"@)
                };
                match index {
                    Some(index) if index <= u32::MAX => Ok((id, index as u32)),
                    _ => Err("provider funding Status has no output index"@),
                }
            },
        },
    }
}

/// What the funding that a provider status reports reads as: it can be had exactly where every part
/// that it rests on can, and each part of it is the one that its name says.
pub proof fn law_outpoint_is_read_from_its_parts(content: Seq<char>)
    ensures
        ({
            let read = outpoint_reading(content);
            let profile = profile_reading(content)->Ok_0;
            let id = said(profile, "transaction_id"@)->0;
            let index = (
                if profile.dom().contains("output_index"@) {
                    counted(profile, "output_index"@)
                } else { counted(profile, "vout"@) }
            );
            let index_2 = index->0;
            let given = read->Ok_0;
            &&& read is Ok <==> {
                &&& profile_reading(content) is Ok
                &&& said(profile, "transaction_id"@) is Some
                &&& is_lower_hex_32(id)
                &&& index is Some
                &&& index_2 <= u32::MAX
            }
            &&& read is Ok ==> {
                &&& given.0 == id
                &&& given.1 == index_2 as u32
            }
        }),
{
}

/// The transaction and output that a provider status reports as funding.
pub fn status_outpoint(status: &Event) -> (found: Result<(String, u32), String>)
    ensures
        (match found {
            Ok((id, index)) => Ok((id@, index)),
            Err(message) => Err(message@),
        }) == outpoint_reading(status.content@),
{
    let profile: JsonObject = record_profile(status)?;
    let id: &str = match profile.text_at("transaction_id") {
        Some(id) => id,
        None => {
            return Err("provider funding Status has no transaction ID".to_owned());
        },
    };
    require_lower_hex_32(id, "provider funding transaction ID")?;
    let index: Option<u64> = if profile.contains_key("output_index") {
        profile.u64_at("output_index")
    } else {
        profile.u64_at("vout")
    };
    match index {
        Some(index) if index <= 0xffff_ffff => Ok((id.to_owned(), index as u32)),
        _ => Err("provider funding Status has no output index".to_owned()),
    }
}

/// What the settlement that a provider status reports reads as.
pub open spec fn transaction_reading(content: Seq<char>) -> Result<Seq<char>, Seq<char>> {
    match profile_reading(content) {
        Err(message) => Err(message),
        Ok(profile) => match said(profile, "transaction_id"@) {
            None => Err("provider settlement Status has no transaction ID"@),
            Some(id) => if is_lower_hex_32(id) {
                Ok(id)
            } else {
                Err("provider settlement transaction ID"@ + " is not lowercase 32-byte hex"@)
            },
        },
    }
}

/// What the settlement that a provider status reports reads as: it can be had exactly where every
/// part that it rests on can, and each part of it is the one that its name says.
pub proof fn law_transaction_is_read_from_its_parts(content: Seq<char>)
    ensures
        ({
            let read = transaction_reading(content);
            let profile = profile_reading(content)->Ok_0;
            let id = said(profile, "transaction_id"@)->0;
            let given = read->Ok_0;
            &&& read is Ok <==> {
                &&& profile_reading(content) is Ok
                &&& said(profile, "transaction_id"@) is Some
                &&& is_lower_hex_32(id)
            }
            &&& read is Ok ==> {
                &&& given == id
            }
        }),
{
}

/// The transaction that a provider status reports as settlement.
pub fn status_transaction_id(status: &Event) -> (found: Result<String, String>)
    ensures
        told_text(found) == transaction_reading(status.content@),
{
    let profile: JsonObject = record_profile(status)?;
    match profile.text_at("transaction_id") {
        None => Err("provider settlement Status has no transaction ID".to_owned()),
        Some(id) => {
            require_lower_hex_32(id, "provider settlement transaction ID")?;
            Ok(id.to_owned())
        },
    }
}

/// The identifiers of records.
pub open spec fn ids_of(records: Seq<Event>) -> Seq<Seq<char>> {
    records.map_values(|event: Event| event.id@)
}

/// The identifiers of the status records, in their order.
pub open spec fn status_ids(records: Seq<Event>, kind: u16) -> Seq<Seq<char>> {
    ids_of(records.filter(of_kind(kind, None)))
}

fn collect_status_ids<'a>(records: &'a Vec<Event>, kind: u16) -> (ids: Vec<&'a str>)
    ensures
        name_views(ids@) == status_ids(records@, kind),
{
    let ghost keep = of_kind(kind, None);
    let mut ids: Vec<&'a str> = Vec::new();
    let mut i: usize = 0;
    proof {
        lemma_filter_empty(records@, keep);
        assert(name_views(ids@) =~= ids_of(records@.subrange(0, 0).filter(keep)));
    }
    while i < records.len()
        invariant
            i <= records@.len(),
            keep == of_kind(kind, None),
            name_views(ids@) == ids_of(records@.subrange(0, i as int).filter(keep)),
        decreases records@.len() - i,
    {
        let ghost before = ids@;
        let ghost kept = records@.subrange(0, i as int).filter(keep);
        proof {
            lemma_filter_step(records@, keep, i as int);
        }
        if records[i].kind == kind {
            ids.push(records[i].id.as_str());
            assert(name_views(ids@) =~= name_views(before).push(records@[i as int].id@));
            assert(ids_of(kept.push(records@[i as int])) =~= ids_of(kept).push(
                records@[i as int].id@,
            ));
        }
        i = i + 1;
    }
    assert(records@.subrange(0, i as int) =~= records@);
    ids
}

/// What the only record of a kind reads as in a proof.
pub open spec fn only_reading(
    records: Seq<Event>,
    kind: u16,
    author: Option<Seq<char>>,
    proof_name: Seq<char>,
    label: Seq<char>,
) -> Result<Seq<char>, Seq<char>> {
    let found = records.filter(of_kind(kind, author));
    if found.len() == 1 {
        Ok(found[0].id@)
    } else {
        Err(proof_name + " lifecycle does not contain exactly one "@ + label)
    }
}

/// What the only record of a kind reads as in a proof: it can be had exactly where every part that
/// it rests on can, and each part of it is the one that its name says.
pub proof fn law_only_is_read_from_its_parts(
    records: Seq<Event>,
    kind: u16,
    author: Option<Seq<char>>,
    proof_name: Seq<char>,
    label: Seq<char>,
)
    ensures
        ({
            let read = only_reading(records, kind, author, proof_name, label);
            let found = records.filter(of_kind(kind, author));
            let given = read->Ok_0;
            &&& read is Ok <==> {
                &&& found.len() == 1
            }
            &&& read is Ok ==> {
                &&& given == found[0].id@
            }
        }),
{
}

fn exactly_one<'a>(
    records: &'a Vec<Event>,
    kind: u16,
    author: Option<&str>,
    proof_name: &str,
    label: &str,
) -> (id: Result<&'a str, String>)
    ensures
        (match id {
            Ok(id) => Ok(id@),
            Err(message) => Err(message@),
        }) == only_reading(records@, kind, maybe_str(author), proof_name@, label@),
{
    match only_record(records, kind, author) {
        Some(event) => Ok(event.id.as_str()),
        None => Err(join3(proof_name, " lifecycle does not contain exactly one ", label)),
    }
}

/// The first record of a kind.
pub open spec fn first_of_kind(records: Seq<Event>, kind: u16) -> Option<Event>
    decreases records.len(),
{
    if records.len() == 0 {
        None
    } else if records[0].kind == kind {
        Some(records[0])
    } else {
        first_of_kind(records.drop_first(), kind)
    }
}

proof fn lemma_first_of_kind(records: Seq<Event>, kind: u16, place: int)
    requires
        0 <= place <= records.len(),
        forall|j: int| 0 <= j < place ==> (#[trigger] records[j]).kind != kind,
        place < records.len() ==> records[place].kind == kind,
    ensures
        first_of_kind(records, kind) == (if place < records.len() {
            Some(records[place])
        } else {
            None
        }),
    decreases place,
{
    if place > 0 {
        assert(records[0].kind != kind);
        let rest = records.drop_first();
        assert forall|j: int| 0 <= j < place - 1 implies (#[trigger] rest[j]).kind != kind by {
            assert(records[j + 1].kind != kind);
        }
        lemma_first_of_kind(rest, kind, place - 1);
    }
}

/// The first record of a kind.
pub fn find_kind<'a>(records: &'a Vec<Event>, kind: u16) -> (found: Option<&'a Event>)
    ensures
        match found {
            Some(event) => first_of_kind(records@, kind) == Some(*event),
            None => first_of_kind(records@, kind) is None,
        },
{
    let mut i: usize = 0;
    while i < records.len()
        invariant
            i <= records@.len(),
            forall|j: int| 0 <= j < i ==> (#[trigger] records@[j]).kind != kind,
        decreases records@.len() - i,
    {
        if records[i].kind == kind {
            proof {
                lemma_first_of_kind(records@, kind, i as int);
            }
            return Some(&records[i]);
        }
        i = i + 1;
    }
    proof {
        lemma_first_of_kind(records@, kind, i as int);
    }
    None
}

/// The identifiers that a lifecycle proof lists.
pub open spec fn lifecycle_doc(
    offering_id: Seq<char>,
    rfq_id: Seq<char>,
    quote_id: Seq<char>,
    order_id: Seq<char>,
    requester_contract_id: Seq<char>,
    provider_contract_id: Seq<char>,
    statuses: Seq<Seq<char>>,
    close: JsonView,
) -> JsonView {
    JsonView::Object(
        no_members().insert("offering_id"@, text_doc(offering_id)).insert(
            "rfq_id"@,
            text_doc(rfq_id),
        ).insert("quote_id"@, text_doc(quote_id)).insert("order_id"@, text_doc(order_id)).insert(
            "requester_contract_id"@,
            text_doc(requester_contract_id),
        ).insert("provider_contract_id"@, text_doc(provider_contract_id)).insert(
            "status_ids"@,
            texts_doc(statuses),
        ).insert("close_id"@, close),
    )
}

/// The identifiers that a lifecycle proof lists: what stands under each of its names.
pub proof fn law_lifecycle_says_each_part_by_its_name(
    offering_id: Seq<char>,
    rfq_id: Seq<char>,
    quote_id: Seq<char>,
    order_id: Seq<char>,
    requester_contract_id: Seq<char>,
    provider_contract_id: Seq<char>,
    statuses: Seq<Seq<char>>,
    close: JsonView,
)
    ensures
        ({
            let document = lifecycle_doc(
                offering_id,
                rfq_id,
                quote_id,
                order_id,
                requester_contract_id,
                provider_contract_id,
                statuses,
                close,
            );
            &&& member_text(document, "offering_id"@) == Some(offering_id)
            &&& member_text(document, "rfq_id"@) == Some(rfq_id)
            &&& member_text(document, "quote_id"@) == Some(quote_id)
            &&& member_text(document, "order_id"@) == Some(order_id)
            &&& member_text(document, "requester_contract_id"@) == Some(requester_contract_id)
            &&& member_text(document, "provider_contract_id"@) == Some(provider_contract_id)
            &&& member(document, "status_ids"@) == Some(texts_doc(statuses))
            &&& member(document, "close_id"@) == Some(close)
        }),
{
    reveal_strlit("offering_id");
    reveal_strlit("rfq_id");
    reveal_strlit("quote_id");
    reveal_strlit("order_id");
    reveal_strlit("requester_contract_id");
    reveal_strlit("provider_contract_id");
    reveal_strlit("status_ids");
    reveal_strlit("close_id");
    assert("offering_id"@.len() == 11);
    assert("rfq_id"@.len() == 6);
    assert("quote_id"@.len() == 8);
    assert("order_id"@.len() == 8);
    assert("requester_contract_id"@.len() == 21);
    assert("provider_contract_id"@.len() == 20);
    assert("status_ids"@.len() == 10);
    assert("close_id"@.len() == 8);
    assert("quote_id"@[0] == 'q');
    assert("order_id"@[0] == 'o');
    assert("close_id"@[0] == 'c');
}

/// What the lifecycle of a chain swap reads as.
pub open spec fn chain_lifecycle_reading(
    records: Seq<Event>,
    kinds: RecordKinds,
    offering_id: Seq<char>,
    offering_author: Seq<char>,
    close_id: Seq<char>,
) -> Result<JsonView, Seq<char>> {
    let proof_name = "chain"@;
    match only_reading(records, kinds.rfq, None, proof_name, "RFQ"@) {
        Err(message) => Err(message),
        Ok(rfq_id) => match only_reading(records, kinds.quote, None, proof_name, "Quote"@) {
            Err(message) => Err(message),
            Ok(quote_id) => match only_reading(records, kinds.order, None, proof_name, "Order"@) {
                Err(message) => Err(message),
                Ok(order_id) => match first_of_kind(records, kinds.rfq) {
                    None => Err("chain lifecycle has no RFQ author"@),
                    Some(rfq) => match only_reading(
                        records,
                        kinds.contract,
                        Some(rfq.pubkey@),
                        proof_name,
                        "requester Contract"@,
                    ) {
                        Err(message) => Err(message),
                        Ok(requester_contract_id) => match only_reading(
                            records,
                            kinds.contract,
                            Some(offering_author),
                            proof_name,
                            "provider Contract"@,
                        ) {
                            Err(message) => Err(message),
                            Ok(provider_contract_id) => if status_ids(records, kinds.status).len()
                                < 2 {
                                Err("chain lifecycle has no signed Status progression"@)
                            } else {
                                Ok(
                                    lifecycle_doc(
                                        offering_id,
                                        rfq_id,
                                        quote_id,
                                        order_id,
                                        requester_contract_id,
                                        provider_contract_id,
                                        status_ids(records, kinds.status),
                                        text_doc(close_id),
                                    ),
                                )
                            },
                        },
                    },
                },
            },
        },
    }
}

/// What the lifecycle of a chain swap reads as: it can be had exactly where every part that it
/// rests on can, and each part of it is the one that its name says.
pub proof fn law_chain_lifecycle_is_read_from_its_parts(
    records: Seq<Event>,
    kinds: RecordKinds,
    offering_id: Seq<char>,
    offering_author: Seq<char>,
    close_id: Seq<char>,
)
    ensures
        ({
            let read = chain_lifecycle_reading(
                records,
                kinds,
                offering_id,
                offering_author,
                close_id,
            );
            let proof_name = "chain"@;
            let rfq = first_of_kind(records, kinds.rfq)->0;
            let given = read->Ok_0;
            &&& read is Ok <==> {
                &&& only_reading(records, kinds.rfq, None, proof_name, "RFQ"@) is Ok
                &&& only_reading(records, kinds.quote, None, proof_name, "Quote"@) is Ok
                &&& only_reading(records, kinds.order, None, proof_name, "Order"@) is Ok
                &&& first_of_kind(records, kinds.rfq) is Some
                &&& only_reading(
                    records,
                    kinds.contract,
                    Some(rfq.pubkey@),
                    proof_name,
                    "requester Contract"@,
                ) is Ok
                &&& only_reading(
                    records,
                    kinds.contract,
                    Some(offering_author),
                    proof_name,
                    "provider Contract"@,
                ) is Ok
                &&& status_ids(records, kinds.status).len() >= 2
            }
            &&& read is Ok ==> {
                &&& given == lifecycle_doc(
                    offering_id,
                    only_reading(records, kinds.rfq, None, proof_name, "RFQ"@)->Ok_0,
                    only_reading(records, kinds.quote, None, proof_name, "Quote"@)->Ok_0,
                    only_reading(records, kinds.order, None, proof_name, "Order"@)->Ok_0,
                    only_reading(
                        records,
                        kinds.contract,
                        Some(rfq.pubkey@),
                        proof_name,
                        "requester Contract"@,
                    )->Ok_0,
                    only_reading(
                        records,
                        kinds.contract,
                        Some(offering_author),
                        proof_name,
                        "provider Contract"@,
                    )->Ok_0,
                    status_ids(records, kinds.status),
                    text_doc(close_id),
                )
            }
        }),
{
}

/// The identifiers of the records that a chain swap went through.
pub fn chain_lifecycle_event_ids(
    records: &Vec<Event>,
    kinds: RecordKinds,
    offering_id: &str,
    offering_author: &str,
    close_id: &str,
) -> (ids: Result<Json, String>)
    ensures
        told_json(ids) == chain_lifecycle_reading(
            records@,
            kinds,
            offering_id@,
            offering_author@,
            close_id@,
        ),
{
    let rfq_id: &str = exactly_one(records, kinds.rfq, None, "chain", "RFQ")?;
    let quote_id: &str = exactly_one(records, kinds.quote, None, "chain", "Quote")?;
    let order_id: &str = exactly_one(records, kinds.order, None, "chain", "Order")?;
    let rfq: &Event = match find_kind(records, kinds.rfq) {
        Some(rfq) => rfq,
        None => {
            return Err("chain lifecycle has no RFQ author".to_owned());
        },
    };
    let requester_contract_id: &str = exactly_one(
        records,
        kinds.contract,
        Some(rfq.pubkey.as_str()),
        "chain",
        "requester Contract",
    )?;
    let provider_contract_id: &str = exactly_one(
        records,
        kinds.contract,
        Some(offering_author),
        "chain",
        "provider Contract",
    )?;
    let statuses: Vec<&str> = collect_status_ids(records, kinds.status);
    assert(name_views(statuses@).len() == statuses@.len());
    if statuses.len() < 2 {
        return Err("chain lifecycle has no signed Status progression".to_owned());
    }
    Ok(
        Json::object(
            JsonObject::new().with_text("offering_id", offering_id).with_text(
                "rfq_id",
                rfq_id,
            ).with_text("quote_id", quote_id).with_text("order_id", order_id).with_text(
                "requester_contract_id",
                requester_contract_id,
            ).with_text("provider_contract_id", provider_contract_id).with(
                "status_ids",
                Json::texts(&statuses),
            ).with_text("close_id", close_id),
        ),
    )
}

/// What the lifecycle of a Liquid swap reads as.
pub open spec fn liquid_lifecycle_reading(
    records: Seq<Event>,
    kinds: RecordKinds,
    offering_id: Seq<char>,
    close_id: Option<Seq<char>>,
) -> Result<JsonView, Seq<char>> {
    let proof_name = "Liquid"@;
    let quote_author = match first_of_kind(records, kinds.quote) {
        Some(quote) => Some(quote.pubkey@),
        None => None,
    };
    if !is_lower_hex_32(offering_id) {
        Err("Liquid lifecycle Offering ID"@ + " is not lowercase 32-byte hex"@)
    } else if close_id is Some && !is_lower_hex_32(close_id->0) {
        Err("Liquid lifecycle Close ID"@ + " is not lowercase 32-byte hex"@)
    } else {
        match first_of_kind(records, kinds.rfq) {
            None => Err("Liquid lifecycle has no RFQ"@),
            Some(rfq) => if status_ids(records, kinds.status).len() == 0 {
                Err("Liquid lifecycle has no signed Status"@)
            } else {
                match only_reading(records, kinds.quote, None, proof_name, "Quote"@) {
                    Err(message) => Err(message),
                    Ok(quote_id) => match only_reading(
                        records,
                        kinds.order,
                        None,
                        proof_name,
                        "Order"@,
                    ) {
                        Err(message) => Err(message),
                        Ok(order_id) => match only_reading(
                            records,
                            kinds.contract,
                            Some(rfq.pubkey@),
                            proof_name,
                            "requester Contract"@,
                        ) {
                            Err(message) => Err(message),
                            Ok(requester_contract_id) => match only_reading(
                                records,
                                kinds.contract,
                                quote_author,
                                proof_name,
                                "provider Contract"@,
                            ) {
                                Err(message) => Err(message),
                                Ok(provider_contract_id) => Ok(
                                    lifecycle_doc(
                                        offering_id,
                                        rfq.id@,
                                        quote_id,
                                        order_id,
                                        requester_contract_id,
                                        provider_contract_id,
                                        status_ids(records, kinds.status),
                                        match close_id {
                                            Some(close_id) => text_doc(close_id),
                                            None => JsonView::Null,
                                        },
                                    ),
                                ),
                            },
                        },
                    },
                }
            },
        }
    }
}

/// What the lifecycle of a Liquid swap reads as: it can be had exactly where every part that it
/// rests on can, and each part of it is the one that its name says.
pub proof fn law_liquid_lifecycle_is_read_from_its_parts(
    records: Seq<Event>,
    kinds: RecordKinds,
    offering_id: Seq<char>,
    close_id: Option<Seq<char>>,
)
    ensures
        ({
            let read = liquid_lifecycle_reading(records, kinds, offering_id, close_id);
            let proof_name = "Liquid"@;
            let quote_author = (
                match first_of_kind(records, kinds.quote) {
                    Some(quote) => Some(quote.pubkey@), None => None,
                }
            );
            let rfq = first_of_kind(records, kinds.rfq)->0;
            let given = read->Ok_0;
            &&& read is Ok <==> {
                &&& is_lower_hex_32(offering_id)
                &&& !(close_id is Some && !is_lower_hex_32(close_id->0))
                &&& first_of_kind(records, kinds.rfq) is Some
                &&& status_ids(records, kinds.status).len() != 0
                &&& only_reading(records, kinds.quote, None, proof_name, "Quote"@) is Ok
                &&& only_reading(records, kinds.order, None, proof_name, "Order"@) is Ok
                &&& only_reading(
                    records,
                    kinds.contract,
                    Some(rfq.pubkey@),
                    proof_name,
                    "requester Contract"@,
                ) is Ok
                &&& only_reading(
                    records,
                    kinds.contract,
                    quote_author,
                    proof_name,
                    "provider Contract"@,
                ) is Ok
            }
            &&& read is Ok ==> {
                &&& given == lifecycle_doc(
                    offering_id,
                    rfq.id@,
                    only_reading(records, kinds.quote, None, proof_name, "Quote"@)->Ok_0,
                    only_reading(records, kinds.order, None, proof_name, "Order"@)->Ok_0,
                    only_reading(
                        records,
                        kinds.contract,
                        Some(rfq.pubkey@),
                        proof_name,
                        "requester Contract"@,
                    )->Ok_0,
                    only_reading(
                        records,
                        kinds.contract,
                        quote_author,
                        proof_name,
                        "provider Contract"@,
                    )->Ok_0,
                    status_ids(records, kinds.status),
                    match close_id {
                        Some(close_id) => text_doc(close_id), None => JsonView::Null,
                    },
                )
            }
        }),
{
}

/// The identifiers of the records that a Liquid swap went through.
pub fn liquid_lifecycle_event_ids(
    records: &Vec<Event>,
    kinds: RecordKinds,
    offering_id: &str,
    close_id: Option<&str>,
) -> (ids: Result<Json, String>)
    ensures
        told_json(ids) == liquid_lifecycle_reading(
            records@,
            kinds,
            offering_id@,
            maybe_str(close_id),
        ),
{
    require_lower_hex_32(offering_id, "Liquid lifecycle Offering ID")?;
    if let Some(close_id) = close_id {
        require_lower_hex_32(close_id, "Liquid lifecycle Close ID")?;
    }
    let rfq: &Event = match find_kind(records, kinds.rfq) {
        Some(rfq) => rfq,
        None => {
            return Err("Liquid lifecycle has no RFQ".to_owned());
        },
    };
    let statuses: Vec<&str> = collect_status_ids(records, kinds.status);
    assert(name_views(statuses@).len() == statuses@.len());
    if statuses.len() == 0 {
        return Err("Liquid lifecycle has no signed Status".to_owned());
    }
    let quote_id: &str = exactly_one(records, kinds.quote, None, "Liquid", "Quote")?;
    let order_id: &str = exactly_one(records, kinds.order, None, "Liquid", "Order")?;
    let requester_contract_id: &str = exactly_one(
        records,
        kinds.contract,
        Some(rfq.pubkey.as_str()),
        "Liquid",
        "requester Contract",
    )?;
    let quote_author: Option<&str> = match find_kind(records, kinds.quote) {
        Some(quote) => Some(quote.pubkey.as_str()),
        None => None,
    };
    let provider_contract_id: &str = exactly_one(
        records,
        kinds.contract,
        quote_author,
        "Liquid",
        "provider Contract",
    )?;
    let close: Json = match close_id {
        Some(close_id) => Json::text(close_id),
        None => Json::null(),
    };
    Ok(
        Json::object(
            JsonObject::new().with_text("offering_id", offering_id).with_text(
                "rfq_id",
                rfq.id.as_str(),
            ).with_text("quote_id", quote_id).with_text("order_id", order_id).with_text(
                "requester_contract_id",
                requester_contract_id,
            ).with_text("provider_contract_id", provider_contract_id).with(
                "status_ids",
                Json::texts(&statuses),
            ).with("close_id", close),
        ),
    )
}

/// The nodes of a rail that have seen a transaction.
pub open spec fn nodes_doc(rail: Seq<char>, transaction_id: Seq<char>) -> JsonView {
    JsonView::Object(
        if rail == "bitcoin"@ {
            no_members().insert("bitcoind-a"@, text_doc(transaction_id)).insert(
                "bitcoind-b"@,
                text_doc(transaction_id),
            )
        } else if rail == "liquid"@ {
            no_members().insert("elementsd-provider-a"@, text_doc(transaction_id)).insert(
                "elementsd-provider-b"@,
                text_doc(transaction_id),
            ).insert("elementsd-wallet"@, text_doc(transaction_id))
        } else {
            no_members()
        },
    )
}

fn nodes_of_rail(rail: &str, transaction_id: &str) -> (nodes: Json)
    ensures
        nodes@ == nodes_doc(rail@, transaction_id@),
{
    if same_text(rail, "bitcoin") {
        Json::object(
            JsonObject::new().with_text("bitcoind-a", transaction_id).with_text(
                "bitcoind-b",
                transaction_id,
            ),
        )
    } else if same_text(rail, "liquid") {
        Json::object(
            JsonObject::new().with_text("elementsd-provider-a", transaction_id).with_text(
                "elementsd-provider-b",
                transaction_id,
            ).with_text("elementsd-wallet", transaction_id),
        )
    } else {
        Json::object(JsonObject::new())
    }
}

/// The proof that a leg was locked by one transaction and left by another that spends it.
pub open spec fn leg_proof_doc(
    rail: Seq<char>,
    funding_id: Seq<char>,
    funding_output: u32,
    funding_hex: Seq<char>,
    exit_id: Seq<char>,
    exit_hex: Seq<char>,
) -> JsonView {
    JsonView::Object(
        no_members().insert(
            "lockup"@,
            JsonView::Object(
                no_members().insert("transaction_hex"@, text_doc(funding_hex)).insert(
                    "transaction_id"@,
                    text_doc(funding_id),
                ).insert("outpoint"@, text_doc(outpoint_text(funding_id, funding_output))).insert(
                    "node_transaction_ids"@,
                    nodes_doc(rail, funding_id),
                ).insert("exact_node_byte_equality"@, JsonView::Bool(true)),
            ),
        ).insert(
            "exit"@,
            JsonView::Object(
                no_members().insert("transaction_hex"@, text_doc(exit_hex)).insert(
                    "transaction_id"@,
                    text_doc(exit_id),
                ).insert(
                    "spends_outpoint"@,
                    text_doc(outpoint_text(funding_id, funding_output)),
                ).insert("node_transaction_ids"@, nodes_doc(rail, exit_id)).insert(
                    "exact_node_byte_equality"@,
                    JsonView::Bool(true),
                ),
            ),
        ),
    )
}

/// The proof that a leg was locked by one transaction and left by another that spends it: what
/// stands under each of its names.
pub proof fn law_leg_proof_says_each_part_by_its_name(
    rail: Seq<char>,
    funding_id: Seq<char>,
    funding_output: u32,
    funding_hex: Seq<char>,
    exit_id: Seq<char>,
    exit_hex: Seq<char>,
)
    ensures
        ({
            let document = leg_proof_doc(
                rail,
                funding_id,
                funding_output,
                funding_hex,
                exit_id,
                exit_hex,
            );
            &&& member(document, "lockup"@) == Some(
                JsonView::Object(
                    no_members()
                        .insert("transaction_hex"@, text_doc(funding_hex))
                        .insert("transaction_id"@, text_doc(funding_id))
                        .insert("outpoint"@, text_doc(outpoint_text(funding_id, funding_output)))
                        .insert("node_transaction_ids"@, nodes_doc(rail, funding_id))
                        .insert("exact_node_byte_equality"@, JsonView::Bool(true)),
                ),
            )
            &&& member(document, "exit"@) == Some(
                JsonView::Object(
                    no_members()
                        .insert("transaction_hex"@, text_doc(exit_hex))
                        .insert("transaction_id"@, text_doc(exit_id))
                        .insert(
                            "spends_outpoint"@,
                            text_doc(outpoint_text(funding_id, funding_output)),
                        )
                        .insert("node_transaction_ids"@, nodes_doc(rail, exit_id))
                        .insert("exact_node_byte_equality"@, JsonView::Bool(true)),
                ),
            )
        }),
{
    reveal_strlit("lockup");
    reveal_strlit("exit");
    assert("lockup"@.len() == 6);
    assert("exit"@.len() == 4);
}

/// The proof that a leg was locked by one transaction and left by another that spends it.
pub fn chain_leg_process_proof(
    rail: &str,
    funding_transaction_id: &str,
    funding_output_index: u32,
    funding_transaction_hex: &str,
    exit_transaction_id: &str,
    exit_transaction_hex: &str,
) -> (proven: Json)
    ensures
        proven@ == leg_proof_doc(
            rail@,
            funding_transaction_id@,
            funding_output_index,
            funding_transaction_hex@,
            exit_transaction_id@,
            exit_transaction_hex@,
        ),
{
    let spent: String = outpoint(funding_transaction_id, funding_output_index);
    let lockup: JsonObject = JsonObject::new().with_text(
        "transaction_hex",
        funding_transaction_hex,
    ).with_text("transaction_id", funding_transaction_id).with_text(
        "outpoint",
        spent.as_str(),
    ).with("node_transaction_ids", nodes_of_rail(rail, funding_transaction_id)).with_bool(
        "exact_node_byte_equality",
        true,
    );
    let exit: JsonObject = JsonObject::new().with_text(
        "transaction_hex",
        exit_transaction_hex,
    ).with_text("transaction_id", exit_transaction_id).with_text(
        "spends_outpoint",
        spent.as_str(),
    ).with("node_transaction_ids", nodes_of_rail(rail, exit_transaction_id)).with_bool(
        "exact_node_byte_equality",
        true,
    );
    Json::object(
        JsonObject::new().with("lockup", Json::object(lockup)).with("exit", Json::object(exit)),
    )
}

/// The proof of a leg is of one outpoint: the exit spends the very output that the lockup names, and
/// each half names its own transaction, bytes and nodes.
pub proof fn law_leg_proof_is_of_one_outpoint(
    rail: Seq<char>,
    funding_id: Seq<char>,
    funding_output: u32,
    funding_hex: Seq<char>,
    exit_id: Seq<char>,
    exit_hex: Seq<char>,
)
    ensures
        ({
            let proof_doc = leg_proof_doc(
                rail,
                funding_id,
                funding_output,
                funding_hex,
                exit_id,
                exit_hex,
            );
            let lockup = member(proof_doc, "lockup"@);
            let exit = member(proof_doc, "exit"@);
            &&& text_of(step(exit, "spends_outpoint"@)) == text_of(step(lockup, "outpoint"@))
            &&& text_of(step(lockup, "outpoint"@)) == Some(
                outpoint_text(funding_id, funding_output),
            )
            &&& text_of(step(lockup, "transaction_id"@)) == Some(funding_id)
            &&& text_of(step(lockup, "transaction_hex"@)) == Some(funding_hex)
            &&& step(lockup, "node_transaction_ids"@) == Some(nodes_doc(rail, funding_id))
            &&& text_of(step(exit, "transaction_id"@)) == Some(exit_id)
            &&& text_of(step(exit, "transaction_hex"@)) == Some(exit_hex)
            &&& step(exit, "node_transaction_ids"@) == Some(nodes_doc(rail, exit_id))
        }),
{
    reveal_strlit("lockup");
    reveal_strlit("exit");
    reveal_strlit("transaction_hex");
    reveal_strlit("transaction_id");
    reveal_strlit("outpoint");
    reveal_strlit("spends_outpoint");
    reveal_strlit("node_transaction_ids");
    reveal_strlit("exact_node_byte_equality");
    assert("lockup"@.len() == 6);
    assert("exit"@.len() == 4);
    assert("transaction_hex"@.len() == 15);
    assert("transaction_id"@.len() == 14);
    assert("outpoint"@.len() == 8);
    assert("spends_outpoint"@.len() == 15);
    assert("node_transaction_ids"@.len() == 20);
    assert("exact_node_byte_equality"@.len() == 24);
    assert("transaction_hex"@[0] == 't');
    assert("spends_outpoint"@[0] == 's');
}

/// The record that is found by its kind is the first one of that kind, and nothing is found exactly
/// where there is none.
pub proof fn law_found_record_is_the_first(records: Seq<Event>, kind: u16) -> (place: int)
    ensures
        first_of_kind(records, kind) is Some ==> {
            &&& 0 <= place < records.len()
            &&& first_of_kind(records, kind) == Some(records[place])
            &&& records[place].kind == kind
            &&& forall|i: int| 0 <= i < place ==> (#[trigger] records[i]).kind != kind
        },
        first_of_kind(records, kind) is None <==> forall|i: int|
            0 <= i < records.len() ==> (#[trigger] records[i]).kind != kind,
    decreases records.len(),
{
    if records.len() == 0 {
        0
    } else if records[0].kind == kind {
        0
    } else {
        let rest = records.drop_first();
        let place = law_found_record_is_the_first(rest, kind);
        if first_of_kind(rest, kind) is Some {
            assert forall|i: int| 0 <= i < place + 1 implies (#[trigger] records[i]).kind
                != kind by {
                if i > 0 {
                    assert(rest[i - 1] == records[i]);
                }
            }
            assert(records[place + 1] == rest[place]);
        } else {
            assert forall|i: int| 0 <= i < records.len() implies (#[trigger] records[i]).kind
                != kind by {
                if i > 0 {
                    assert(rest[i - 1] == records[i]);
                }
            }
        }
        place + 1
    }
}

} // verus!
