//! What is read from the contract of a swap.

use vstd::prelude::*;
use vstd::string::*;
use crate::amount::{amount_reading, canonical_u64};
use crate::control::{FundedCheckpoint, counted, said};
use crate::hex::{
    decode_hex, hex_reading, is_lower_hex_32, require_lower_hex_32, told_bytes,
};
use crate::journey::LiquidChainDirection;
use crate::json::{
    Json, JsonObject, JsonView, items_of, items_view, lemma_items_view, member, member_text,
    members_of, seen, step, text_of, u64_of,
};
use crate::record::told_str;
use crate::text::{join, join3, maybe_str, same_text, told, told_text};

verus! {

/// The first of some documents that has this text under a name.
pub open spec fn first_with(items: Seq<JsonView>, name: Seq<char>, value: Seq<char>) -> Option<
    JsonView,
>
    decreases items.len(),
{
    if items.len() == 0 {
        None
    } else if member_text(items[0], name) == Some(value) {
        Some(items[0])
    } else {
        first_with(items.drop_first(), name, value)
    }
}

proof fn lemma_first_with(items: Seq<JsonView>, name: Seq<char>, value: Seq<char>, place: int)
    requires
        0 <= place <= items.len(),
        forall|j: int| 0 <= j < place ==> member_text(#[trigger] items[j], name) != Some(value),
        place < items.len() ==> member_text(items[place], name) == Some(value),
    ensures
        first_with(items, name, value) == (if place < items.len() {
            Some(items[place])
        } else {
            None
        }),
    decreases place,
{
    if place > 0 {
        assert(member_text(items[0], name) != Some(value));
        let rest = items.drop_first();
        assert forall|j: int| 0 <= j < place - 1 implies member_text(#[trigger] rest[j], name)
            != Some(value) by {
            assert(member_text(items[j + 1], name) != Some(value));
        }
        lemma_first_with(rest, name, value, place - 1);
    }
}

/// The place of the first of some documents that has this text under a name.
pub fn find_place(items: &Vec<Json>, name: &str, value: &str) -> (found: Option<usize>)
    ensures
        match found {
            Some(i) => {
                &&& i < items@.len()
                &&& member_text(items@[i as int]@, name@) == Some(value@)
                &&& first_with(items_view(items@), name@, value@) == Some(items@[i as int]@)
                &&& forall|j: int|
                    0 <= j < i ==> member_text(#[trigger] items_view(items@)[j], name@) != Some(
                        value@,
                    )
            },
            None => {
                &&& first_with(items_view(items@), name@, value@) is None
                &&& forall|j: int|
                    0 <= j < items@.len() ==> member_text(#[trigger] items_view(items@)[j], name@)
                        != Some(value@)
            },
        },
{
    proof {
        lemma_items_view(items@);
    }
    let mut i: usize = 0;
    while i < items.len()
        invariant
            i <= items@.len(),
            items_view(items@).len() == items@.len(),
            forall|j: int| 0 <= j < items@.len() ==> #[trigger] items_view(items@)[j] == items@[j]@,
            forall|j: int|
                0 <= j < i ==> member_text(#[trigger] items_view(items@)[j], name@) != Some(value@),
        decreases items@.len() - i,
    {
        assert(items_view(items@)[i as int] == items@[i as int]@);
        if items[i].says(name, value) {
            proof {
                lemma_first_with(items_view(items@), name@, value@, i as int);
            }
            return Some(i);
        }
        i = i + 1;
    }
    proof {
        lemma_first_with(items_view(items@), name@, value@, i as int);
    }
    None
}

/// The first of some documents that has this text under a name.
pub fn find_with<'a>(items: &'a Vec<Json>, name: &str, value: &str) -> (found: Option<&'a Json>)
    ensures
        seen(found) == first_with(items_view(items@), name@, value@),
{
    match find_place(items, name, value) {
        Some(i) => Some(&items[i]),
        None => None,
    }
}

/// The entry of a list of the contract that belongs to a leg.
pub open spec fn leg_entry(contract: JsonView, list: Seq<char>, leg_id: Seq<char>) -> Option<JsonView> {
    match items_of(member(contract, list)) {
        Some(items) => first_with(items, "leg_id"@, leg_id),
        None => None,
    }
}

/// The entry of a list of the contract that belongs to a leg.
pub fn find_leg_entry<'a>(contract: &'a Json, list: &str, leg_id: &str) -> (found: Option<&'a Json>)
    ensures
        seen(found) == leg_entry(contract@, list@, leg_id@),
{
    match contract.get(list) {
        Some(value) => match value.as_array() {
            Some(items) => find_with(items, "leg_id", leg_id),
            None => None,
        },
        None => None,
    }
}

/// The verifier inputs of a leg.
pub open spec fn leg_verifier(contract: JsonView, leg_id: Seq<char>) -> Option<
    Map<Seq<char>, JsonView>,
> {
    members_of(leg_entry(contract, "verifier_inputs"@, leg_id))
}

fn object_of<'a>(found: Option<&'a Json>) -> (object: Option<&'a JsonObject>)
    ensures
        match object {
            Some(object) => members_of(seen(found)) == Some(object@),
            None => members_of(seen(found)) is None,
        },
{
    match found {
        Some(value) => value.as_object(),
        None => None,
    }
}

/// The verifier inputs of a leg.
pub fn verifier_for_leg<'a>(contract: &'a Json, leg_id: &str) -> (verifier: Result<
    &'a JsonObject,
    String,
>)
    ensures
        match verifier {
            Ok(verifier) => leg_verifier(contract@, leg_id@) == Some(verifier@),
            Err(message) => leg_verifier(contract@, leg_id@) is None && message@
                == "funded contract has no "@ + leg_id@ + " verifier"@,
        },
{
    match object_of(find_leg_entry(contract, "verifier_inputs", leg_id)) {
        Some(verifier) => Ok(verifier),
        None => Err(join3("funded contract has no ", leg_id, " verifier")),
    }
}

/// What a text member of the contract reads as.
pub open spec fn required_reading(members: Map<Seq<char>, JsonView>, name: Seq<char>) -> Result<
    Seq<char>,
    Seq<char>,
> {
    match said(members, name) {
        Some(text) => Ok(text),
        None => Err("contract member "@ + name + " is missing"@),
    }
}

/// What a text member of the contract reads as: it can be had exactly where every part that it
/// rests on can, and each part of it is the one that its name says.
pub proof fn law_required_is_read_from_its_parts(members: Map<Seq<char>, JsonView>, name: Seq<char>)
    ensures
        ({
            let read = required_reading(members, name);
            let given = read->Ok_0;
            &&& read is Ok <==> {
                &&& said(members, name) is Some
            }
            &&& read is Ok ==> {
                &&& given == said(members, name)->0
            }
        }),
{
}

/// A text member of the contract.
pub fn required_string<'a>(object: &'a JsonObject, name: &str) -> (text: Result<&'a str, String>)
    ensures
        told_str(text) == required_reading(object@, name@),
{
    match object.text_at(name) {
        Some(text) => Ok(text),
        None => Err(join3("contract member ", name, " is missing")),
    }
}

/// What a small unsigned member of the contract reads as.
pub open spec fn bounded_u32_reading(members: Map<Seq<char>, JsonView>, name: Seq<char>) -> Result<
    u32,
    Seq<char>,
> {
    match counted(members, name) {
        Some(value) if value <= u32::MAX => Ok(value as u32),
        _ => Err("contract member "@ + name + " is not a bounded unsigned integer"@),
    }
}

/// What a small unsigned member of the contract reads as: it can be had exactly where every part
/// that it rests on can, and each part of it is the one that its name says.
pub proof fn law_bounded_u32_is_read_from_its_parts(
    members: Map<Seq<char>, JsonView>,
    name: Seq<char>,
)
    ensures
        ({
            let read = bounded_u32_reading(members, name);
            let value = counted(members, name)->0;
            let given = read->Ok_0;
            &&& read is Ok <==> {
                &&& counted(members, name) is Some
                &&& value <= u32::MAX
            }
            &&& read is Ok ==> {
                &&& given == value as u32
            }
        }),
{
}

/// A small unsigned member of the contract.
pub fn bounded_u32_member(object: &JsonObject, name: &str) -> (value: Result<u32, String>)
    ensures
        told(value) == bounded_u32_reading(object@, name@),
{
    match object.u64_at(name) {
        Some(value) if value <= 0xffff_ffff => Ok(value as u32),
        _ => Err(join3("contract member ", name, " is not a bounded unsigned integer")),
    }
}

/// What an amount member of the contract reads as.
pub open spec fn required_amount(members: Map<Seq<char>, JsonView>, name: Seq<char>) -> Result<
    u64,
    Seq<char>,
> {
    match required_reading(members, name) {
        Ok(text) => amount_reading(text),
        Err(message) => Err(message),
    }
}

/// What an amount member of the contract reads as: it can be had exactly where every part that it
/// rests on can, and each part of it is the one that its name says.
pub proof fn law_required_amount_is_read_from_its_parts(
    members: Map<Seq<char>, JsonView>,
    name: Seq<char>,
)
    ensures
        ({
            let read = required_amount(members, name);
            let text = required_reading(members, name)->Ok_0;
            let given = read->Ok_0;
            &&& read is Ok <==> {
                &&& required_reading(members, name) is Ok
                &&& amount_reading(text) is Ok
            }
            &&& read is Ok ==> {
                &&& given == amount_reading(text)->Ok_0
            }
        }),
{
}

/// An amount member of the contract.
pub fn amount_member(object: &JsonObject, name: &str) -> (amount: Result<u64, String>)
    ensures
        told(amount) == required_amount(object@, name@),
{
    match required_string(object, name) {
        Ok(text) => canonical_u64(text),
        Err(message) => Err(message),
    }
}

/// What a hexadecimal member of the contract reads as.
pub open spec fn required_bytes(members: Map<Seq<char>, JsonView>, name: Seq<char>) -> Result<
    Seq<u8>,
    Seq<char>,
> {
    match required_reading(members, name) {
        Ok(text) => hex_reading(text),
        Err(message) => Err(message),
    }
}

/// What a hexadecimal member of the contract reads as: it can be had exactly where every part that
/// it rests on can, and each part of it is the one that its name says.
pub proof fn law_required_bytes_is_read_from_its_parts(
    members: Map<Seq<char>, JsonView>,
    name: Seq<char>,
)
    ensures
        ({
            let read = required_bytes(members, name);
            let text = required_reading(members, name)->Ok_0;
            let given = read->Ok_0;
            &&& read is Ok <==> {
                &&& required_reading(members, name) is Ok
                &&& hex_reading(text) is Ok
            }
            &&& read is Ok ==> {
                &&& given == hex_reading(text)->Ok_0
            }
        }),
{
}

/// A hexadecimal member of the contract.
pub fn bytes_member(object: &JsonObject, name: &str) -> (bytes: Result<Vec<u8>, String>)
    ensures
        told_bytes(bytes) == required_bytes(object@, name@),
{
    match required_string(object, name) {
        Ok(text) => decode_hex(text),
        Err(message) => Err(message),
    }
}

/// An amount that must fit thirty-two bits.
pub open spec fn narrow_reading(amount: Result<u64, Seq<char>>, refusal: Seq<char>) -> Result<
    u32,
    Seq<char>,
> {
    match amount {
        Err(message) => Err(message),
        Ok(amount) => if amount <= u32::MAX {
            Ok(amount as u32)
        } else {
            Err(refusal)
        },
    }
}

/// An amount that must fit thirty-two bits: it can be had exactly where every part that it rests on
/// can, and each part of it is the one that its name says.
pub proof fn law_narrow_is_read_from_its_parts(amount: Result<u64, Seq<char>>, refusal: Seq<char>)
    ensures
        ({
            let read = narrow_reading(amount, refusal);
            let read_amount = amount->Ok_0;
            let given = read->Ok_0;
            &&& read is Ok <==> {
                &&& amount is Ok
                &&& read_amount <= u32::MAX
            }
            &&& read is Ok ==> {
                &&& given == read_amount as u32
            }
        }),
{
}

/// The terms of the Bitcoin leg of a contract.
pub struct BitcoinTerms {
    pub amount_sat: u64,
    pub miner_fee_budget_sat: u64,
    pub script_pubkey: Vec<u8>,
    pub claim_script: Vec<u8>,
    pub claim_control_block: Vec<u8>,
    pub refund_script: Vec<u8>,
    pub refund_control_block: Vec<u8>,
    pub refund_lock_height: u32,
}

/// What the terms of a Bitcoin leg are.
#[verifier::ext_equal]
pub struct BitcoinTermsView {
    pub amount_sat: u64,
    pub miner_fee_budget_sat: u64,
    pub script_pubkey: Seq<u8>,
    pub claim_script: Seq<u8>,
    pub claim_control_block: Seq<u8>,
    pub refund_script: Seq<u8>,
    pub refund_control_block: Seq<u8>,
    pub refund_lock_height: u32,
}

impl View for BitcoinTerms {
    type V = BitcoinTermsView;

    open spec fn view(&self) -> BitcoinTermsView {
        BitcoinTermsView {
            amount_sat: self.amount_sat,
            miner_fee_budget_sat: self.miner_fee_budget_sat,
            script_pubkey: self.script_pubkey@,
            claim_script: self.claim_script@,
            claim_control_block: self.claim_control_block@,
            refund_script: self.refund_script@,
            refund_control_block: self.refund_control_block@,
            refund_lock_height: self.refund_lock_height,
        }
    }
}

/// The fee that the contract sets aside for miners.
pub open spec fn fee_budget_reading(contract: JsonView) -> Result<u64, Seq<char>> {
    match member_text(contract, "miner_fee_budget"@) {
        None => Err("funded contract has no miner fee budget"@),
        Some(text) => amount_reading(text),
    }
}

/// The fee that the contract sets aside for miners: it can be had exactly where every part that it
/// rests on can, and each part of it is the one that its name says.
pub proof fn law_fee_budget_is_read_from_its_parts(contract: JsonView)
    ensures
        ({
            let read = fee_budget_reading(contract);
            let text = member_text(contract, "miner_fee_budget"@)->0;
            let given = read->Ok_0;
            &&& read is Ok <==> {
                &&& member_text(contract, "miner_fee_budget"@) is Some
                &&& amount_reading(text) is Ok
            }
            &&& read is Ok ==> {
                &&& given == amount_reading(text)->Ok_0
            }
        }),
{
}

/// What the terms of a Bitcoin leg read as.
pub open spec fn terms_reading(contract: JsonView, leg_id: Seq<char>) -> Result<
    BitcoinTermsView,
    Seq<char>,
> {
    match (leg_verifier(contract, leg_id), members_of(leg_entry(contract, "legs"@, leg_id))) {
        (None, _) => Err("funded contract has no Bitcoin verifier"@),
        (_, None) => Err("funded contract has no Bitcoin leg"@),
        (Some(verifier), Some(leg)) => match required_amount(verifier, "amount"@) {
            Err(message) => Err(message),
            Ok(amount_sat) => match fee_budget_reading(contract) {
                Err(message) => Err(message),
                Ok(miner_fee_budget_sat) => match required_bytes(verifier, "script_pubkey"@) {
                    Err(message) => Err(message),
                    Ok(script_pubkey) => match required_bytes(verifier, "claim_script"@) {
                        Err(message) => Err(message),
                        Ok(claim_script) => match required_bytes(
                            verifier,
                            "taproot_claim_control_block"@,
                        ) {
                            Err(message) => Err(message),
                            Ok(claim_control_block) => match required_bytes(
                                verifier,
                                "refund_script"@,
                            ) {
                                Err(message) => Err(message),
                                Ok(refund_script) => match required_bytes(
                                    verifier,
                                    "taproot_refund_control_block"@,
                                ) {
                                    Err(message) => Err(message),
                                    Ok(refund_control_block) => match narrow_reading(
                                        required_amount(leg, "refund_lock_value"@),
                                        "Bitcoin refund lock height exceeds u32"@,
                                    ) {
                                        Err(message) => Err(message),
                                        Ok(refund_lock_height) => Ok(
                                            BitcoinTermsView {
                                                amount_sat,
                                                miner_fee_budget_sat,
                                                script_pubkey,
                                                claim_script,
                                                claim_control_block,
                                                refund_script,
                                                refund_control_block,
                                                refund_lock_height,
                                            },
                                        ),
                                    },
                                },
                            },
                        },
                    },
                },
            },
        },
    }
}

/// What the terms of a Bitcoin leg read as: it can be had exactly where every part that it rests on
/// can, and each part of it is the one that its name says.
pub proof fn law_terms_is_read_from_its_parts(contract: JsonView, leg_id: Seq<char>)
    ensures
        ({
            let read = terms_reading(contract, leg_id);
            let verifier = leg_verifier(contract, leg_id)->0;
            let leg = members_of(leg_entry(contract, "legs"@, leg_id))->0;
            let given = read->Ok_0;
            &&& read is Ok <==> {
                &&& leg_verifier(contract, leg_id) is Some
                &&& members_of(leg_entry(contract, "legs"@, leg_id)) is Some
                &&& required_amount(verifier, "amount"@) is Ok
                &&& fee_budget_reading(contract) is Ok
                &&& required_bytes(verifier, "script_pubkey"@) is Ok
                &&& required_bytes(verifier, "claim_script"@) is Ok
                &&& required_bytes(verifier, "taproot_claim_control_block"@) is Ok
                &&& required_bytes(verifier, "refund_script"@) is Ok
                &&& required_bytes(verifier, "taproot_refund_control_block"@) is Ok
                &&& narrow_reading(
                    required_amount(leg, "refund_lock_value"@),
                    "Bitcoin refund lock height exceeds u32"@,
                ) is Ok
            }
            &&& read is Ok ==> {
                &&& given.amount_sat == required_amount(verifier, "amount"@)->Ok_0
                &&& given.miner_fee_budget_sat == fee_budget_reading(contract)->Ok_0
                &&& given.script_pubkey == required_bytes(verifier, "script_pubkey"@)->Ok_0
                &&& given.claim_script == required_bytes(verifier, "claim_script"@)->Ok_0
                &&& given.claim_control_block == required_bytes(
                    verifier,
                    "taproot_claim_control_block"@,
                )->Ok_0
                &&& given.refund_script == required_bytes(verifier, "refund_script"@)->Ok_0
                &&& given.refund_control_block == required_bytes(
                    verifier,
                    "taproot_refund_control_block"@,
                )->Ok_0
                &&& given.refund_lock_height == narrow_reading(
                    required_amount(leg, "refund_lock_value"@),
                    "Bitcoin refund lock height exceeds u32"@,
                )->Ok_0
            }
        }),
{
}

/// The terms of the Bitcoin leg of a contract.
pub fn bitcoin_terms(contract: &Json, leg_id: &str) -> (terms: Result<BitcoinTerms, String>)
    ensures
        match terms {
            Ok(terms) => terms_reading(contract@, leg_id@) == Ok::<BitcoinTermsView, Seq<char>>(
                terms@,
            ),
            Err(message) => terms_reading(contract@, leg_id@) == Err::<
                BitcoinTermsView,
                Seq<char>,
            >(message@),
        },
{
    let verifier: &JsonObject = match object_of(
        find_leg_entry(contract, "verifier_inputs", leg_id),
    ) {
        Some(verifier) => verifier,
        None => {
            return Err("funded contract has no Bitcoin verifier".to_owned());
        },
    };
    let leg: &JsonObject = match object_of(find_leg_entry(contract, "legs", leg_id)) {
        Some(leg) => leg,
        None => {
            return Err("funded contract has no Bitcoin leg".to_owned());
        },
    };
    let amount_sat: u64 = amount_member(verifier, "amount")?;
    let miner_fee_budget_sat: u64 = match contract.text_at("miner_fee_budget") {
        Some(text) => canonical_u64(text)?,
        None => {
            return Err("funded contract has no miner fee budget".to_owned());
        },
    };
    let script_pubkey: Vec<u8> = bytes_member(verifier, "script_pubkey")?;
    let claim_script: Vec<u8> = bytes_member(verifier, "claim_script")?;
    let claim_control_block: Vec<u8> = bytes_member(verifier, "taproot_claim_control_block")?;
    let refund_script: Vec<u8> = bytes_member(verifier, "refund_script")?;
    let refund_control_block: Vec<u8> = bytes_member(verifier, "taproot_refund_control_block")?;
    let refund_lock: u64 = amount_member(leg, "refund_lock_value")?;
    if refund_lock > 0xffff_ffff {
        return Err("Bitcoin refund lock height exceeds u32".to_owned());
    }
    Ok(
        BitcoinTerms {
            amount_sat,
            miner_fee_budget_sat,
            script_pubkey,
            claim_script,
            claim_control_block,
            refund_script,
            refund_control_block,
            refund_lock_height: refund_lock as u32,
        },
    )
}

/// A leg of a contract.
pub fn leg_members<'a>(contract: &'a Json, leg_id: &str) -> (leg: Option<&'a JsonObject>)
    ensures
        (match leg {
            Some(leg) => Some(leg@),
            None => None,
        }) == members_of(leg_entry(contract@, "legs"@, leg_id@)),
{
    object_of(find_leg_entry(contract, "legs", leg_id))
}

/// An amount of the contract that must fit thirty-two bits.
pub fn narrow_amount(object: &JsonObject, name: &str, refusal: &str) -> (value: Result<u32, String>)
    ensures
        told(value) == narrow_reading(required_amount(object@, name@), refusal@),
{
    let amount: u64 = amount_member(object, name)?;
    if amount <= 0xffff_ffff {
        Ok(amount as u32)
    } else {
        Err(refusal.to_owned())
    }
}

/// The identifiers of the legs, in their order.
pub open spec fn leg_ids(legs: Seq<JsonView>) -> Result<Seq<Seq<char>>, Seq<char>>
    decreases legs.len(),
{
    if legs.len() == 0 {
        Ok(Seq::empty())
    } else {
        match leg_ids(legs.drop_last()) {
            Err(message) => Err(message),
            Ok(ids) => match member_text(legs.last(), "leg_id"@) {
                None => Err("funded contract leg has no identifier"@),
                Some(id) => if ids.contains(id) {
                    Err("funded contract duplicates a leg identifier"@)
                } else {
                    Ok(ids.push(id))
                },
            },
        }
    }
}

/// The characters of each text.
pub open spec fn strings(values: Seq<String>) -> Seq<Seq<char>> {
    values.map_values(|value: String| value@)
}

proof fn lemma_leg_error_stays(legs: Seq<JsonView>, end: int)
    requires
        0 <= end <= legs.len(),
        leg_ids(legs.subrange(0, end)) is Err,
    ensures
        leg_ids(legs) == leg_ids(legs.subrange(0, end)),
    decreases legs.len(),
{
    if end < legs.len() {
        assert(legs.drop_last().subrange(0, end) =~= legs.subrange(0, end));
        lemma_leg_error_stays(legs.drop_last(), end);
    } else {
        assert(legs.subrange(0, end) =~= legs);
    }
}

fn contains_text(values: &Vec<String>, wanted: &str) -> (found: bool)
    ensures
        found == strings(values@).contains(wanted@),
{
    let mut i: usize = 0;
    while i < values.len()
        invariant
            i <= values@.len(),
            forall|j: int| 0 <= j < i ==> #[trigger] strings(values@)[j] != wanted@,
        decreases values@.len() - i,
    {
        if same_text(values[i].as_str(), wanted) {
            assert(strings(values@)[i as int] == wanted@);
            return true;
        }
        i = i + 1;
    }
    false
}

/// The identifiers of the legs of a contract, in their order.
pub fn contract_leg_ids(contract: &Json) -> (ids: Result<Vec<String>, String>)
    ensures
        match ids {
            Ok(ids) => items_of(member(contract@, "legs"@)) is Some && leg_ids(
                items_of(member(contract@, "legs"@))->0,
            ) == Ok::<Seq<Seq<char>>, Seq<char>>(strings(ids@)),
            Err(message) => match items_of(member(contract@, "legs"@)) {
                None => message@ == "funded contract has no legs"@,
                Some(legs) => leg_ids(legs) == Err::<Seq<Seq<char>>, Seq<char>>(message@),
            },
        },
{
    let legs: &Vec<Json> = match contract.get("legs") {
        Some(value) => match value.as_array() {
            Some(legs) => legs,
            None => {
                return Err("funded contract has no legs".to_owned());
            },
        },
        None => {
            return Err("funded contract has no legs".to_owned());
        },
    };
    let ghost views = items_view(legs@);
    proof {
        lemma_items_view(legs@);
        assert(views.subrange(0, 0) =~= Seq::<JsonView>::empty());
    }
    let mut ids: Vec<String> = Vec::new();
    let mut i: usize = 0;
    assert(strings(ids@) =~= Seq::<Seq<char>>::empty());
    while i < legs.len()
        invariant
            i <= legs@.len(),
            views == items_view(legs@),
            views.len() == legs@.len(),
            forall|j: int| 0 <= j < legs@.len() ==> #[trigger] views[j] == legs@[j]@,
            items_of(member(contract@, "legs"@)) == Some(views),
            leg_ids(views.subrange(0, i as int)) == Ok::<Seq<Seq<char>>, Seq<char>>(strings(ids@)),
        decreases legs@.len() - i,
    {
        let ghost next = views.subrange(0, i + 1);
        proof {
            assert(next.drop_last() =~= views.subrange(0, i as int));
            assert(next.last() == legs@[i as int]@);
        }
        let leg_id: &str = match legs[i].text_at("leg_id") {
            Some(leg_id) => leg_id,
            None => {
                proof {
                    lemma_leg_error_stays(views, i + 1);
                }
                return Err("funded contract leg has no identifier".to_owned());
            },
        };
        if contains_text(&ids, leg_id) {
            proof {
                lemma_leg_error_stays(views, i + 1);
            }
            return Err("funded contract duplicates a leg identifier".to_owned());
        }
        let ghost before = ids@;
        ids.push(leg_id.to_owned());
        assert(strings(ids@) =~= strings(before).push(leg_id@));
        i = i + 1;
    }
    assert(views.subrange(0, i as int) =~= views);
    Ok(ids)
}

/// The identifiers of the legs are those of the legs, one for each and no two the same.
pub proof fn law_leg_ids_are_distinct(legs: Seq<JsonView>)
    requires
        leg_ids(legs) is Ok,
    ensures
        leg_ids(legs)->Ok_0.len() == legs.len(),
        leg_ids(legs)->Ok_0.no_duplicates(),
        forall|i: int|
            0 <= i < legs.len() ==> member_text(#[trigger] legs[i], "leg_id"@) == Some(
                leg_ids(legs)->Ok_0[i],
            ),
    decreases legs.len(),
{
    if legs.len() > 0 {
        let front = legs.drop_last();
        law_leg_ids_are_distinct(front);
        assert forall|i: int| 0 <= i < legs.len() implies member_text(
            #[trigger] legs[i],
            "leg_id"@,
        ) == Some(leg_ids(legs)->Ok_0[i]) by {
            if i < front.len() {
                assert(front[i] == legs[i]);
            }
        }
    }
}

/// What the rail of a leg reads as: one of the two chains.
pub open spec fn chain_rail_reading(contract: JsonView, leg_id: Seq<char>) -> Result<
    Seq<char>,
    Seq<char>,
> {
    match text_of(step(leg_entry(contract, "legs"@, leg_id), "rail"@)) {
        Some(rail) if rail == "bitcoin"@ || rail == "liquid"@ => Ok(rail),
        _ => Err("chain "@ + leg_id + " leg has no supported rail"@),
    }
}

/// What the rail of a leg reads as: it can be had exactly where every part that it rests on can,
/// and each part of it is the one that its name says.
pub proof fn law_chain_rail_is_read_from_its_parts(contract: JsonView, leg_id: Seq<char>)
    ensures
        ({
            let read = chain_rail_reading(contract, leg_id);
            let rail = text_of(step(leg_entry(contract, "legs"@, leg_id), "rail"@))->0;
            let given = read->Ok_0;
            &&& read is Ok <==> {
                &&& text_of(step(leg_entry(contract, "legs"@, leg_id), "rail"@)) is Some
                &&& (rail == "bitcoin"@ || rail == "liquid"@)
            }
            &&& read is Ok ==> {
                &&& given == rail
            }
        }),
{
}

/// The chain that a leg is settled on.
pub fn contract_leg_rail_name<'a>(contract: &'a Json, leg_id: &str) -> (rail: Result<
    &'a str,
    String,
>)
    ensures
        told_str(rail) == chain_rail_reading(contract@, leg_id@),
{
    let rail: Option<&str> = match find_leg_entry(contract, "legs", leg_id) {
        Some(leg) => leg.text_at("rail"),
        None => None,
    };
    match rail {
        Some(rail) if same_text(rail, "bitcoin") || same_text(rail, "liquid") => Ok(rail),
        _ => Err(join3("chain ", leg_id, " leg has no supported rail")),
    }
}

/// The transactions that settle the Bitcoin leg and the Liquid leg of a chain swap.
pub open spec fn settlement_ids(
    source_rail: Seq<char>,
    destination_rail: Seq<char>,
    source_claim: Seq<char>,
    destination_claim: Seq<char>,
) -> Result<(Seq<char>, Seq<char>), Seq<char>> {
    if source_rail == "bitcoin"@ && destination_rail == "liquid"@ {
        Ok((source_claim, destination_claim))
    } else if source_rail == "liquid"@ && destination_rail == "bitcoin"@ {
        Ok((destination_claim, source_claim))
    } else {
        Err("chain terminal settlement rails are unsupported or duplicated"@)
    }
}

/// The transactions that settle the Bitcoin leg and the Liquid leg of a chain swap: it can be had
/// exactly where every part that it rests on can, and each part of it is the one that its name
/// says.
pub proof fn law_settlement_ids_is_read_from_its_parts(
    source_rail: Seq<char>,
    destination_rail: Seq<char>,
    source_claim: Seq<char>,
    destination_claim: Seq<char>,
)
    ensures
        ({
            let read = settlement_ids(
                source_rail,
                destination_rail,
                source_claim,
                destination_claim,
            );
            let given = read->Ok_0;
            let case_1 = {
                &&& source_rail == "bitcoin"@
                &&& destination_rail == "liquid"@
            };
            let case_2 = {
                &&& !(source_rail == "bitcoin"@ && destination_rail == "liquid"@)
                &&& source_rail == "liquid"@
                &&& destination_rail == "bitcoin"@
            };
            &&& (read is Ok <==> case_1 || case_2)
            &&& read is Ok && case_1 ==> {
                &&& given.0 == source_claim
                &&& given.1 == destination_claim
            }
            &&& read is Ok && case_2 ==> {
                &&& given.0 == destination_claim
                &&& given.1 == source_claim
            }
        }),
{
}

/// The transactions that settle the Bitcoin leg and the Liquid leg of a chain swap.
pub fn chain_terminal_settlement_ids<'a>(
    source_rail: &str,
    destination_rail: &str,
    source_claim_transaction_id: &'a str,
    destination_claim_transaction_id: &'a str,
) -> (ids: Result<(&'a str, &'a str), String>)
    ensures
        (match ids {
            Ok((bitcoin, liquid)) => Ok((bitcoin@, liquid@)),
            Err(message) => Err(message@),
        }) == settlement_ids(
            source_rail@,
            destination_rail@,
            source_claim_transaction_id@,
            destination_claim_transaction_id@,
        ),
{
    if same_text(source_rail, "bitcoin") && same_text(destination_rail, "liquid") {
        Ok((source_claim_transaction_id, destination_claim_transaction_id))
    } else if same_text(source_rail, "liquid") && same_text(destination_rail, "bitcoin") {
        Ok((destination_claim_transaction_id, source_claim_transaction_id))
    } else {
        Err("chain terminal settlement rails are unsupported or duplicated".to_owned())
    }
}

/// Whichever way a chain swap goes, the claim on each rail is what settles that rail.
pub proof fn law_settlement_follows_the_rail(
    direction: LiquidChainDirection,
    source_claim: Seq<char>,
    destination_claim: Seq<char>,
)
    ensures
        settlement_ids(
            direction.source_label(),
            direction.destination_label(),
            source_claim,
            destination_claim,
        ) == Ok::<(Seq<char>, Seq<char>), Seq<char>>(
            if direction is BitcoinToLiquid {
                (source_claim, destination_claim)
            } else {
                (destination_claim, source_claim)
            },
        ),
{
    reveal_strlit("bitcoin");
    reveal_strlit("liquid");
    assert("bitcoin"@.len() != "liquid"@.len());
}

/// The height at which the provider of a reverse swap may first refund.
pub open spec fn refund_height_reading(contract: JsonView) -> Result<u32, Seq<char>> {
    match u64_of(step(member(contract, "timeout_ladder"@), "provider_refund_first"@)) {
        None => Err("reverse contract has no provider refund height"@),
        Some(height) => if height <= u32::MAX {
            Ok(height as u32)
        } else {
            Err("reverse refund height exceeds u32"@)
        },
    }
}

/// The height at which the provider of a reverse swap may first refund: it can be had exactly where
/// every part that it rests on can, and each part of it is the one that its name says.
pub proof fn law_refund_height_is_read_from_its_parts(contract: JsonView)
    ensures
        ({
            let read = refund_height_reading(contract);
            let height = u64_of(
                step(member(contract, "timeout_ladder"@), "provider_refund_first"@),
            )->0;
            let given = read->Ok_0;
            &&& read is Ok <==> {
                &&& u64_of(step(member(contract, "timeout_ladder"@), "provider_refund_first"@)) is Some
                &&& height <= u32::MAX
            }
            &&& read is Ok ==> {
                &&& given == height as u32
            }
        }),
{
}

/// The height at which the provider of a reverse swap may first refund.
pub fn reverse_refund_height(contract: &Json) -> (height: Result<u32, String>)
    ensures
        told(height) == refund_height_reading(contract@),
{
    let height: Option<u64> = match contract.get("timeout_ladder") {
        Some(ladder) => ladder.u64_at("provider_refund_first"),
        None => None,
    };
    match height {
        None => Err("reverse contract has no provider refund height".to_owned()),
        Some(height) => if height <= 0xffff_ffff {
            Ok(height as u32)
        } else {
            Err("reverse refund height exceeds u32".to_owned())
        },
    }
}

/// What the identifier of the external effect of a checkpoint reads as.
pub open spec fn external_identifier_reading(details: JsonView) -> Result<Seq<char>, Seq<char>> {
    match member_text(details, "external_identifier"@) {
        None => Err("funded checkpoint has no external identifier"@),
        Some(identifier) => if is_lower_hex_32(identifier) {
            Ok(identifier)
        } else {
            Err("funded checkpoint external identifier"@ + " is not lowercase 32-byte hex"@)
        },
    }
}

/// What the identifier of the external effect of a checkpoint reads as: it can be had exactly where
/// every part that it rests on can, and each part of it is the one that its name says.
pub proof fn law_external_identifier_is_read_from_its_parts(details: JsonView)
    ensures
        ({
            let read = external_identifier_reading(details);
            let identifier = member_text(details, "external_identifier"@)->0;
            let given = read->Ok_0;
            &&& read is Ok <==> {
                &&& member_text(details, "external_identifier"@) is Some
                &&& is_lower_hex_32(identifier)
            }
            &&& read is Ok ==> {
                &&& given == identifier
            }
        }),
{
}

/// The identifier of the external effect that a checkpoint recorded.
pub fn checkpoint_external_identifier(checkpoint: &FundedCheckpoint) -> (identifier: Result<
    String,
    String,
>)
    ensures
        told_text(identifier) == external_identifier_reading(checkpoint.details@),
{
    match checkpoint.details.text_at("external_identifier") {
        None => Err("funded checkpoint has no external identifier".to_owned()),
        Some(identifier) => {
            require_lower_hex_32(identifier, "funded checkpoint external identifier")?;
            Ok(identifier.to_owned())
        },
    }
}

/// Checks that a node reports the recorded transaction, with its bytes where they are known.
pub fn verify_known_bitcoin_transaction(
    value: &Json,
    transaction_id: &str,
    raw_transaction: Option<&str>,
) -> (checked: Result<(), String>)
    ensures
        told(checked) == known_transaction_reading(value@, transaction_id@, maybe_str(raw_transaction)),
{
    if !value.says("txid", transaction_id) {
        return Err("bitcoind returned another recorded transaction".to_owned());
    }
    match raw_transaction {
        Some(expected) => if !value.says("hex", expected) {
            Err("bitcoind transaction bytes differ from the persisted execution".to_owned())
        } else {
            Ok(())
        },
        None => Ok(()),
    }
}

/// What a node's report of a recorded transaction reads as.
pub open spec fn known_transaction_reading(
    report: JsonView,
    transaction_id: Seq<char>,
    raw: Option<Seq<char>>,
) -> Result<(), Seq<char>> {
    if member_text(report, "txid"@) != Some(transaction_id) {
        Err("bitcoind returned another recorded transaction"@)
    } else if raw is Some && member_text(report, "hex"@) != raw {
        Err("bitcoind transaction bytes differ from the persisted execution"@)
    } else {
        Ok(())
    }
}

/// An output of a transaction.
pub struct TxOutput {
    pub value_sat: u64,
    pub script_pubkey: Vec<u8>,
}

/// The funding that a contract foresees for the destination of a chain swap.
pub struct DestinationTemplate {
    pub on_bitcoin: bool,
    pub raw: Vec<u8>,
    pub output_index: u32,
    pub amount: u64,
    pub script: Vec<u8>,
}

/// What the funding template of the destination is.
#[verifier::ext_equal]
pub struct DestinationTemplateView {
    pub on_bitcoin: bool,
    pub raw: Seq<u8>,
    pub output_index: u32,
    pub amount: u64,
    pub script: Seq<u8>,
}

impl View for DestinationTemplate {
    type V = DestinationTemplateView;

    open spec fn view(&self) -> DestinationTemplateView {
        DestinationTemplateView {
            on_bitcoin: self.on_bitcoin,
            raw: self.raw@,
            output_index: self.output_index,
            amount: self.amount,
            script: self.script@,
        }
    }
}

/// What the funding template of the destination reads as.
pub open spec fn template_reading(contract: JsonView, direction: LiquidChainDirection) -> Result<
    DestinationTemplateView,
    Seq<char>,
> {
    match chain_rail_reading(contract, "destination"@) {
        Err(message) => Err(message),
        Ok(rail) => if rail != direction.destination_label() {
            Err("chain destination rail differs from its ordered asset pair"@)
        } else {
            match leg_verifier(contract, "destination"@) {
                None => Err("funded contract has no "@ + "destination"@ + " verifier"@),
                Some(verifier) => match required_bytes(verifier, "funding_transaction"@) {
                    Err(message) => Err(message),
                    Ok(raw) => match bounded_u32_reading(verifier, "output_index"@) {
                        Err(message) => Err(message),
                        Ok(output_index) => match required_amount(verifier, "amount"@) {
                            Err(message) => Err(message),
                            Ok(amount) => match required_bytes(verifier, "script_pubkey"@) {
                                Err(message) => Err(message),
                                Ok(script) => Ok(
                                    DestinationTemplateView {
                                        on_bitcoin: direction is LiquidToBitcoin,
                                        raw,
                                        output_index,
                                        amount,
                                        script,
                                    },
                                ),
                            },
                        },
                    },
                },
            }
        },
    }
}

/// What the funding template of the destination reads as: it can be had exactly where every part
/// that it rests on can, and each part of it is the one that its name says.
pub proof fn law_template_is_read_from_its_parts(
    contract: JsonView,
    direction: LiquidChainDirection,
)
    ensures
        ({
            let read = template_reading(contract, direction);
            let verifier = leg_verifier(contract, "destination"@)->0;
            let given = read->Ok_0;
            &&& read is Ok <==> {
                &&& chain_rail_reading(contract, "destination"@) is Ok
                &&& chain_rail_reading(contract, "destination"@)->Ok_0 == direction.destination_label()
                &&& leg_verifier(contract, "destination"@) is Some
                &&& required_bytes(verifier, "funding_transaction"@) is Ok
                &&& bounded_u32_reading(verifier, "output_index"@) is Ok
                &&& required_amount(verifier, "amount"@) is Ok
                &&& required_bytes(verifier, "script_pubkey"@) is Ok
            }
            &&& read is Ok ==> {
                &&& given.on_bitcoin == (direction is LiquidToBitcoin)
                &&& given.raw == required_bytes(verifier, "funding_transaction"@)->Ok_0
                &&& given.output_index == bounded_u32_reading(verifier, "output_index"@)->Ok_0
                &&& given.amount == required_amount(verifier, "amount"@)->Ok_0
                &&& given.script == required_bytes(verifier, "script_pubkey"@)->Ok_0
            }
        }),
{
}

/// The funding that a contract foresees for the destination of a chain swap.
pub fn chain_destination_template(contract: &Json, direction: LiquidChainDirection) -> (template:
    Result<DestinationTemplate, String>)
    ensures
        match template {
            Ok(template) => template_reading(contract@, direction) == Ok::<
                DestinationTemplateView,
                Seq<char>,
            >(template@),
            Err(message) => template_reading(contract@, direction) == Err::<
                DestinationTemplateView,
                Seq<char>,
            >(message@),
        },
{
    let rail: &str = contract_leg_rail_name(contract, "destination")?;
    if !same_text(rail, direction.destination_rail()) {
        return Err("chain destination rail differs from its ordered asset pair".to_owned());
    }
    let verifier: &JsonObject = verifier_for_leg(contract, "destination")?;
    let raw: Vec<u8> = bytes_member(verifier, "funding_transaction")?;
    let output_index: u32 = bounded_u32_member(verifier, "output_index")?;
    let amount: u64 = amount_member(verifier, "amount")?;
    let script: Vec<u8> = bytes_member(verifier, "script_pubkey")?;
    let on_bitcoin: bool = match direction {
        LiquidChainDirection::LiquidToBitcoin => true,
        LiquidChainDirection::BitcoinToLiquid => false,
    };
    Ok(DestinationTemplate { on_bitcoin, raw, output_index, amount, script })
}

/// Whether two byte sequences are the same.
pub fn same_bytes(left: &Vec<u8>, right: &Vec<u8>) -> (same: bool)
    ensures
        same == (left@ == right@),
{
    if left.len() != right.len() {
        return false;
    }
    let mut i: usize = 0;
    while i < left.len()
        invariant
            i <= left@.len(),
            left@.len() == right@.len(),
            forall|j: int| 0 <= j < i ==> left@[j] == right@[j],
        decreases left@.len() - i,
    {
        if left[i] != right[i] {
            return false;
        }
        i = i + 1;
    }
    assert(left@ =~= right@);
    true
}

/// What the outputs of the parsed template read as, held against the contract.
pub open spec fn template_outputs_reading(
    template: DestinationTemplateView,
    outputs: Result<Seq<TxOutput>, Seq<char>>,
) -> Result<(), Seq<char>> {
    match outputs {
        Err(message) => if template.on_bitcoin {
            Err("chain destination Bitcoin template is invalid: "@ + message)
        } else {
            Err("chain destination Liquid template is invalid: "@ + message)
        },
        Ok(outputs) => if template.output_index >= outputs.len() {
            if template.on_bitcoin {
                Err("chain destination Bitcoin output is absent"@)
            } else {
                Err("chain destination Liquid output is absent"@)
            }
        } else {
            let output = outputs[template.output_index as int];
            if template.on_bitcoin && (output.value_sat != template.amount
                || output.script_pubkey@ != template.script) {
                Err("chain destination Bitcoin template differs from the Contract"@)
            } else if !template.on_bitcoin && output.script_pubkey@ != template.script {
                Err("chain destination Liquid script differs from the Contract"@)
            } else {
                Ok(())
            }
        },
    }
}

/// What the outputs of the parsed template read as, held against the contract: it holds exactly
/// where every one of these conditions does.
pub proof fn law_template_outputs_holds_by_its_parts(
    template: DestinationTemplateView,
    outputs: Result<Seq<TxOutput>, Seq<char>>,
)
    ensures
        ({
            let read = template_outputs_reading(template, outputs);
            let read_outputs = outputs->Ok_0;
            let output = read_outputs[template.output_index as int];
            &&& read is Ok <==> {
                &&& outputs is Ok
                &&& template.output_index < read_outputs.len()
                &&& !(
                    template.on_bitcoin
                        && (
                            output.value_sat != template.amount || output.script_pubkey@ != template.script
                        )
                )
                &&& !(!template.on_bitcoin && output.script_pubkey@ != template.script)
            }
        }),
{
}

/// The outputs of a parsed transaction, or why it could not be parsed.
pub open spec fn outputs_view(outputs: Result<Vec<TxOutput>, String>) -> Result<
    Seq<TxOutput>,
    Seq<char>,
> {
    match outputs {
        Ok(outputs) => Ok(outputs@),
        Err(message) => Err(message@),
    }
}

/// The outputs of a parsed transaction, or why it could not be parsed: it can be had exactly where
/// every part that it rests on can, and each part of it is the one that its name says.
pub proof fn law_outputs_view_is_read_from_its_parts(outputs: Result<Vec<TxOutput>, String>)
    ensures
        ({
            let read = outputs_view(outputs);
            let given = read->Ok_0;
            &&& read is Ok <==> {
                &&& outputs is Ok
            }
            &&& read is Ok ==> {
                &&& given == outputs->Ok_0@
            }
        }),
{
}

/// What the destination that a chain contract foresees reads as.
pub open spec fn destination_reading(
    contract: JsonView,
    direction: LiquidChainDirection,
    outputs: Result<Seq<TxOutput>, Seq<char>>,
) -> Result<(), Seq<char>> {
    match template_reading(contract, direction) {
        Err(message) => Err(message),
        Ok(template) => template_outputs_reading(template, outputs),
    }
}

/// What the destination that a chain contract foresees reads as: it holds exactly where every one
/// of these conditions does.
pub proof fn law_destination_holds_by_its_parts(
    contract: JsonView,
    direction: LiquidChainDirection,
    outputs: Result<Seq<TxOutput>, Seq<char>>,
)
    ensures
        ({
            let read = destination_reading(contract, direction, outputs);
            let template = template_reading(contract, direction)->Ok_0;
            let given = read->Ok_0;
            &&& read is Ok <==> {
                &&& template_reading(contract, direction) is Ok
                &&& template_outputs_reading(template, outputs) is Ok
            }
            &&& read is Ok ==> {
                &&& given == template_outputs_reading(template, outputs)->Ok_0
            }
        }),
{
}

/// Checks the destination that a chain contract foresees. `outputs` are those of the template once
/// its raw transaction has been parsed.
pub fn validate_chain_destination_template(
    contract: &Json,
    direction: LiquidChainDirection,
    outputs: &Result<Vec<TxOutput>, String>,
) -> (checked: Result<(), String>)
    ensures
        told(checked) == destination_reading(contract@, direction, outputs_view(*outputs)),
{
    let template: DestinationTemplate = chain_destination_template(contract, direction)?;
    match outputs {
        Err(message) => if template.on_bitcoin {
            Err(join("chain destination Bitcoin template is invalid: ", message.as_str()))
        } else {
            Err(join("chain destination Liquid template is invalid: ", message.as_str()))
        },
        Ok(outputs) => {
            let index: usize = template.output_index as usize;
            if index >= outputs.len() {
                return if template.on_bitcoin {
                    Err("chain destination Bitcoin output is absent".to_owned())
                } else {
                    Err("chain destination Liquid output is absent".to_owned())
                };
            }
            let same_script: bool = same_bytes(&outputs[index].script_pubkey, &template.script);
            if template.on_bitcoin {
                if outputs[index].value_sat != template.amount || !same_script {
                    return Err(
                        "chain destination Bitcoin template differs from the Contract".to_owned(),
                    );
                }
            } else if !same_script {
                return Err("chain destination Liquid script differs from the Contract".to_owned());
            }
            Ok(())
        },
    }
}

/// What is left of a leg for its owner once the miner fee is taken; nothing where the fee takes
/// all.
pub open spec fn after_fee(amount_sat: u64, fee_sat: u64) -> Option<u64> {
    if amount_sat > fee_sat {
        Some((amount_sat - fee_sat) as u64)
    } else {
        None
    }
}

/// What is left of a leg for its owner once the miner fee is taken.
pub fn amount_after_fee(amount_sat: u64, fee_sat: u64) -> (left: Option<u64>)
    ensures
        left == after_fee(amount_sat, fee_sat),
{
    if amount_sat > fee_sat {
        Some(amount_sat - fee_sat)
    } else {
        None
    }
}

/// The entry that is found by a member is the first one in the list with that text under that name, and
/// nothing is found exactly where there is none.
pub proof fn law_found_entry_is_the_first(
    items: Seq<JsonView>,
    name: Seq<char>,
    value: Seq<char>,
) -> (place: int)
    ensures
        first_with(items, name, value) is Some ==> {
            &&& 0 <= place < items.len()
            &&& first_with(items, name, value) == Some(items[place])
            &&& member_text(items[place], name) == Some(value)
            &&& forall|i: int|
                0 <= i < place ==> member_text(#[trigger] items[i], name) != Some(value)
        },
        first_with(items, name, value) is None <==> forall|i: int|
            0 <= i < items.len() ==> member_text(#[trigger] items[i], name) != Some(value),
    decreases items.len(),
{
    if items.len() == 0 {
        0
    } else if member_text(items[0], name) == Some(value) {
        0
    } else {
        let rest = items.drop_first();
        let place = law_found_entry_is_the_first(rest, name, value);
        assert forall|i: int| 0 <= i < rest.len() implies #[trigger] rest[i] == items[i + 1] by {}
        if first_with(rest, name, value) is Some {
            assert forall|i: int| 0 <= i < place + 1 implies member_text(
                #[trigger] items[i],
                name,
            ) != Some(value) by {
                if i > 0 {
                    assert(rest[i - 1] == items[i]);
                }
            }
            assert(items[place + 1] == rest[place]);
        } else {
            assert forall|i: int| 0 <= i < items.len() implies member_text(
                #[trigger] items[i],
                name,
            ) != Some(value) by {
                if i > 0 {
                    assert(rest[i - 1] == items[i]);
                }
            }
        }
        place + 1
    }
}

/// The owner of a leg and the miner share it out: what is left and the fee are the amount, and something
/// is left exactly where the fee is smaller.
pub proof fn law_fee_and_rest_are_the_amount(amount_sat: u64, fee_sat: u64)
    ensures
        after_fee(amount_sat, fee_sat) is Some <==> fee_sat < amount_sat,
        after_fee(amount_sat, fee_sat) is Some ==> after_fee(amount_sat, fee_sat)->0 + fee_sat
            == amount_sat,
{
}

} // verus!
