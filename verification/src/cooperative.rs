//! Swaps whose claim both sides sign together, and what is left of one whose signature is given up.

use vstd::prelude::*;
use crate::answer::{answers, says, signs};
use crate::amount::OUTPUT_AMOUNT_SAT;
use crate::contract::{
    bytes_member, leg_verifier, required_bytes, required_reading, required_string, same_bytes,
    verifier_for_leg,
};
use crate::control::{counted, said, told_json};
use crate::hex::{
    decode_fixed_hex, display_txid_wire, fixed_reading, hex_text, law_hex_text_is_unique,
    lower_hex, told_bytes,
    txid_wire_reading,
};
use crate::journey::{CooperativeAction, CooperativeJourney};
use crate::json::{
    Json, JsonObject, JsonView, bool_of, items_view, lemma_items_view, member, member_text,
    members_of, name_views, no_members, number_doc, text_doc, texts_doc,
};
use crate::lifecycle::{status_transaction_id, transaction_reading};
use crate::machine::{
    Action, ActionView, CloseCheck, CloseCheckView, INVOICE_EXPIRY_SECONDS, LightningView, Reply,
    ReplyView, SettlementShape, SpentInput, Task, effect_details, effect_doc, height_reading,
    lemma_milestone, lemma_ranks_rise, narrow_height, perform, perform_with, perform_with_four,
    perform_with_three, perform_with_two, wrong_reply, wrong_reply_text,
};
use crate::record::RecordKinds;
use crate::terminal::LightningTerminalCheck;
use crate::text::{decimal, decimal_text, join, maybe, same_text, told, told_text};

verus! {

/// Whether a contract is settled by a joint signature and comes with an exit for each side.
pub open spec fn binds_two_exits(contract: JsonView, exits: u64) -> bool {
    bool_of(member(contract, "musig2_execution"@)) == Some(true) && exits == 2
}

fn two_exits(contract: &Json, exits: u64) -> (binds: bool)
    ensures
        binds == binds_two_exits(contract@, exits),
{
    match contract.bool_at("musig2_execution") {
        Some(joint) => joint && exits == 2,
        None => false,
    }
}

/// A value of a fixed size that a message of the provider must have.
pub open spec fn signed_value_reading(
    value: Option<Seq<char>>,
    missing: Seq<char>,
    label: Seq<char>,
    size: usize,
) -> Result<Seq<u8>, Seq<char>> {
    match value {
        None => Err(missing),
        Some(value) => fixed_reading(value, label, size),
    }
}

/// A value of a fixed size that a message of the provider must have: it can be had exactly where
/// every part that it rests on can, and each part of it is the one that its name says.
pub proof fn law_signed_value_is_read_from_its_parts(
    value: Option<Seq<char>>,
    missing: Seq<char>,
    label: Seq<char>,
    size: usize,
)
    ensures
        ({
            let read = signed_value_reading(value, missing, label, size);
            let read_value = value->0;
            let given = read->Ok_0;
            &&& read is Ok <==> {
                &&& value is Some
                &&& fixed_reading(read_value, label, size) is Ok
            }
            &&& read is Ok ==> {
                &&& given == fixed_reading(read_value, label, size)->Ok_0
            }
        }),
{
}

fn signed_value<const SIZE: usize>(value: &Option<String>, missing: &str, label: &str) -> (bytes:
    Result<Vec<u8>, String>)
    ensures
        told_bytes(bytes) == signed_value_reading(maybe(*value), missing@, label@, SIZE),
{
    match value {
        None => Err(missing.to_owned()),
        Some(value) => decode_fixed_hex::<SIZE>(value.as_str(), label),
    }
}

/// The nonce of the provider where the journey goes on to sign with it.
pub open spec fn nonce_reading(journey: CooperativeJourney, value: Option<Seq<char>>) -> Result<
    Seq<char>,
    Seq<char>,
> {
    if journey != CooperativeJourney::Complete {
        Ok(""@)
    } else {
        match signed_value_reading(
            value,
            "provider public-nonce Status has no nonce"@,
            "provider public nonce"@,
            66,
        ) {
            Err(message) => Err(message),
            Ok(bytes) => Ok(hex_text(bytes)),
        }
    }
}

/// The nonce of the provider where the journey goes on to sign with it: it can be had exactly where
/// every part that it rests on can, and each part of it is the one that its name says.
pub proof fn law_nonce_is_read_from_its_parts(journey: CooperativeJourney, value: Option<Seq<char>>)
    ensures
        ({
            let read = nonce_reading(journey, value);
            let given = read->Ok_0;
            let case_1 = journey != CooperativeJourney::Complete;
            let case_2 = {
                &&& journey == CooperativeJourney::Complete
                &&& signed_value_reading(
                    value,
                    "provider public-nonce Status has no nonce"@,
                    "provider public nonce"@,
                    66,
                ) is Ok
            };
            &&& (read is Ok <==> case_1 || case_2)
            &&& read is Ok && case_1 ==> {
                &&& given == ""@
            }
            &&& read is Ok && case_2 ==> {
                &&& given == hex_text(
                    signed_value_reading(
                        value,
                        "provider public-nonce Status has no nonce"@,
                        "provider public nonce"@,
                        66,
                    )->Ok_0,
                )
            }
        }),
{
}

/// Whether a step is among those taken.
pub open spec fn count_of(actions: Seq<CooperativeAction>, action: CooperativeAction) -> nat
    decreases actions.len(),
{
    if actions.len() == 0 {
        0
    } else {
        count_of(actions.drop_last(), action) + (if actions.last() == action {
            1nat
        } else {
            0nat
        })
    }
}

fn count_actions(actions: &Vec<CooperativeAction>, action: CooperativeAction) -> (count: usize)
    ensures
        count == count_of(actions@, action),
{
    let mut count: usize = 0;
    let mut i: usize = 0;
    assert(actions@.subrange(0, 0) =~= Seq::<CooperativeAction>::empty());
    while i < actions.len()
        invariant
            i <= actions@.len(),
            count <= i,
            count == count_of(actions@.subrange(0, i as int), action),
        decreases actions@.len() - i,
    {
        proof {
            let next = actions@.subrange(0, i + 1);
            assert(next.drop_last() =~= actions@.subrange(0, i as int));
            assert(next.last() == actions@[i as int]);
        }
        if actions[i] == action {
            count = count + 1;
        }
        i = i + 1;
    }
    assert(actions@.subrange(0, i as int) =~= actions@);
    count
}

/// Whether a transcript shows that the signature was given up after the provider's nonce: nobody
/// has signed, the requester has revealed nothing, and they said so unless their process was cut
/// off.
pub open spec fn gave_up(
    provider: Seq<CooperativeAction>,
    requester: Seq<CooperativeAction>,
    journey: CooperativeJourney,
) -> bool {
    &&& count_of(provider, CooperativeAction::Aborted) == 1
    &&& count_of(provider, CooperativeAction::PublicNonce) == 1
    &&& count_of(provider, CooperativeAction::PartialSignature) == 0
    &&& count_of(provider, CooperativeAction::FinalSignature) == 0
    &&& count_of(requester, CooperativeAction::PublicNonce) == 0
    &&& count_of(requester, CooperativeAction::Aborted) == (if journey
        == CooperativeJourney::CrashCutRecovery {
        0nat
    } else {
        1nat
    })
}

/// How the settlement of a journey is labelled.
pub open spec fn settlement_label(journey: CooperativeJourney) -> Seq<char> {
    if journey == CooperativeJourney::Complete {
        "cooperative-key-path"@
    } else {
        "cooperative-script-fallback"@
    }
}

/// An array of numbers.
pub open spec fn numbers_doc(values: Seq<u64>) -> JsonView {
    JsonView::Array(values.map_values(|value: u64| number_doc(value)))
}

fn numbers(values: &Vec<u64>) -> (document: Json)
    ensures
        document@ == numbers_doc(values@),
{
    let mut items: Vec<Json> = Vec::new();
    let mut i: usize = 0;
    while i < values.len()
        invariant
            i <= values@.len(),
            items@.len() == i,
            forall|j: int| 0 <= j < i ==> (#[trigger] items@[j])@ == number_doc(values@[j]),
        decreases values@.len() - i,
    {
        items.push(Json::number(values[i]));
        i = i + 1;
    }
    proof {
        lemma_items_view(items@);
        assert(items_view(items@) =~= values@.map_values(|value: u64| number_doc(value)));
    }
    Json::array(items)
}

/// How long the items of a witness are.
pub open spec fn lengths(witness: Seq<Vec<u8>>) -> Seq<u64> {
    witness.map_values(|item: Vec<u8>| item@.len() as u64)
}

fn item_lengths(witness: &Vec<Vec<u8>>) -> (found: Vec<u64>)
    ensures
        found@ == lengths(witness@),
{
    let mut found: Vec<u64> = Vec::new();
    let mut i: usize = 0;
    while i < witness.len()
        invariant
            i <= witness@.len(),
            found@.len() == i,
            forall|j: int| 0 <= j < i ==> #[trigger] found@[j] == witness@[j]@.len() as u64,
        decreases witness@.len() - i,
    {
        found.push(witness[i].len() as u64);
        i = i + 1;
    }
    assert(found@ =~= lengths(witness@));
    found
}

/// The witness of a claim by the joint key.
pub open spec fn key_path_doc() -> JsonView {
    JsonView::Object(
        no_members().insert("path"@, text_doc("key_path"@)).insert(
            "input_count"@,
            number_doc(1),
        ).insert("output_count"@, number_doc(1)).insert(
            "witness_item_count"@,
            number_doc(1),
        ).insert("witness_item_lengths"@, numbers_doc(seq![64u64])).insert(
            "script_item_count"@,
            number_doc(0),
        ).insert("control_block_item_count"@, number_doc(0)).insert(
            "virtual_size"@,
            number_doc(111),
        ).insert("exact_funding_outpoint"@, JsonView::Bool(true)).insert(
            "both_bitcoind_nodes_agree"@,
            JsonView::Bool(true),
        ),
    )
}

/// The witness of a claim by the joint key: what stands under each of its names.
pub proof fn law_key_path_says_each_part_by_its_name()
    ensures
        ({
            let document = key_path_doc();
            &&& member_text(document, "path"@) == Some("key_path"@)
            &&& member(document, "input_count"@) == Some(number_doc(1))
            &&& member(document, "output_count"@) == Some(number_doc(1))
            &&& member(document, "witness_item_count"@) == Some(number_doc(1))
            &&& member(document, "witness_item_lengths"@) == Some(numbers_doc(seq![64u64]))
            &&& member(document, "script_item_count"@) == Some(number_doc(0))
            &&& member(document, "control_block_item_count"@) == Some(number_doc(0))
            &&& member(document, "virtual_size"@) == Some(number_doc(111))
            &&& member(document, "exact_funding_outpoint"@) == Some(JsonView::Bool(true))
            &&& member(document, "both_bitcoind_nodes_agree"@) == Some(JsonView::Bool(true))
        }),
{
    reveal_strlit("path");
    reveal_strlit("input_count");
    reveal_strlit("output_count");
    reveal_strlit("witness_item_count");
    reveal_strlit("witness_item_lengths");
    reveal_strlit("script_item_count");
    reveal_strlit("control_block_item_count");
    reveal_strlit("virtual_size");
    reveal_strlit("exact_funding_outpoint");
    reveal_strlit("both_bitcoind_nodes_agree");
    assert("path"@.len() == 4);
    assert("input_count"@.len() == 11);
    assert("output_count"@.len() == 12);
    assert("witness_item_count"@.len() == 18);
    assert("witness_item_lengths"@.len() == 20);
    assert("script_item_count"@.len() == 17);
    assert("control_block_item_count"@.len() == 24);
    assert("virtual_size"@.len() == 12);
    assert("exact_funding_outpoint"@.len() == 22);
    assert("both_bitcoind_nodes_agree"@.len() == 25);
    assert("output_count"@[0] == 'o');
    assert("virtual_size"@[0] == 'v');
}

/// The witness of a claim by the script of the contract.
pub open spec fn script_claim_doc(
    witness: Seq<Vec<u8>>,
    script: Seq<u8>,
    control: Seq<u8>,
) -> JsonView {
    JsonView::Object(
        no_members().insert("path"@, text_doc("script_claim"@)).insert(
            "input_count"@,
            number_doc(1),
        ).insert("output_count"@, number_doc(1)).insert(
            "witness_item_count"@,
            number_doc(4),
        ).insert("witness_item_lengths"@, numbers_doc(lengths(witness))).insert(
            "taproot_script_bytes"@,
            number_doc(script.len() as u64),
        ).insert("control_block_bytes"@, number_doc(control.len() as u64)).insert(
            "exact_contract_leaf_and_control"@,
            JsonView::Bool(true),
        ).insert("virtual_size"@, number_doc(155)).insert(
            "exact_funding_outpoint"@,
            JsonView::Bool(true),
        ).insert("both_bitcoind_nodes_agree"@, JsonView::Bool(true)),
    )
}

/// The witness of a claim by the script of the contract: what stands under each of its names.
pub proof fn law_script_claim_says_each_part_by_its_name(
    witness: Seq<Vec<u8>>,
    script: Seq<u8>,
    control: Seq<u8>,
)
    ensures
        ({
            let document = script_claim_doc(witness, script, control);
            &&& member_text(document, "path"@) == Some("script_claim"@)
            &&& member(document, "input_count"@) == Some(number_doc(1))
            &&& member(document, "output_count"@) == Some(number_doc(1))
            &&& member(document, "witness_item_count"@) == Some(number_doc(4))
            &&& member(document, "witness_item_lengths"@) == Some(numbers_doc(lengths(witness)))
            &&& member(document, "taproot_script_bytes"@) == Some(number_doc(script.len() as u64))
            &&& member(document, "control_block_bytes"@) == Some(number_doc(control.len() as u64))
            &&& member(document, "exact_contract_leaf_and_control"@) == Some(JsonView::Bool(true))
            &&& member(document, "virtual_size"@) == Some(number_doc(155))
            &&& member(document, "exact_funding_outpoint"@) == Some(JsonView::Bool(true))
            &&& member(document, "both_bitcoind_nodes_agree"@) == Some(JsonView::Bool(true))
        }),
{
    reveal_strlit("path");
    reveal_strlit("input_count");
    reveal_strlit("output_count");
    reveal_strlit("witness_item_count");
    reveal_strlit("witness_item_lengths");
    reveal_strlit("taproot_script_bytes");
    reveal_strlit("control_block_bytes");
    reveal_strlit("exact_contract_leaf_and_control");
    reveal_strlit("virtual_size");
    reveal_strlit("exact_funding_outpoint");
    reveal_strlit("both_bitcoind_nodes_agree");
    assert("path"@.len() == 4);
    assert("input_count"@.len() == 11);
    assert("output_count"@.len() == 12);
    assert("witness_item_count"@.len() == 18);
    assert("witness_item_lengths"@.len() == 20);
    assert("taproot_script_bytes"@.len() == 20);
    assert("control_block_bytes"@.len() == 19);
    assert("exact_contract_leaf_and_control"@.len() == 31);
    assert("virtual_size"@.len() == 12);
    assert("exact_funding_outpoint"@.len() == 22);
    assert("both_bitcoind_nodes_agree"@.len() == 25);
    assert("output_count"@[0] == 'o');
    assert("virtual_size"@[0] == 'v');
    assert("witness_item_lengths"@[0] == 'w');
    assert("taproot_script_bytes"@[0] == 't');
}

/// What two nodes report of a settlement: its bytes, on which they agree.
pub open spec fn agreed_reading(
    primary: JsonView,
    secondary: JsonView,
    settlement_txid: Seq<char>,
    confirmations: u64,
) -> Result<Seq<char>, Seq<char>> {
    match (members_of(Some(primary)), members_of(Some(secondary))) {
        (None, _) => Err("node A cooperative transaction response is not an object"@),
        (_, None) => Err("node B cooperative transaction response is not an object"@),
        (Some(first), Some(second)) => match required_reading(first, "hex"@) {
            Err(message) => Err(message),
            Ok(hex) => if said(second, "hex"@) == Some(hex) && said(first, "txid"@) == Some(
                settlement_txid,
            ) && said(second, "txid"@) == Some(settlement_txid) && reaches(
                counted(first, "confirmations"@),
                confirmations,
            ) && reaches(counted(second, "confirmations"@), confirmations) {
                Ok(hex)
            } else {
                Err("two bitcoind nodes disagree on cooperative settlement"@)
            },
        },
    }
}

/// What two nodes report of a settlement: it can be had exactly where every part that it rests on
/// can, and each part of it is the one that its name says.
pub proof fn law_agreed_is_read_from_its_parts(
    primary: JsonView,
    secondary: JsonView,
    settlement_txid: Seq<char>,
    confirmations: u64,
)
    ensures
        ({
            let read = agreed_reading(primary, secondary, settlement_txid, confirmations);
            let first = members_of(Some(primary))->0;
            let second = members_of(Some(secondary))->0;
            let hex = required_reading(first, "hex"@)->Ok_0;
            let given = read->Ok_0;
            &&& read is Ok <==> {
                &&& members_of(Some(primary)) is Some
                &&& members_of(Some(secondary)) is Some
                &&& required_reading(first, "hex"@) is Ok
                &&& said(second, "hex"@) == Some(hex)
                &&& said(first, "txid"@) == Some(settlement_txid)
                &&& said(second, "txid"@) == Some(settlement_txid)
                &&& reaches(counted(first, "confirmations"@), confirmations)
                &&& reaches(counted(second, "confirmations"@), confirmations)
            }
            &&& read is Ok ==> {
                &&& given == hex
            }
        }),
{
}

/// Whether a count is there and large enough.
pub open spec fn reaches(count: Option<u64>, least: u64) -> bool {
    match count {
        Some(count) => count >= least,
        None => false,
    }
}

fn count_reaches(count: Option<u64>, least: u64) -> (is: bool)
    ensures
        is == reaches(count, least),
{
    match count {
        Some(count) => count >= least,
        None => false,
    }
}

/// What two nodes report of a settlement: its bytes, on which they agree.
pub fn agreed_settlement(
    primary: &Json,
    secondary: &Json,
    settlement_txid: &str,
    confirmations: u64,
) -> (hex: Result<String, String>)
    ensures
        told_text(hex) == agreed_reading(primary@, secondary@, settlement_txid@, confirmations),
{
    let first: &JsonObject = match primary.as_object() {
        Some(members) => members,
        None => {
            return Err("node A cooperative transaction response is not an object".to_owned());
        },
    };
    let second: &JsonObject = match secondary.as_object() {
        Some(members) => members,
        None => {
            return Err("node B cooperative transaction response is not an object".to_owned());
        },
    };
    let hex: &str = required_string(first, "hex")?;
    if !second.says("hex", hex) || !first.says("txid", settlement_txid) || !second.says(
        "txid",
        settlement_txid,
    ) || !count_reaches(first.u64_at("confirmations"), confirmations) || !count_reaches(
        second.u64_at("confirmations"),
        confirmations,
    ) {
        return Err("two bitcoind nodes disagree on cooperative settlement".to_owned());
    }
    Ok(hex.to_owned())
}

/// What the witness of a settlement reads as.
pub open spec fn witness_reading(
    contract: JsonView,
    key_path: bool,
    witness: Seq<Vec<u8>>,
    virtual_size: u64,
) -> Result<JsonView, Seq<char>> {
    if key_path {
        if witness.len() == 1 && witness[0]@.len() == 64 && virtual_size == 111 {
            Ok(key_path_doc())
        } else {
            Err("cooperative key-path witness differs from the 111-vB fixture"@)
        }
    } else {
        match leg_verifier(contract, "source"@) {
            None => Err("funded contract has no "@ + "source"@ + " verifier"@),
            Some(verifier) => match required_bytes(verifier, "claim_script"@) {
                Err(message) => Err(message),
                Ok(script) => match required_bytes(verifier, "taproot_claim_control_block"@) {
                    Err(message) => Err(message),
                    Ok(control) => if witness.len() == 4 && witness[2]@ == script && witness[3]@
                        == control && virtual_size == 155 {
                        Ok(script_claim_doc(witness, script, control))
                    } else {
                        Err("cooperative fallback witness differs from the exact claim leaf"@)
                    },
                },
            },
        }
    }
}

/// What the witness of a settlement reads as: it can be had exactly where every part that it rests
/// on can, and each part of it is the one that its name says.
pub proof fn law_witness_is_read_from_its_parts(
    contract: JsonView,
    key_path: bool,
    witness: Seq<Vec<u8>>,
    virtual_size: u64,
)
    ensures
        ({
            let read = witness_reading(contract, key_path, witness, virtual_size);
            let verifier = leg_verifier(contract, "source"@)->0;
            let script = required_bytes(verifier, "claim_script"@)->Ok_0;
            let control = required_bytes(verifier, "taproot_claim_control_block"@)->Ok_0;
            let given = read->Ok_0;
            let case_1 = {
                &&& key_path
                &&& witness.len() == 1
                &&& witness[0]@.len() == 64
                &&& virtual_size == 111
            };
            let case_2 = {
                &&& !(key_path)
                &&& leg_verifier(contract, "source"@) is Some
                &&& required_bytes(verifier, "claim_script"@) is Ok
                &&& required_bytes(verifier, "taproot_claim_control_block"@) is Ok
                &&& witness.len() == 4
                &&& witness[2]@ == script
                &&& witness[3]@ == control
                &&& virtual_size == 155
            };
            &&& (read is Ok <==> case_1 || case_2)
            &&& read is Ok && case_1 ==> {
                &&& given == key_path_doc()
            }
            &&& read is Ok && case_2 ==> {
                &&& given == script_claim_doc(witness, script, control)
            }
        }),
{
}

/// What a settlement reads as: the witness that unlocked exactly the lock.
pub open spec fn settlement_reading(
    contract: JsonView,
    funding_txid: Seq<char>,
    settlement_txid: Seq<char>,
    confirmations: u64,
    key_path: bool,
    primary: JsonView,
    secondary: JsonView,
    parsed: Result<SettlementShape, Seq<char>>,
) -> Result<JsonView, Seq<char>> {
    match agreed_reading(primary, secondary, settlement_txid, confirmations) {
        Err(message) => Err(message),
        Ok(_) => match parsed {
            Err(message) => Err("cooperative settlement transaction is invalid: "@ + message),
            Ok(shape) => if shape.inputs@.len() == 0 {
                Err("cooperative settlement has no input"@)
            } else if shape.inputs@.len() != 1 || shape.output_count != 1 {
                Err("cooperative settlement does not spend the exact lockup outpoint"@)
            } else {
                match txid_wire_reading(funding_txid) {
                    Err(message) => Err(message),
                    Ok(wire) => if shape.inputs@[0].previous_txid@ != wire
                        || shape.inputs@[0].previous_output != 0 {
                        Err("cooperative settlement does not spend the exact lockup outpoint"@)
                    } else {
                        match shape.virtual_size {
                            Err(message) => Err(
                                "cooperative settlement vsize failed: "@ + message@,
                            ),
                            Ok(size) => witness_reading(
                                contract,
                                key_path,
                                shape.inputs@[0].witness@,
                                size,
                            ),
                        }
                    },
                }
            },
        },
    }
}

/// What a settlement reads as: it can be had exactly where every part that it rests on can, and
/// each part of it is the one that its name says.
pub proof fn law_settlement_is_read_from_its_parts(
    contract: JsonView,
    funding_txid: Seq<char>,
    settlement_txid: Seq<char>,
    confirmations: u64,
    key_path: bool,
    primary: JsonView,
    secondary: JsonView,
    parsed: Result<SettlementShape, Seq<char>>,
)
    ensures
        ({
            let read = settlement_reading(
                contract,
                funding_txid,
                settlement_txid,
                confirmations,
                key_path,
                primary,
                secondary,
                parsed,
            );
            let shape = parsed->Ok_0;
            let size = shape.virtual_size->Ok_0;
            let given = read->Ok_0;
            &&& read is Ok <==> {
                &&& agreed_reading(primary, secondary, settlement_txid, confirmations) is Ok
                &&& parsed is Ok
                &&& shape.inputs@.len() != 0
                &&& shape.inputs@.len() == 1
                &&& shape.output_count == 1
                &&& txid_wire_reading(funding_txid) is Ok
                &&& shape.inputs@[0].previous_txid@ == txid_wire_reading(funding_txid)->Ok_0
                &&& shape.inputs@[0].previous_output == 0
                &&& shape.virtual_size is Ok
                &&& witness_reading(contract, key_path, shape.inputs@[0].witness@, size) is Ok
            }
            &&& read is Ok ==> {
                &&& given == witness_reading(contract, key_path, shape.inputs@[0].witness@, size)->Ok_0
            }
        }),
{
}

fn inspect_witness(
    contract: &Json,
    key_path: bool,
    input: &SpentInput,
    virtual_size: u64,
) -> (document:
    Result<Json, String>)
    ensures
        told_json(document) == witness_reading(contract@, key_path, input.witness@, virtual_size),
{
    if key_path {
        if input.witness.len() != 1 || input.witness[0].len() != 64 || virtual_size != 111 {
            return Err("cooperative key-path witness differs from the 111-vB fixture".to_owned());
        }
        let sizes: Vec<u64> = vec![64];
        assert(sizes@ =~= seq![64u64]);
        return Ok(
            Json::object(
                JsonObject::new().with_text("path", "key_path").with_number(
                    "input_count",
                    1,
                ).with_number("output_count", 1).with_number("witness_item_count", 1).with(
                    "witness_item_lengths",
                    numbers(&sizes),
                ).with_number("script_item_count", 0).with_number(
                    "control_block_item_count",
                    0,
                ).with_number("virtual_size", 111).with_bool(
                    "exact_funding_outpoint",
                    true,
                ).with_bool("both_bitcoind_nodes_agree", true),
            ),
        );
    }
    let verifier: &JsonObject = verifier_for_leg(contract, "source")?;
    let script: Vec<u8> = bytes_member(verifier, "claim_script")?;
    let control: Vec<u8> = bytes_member(verifier, "taproot_claim_control_block")?;
    if input.witness.len() != 4 || !same_bytes(&input.witness[2], &script) || !same_bytes(
        &input.witness[3],
        &control,
    ) || virtual_size != 155 {
        return Err("cooperative fallback witness differs from the exact claim leaf".to_owned());
    }
    Ok(
        Json::object(
            JsonObject::new().with_text("path", "script_claim").with_number(
                "input_count",
                1,
            ).with_number("output_count", 1).with_number("witness_item_count", 4).with(
                "witness_item_lengths",
                numbers(&item_lengths(&input.witness)),
            ).with("taproot_script_bytes", Json::number(script.len() as u64)).with(
                "control_block_bytes",
                Json::number(control.len() as u64),
            ).with_bool("exact_contract_leaf_and_control", true).with_number(
                "virtual_size",
                155,
            ).with_bool("exact_funding_outpoint", true).with_bool(
                "both_bitcoind_nodes_agree",
                true,
            ),
        ),
    )
}

fn same_wire(bytes: &Vec<u8>, wire: &[u8; 32]) -> (same: bool)
    ensures
        same == (bytes@ == wire@),
{
    if bytes.len() != 32 {
        return false;
    }
    let mut i: usize = 0;
    while i < 32
        invariant
            i <= 32,
            bytes@.len() == 32,
            forall|j: int| 0 <= j < i ==> bytes@[j] == wire@[j],
        decreases 32 - i,
    {
        if bytes[i] != wire[i] {
            return false;
        }
        i = i + 1;
    }
    assert(bytes@ =~= wire@);
    true
}

/// Checks that a settlement unlocks exactly the lock and describes its witness.
pub fn inspect_cooperative_settlement(
    contract: &Json,
    funding_txid: &str,
    settlement_txid: &str,
    confirmations: u64,
    key_path: bool,
    primary: &Json,
    secondary: &Json,
    parsed: &Result<SettlementShape, String>,
) -> (witness: Result<Json, String>)
    ensures
        told_json(witness) == settlement_reading(
            contract@,
            funding_txid@,
            settlement_txid@,
            confirmations,
            key_path,
            primary@,
            secondary@,
            told(*parsed),
        ),
{
    let _agreed: String = agreed_settlement(primary, secondary, settlement_txid, confirmations)?;
    let shape: &SettlementShape = match parsed {
        Ok(shape) => shape,
        Err(message) => {
            return Err(join("cooperative settlement transaction is invalid: ", message.as_str()));
        },
    };
    if shape.inputs.len() == 0 {
        return Err("cooperative settlement has no input".to_owned());
    }
    if shape.inputs.len() != 1 || shape.output_count != 1 {
        return Err("cooperative settlement does not spend the exact lockup outpoint".to_owned());
    }
    let wire: [u8; 32] = display_txid_wire(funding_txid)?;
    if !same_wire(&shape.inputs[0].previous_txid, &wire) || shape.inputs[0].previous_output != 0 {
        return Err("cooperative settlement does not spend the exact lockup outpoint".to_owned());
    }
    match &shape.virtual_size {
        Ok(size) => inspect_witness(contract, key_path, &shape.inputs[0], *size),
        Err(message) => Err(join("cooperative settlement vsize failed: ", message.as_str())),
    }
}

/// The phases of a jointly signed swap, in their order.
#[derive(Clone, Copy, Debug, PartialEq, Eq, Structural)]
pub enum CooperativePhase {
    CreateInvoice,
    PrepareOrder,
    CountExits,
    AwaitAccepted,
    AwaitLockTerms,
    TakeFunding,
    AuthorizeFunding,
    KeepAuthorization,
    SayVerified,
    KeepReady,
    BroadcastFunding,
    RecordFunding,
    SayFunding,
    MineFunding,
    AwaitObserved,
    AwaitFinal,
    AwaitPaymentPending,
    AwaitPaid,
    AwaitCommitment,
    ReadHeight,
    BeginRound,
    RegisterCommitment,
    SayCommitment,
    AwaitNonce,
    KeepNonce,
    AbortAfterCrash,
    AbortRound,
    SayAbort,
    AwaitAbort,
    Aborted,
    RevealNonce,
    SayNonce,
    AwaitPartial,
    SignPartial,
    SayPartial,
    AwaitFinalSignature,
    Signed,
}

impl CooperativePhase {
    /// The place of the phase in their order.
    pub open spec fn rank(self) -> int {
        match self {
            CooperativePhase::CreateInvoice => 0,
            CooperativePhase::PrepareOrder => 1,
            CooperativePhase::CountExits => 2,
            CooperativePhase::AwaitAccepted => 3,
            CooperativePhase::AwaitLockTerms => 4,
            CooperativePhase::TakeFunding => 5,
            CooperativePhase::AuthorizeFunding => 6,
            CooperativePhase::KeepAuthorization => 7,
            CooperativePhase::SayVerified => 8,
            CooperativePhase::KeepReady => 9,
            CooperativePhase::BroadcastFunding => 10,
            CooperativePhase::RecordFunding => 11,
            CooperativePhase::SayFunding => 12,
            CooperativePhase::MineFunding => 13,
            CooperativePhase::AwaitObserved => 14,
            CooperativePhase::AwaitFinal => 15,
            CooperativePhase::AwaitPaymentPending => 16,
            CooperativePhase::AwaitPaid => 17,
            CooperativePhase::AwaitCommitment => 18,
            CooperativePhase::ReadHeight => 19,
            CooperativePhase::BeginRound => 20,
            CooperativePhase::RegisterCommitment => 21,
            CooperativePhase::SayCommitment => 22,
            CooperativePhase::AwaitNonce => 23,
            CooperativePhase::KeepNonce => 24,
            CooperativePhase::AbortAfterCrash => 25,
            CooperativePhase::AbortRound => 26,
            CooperativePhase::SayAbort => 27,
            CooperativePhase::AwaitAbort => 28,
            CooperativePhase::Aborted => 29,
            CooperativePhase::RevealNonce => 30,
            CooperativePhase::SayNonce => 31,
            CooperativePhase::AwaitPartial => 32,
            CooperativePhase::SignPartial => 33,
            CooperativePhase::SayPartial => 34,
            CooperativePhase::AwaitFinalSignature => 35,
            CooperativePhase::Signed => 36,
        }
    }
}

/// A submarine swap whose claim both sides sign together.
pub struct CooperativeRun {
    pub phase: CooperativePhase,
    pub journey: CooperativeJourney,
    pub payment_hash: String,
    pub invoice: String,
    pub order_id: String,
    pub contract: Json,
    pub lockup_txid: String,
    pub lockup_output: u32,
    pub funding_hex: String,
    pub provider_commitment_id: String,
    pub provider_commitment: Option<String>,
    pub registered_commitment: String,
    pub height: u32,
    pub requester_commitment_id: String,
    pub provider_nonce_id: String,
    pub requester_abort_id: String,
    pub provider_abort_id: String,
    pub provider_nonce: String,
    pub requester_nonce: String,
    pub requester_nonce_id: String,
    pub provider_partial_id: String,
    pub provider_partial: Option<String>,
    pub requester_partial_id: String,
    pub provider_final_id: String,
}

/// A submarine swap whose claim both sides sign together.
#[verifier::ext_equal]
pub struct CooperativeRunView {
    pub phase: CooperativePhase,
    pub journey: CooperativeJourney,
    pub payment_hash: Seq<char>,
    pub invoice: Seq<char>,
    pub order_id: Seq<char>,
    pub contract: JsonView,
    pub lockup_txid: Seq<char>,
    pub lockup_output: u32,
    pub funding_hex: Seq<char>,
    pub provider_commitment_id: Seq<char>,
    pub provider_commitment: Option<Seq<char>>,
    pub registered_commitment: Seq<char>,
    pub height: u32,
    pub requester_commitment_id: Seq<char>,
    pub provider_nonce_id: Seq<char>,
    pub requester_abort_id: Seq<char>,
    pub provider_abort_id: Seq<char>,
    pub provider_nonce: Seq<char>,
    pub requester_nonce: Seq<char>,
    pub requester_nonce_id: Seq<char>,
    pub provider_partial_id: Seq<char>,
    pub provider_partial: Option<Seq<char>>,
    pub requester_partial_id: Seq<char>,
    pub provider_final_id: Seq<char>,
}

impl View for CooperativeRun {
    type V = CooperativeRunView;

    open spec fn view(&self) -> CooperativeRunView {
        CooperativeRunView {
            phase: self.phase,
            journey: self.journey,
            payment_hash: self.payment_hash@,
            invoice: self.invoice@,
            order_id: self.order_id@,
            contract: self.contract@,
            lockup_txid: self.lockup_txid@,
            lockup_output: self.lockup_output,
            funding_hex: self.funding_hex@,
            provider_commitment_id: self.provider_commitment_id@,
            provider_commitment: maybe(self.provider_commitment),
            registered_commitment: self.registered_commitment@,
            height: self.height,
            requester_commitment_id: self.requester_commitment_id@,
            provider_nonce_id: self.provider_nonce_id@,
            requester_abort_id: self.requester_abort_id@,
            provider_abort_id: self.provider_abort_id@,
            provider_nonce: self.provider_nonce@,
            requester_nonce: self.requester_nonce@,
            requester_nonce_id: self.requester_nonce_id@,
            provider_partial_id: self.provider_partial_id@,
            provider_partial: maybe(self.provider_partial),
            requester_partial_id: self.requester_partial_id@,
            provider_final_id: self.provider_final_id@,
        }
    }
}

/// What a jointly signed swap asks for next.
pub open spec fn cooperative_action(run: CooperativeRunView) -> ActionView {
    match run.phase {
        CooperativePhase::CreateInvoice => ActionView::Perform(
            Task::CreateInvoice,
            seq![
                "immortal-funded-"@ + run.journey.label(),
                decimal(OUTPUT_AMOUNT_SAT as nat),
                "Immortal adversarial cooperative submarine"@,
                decimal(INVOICE_EXPIRY_SECONDS as nat),
            ],
        ),
        CooperativePhase::PrepareOrder => ActionView::Perform(
            Task::PrepareOrder,
            seq![run.payment_hash, run.invoice],
        ),
        CooperativePhase::CountExits => ActionView::Perform(Task::CountExits, seq![]),
        CooperativePhase::AwaitAccepted => ActionView::AwaitState("accepted"@),
        CooperativePhase::AwaitLockTerms => ActionView::AwaitState("lock_terms_ready"@),
        CooperativePhase::TakeFunding => ActionView::Perform(Task::TakeFunding, seq![]),
        CooperativePhase::AuthorizeFunding => ActionView::Perform(
            Task::AuthorizeFunding,
            seq![run.invoice],
        ),
        CooperativePhase::KeepAuthorization => ActionView::Perform(Task::KeepAuthorization, seq![]),
        CooperativePhase::SayVerified => ActionView::Say(
            "requester_verification_passed"@,
            no_members(),
        ),
        CooperativePhase::KeepReady => ActionView::Keep(
            "funding_execution_ready"@,
            effect_doc(run.lockup_txid),
        ),
        CooperativePhase::BroadcastFunding => ActionView::Perform(
            Task::BroadcastBitcoin,
            seq!["cooperative-funding"@, run.funding_hex, run.lockup_txid],
        ),
        CooperativePhase::RecordFunding => ActionView::Perform(
            Task::RecordFundingEffect,
            seq![run.lockup_txid, run.funding_hex, "text"@],
        ),
        CooperativePhase::SayFunding => ActionView::Say(
            "requester_funding_broadcast"@,
            no_members().insert("transaction_id"@, text_doc(run.lockup_txid)).insert(
                "output_index"@,
                number_doc(0),
            ),
        ),
        CooperativePhase::MineFunding => ActionView::Mine("bitcoin"@, 1, "cooperative-funding"@),
        CooperativePhase::AwaitObserved => ActionView::AwaitState("funding_observed"@),
        CooperativePhase::AwaitFinal => ActionView::AwaitState("funding_final"@),
        CooperativePhase::AwaitPaymentPending => ActionView::AwaitState(
            "lightning_payment_pending"@,
        ),
        CooperativePhase::AwaitPaid => ActionView::AwaitState("lightning_paid"@),
        CooperativePhase::AwaitCommitment => ActionView::Perform(
            Task::AwaitCooperative,
            seq!["nonce_commitment"@],
        ),
        CooperativePhase::ReadHeight => ActionView::Perform(
            Task::ReadHeight,
            seq!["cooperative-round"@],
        ),
        CooperativePhase::BeginRound => ActionView::Perform(
            Task::BeginSigningRound,
            seq![decimal(run.height as nat)],
        ),
        CooperativePhase::RegisterCommitment => ActionView::Perform(
            Task::RegisterCommitment,
            seq![run.registered_commitment, decimal(run.height as nat)],
        ),
        CooperativePhase::SayCommitment => ActionView::Perform(
            Task::SayCooperative,
            seq!["nonce_commitment"@],
        ),
        CooperativePhase::AwaitNonce => ActionView::Perform(
            Task::AwaitCooperative,
            seq!["public_nonce"@],
        ),
        CooperativePhase::KeepNonce => ActionView::Keep(
            "provider_public_nonce_persisted"@,
            JsonView::Object(no_members().insert("status_id"@, text_doc(run.provider_nonce_id))),
        ),
        CooperativePhase::AbortAfterCrash => ActionView::Perform(Task::AbortRound, seq![]),
        CooperativePhase::AbortRound => ActionView::Perform(Task::AbortRound, seq![]),
        CooperativePhase::SayAbort => ActionView::Perform(
            Task::SayCooperative,
            seq!["aborted"@, "wallet_refused"@],
        ),
        CooperativePhase::AwaitAbort => ActionView::Perform(
            Task::AwaitCooperative,
            seq!["aborted"@],
        ),
        CooperativePhase::Aborted => ActionView::Finish,
        CooperativePhase::RevealNonce => ActionView::Perform(
            Task::RevealNonce,
            seq![decimal(run.height as nat)],
        ),
        CooperativePhase::SayNonce => ActionView::Perform(
            Task::SayCooperative,
            seq!["public_nonce"@, run.requester_nonce],
        ),
        CooperativePhase::AwaitPartial => ActionView::Perform(
            Task::AwaitCooperative,
            seq!["partial_signature"@],
        ),
        CooperativePhase::SignPartial => ActionView::Perform(
            Task::SignCooperatively,
            seq![decimal(run.height as nat), run.requester_nonce, run.provider_nonce],
        ),
        CooperativePhase::SayPartial => ActionView::Perform(
            Task::SayCooperative,
            seq!["partial_signature"@, run.requester_nonce, run.provider_nonce],
        ),
        CooperativePhase::AwaitFinalSignature => ActionView::Perform(
            Task::AwaitCooperative,
            seq!["final_signature"@],
        ),
        CooperativePhase::Signed => ActionView::Finish,
    }
}

/// Where a reply takes a jointly signed swap.
pub open spec fn cooperative_step(run: CooperativeRunView, reply: ReplyView) -> Result<
    CooperativeRunView,
    Seq<char>,
> {
    match (run.phase, reply) {
        (CooperativePhase::CreateInvoice, ReplyView::Texts(texts)) => {
            if texts.len() != 2 {
                Err(wrong_reply())
            } else {
                Ok(
                    CooperativeRunView {
                        phase: CooperativePhase::PrepareOrder,
                        payment_hash: texts[0],
                        invoice: texts[1],
                        ..run
                    },
                )
            }
        },
        (CooperativePhase::PrepareOrder, ReplyView::Session { order_id, contract }) => Ok(
            CooperativeRunView {
                phase: CooperativePhase::CountExits,
                order_id: order_id,
                contract: contract,
                ..run
            },
        ),
        (CooperativePhase::CountExits, ReplyView::Number(value)) => {
            if !binds_two_exits(run.contract, value) {
                Err("adversarial provider did not bind two cooperative exits"@)
            } else {
                Ok(CooperativeRunView { phase: CooperativePhase::AwaitAccepted, ..run })
            }
        },
        (CooperativePhase::AwaitAccepted, ReplyView::Record { .. }) => Ok(
            CooperativeRunView { phase: CooperativePhase::AwaitLockTerms, ..run },
        ),
        (CooperativePhase::AwaitLockTerms, ReplyView::Record { .. }) => Ok(
            CooperativeRunView { phase: CooperativePhase::TakeFunding, ..run },
        ),
        (CooperativePhase::TakeFunding, ReplyView::Funding { receipt, id, output_index, hex }) => Ok(
            CooperativeRunView {
                phase: CooperativePhase::AuthorizeFunding,
                lockup_txid: id,
                lockup_output: output_index,
                funding_hex: hex,
                ..run
            },
        ),
        (CooperativePhase::TakeFunding, ReplyView::Done) => Err(
            "cooperative session has no contract-bound funding"@,
        ),
        (CooperativePhase::AuthorizeFunding, ReplyView::Done) => Ok(
            CooperativeRunView { phase: CooperativePhase::KeepAuthorization, ..run },
        ),
        (CooperativePhase::KeepAuthorization, ReplyView::Done) => Ok(
            CooperativeRunView { phase: CooperativePhase::SayVerified, ..run },
        ),
        (CooperativePhase::SayVerified, ReplyView::Record { .. }) => Ok(
            CooperativeRunView { phase: CooperativePhase::KeepReady, ..run },
        ),
        (CooperativePhase::KeepReady, ReplyView::Done) => Ok(
            CooperativeRunView { phase: CooperativePhase::BroadcastFunding, ..run },
        ),
        (CooperativePhase::BroadcastFunding, ReplyView::Done) => Ok(
            CooperativeRunView { phase: CooperativePhase::RecordFunding, ..run },
        ),
        (CooperativePhase::RecordFunding, ReplyView::Done) => Ok(
            CooperativeRunView { phase: CooperativePhase::SayFunding, ..run },
        ),
        (CooperativePhase::SayFunding, ReplyView::Record { .. }) => Ok(
            CooperativeRunView { phase: CooperativePhase::MineFunding, ..run },
        ),
        (CooperativePhase::MineFunding, ReplyView::Done) => Ok(
            CooperativeRunView { phase: CooperativePhase::AwaitObserved, ..run },
        ),
        (CooperativePhase::AwaitObserved, ReplyView::Record { .. }) => Ok(
            CooperativeRunView { phase: CooperativePhase::AwaitFinal, ..run },
        ),
        (CooperativePhase::AwaitFinal, ReplyView::Record { .. }) => Ok(
            CooperativeRunView { phase: CooperativePhase::AwaitPaymentPending, ..run },
        ),
        (CooperativePhase::AwaitPaymentPending, ReplyView::Record { .. }) => Ok(
            CooperativeRunView { phase: CooperativePhase::AwaitPaid, ..run },
        ),
        (CooperativePhase::AwaitPaid, ReplyView::Record { .. }) => Ok(
            CooperativeRunView { phase: CooperativePhase::AwaitCommitment, ..run },
        ),
        (CooperativePhase::AwaitCommitment, ReplyView::Signing { id, value, values, .. }) => Ok(
            CooperativeRunView {
                phase: CooperativePhase::ReadHeight,
                provider_commitment_id: id,
                provider_commitment: value,
                ..run
            },
        ),
        (CooperativePhase::ReadHeight, ReplyView::Number(value)) => match height_reading(
            value,
            "Bitcoin chain height exceeds u32"@,
        ) {
            Err(message) => Err(message),
            Ok(height) => Ok(
                CooperativeRunView { phase: CooperativePhase::BeginRound, height: height, ..run },
            ),
        },
        (CooperativePhase::BeginRound, ReplyView::Done) => match signed_value_reading(
            run.provider_commitment,
            "provider commitment Status has no commitment"@,
            "provider nonce commitment"@,
            32,
        ) {
            Err(message) => Err(message),
            Ok(bytes) => Ok(
                CooperativeRunView {
                    phase: CooperativePhase::RegisterCommitment,
                    registered_commitment: hex_text(bytes),
                    ..run
                },
            ),
        },
        (CooperativePhase::RegisterCommitment, ReplyView::Done) => Ok(
            CooperativeRunView { phase: CooperativePhase::SayCommitment, ..run },
        ),
        (CooperativePhase::SayCommitment, ReplyView::Record { id, pubkey, tags, content, .. }) => Ok(
            CooperativeRunView {
                phase: CooperativePhase::AwaitNonce,
                requester_commitment_id: id,
                ..run
            },
        ),
        (CooperativePhase::AwaitNonce, ReplyView::Signing { id, value, values, .. }) => match nonce_reading(
            run.journey,
            value,
        ) {
            Err(message) => Err(message),
            Ok(nonce) => {
                if run.journey == CooperativeJourney::Complete {
                    Ok(
                        CooperativeRunView {
                            phase: CooperativePhase::RevealNonce,
                            provider_nonce_id: id,
                            provider_nonce: nonce,
                            ..run
                        },
                    )
                } else if run.journey == CooperativeJourney::CrashCutRecovery {
                    Ok(
                        CooperativeRunView {
                            phase: CooperativePhase::KeepNonce,
                            provider_nonce_id: id,
                            provider_nonce: nonce,
                            ..run
                        },
                    )
                } else {
                    Ok(
                        CooperativeRunView {
                            phase: CooperativePhase::AbortRound,
                            provider_nonce_id: id,
                            provider_nonce: nonce,
                            ..run
                        },
                    )
                }
            },
        },
        (CooperativePhase::KeepNonce, ReplyView::Done) => Ok(
            CooperativeRunView { phase: CooperativePhase::AbortAfterCrash, ..run },
        ),
        (CooperativePhase::AbortAfterCrash, ReplyView::Done) => Ok(
            CooperativeRunView { phase: CooperativePhase::AwaitAbort, ..run },
        ),
        (CooperativePhase::AbortRound, ReplyView::Done) => Ok(
            CooperativeRunView { phase: CooperativePhase::SayAbort, ..run },
        ),
        (CooperativePhase::SayAbort, ReplyView::Record { id, pubkey, tags, content, .. }) => Ok(
            CooperativeRunView {
                phase: CooperativePhase::AwaitAbort,
                requester_abort_id: id,
                ..run
            },
        ),
        (CooperativePhase::AwaitAbort, ReplyView::Signing { id, value, values, .. }) => Ok(
            CooperativeRunView { phase: CooperativePhase::Aborted, provider_abort_id: id, ..run },
        ),
        (CooperativePhase::RevealNonce, ReplyView::Texts(texts)) => {
            if texts.len() != 1 {
                Err(wrong_reply())
            } else {
                Ok(
                    CooperativeRunView {
                        phase: CooperativePhase::SayNonce,
                        requester_nonce: texts[0],
                        ..run
                    },
                )
            }
        },
        (CooperativePhase::SayNonce, ReplyView::Record { id, pubkey, tags, content, .. }) => Ok(
            CooperativeRunView {
                phase: CooperativePhase::AwaitPartial,
                requester_nonce_id: id,
                ..run
            },
        ),
        (CooperativePhase::AwaitPartial, ReplyView::Signing { id, value, values, .. }) => Ok(
            CooperativeRunView {
                phase: CooperativePhase::SignPartial,
                provider_partial_id: id,
                provider_partial: value,
                ..run
            },
        ),
        (CooperativePhase::SignPartial, ReplyView::Done) => Ok(
            CooperativeRunView { phase: CooperativePhase::SayPartial, ..run },
        ),
        (CooperativePhase::SayPartial, ReplyView::Record { id, pubkey, tags, content, .. }) => Ok(
            CooperativeRunView {
                phase: CooperativePhase::AwaitFinalSignature,
                requester_partial_id: id,
                ..run
            },
        ),
        (CooperativePhase::AwaitFinalSignature, ReplyView::Signing { id, value, values, .. }) => match signed_value_reading(
            run.provider_partial,
            "provider partial Status has no partial"@,
            "provider partial signature"@,
            32,
        ) {
            Err(message) => Err(message),
            Ok(bytes) => {
                if values.len() < 2 || values[1] != hex_text(bytes) {
                    Err("provider final Status changed its partial signature"@)
                } else {
                    Ok(
                        CooperativeRunView {
                            phase: CooperativePhase::Signed,
                            provider_final_id: id,
                            ..run
                        },
                    )
                }
            },
        },
        _ => Err(wrong_reply()),
    }
}

impl CooperativeRun {
    /// A jointly signed swap before its first action.
    pub fn new(journey: CooperativeJourney) -> (run: CooperativeRun)
        ensures
            run@.phase == CooperativePhase::CreateInvoice,
            run@.journey == journey,
            run@.payment_hash == Seq::<char>::empty(),
            run@.invoice == Seq::<char>::empty(),
            run@.order_id == Seq::<char>::empty(),
            run@.contract == JsonView::Null,
            run@.lockup_txid == Seq::<char>::empty(),
            run@.lockup_output == 0,
            run@.funding_hex == Seq::<char>::empty(),
            run@.provider_commitment_id == Seq::<char>::empty(),
            run@.provider_commitment is None,
            run@.registered_commitment == Seq::<char>::empty(),
            run@.height == 0,
            run@.requester_commitment_id == Seq::<char>::empty(),
            run@.provider_nonce_id == Seq::<char>::empty(),
            run@.requester_abort_id == Seq::<char>::empty(),
            run@.provider_abort_id == Seq::<char>::empty(),
            run@.provider_nonce == Seq::<char>::empty(),
            run@.requester_nonce == Seq::<char>::empty(),
            run@.requester_nonce_id == Seq::<char>::empty(),
            run@.provider_partial_id == Seq::<char>::empty(),
            run@.provider_partial is None,
            run@.requester_partial_id == Seq::<char>::empty(),
            run@.provider_final_id == Seq::<char>::empty(),
    {
        CooperativeRun {
            phase: CooperativePhase::CreateInvoice,
            journey,
            payment_hash: String::new(),
            invoice: String::new(),
            order_id: String::new(),
            contract: Json::null(),
            lockup_txid: String::new(),
            lockup_output: 0,
            funding_hex: String::new(),
            provider_commitment_id: String::new(),
            provider_commitment: None,
            registered_commitment: String::new(),
            height: 0,
            requester_commitment_id: String::new(),
            provider_nonce_id: String::new(),
            requester_abort_id: String::new(),
            provider_abort_id: String::new(),
            provider_nonce: String::new(),
            requester_nonce: String::new(),
            requester_nonce_id: String::new(),
            provider_partial_id: String::new(),
            provider_partial: None,
            requester_partial_id: String::new(),
            provider_final_id: String::new(),
        }
    }

    /// What the journey asks for next.
    pub fn action(&self) -> (action: Action)
        ensures
            action@ == cooperative_action(self@),
    {
        match self.phase {
            CooperativePhase::CreateInvoice => perform_with_four(
                Task::CreateInvoice,
                join("immortal-funded-", self.journey.name()).as_str(),
                decimal_text(OUTPUT_AMOUNT_SAT).as_str(),
                "Immortal adversarial cooperative submarine",
                decimal_text(INVOICE_EXPIRY_SECONDS).as_str(),
            ),
            CooperativePhase::PrepareOrder => perform_with_two(
                Task::PrepareOrder,
                self.payment_hash.as_str(),
                self.invoice.as_str(),
            ),
            CooperativePhase::CountExits => perform(Task::CountExits),
            CooperativePhase::AwaitAccepted => Action::AwaitState("accepted"),
            CooperativePhase::AwaitLockTerms => Action::AwaitState("lock_terms_ready"),
            CooperativePhase::TakeFunding => perform(Task::TakeFunding),
            CooperativePhase::AuthorizeFunding => perform_with(
                Task::AuthorizeFunding,
                self.invoice.as_str(),
            ),
            CooperativePhase::KeepAuthorization => perform(Task::KeepAuthorization),
            CooperativePhase::SayVerified => Action::Say(
                "requester_verification_passed",
                JsonObject::new(),
            ),
            CooperativePhase::KeepReady => Action::Keep(
                "funding_execution_ready",
                effect_details(self.lockup_txid.as_str()),
            ),
            CooperativePhase::BroadcastFunding => perform_with_three(
                Task::BroadcastBitcoin,
                "cooperative-funding",
                self.funding_hex.as_str(),
                self.lockup_txid.as_str(),
            ),
            CooperativePhase::RecordFunding => perform_with_three(
                Task::RecordFundingEffect,
                self.lockup_txid.as_str(),
                self.funding_hex.as_str(),
                "text",
            ),
            CooperativePhase::SayFunding => Action::Say(
                "requester_funding_broadcast",
                JsonObject::new().with_text(
                    "transaction_id",
                    self.lockup_txid.as_str(),
                ).with_number("output_index", 0),
            ),
            CooperativePhase::MineFunding => Action::Mine(
                "bitcoin".to_owned(),
                1,
                "cooperative-funding",
            ),
            CooperativePhase::AwaitObserved => Action::AwaitState("funding_observed"),
            CooperativePhase::AwaitFinal => Action::AwaitState("funding_final"),
            CooperativePhase::AwaitPaymentPending => Action::AwaitState(
                "lightning_payment_pending",
            ),
            CooperativePhase::AwaitPaid => Action::AwaitState("lightning_paid"),
            CooperativePhase::AwaitCommitment => perform_with(
                Task::AwaitCooperative,
                "nonce_commitment",
            ),
            CooperativePhase::ReadHeight => perform_with(Task::ReadHeight, "cooperative-round"),
            CooperativePhase::BeginRound => perform_with(
                Task::BeginSigningRound,
                decimal_text(self.height as u64).as_str(),
            ),
            CooperativePhase::RegisterCommitment => perform_with_two(
                Task::RegisterCommitment,
                self.registered_commitment.as_str(),
                decimal_text(self.height as u64).as_str(),
            ),
            CooperativePhase::SayCommitment => perform_with(
                Task::SayCooperative,
                "nonce_commitment",
            ),
            CooperativePhase::AwaitNonce => perform_with(Task::AwaitCooperative, "public_nonce"),
            CooperativePhase::KeepNonce => Action::Keep(
                "provider_public_nonce_persisted",
                Json::object(
                    JsonObject::new().with_text("status_id", self.provider_nonce_id.as_str()),
                ),
            ),
            CooperativePhase::AbortAfterCrash => perform(Task::AbortRound),
            CooperativePhase::AbortRound => perform(Task::AbortRound),
            CooperativePhase::SayAbort => perform_with_two(
                Task::SayCooperative,
                "aborted",
                "wallet_refused",
            ),
            CooperativePhase::AwaitAbort => perform_with(Task::AwaitCooperative, "aborted"),
            CooperativePhase::Aborted => Action::Finish,
            CooperativePhase::RevealNonce => perform_with(
                Task::RevealNonce,
                decimal_text(self.height as u64).as_str(),
            ),
            CooperativePhase::SayNonce => perform_with_two(
                Task::SayCooperative,
                "public_nonce",
                self.requester_nonce.as_str(),
            ),
            CooperativePhase::AwaitPartial => perform_with(
                Task::AwaitCooperative,
                "partial_signature",
            ),
            CooperativePhase::SignPartial => perform_with_three(
                Task::SignCooperatively,
                decimal_text(self.height as u64).as_str(),
                self.requester_nonce.as_str(),
                self.provider_nonce.as_str(),
            ),
            CooperativePhase::SayPartial => perform_with_three(
                Task::SayCooperative,
                "partial_signature",
                self.requester_nonce.as_str(),
                self.provider_nonce.as_str(),
            ),
            CooperativePhase::AwaitFinalSignature => perform_with(
                Task::AwaitCooperative,
                "final_signature",
            ),
            CooperativePhase::Signed => Action::Finish,
        }
    }

    /// Takes a reply: the journey goes on to its next phase, or ends with a message.
    #[verifier::rlimit(100)]
    pub fn advance(&mut self, reply: Reply) -> (moved: Result<(), String>)
        ensures
            match moved {
                Ok(_) => cooperative_step(
                    old(self)@,
                    reply@,
                ) == Ok::<CooperativeRunView, Seq<char>>(final(self)@),
                Err(message) => {
                    &&& cooperative_step(
                        old(self)@,
                        reply@,
                    ) == Err::<CooperativeRunView, Seq<char>>(message@)
                    &&& final(self)@ == old(self)@
                },
            },
    {
        match (self.phase, reply) {
            (CooperativePhase::CreateInvoice, Reply::Texts(texts)) => {
                if texts.len() != 2 {
                    return Err(wrong_reply_text());
                }
                self.payment_hash = texts[0].clone();
                self.invoice = texts[1].clone();
                self.phase = CooperativePhase::PrepareOrder;
                Ok(())
            },
            (CooperativePhase::PrepareOrder, Reply::Session { order_id, contract }) => {
                self.order_id = order_id;
                self.contract = contract;
                self.phase = CooperativePhase::CountExits;
                Ok(())
            },
            (CooperativePhase::CountExits, Reply::Number(value)) => {
                if !two_exits(&self.contract, value) {
                    return Err(
                        "adversarial provider did not bind two cooperative exits".to_owned(),
                    );
                }
                self.phase = CooperativePhase::AwaitAccepted;
                Ok(())
            },
            (CooperativePhase::AwaitAccepted, Reply::Record(_)) => {
                self.phase = CooperativePhase::AwaitLockTerms;
                Ok(())
            },
            (CooperativePhase::AwaitLockTerms, Reply::Record(_)) => {
                self.phase = CooperativePhase::TakeFunding;
                Ok(())
            },
            (CooperativePhase::TakeFunding, Reply::Funding { receipt: _, id, output_index, hex }) => {
                self.lockup_txid = id;
                self.lockup_output = output_index;
                self.funding_hex = hex;
                self.phase = CooperativePhase::AuthorizeFunding;
                Ok(())
            },
            (CooperativePhase::TakeFunding, Reply::Done) => {
                Err("cooperative session has no contract-bound funding".to_owned())
            },
            (CooperativePhase::AuthorizeFunding, Reply::Done) => {
                self.phase = CooperativePhase::KeepAuthorization;
                Ok(())
            },
            (CooperativePhase::KeepAuthorization, Reply::Done) => {
                self.phase = CooperativePhase::SayVerified;
                Ok(())
            },
            (CooperativePhase::SayVerified, Reply::Record(_)) => {
                self.phase = CooperativePhase::KeepReady;
                Ok(())
            },
            (CooperativePhase::KeepReady, Reply::Done) => {
                self.phase = CooperativePhase::BroadcastFunding;
                Ok(())
            },
            (CooperativePhase::BroadcastFunding, Reply::Done) => {
                self.phase = CooperativePhase::RecordFunding;
                Ok(())
            },
            (CooperativePhase::RecordFunding, Reply::Done) => {
                self.phase = CooperativePhase::SayFunding;
                Ok(())
            },
            (CooperativePhase::SayFunding, Reply::Record(_)) => {
                self.phase = CooperativePhase::MineFunding;
                Ok(())
            },
            (CooperativePhase::MineFunding, Reply::Done) => {
                self.phase = CooperativePhase::AwaitObserved;
                Ok(())
            },
            (CooperativePhase::AwaitObserved, Reply::Record(_)) => {
                self.phase = CooperativePhase::AwaitFinal;
                Ok(())
            },
            (CooperativePhase::AwaitFinal, Reply::Record(_)) => {
                self.phase = CooperativePhase::AwaitPaymentPending;
                Ok(())
            },
            (CooperativePhase::AwaitPaymentPending, Reply::Record(_)) => {
                self.phase = CooperativePhase::AwaitPaid;
                Ok(())
            },
            (CooperativePhase::AwaitPaid, Reply::Record(_)) => {
                self.phase = CooperativePhase::AwaitCommitment;
                Ok(())
            },
            (CooperativePhase::AwaitCommitment, Reply::Signing { id, value, values, .. }) => {
                self.provider_commitment_id = id;
                self.provider_commitment = value;
                self.phase = CooperativePhase::ReadHeight;
                Ok(())
            },
            (CooperativePhase::ReadHeight, Reply::Number(value)) => {
                let height: u32 = narrow_height(value, "Bitcoin chain height exceeds u32")?;
                self.height = height;
                self.phase = CooperativePhase::BeginRound;
                Ok(())
            },
            (CooperativePhase::BeginRound, Reply::Done) => {
                let bytes: Vec<u8> = signed_value::<32>(
                    &self.provider_commitment,
                    "provider commitment Status has no commitment",
                    "provider nonce commitment",
                )?;
                self.registered_commitment = lower_hex(bytes.as_slice());
                self.phase = CooperativePhase::RegisterCommitment;
                Ok(())
            },
            (CooperativePhase::RegisterCommitment, Reply::Done) => {
                self.phase = CooperativePhase::SayCommitment;
                Ok(())
            },
            (CooperativePhase::SayCommitment, Reply::Record(event)) => {
                self.requester_commitment_id = event.id;
                self.phase = CooperativePhase::AwaitNonce;
                Ok(())
            },
            (CooperativePhase::AwaitNonce, Reply::Signing { id, value, values, .. }) => {
                let nonce: String = self.read_nonce(&value)?;
                self.provider_nonce_id = id;
                self.provider_nonce = nonce;
                self.phase = if self.journey == CooperativeJourney::Complete {
                    CooperativePhase::RevealNonce
                } else if self.journey == CooperativeJourney::CrashCutRecovery {
                    CooperativePhase::KeepNonce
                } else {
                    CooperativePhase::AbortRound
                };
                Ok(())
            },
            (CooperativePhase::KeepNonce, Reply::Done) => {
                self.phase = CooperativePhase::AbortAfterCrash;
                Ok(())
            },
            (CooperativePhase::AbortAfterCrash, Reply::Done) => {
                self.phase = CooperativePhase::AwaitAbort;
                Ok(())
            },
            (CooperativePhase::AbortRound, Reply::Done) => {
                self.phase = CooperativePhase::SayAbort;
                Ok(())
            },
            (CooperativePhase::SayAbort, Reply::Record(event)) => {
                self.requester_abort_id = event.id;
                self.phase = CooperativePhase::AwaitAbort;
                Ok(())
            },
            (CooperativePhase::AwaitAbort, Reply::Signing { id, value, values, .. }) => {
                self.provider_abort_id = id;
                self.phase = CooperativePhase::Aborted;
                Ok(())
            },
            (CooperativePhase::RevealNonce, Reply::Texts(texts)) => {
                if texts.len() != 1 {
                    return Err(wrong_reply_text());
                }
                self.requester_nonce = texts[0].clone();
                self.phase = CooperativePhase::SayNonce;
                Ok(())
            },
            (CooperativePhase::SayNonce, Reply::Record(event)) => {
                self.requester_nonce_id = event.id;
                self.phase = CooperativePhase::AwaitPartial;
                Ok(())
            },
            (CooperativePhase::AwaitPartial, Reply::Signing { id, value, values, .. }) => {
                self.provider_partial_id = id;
                self.provider_partial = value;
                self.phase = CooperativePhase::SignPartial;
                Ok(())
            },
            (CooperativePhase::SignPartial, Reply::Done) => {
                self.phase = CooperativePhase::SayPartial;
                Ok(())
            },
            (CooperativePhase::SayPartial, Reply::Record(event)) => {
                self.requester_partial_id = event.id;
                self.phase = CooperativePhase::AwaitFinalSignature;
                Ok(())
            },
            (CooperativePhase::AwaitFinalSignature, Reply::Signing { id, value, values, .. }) => {
                let bytes: Vec<u8> = signed_value::<32>(
                    &self.provider_partial,
                    "provider partial Status has no partial",
                    "provider partial signature",
                )?;
                if values.len() < 2
                    || !same_text(values[1].as_str(), lower_hex(bytes.as_slice()).as_str())
                {
                    return Err("provider final Status changed its partial signature".to_owned());
                }
                self.provider_final_id = id;
                self.phase = CooperativePhase::Signed;
                Ok(())
            },
            _ => Err(wrong_reply_text()),
        }
    }
}

/// Whether each entry of a trace leads to the one after it, from the first phase on.
pub open spec fn is_cooperative_trace(trace: Seq<(CooperativeRunView, ReplyView)>) -> bool {
    &&& trace.len() > 0
    &&& trace[0].0.phase == CooperativePhase::CreateInvoice
    &&& forall|i: int|
        0 <= i < trace.len() - 1 ==> cooperative_step((#[trigger] trace[i]).0, trace[i].1) == Ok::<
            CooperativeRunView,
            Seq<char>,
        >(trace[i + 1].0)
}

/// Each reply takes a jointly signed swap forward, never back and never in place.
#[verifier::rlimit(100)]
pub proof fn law_cooperative_moves_forward(run: CooperativeRunView, reply: ReplyView)
    requires
        cooperative_step(run, reply) is Ok,
    ensures
        run.phase.rank() < cooperative_step(run, reply)->Ok_0.phase.rank(),
{
}

/// Which replies take a jointly signed swap on, and to which phase: in each phase exactly the
/// replies that pass every check of that phase, and no others.
pub proof fn law_cooperative_goes_on_only_when_answered(run: CooperativeRunView, reply: ReplyView)
    ensures
        ({
            let next = cooperative_step(run, reply);
            match run.phase {
                CooperativePhase::CreateInvoice => {
                    &&& next is Ok <==> {
                        &&& reply is Texts
                        &&& reply->Texts_0.len() == 2
                    }
                    &&& next is Ok ==> next->Ok_0.phase == CooperativePhase::PrepareOrder
                },
                CooperativePhase::PrepareOrder => {
                    &&& next is Ok <==> reply is Session
                    &&& next is Ok ==> next->Ok_0.phase == CooperativePhase::CountExits
                },
                CooperativePhase::CountExits => {
                    &&& next is Ok <==> {
                        &&& reply is Number
                        &&& binds_two_exits(run.contract, reply->Number_0)
                    }
                    &&& next is Ok ==> next->Ok_0.phase == CooperativePhase::AwaitAccepted
                },
                CooperativePhase::AwaitAccepted => {
                    &&& next is Ok <==> reply is Record
                    &&& next is Ok ==> next->Ok_0.phase == CooperativePhase::AwaitLockTerms
                },
                CooperativePhase::AwaitLockTerms => {
                    &&& next is Ok <==> reply is Record
                    &&& next is Ok ==> next->Ok_0.phase == CooperativePhase::TakeFunding
                },
                CooperativePhase::TakeFunding => {
                    &&& next is Ok <==> reply is Funding
                    &&& next is Ok ==> next->Ok_0.phase == CooperativePhase::AuthorizeFunding
                },
                CooperativePhase::AuthorizeFunding => {
                    &&& next is Ok <==> reply is Done
                    &&& next is Ok ==> next->Ok_0.phase == CooperativePhase::KeepAuthorization
                },
                CooperativePhase::KeepAuthorization => {
                    &&& next is Ok <==> reply is Done
                    &&& next is Ok ==> next->Ok_0.phase == CooperativePhase::SayVerified
                },
                CooperativePhase::SayVerified => {
                    &&& next is Ok <==> reply is Record
                    &&& next is Ok ==> next->Ok_0.phase == CooperativePhase::KeepReady
                },
                CooperativePhase::KeepReady => {
                    &&& next is Ok <==> reply is Done
                    &&& next is Ok ==> next->Ok_0.phase == CooperativePhase::BroadcastFunding
                },
                CooperativePhase::BroadcastFunding => {
                    &&& next is Ok <==> reply is Done
                    &&& next is Ok ==> next->Ok_0.phase == CooperativePhase::RecordFunding
                },
                CooperativePhase::RecordFunding => {
                    &&& next is Ok <==> reply is Done
                    &&& next is Ok ==> next->Ok_0.phase == CooperativePhase::SayFunding
                },
                CooperativePhase::SayFunding => {
                    &&& next is Ok <==> reply is Record
                    &&& next is Ok ==> next->Ok_0.phase == CooperativePhase::MineFunding
                },
                CooperativePhase::MineFunding => {
                    &&& next is Ok <==> reply is Done
                    &&& next is Ok ==> next->Ok_0.phase == CooperativePhase::AwaitObserved
                },
                CooperativePhase::AwaitObserved => {
                    &&& next is Ok <==> reply is Record
                    &&& next is Ok ==> next->Ok_0.phase == CooperativePhase::AwaitFinal
                },
                CooperativePhase::AwaitFinal => {
                    &&& next is Ok <==> reply is Record
                    &&& next is Ok ==> next->Ok_0.phase == CooperativePhase::AwaitPaymentPending
                },
                CooperativePhase::AwaitPaymentPending => {
                    &&& next is Ok <==> reply is Record
                    &&& next is Ok ==> next->Ok_0.phase == CooperativePhase::AwaitPaid
                },
                CooperativePhase::AwaitPaid => {
                    &&& next is Ok <==> reply is Record
                    &&& next is Ok ==> next->Ok_0.phase == CooperativePhase::AwaitCommitment
                },
                CooperativePhase::AwaitCommitment => {
                    &&& next is Ok <==> reply is Signing
                    &&& next is Ok ==> next->Ok_0.phase == CooperativePhase::ReadHeight
                },
                CooperativePhase::ReadHeight => {
                    &&& next is Ok <==> {
                        &&& reply is Number
                        &&& height_reading(
                            reply->Number_0,
                            "Bitcoin chain height exceeds u32"@,
                        ) is Ok
                    }
                    &&& next is Ok ==> next->Ok_0.phase == CooperativePhase::BeginRound
                },
                CooperativePhase::BeginRound => {
                    &&& next is Ok <==> {
                        &&& reply is Done
                        &&& signed_value_reading(
                            run.provider_commitment,
                            "provider commitment Status has no commitment"@,
                            "provider nonce commitment"@,
                            32,
                        ) is Ok
                    }
                    &&& next is Ok ==> next->Ok_0.phase == CooperativePhase::RegisterCommitment
                },
                CooperativePhase::RegisterCommitment => {
                    &&& next is Ok <==> reply is Done
                    &&& next is Ok ==> next->Ok_0.phase == CooperativePhase::SayCommitment
                },
                CooperativePhase::SayCommitment => {
                    &&& next is Ok <==> reply is Record
                    &&& next is Ok ==> next->Ok_0.phase == CooperativePhase::AwaitNonce
                },
                CooperativePhase::AwaitNonce => {
                    let case_1 = run.journey == CooperativeJourney::Complete;
                    let case_2 = {
                        &&& run.journey != CooperativeJourney::Complete
                        &&& run.journey == CooperativeJourney::CrashCutRecovery
                    };
                    let case_3 = {
                        &&& run.journey != CooperativeJourney::Complete
                        &&& run.journey != CooperativeJourney::CrashCutRecovery
                    };
                    &&& next is Ok <==> {
                        &&& reply is Signing
                        &&& nonce_reading(run.journey, reply->Signing_value) is Ok
                        &&& (case_1 || case_2 || case_3)
                    }
                    &&& next is Ok && case_1 ==> next->Ok_0.phase == CooperativePhase::RevealNonce
                    &&& next is Ok && case_2 ==> next->Ok_0.phase == CooperativePhase::KeepNonce
                    &&& next is Ok && case_3 ==> next->Ok_0.phase == CooperativePhase::AbortRound
                },
                CooperativePhase::KeepNonce => {
                    &&& next is Ok <==> reply is Done
                    &&& next is Ok ==> next->Ok_0.phase == CooperativePhase::AbortAfterCrash
                },
                CooperativePhase::AbortAfterCrash => {
                    &&& next is Ok <==> reply is Done
                    &&& next is Ok ==> next->Ok_0.phase == CooperativePhase::AwaitAbort
                },
                CooperativePhase::AbortRound => {
                    &&& next is Ok <==> reply is Done
                    &&& next is Ok ==> next->Ok_0.phase == CooperativePhase::SayAbort
                },
                CooperativePhase::SayAbort => {
                    &&& next is Ok <==> reply is Record
                    &&& next is Ok ==> next->Ok_0.phase == CooperativePhase::AwaitAbort
                },
                CooperativePhase::AwaitAbort => {
                    &&& next is Ok <==> reply is Signing
                    &&& next is Ok ==> next->Ok_0.phase == CooperativePhase::Aborted
                },
                CooperativePhase::Aborted => next is Err,
                CooperativePhase::RevealNonce => {
                    &&& next is Ok <==> {
                        &&& reply is Texts
                        &&& reply->Texts_0.len() == 1
                    }
                    &&& next is Ok ==> next->Ok_0.phase == CooperativePhase::SayNonce
                },
                CooperativePhase::SayNonce => {
                    &&& next is Ok <==> reply is Record
                    &&& next is Ok ==> next->Ok_0.phase == CooperativePhase::AwaitPartial
                },
                CooperativePhase::AwaitPartial => {
                    &&& next is Ok <==> reply is Signing
                    &&& next is Ok ==> next->Ok_0.phase == CooperativePhase::SignPartial
                },
                CooperativePhase::SignPartial => {
                    &&& next is Ok <==> reply is Done
                    &&& next is Ok ==> next->Ok_0.phase == CooperativePhase::SayPartial
                },
                CooperativePhase::SayPartial => {
                    &&& next is Ok <==> reply is Record
                    &&& next is Ok ==> next->Ok_0.phase == CooperativePhase::AwaitFinalSignature
                },
                CooperativePhase::AwaitFinalSignature => {
                    &&& next is Ok <==> {
                        &&& reply is Signing
                        &&& signed_value_reading(
                            run.provider_partial,
                            "provider partial Status has no partial"@,
                            "provider partial signature"@,
                            32,
                        ) is Ok
                        &&& reply->Signing_values.len() >= 2
                        &&& reply->Signing_values[1] == hex_text(
                            signed_value_reading(
                                run.provider_partial,
                                "provider partial Status has no partial"@,
                                "provider partial signature"@,
                                32,
                            )->Ok_0,
                        )
                    }
                    &&& next is Ok ==> next->Ok_0.phase == CooperativePhase::Signed
                },
                CooperativePhase::Signed => next is Err,
            }
        }),
{
}

/// The reply that a trace of a jointly signed swap holds for a phase.
pub open spec fn cooperative_told(
    trace: Seq<(CooperativeRunView, ReplyView)>,
    phase: CooperativePhase,
) -> ReplyView {
    trace[choose|i: int| 0 <= i < trace.len() && (#[trigger] trace[i]).0.phase == phase].1
}

/// The values that a run of a jointly signed swap holds, by the replies that gave them: each stays
/// as the reply to one phase gave it, or as the run started with it.
pub open spec fn cooperative_holds(
    trace: Seq<(CooperativeRunView, ReplyView)>,
    run: CooperativeRunView,
) -> bool {
    let start = trace[0].0;
    let payment_hash = cooperative_told(trace, CooperativePhase::CreateInvoice)->Texts_0[0];
    let invoice = cooperative_told(trace, CooperativePhase::CreateInvoice)->Texts_0[1];
    let order_id = cooperative_told(trace, CooperativePhase::PrepareOrder)->Session_order_id;
    let contract = cooperative_told(trace, CooperativePhase::PrepareOrder)->Session_contract;
    let lockup_txid = cooperative_told(trace, CooperativePhase::TakeFunding)->Funding_id;
    let lockup_output = cooperative_told(trace, CooperativePhase::TakeFunding)->Funding_output_index;
    let funding_hex = cooperative_told(trace, CooperativePhase::TakeFunding)->Funding_hex;
    let provider_commitment_id = cooperative_told(trace, CooperativePhase::AwaitCommitment)->Signing_id;
    let provider_commitment = cooperative_told(trace, CooperativePhase::AwaitCommitment)->Signing_value;
    let height = height_reading(
        cooperative_told(trace, CooperativePhase::ReadHeight)->Number_0,
        "Bitcoin chain height exceeds u32"@,
    )->Ok_0;
    let registered_commitment = hex_text(
        signed_value_reading(
            provider_commitment,
            "provider commitment Status has no commitment"@,
            "provider nonce commitment"@,
            32,
        )->Ok_0,
    );
    let requester_commitment_id = cooperative_told(trace, CooperativePhase::SayCommitment)->Record_id;
    let provider_nonce_id = cooperative_told(trace, CooperativePhase::AwaitNonce)->Signing_id;
    let provider_nonce = nonce_reading(
        start.journey,
        cooperative_told(trace, CooperativePhase::AwaitNonce)->Signing_value,
    )->Ok_0;
    let requester_abort_id = if start.journey == CooperativeJourney::AbortAfterProviderNonce {
        cooperative_told(trace, CooperativePhase::SayAbort)->Record_id
    } else { start.requester_abort_id };
    let provider_abort_id = if start.journey == CooperativeJourney::Complete { start.provider_abort_id } else {
        cooperative_told(trace, CooperativePhase::AwaitAbort)->Signing_id
    };
    let requester_nonce = cooperative_told(trace, CooperativePhase::RevealNonce)->Texts_0[0];
    let requester_nonce_id = cooperative_told(trace, CooperativePhase::SayNonce)->Record_id;
    let provider_partial_id = cooperative_told(trace, CooperativePhase::AwaitPartial)->Signing_id;
    let provider_partial = cooperative_told(trace, CooperativePhase::AwaitPartial)->Signing_value;
    let requester_partial_id = cooperative_told(trace, CooperativePhase::SayPartial)->Record_id;
    let provider_final_id = cooperative_told(trace, CooperativePhase::AwaitFinalSignature)->Signing_id;
    &&& run.journey == start.journey
    &&& run.phase.rank() > CooperativePhase::CreateInvoice.rank()
        ==> run.payment_hash == payment_hash
    &&& run.phase.rank() > CooperativePhase::CreateInvoice.rank() ==> run.invoice == invoice
    &&& run.phase.rank() > CooperativePhase::PrepareOrder.rank() ==> run.order_id == order_id
    &&& run.phase.rank() > CooperativePhase::PrepareOrder.rank() ==> run.contract == contract
    &&& run.phase.rank() > CooperativePhase::TakeFunding.rank() ==> run.lockup_txid == lockup_txid
    &&& run.phase.rank() > CooperativePhase::TakeFunding.rank()
        ==> run.lockup_output == lockup_output
    &&& run.phase.rank() > CooperativePhase::TakeFunding.rank() ==> run.funding_hex == funding_hex
    &&& run.phase.rank() > CooperativePhase::AwaitCommitment.rank()
        ==> run.provider_commitment_id == provider_commitment_id
    &&& run.phase.rank() > CooperativePhase::AwaitCommitment.rank()
        ==> run.provider_commitment == provider_commitment
    &&& run.phase.rank() > CooperativePhase::BeginRound.rank()
        ==> run.registered_commitment == registered_commitment
    &&& run.phase.rank() > CooperativePhase::ReadHeight.rank() ==> run.height == height
    &&& run.phase.rank() > CooperativePhase::SayCommitment.rank()
        ==> run.requester_commitment_id == requester_commitment_id
    &&& run.phase.rank() > CooperativePhase::AwaitNonce.rank()
        ==> run.provider_nonce_id == provider_nonce_id
    &&& run.phase.rank() > CooperativePhase::SayAbort.rank()
        ==> run.requester_abort_id == requester_abort_id
    &&& run.phase.rank() > CooperativePhase::AwaitAbort.rank()
        ==> run.provider_abort_id == provider_abort_id
    &&& run.phase.rank() > CooperativePhase::AwaitNonce.rank()
        ==> run.provider_nonce == provider_nonce
    &&& run.phase.rank() > CooperativePhase::RevealNonce.rank()
        ==> run.requester_nonce == requester_nonce
    &&& run.phase.rank() > CooperativePhase::SayNonce.rank()
        ==> run.requester_nonce_id == requester_nonce_id
    &&& run.phase.rank() > CooperativePhase::AwaitPartial.rank()
        ==> run.provider_partial_id == provider_partial_id
    &&& run.phase.rank() > CooperativePhase::AwaitPartial.rank()
        ==> run.provider_partial == provider_partial
    &&& run.phase.rank() > CooperativePhase::SayPartial.rank()
        ==> run.requester_partial_id == requester_partial_id
    &&& run.phase.rank() > CooperativePhase::AwaitFinalSignature.rank()
        ==> run.provider_final_id == provider_final_id
    &&& run.phase.rank() <= CooperativePhase::SayAbort.rank()
        ==> run.requester_abort_id == start.requester_abort_id
    &&& run.phase.rank() <= CooperativePhase::AwaitAbort.rank()
        ==> run.provider_abort_id == start.provider_abort_id
    &&& run.phase == CooperativePhase::KeepNonce || run.phase == CooperativePhase::AbortAfterCrash
        ==> start.journey == CooperativeJourney::CrashCutRecovery
    &&& run.phase == CooperativePhase::AbortRound || run.phase == CooperativePhase::SayAbort
        ==> start.journey == CooperativeJourney::AbortAfterProviderNonce
    &&& run.phase == CooperativePhase::AwaitAbort || run.phase == CooperativePhase::Aborted
        ==> start.journey != CooperativeJourney::Complete
    &&& run.phase.rank() >= CooperativePhase::RevealNonce.rank()
        ==> start.journey == CooperativeJourney::Complete
}

/// No phase of a jointly signed swap comes twice in a trace.
proof fn lemma_cooperative_told_once(trace: Seq<(CooperativeRunView, ReplyView)>, place: int)
    requires
        is_cooperative_trace(trace),
        0 <= place < trace.len(),
    ensures
        cooperative_told(trace, trace[place].0.phase) == trace[place].1,
{
    let phase = trace[place].0.phase;
    let other = choose|i: int| 0 <= i < trace.len() && (#[trigger] trace[i]).0.phase == phase;
    assert(trace[place].0.phase == phase);
    if other != place {
        let (early, late) = if other < place {
            (other, place)
        } else {
            (place, other)
        };
        assert forall|run: CooperativeRunView, reply: ReplyView|
            (#[trigger] cooperative_step(run, reply)) is Ok implies run.phase.rank() < cooperative_step(
            run,
            reply,
        )->Ok_0.phase.rank() by {
            law_cooperative_moves_forward(run, reply);
        }
        lemma_ranks_rise(
            trace,
            |run: CooperativeRunView, reply: ReplyView| cooperative_step(run, reply),
            |run: CooperativeRunView| run.phase.rank(),
            early,
            late,
        );
    }
}

/// A reply keeps what a jointly signed swap holds, and adds what it tells.
proof fn lemma_cooperative_holds_on(
    trace: Seq<(CooperativeRunView, ReplyView)>,
    run: CooperativeRunView,
    reply: ReplyView,
)
    requires
        cooperative_holds(trace, run),
        cooperative_told(trace, run.phase) == reply,
        cooperative_step(run, reply) is Ok,
    ensures
        cooperative_holds(trace, cooperative_step(run, reply)->Ok_0),
{
    let next = cooperative_step(run, reply)->Ok_0;
    match run.phase {
        CooperativePhase::CreateInvoice => assert(cooperative_holds(trace, next)),
        CooperativePhase::PrepareOrder => assert(cooperative_holds(trace, next)),
        CooperativePhase::CountExits => assert(cooperative_holds(trace, next)),
        CooperativePhase::AwaitAccepted => assert(cooperative_holds(trace, next)),
        CooperativePhase::AwaitLockTerms => assert(cooperative_holds(trace, next)),
        CooperativePhase::TakeFunding => assert(cooperative_holds(trace, next)),
        CooperativePhase::AuthorizeFunding => assert(cooperative_holds(trace, next)),
        CooperativePhase::KeepAuthorization => assert(cooperative_holds(trace, next)),
        CooperativePhase::SayVerified => assert(cooperative_holds(trace, next)),
        CooperativePhase::KeepReady => assert(cooperative_holds(trace, next)),
        CooperativePhase::BroadcastFunding => assert(cooperative_holds(trace, next)),
        CooperativePhase::RecordFunding => assert(cooperative_holds(trace, next)),
        CooperativePhase::SayFunding => assert(cooperative_holds(trace, next)),
        CooperativePhase::MineFunding => assert(cooperative_holds(trace, next)),
        CooperativePhase::AwaitObserved => assert(cooperative_holds(trace, next)),
        CooperativePhase::AwaitFinal => assert(cooperative_holds(trace, next)),
        CooperativePhase::AwaitPaymentPending => assert(cooperative_holds(trace, next)),
        CooperativePhase::AwaitPaid => assert(cooperative_holds(trace, next)),
        CooperativePhase::AwaitCommitment => assert(cooperative_holds(trace, next)),
        CooperativePhase::ReadHeight => assert(cooperative_holds(trace, next)),
        CooperativePhase::BeginRound => assert(cooperative_holds(trace, next)),
        CooperativePhase::RegisterCommitment => assert(cooperative_holds(trace, next)),
        CooperativePhase::SayCommitment => assert(cooperative_holds(trace, next)),
        CooperativePhase::AwaitNonce => assert(cooperative_holds(trace, next)),
        CooperativePhase::KeepNonce => assert(cooperative_holds(trace, next)),
        CooperativePhase::AbortAfterCrash => assert(cooperative_holds(trace, next)),
        CooperativePhase::AbortRound => assert(cooperative_holds(trace, next)),
        CooperativePhase::SayAbort => assert(cooperative_holds(trace, next)),
        CooperativePhase::AwaitAbort => assert(cooperative_holds(trace, next)),
        CooperativePhase::Aborted => assert(cooperative_holds(trace, next)),
        CooperativePhase::RevealNonce => assert(cooperative_holds(trace, next)),
        CooperativePhase::SayNonce => assert(cooperative_holds(trace, next)),
        CooperativePhase::AwaitPartial => assert(cooperative_holds(trace, next)),
        CooperativePhase::SignPartial => assert(cooperative_holds(trace, next)),
        CooperativePhase::SayPartial => assert(cooperative_holds(trace, next)),
        CooperativePhase::AwaitFinalSignature => assert(cooperative_holds(trace, next)),
        CooperativePhase::Signed => assert(cooperative_holds(trace, next)),
    }
}

/// What a jointly signed swap has been told, it keeps: at every place of a trace each value that
/// the run holds is the one that the reply to the phase that asks for it gave, or the one that the
/// run started with.
pub proof fn law_cooperative_keeps_what_it_was_told(
    trace: Seq<(CooperativeRunView, ReplyView)>,
    last: int,
)
    requires
        is_cooperative_trace(trace),
        0 <= last < trace.len(),
    ensures
        cooperative_holds(trace, trace[last].0),
    decreases last,
{
    if last > 0 {
        let before = last - 1;
        law_cooperative_keeps_what_it_was_told(trace, before);
        lemma_cooperative_told_once(trace, before);
        assert(cooperative_step(trace[before].0, trace[before].1) == Ok::<CooperativeRunView, Seq<char>>(
            trace[before + 1].0,
        ));
        lemma_cooperative_holds_on(trace, trace[before].0, trace[before].1);
    }
}

/// What a jointly signed swap asks for in each phase, in terms of the replies before it: the values
/// in a request are those that the replies to the named phases gave, or those that the run started
/// with.
pub proof fn law_cooperative_asks_with_what_it_was_told(
    trace: Seq<(CooperativeRunView, ReplyView)>,
    last: int,
)
    requires
        is_cooperative_trace(trace),
        0 <= last < trace.len(),
    ensures
        ({
            let start = trace[0].0;
            let payment_hash = cooperative_told(trace, CooperativePhase::CreateInvoice)->Texts_0[0];
            let invoice = cooperative_told(trace, CooperativePhase::CreateInvoice)->Texts_0[1];
            let lockup_txid = cooperative_told(trace, CooperativePhase::TakeFunding)->Funding_id;
            let funding_hex = cooperative_told(trace, CooperativePhase::TakeFunding)->Funding_hex;
            let provider_commitment = cooperative_told(trace, CooperativePhase::AwaitCommitment)->Signing_value;
            let height = height_reading(
                cooperative_told(trace, CooperativePhase::ReadHeight)->Number_0,
                "Bitcoin chain height exceeds u32"@,
            )->Ok_0;
            let registered_commitment = hex_text(
                signed_value_reading(
                    provider_commitment,
                    "provider commitment Status has no commitment"@,
                    "provider nonce commitment"@,
                    32,
                )->Ok_0,
            );
            let provider_nonce_id = cooperative_told(trace, CooperativePhase::AwaitNonce)->Signing_id;
            let provider_nonce = nonce_reading(
                start.journey,
                cooperative_told(trace, CooperativePhase::AwaitNonce)->Signing_value,
            )->Ok_0;
            let requester_nonce = cooperative_told(trace, CooperativePhase::RevealNonce)->Texts_0[0];
            let action = cooperative_action(trace[last].0);
            match trace[last].0.phase {
                CooperativePhase::CreateInvoice => action == ActionView::Perform(
                    Task::CreateInvoice,
                    seq![
                        "immortal-funded-"@ + start.journey.label(),
                        decimal(OUTPUT_AMOUNT_SAT as nat),
                        "Immortal adversarial cooperative submarine"@,
                        decimal(INVOICE_EXPIRY_SECONDS as nat),
                    ],
                ),
                CooperativePhase::PrepareOrder => action == ActionView::Perform(
                    Task::PrepareOrder,
                    seq![payment_hash, invoice],
                ),
                CooperativePhase::CountExits => action == ActionView::Perform(
                    Task::CountExits,
                    seq![],
                ),
                CooperativePhase::AwaitAccepted => action == ActionView::AwaitState("accepted"@),
                CooperativePhase::AwaitLockTerms => action == ActionView::AwaitState(
                    "lock_terms_ready"@,
                ),
                CooperativePhase::TakeFunding => action == ActionView::Perform(
                    Task::TakeFunding,
                    seq![],
                ),
                CooperativePhase::AuthorizeFunding => action == ActionView::Perform(
                    Task::AuthorizeFunding,
                    seq![invoice],
                ),
                CooperativePhase::KeepAuthorization => action == ActionView::Perform(
                    Task::KeepAuthorization,
                    seq![],
                ),
                CooperativePhase::SayVerified => action == ActionView::Say(
                    "requester_verification_passed"@,
                    no_members(),
                ),
                CooperativePhase::KeepReady => action == ActionView::Keep(
                    "funding_execution_ready"@,
                    effect_doc(lockup_txid),
                ),
                CooperativePhase::BroadcastFunding => action == ActionView::Perform(
                    Task::BroadcastBitcoin,
                    seq!["cooperative-funding"@, funding_hex, lockup_txid],
                ),
                CooperativePhase::RecordFunding => action == ActionView::Perform(
                    Task::RecordFundingEffect,
                    seq![lockup_txid, funding_hex, "text"@],
                ),
                CooperativePhase::SayFunding => action == ActionView::Say(
                    "requester_funding_broadcast"@,
                    no_members().insert(
                        "transaction_id"@,
                        text_doc(lockup_txid),
                    ).insert("output_index"@, number_doc(0)),
                ),
                CooperativePhase::MineFunding => action == ActionView::Mine(
                    "bitcoin"@,
                    1,
                    "cooperative-funding"@,
                ),
                CooperativePhase::AwaitObserved => action == ActionView::AwaitState(
                    "funding_observed"@,
                ),
                CooperativePhase::AwaitFinal => action == ActionView::AwaitState("funding_final"@),
                CooperativePhase::AwaitPaymentPending => action == ActionView::AwaitState(
                    "lightning_payment_pending"@,
                ),
                CooperativePhase::AwaitPaid => action == ActionView::AwaitState("lightning_paid"@),
                CooperativePhase::AwaitCommitment => action == ActionView::Perform(
                    Task::AwaitCooperative,
                    seq!["nonce_commitment"@],
                ),
                CooperativePhase::ReadHeight => action == ActionView::Perform(
                    Task::ReadHeight,
                    seq!["cooperative-round"@],
                ),
                CooperativePhase::BeginRound => action == ActionView::Perform(
                    Task::BeginSigningRound,
                    seq![decimal(height as nat)],
                ),
                CooperativePhase::RegisterCommitment => action == ActionView::Perform(
                    Task::RegisterCommitment,
                    seq![registered_commitment, decimal(height as nat)],
                ),
                CooperativePhase::SayCommitment => action == ActionView::Perform(
                    Task::SayCooperative,
                    seq!["nonce_commitment"@],
                ),
                CooperativePhase::AwaitNonce => action == ActionView::Perform(
                    Task::AwaitCooperative,
                    seq!["public_nonce"@],
                ),
                CooperativePhase::KeepNonce => action == ActionView::Keep(
                    "provider_public_nonce_persisted"@,
                    JsonView::Object(
                        no_members().insert("status_id"@, text_doc(provider_nonce_id)),
                    ),
                ),
                CooperativePhase::AbortAfterCrash => action == ActionView::Perform(
                    Task::AbortRound,
                    seq![],
                ),
                CooperativePhase::AbortRound => action == ActionView::Perform(
                    Task::AbortRound,
                    seq![],
                ),
                CooperativePhase::SayAbort => action == ActionView::Perform(
                    Task::SayCooperative,
                    seq!["aborted"@, "wallet_refused"@],
                ),
                CooperativePhase::AwaitAbort => action == ActionView::Perform(
                    Task::AwaitCooperative,
                    seq!["aborted"@],
                ),
                CooperativePhase::Aborted => action == ActionView::Finish,
                CooperativePhase::RevealNonce => action == ActionView::Perform(
                    Task::RevealNonce,
                    seq![decimal(height as nat)],
                ),
                CooperativePhase::SayNonce => action == ActionView::Perform(
                    Task::SayCooperative,
                    seq!["public_nonce"@, requester_nonce],
                ),
                CooperativePhase::AwaitPartial => action == ActionView::Perform(
                    Task::AwaitCooperative,
                    seq!["partial_signature"@],
                ),
                CooperativePhase::SignPartial => action == ActionView::Perform(
                    Task::SignCooperatively,
                    seq![decimal(height as nat), requester_nonce, provider_nonce],
                ),
                CooperativePhase::SayPartial => action == ActionView::Perform(
                    Task::SayCooperative,
                    seq!["partial_signature"@, requester_nonce, provider_nonce],
                ),
                CooperativePhase::AwaitFinalSignature => action == ActionView::Perform(
                    Task::AwaitCooperative,
                    seq!["final_signature"@],
                ),
                CooperativePhase::Signed => action == ActionView::Finish,
            }
        }),
{
    law_cooperative_keeps_what_it_was_told(trace, last);
}

/// The lock is broadcast only after the client has authorized it.
pub proof fn law_cooperative_swap_is_authorized_first(
    trace: Seq<(CooperativeRunView, ReplyView)>,
    last: int,
)
    requires
        is_cooperative_trace(trace),
        0 <= last < trace.len(),
        trace[last].0.phase == CooperativePhase::BroadcastFunding,
    ensures
        exists|i: int|
            0 <= i < last && (#[trigger] trace[i]).0.phase == CooperativePhase::AuthorizeFunding &&
                trace[i].1 == ReplyView::Done,
{
    let i = lemma_milestone(
        trace,
        |run: CooperativeRunView, reply: ReplyView| cooperative_step(run, reply),
        |run: CooperativeRunView| run.phase.rank(),
        6,
        last,
    );
    assert(trace[i].0.phase == CooperativePhase::AuthorizeFunding);
    assert(cooperative_step(trace[i].0, trace[i].1) == Ok::<CooperativeRunView, Seq<char>>(trace[i +
        1].0));
}

/// Whether every reply of a trace answers the action that it is told for.
pub open spec fn is_answered_cooperative(
    trace: Seq<(CooperativeRunView, ReplyView)>,
    kinds: RecordKinds,
    provider: Seq<char>,
) -> bool {
    forall|i: int|
        0 <= i < trace.len() - 1 ==> answers(
            cooperative_action((#[trigger] trace[i]).0),
            trace[i].1,
            kinds,
            provider,
        )
}

/// A phase that a later one cannot be reached without.
proof fn lemma_cooperative_passes(
    trace: Seq<(CooperativeRunView, ReplyView)>,
    milestone: CooperativePhase,
    last: int,
) -> (place: int)
    requires
        is_cooperative_trace(trace),
        0 <= last < trace.len(),
        milestone == CooperativePhase::AwaitCommitment || milestone
            == CooperativePhase::SayCommitment || milestone == CooperativePhase::AwaitNonce,
        milestone.rank() < trace[last].0.phase.rank(),
    ensures
        0 <= place < last,
        trace[place].0.phase == milestone,
{
    lemma_milestone(
        trace,
        |run: CooperativeRunView, reply: ReplyView| cooperative_step(run, reply),
        |run: CooperativeRunView| run.phase.rank(),
        milestone.rank(),
        last,
    )
}

/// A nonce is revealed, and a part of the signature given, only after the provider has committed to
/// their nonce, this side to its own, and the provider has then shown theirs.
pub proof fn law_nonce_follows_the_commitments(
    trace: Seq<(CooperativeRunView, ReplyView)>,
    kinds: RecordKinds,
    provider: Seq<char>,
    last: int,
) -> (places: (int, int, int))
    requires
        is_cooperative_trace(trace),
        is_answered_cooperative(trace, kinds, provider),
        0 <= last < trace.len(),
        trace[last].0.phase == CooperativePhase::RevealNonce || trace[last].0.phase
            == CooperativePhase::SignPartial,
    ensures
        0 <= places.0 < places.1 < places.2 < last,
        signs(trace[places.0].1, provider, CooperativeAction::NonceCommitment.label()),
        trace[places.1].0.phase == CooperativePhase::SayCommitment,
        signs(trace[places.2].1, provider, CooperativeAction::PublicNonce.label()),
{
    let third = lemma_cooperative_passes(trace, CooperativePhase::AwaitNonce, last);
    let second = lemma_cooperative_passes(trace, CooperativePhase::SayCommitment, third);
    let first = lemma_cooperative_passes(trace, CooperativePhase::AwaitCommitment, second);
    assert(answers(cooperative_action(trace[first].0), trace[first].1, kinds, provider));
    assert(answers(cooperative_action(trace[third].0), trace[third].1, kinds, provider));
    (first, second, third)
}

/// Where the two nonces of a joint signature were shown.
#[verifier::rlimit(60)]
#[verifier::spinoff_prover]
proof fn lemma_nonces_were_shown(trace: Seq<(CooperativeRunView, ReplyView)>, last: int) -> (places:
    (int, int))
    requires
        is_cooperative_trace(trace),
        0 <= last < trace.len(),
        trace[last].0.phase == CooperativePhase::SignPartial || trace[last].0.phase
            == CooperativePhase::SayPartial,
    ensures
        0 <= places.0 < places.1 < last,
        trace[places.0].0.phase == CooperativePhase::AwaitNonce,
        trace[places.1].0.phase == CooperativePhase::RevealNonce,
        trace[places.0].1 == cooperative_told(trace, CooperativePhase::AwaitNonce),
        trace[places.1].1 == cooperative_told(trace, CooperativePhase::RevealNonce),
        trace[places.0].1->Signing_value is Some,
        trace[places.1].1 is Texts,
        nonce_reading(CooperativeJourney::Complete, trace[places.0].1->Signing_value) == Ok::<
            Seq<char>,
            Seq<char>,
        >(trace[places.0].1->Signing_value->0),
{
    law_cooperative_keeps_what_it_was_told(trace, last);
    let second = lemma_milestone(
        trace,
        |run: CooperativeRunView, reply: ReplyView| cooperative_step(run, reply),
        |run: CooperativeRunView| run.phase.rank(),
        30,
        last,
    );
    assert(trace[second].0.phase == CooperativePhase::RevealNonce);
    let first = lemma_cooperative_passes(trace, CooperativePhase::AwaitNonce, second);
    lemma_cooperative_told_once(trace, first);
    lemma_cooperative_told_once(trace, second);
    law_cooperative_keeps_what_it_was_told(trace, first);
    assert(cooperative_step(trace[second].0, trace[second].1) == Ok::<
        CooperativeRunView,
        Seq<char>,
    >(trace[second + 1].0));
    assert(cooperative_step(trace[first].0, trace[first].1) == Ok::<CooperativeRunView, Seq<char>>(
        trace[first + 1].0,
    ));
    law_hex_text_is_unique(trace[first].1->Signing_value->0);
    (first, second)
}

/// A run that holds what it was told signs with the two nonces that it was told.
proof fn lemma_signs_with_what_was_shown(
    trace: Seq<(CooperativeRunView, ReplyView)>,
    run: CooperativeRunView,
    theirs: Seq<char>,
)
    requires
        cooperative_holds(trace, run),
        run.phase == CooperativePhase::SignPartial || run.phase == CooperativePhase::SayPartial,
        nonce_reading(
            CooperativeJourney::Complete,
            cooperative_told(trace, CooperativePhase::AwaitNonce)->Signing_value,
        ) == Ok::<Seq<char>, Seq<char>>(theirs),
    ensures
        ({
            let own = cooperative_told(trace, CooperativePhase::RevealNonce)->Texts_0[0];
            let height = height_reading(
                cooperative_told(trace, CooperativePhase::ReadHeight)->Number_0,
                "Bitcoin chain height exceeds u32"@,
            )->Ok_0;
            &&& run.phase == CooperativePhase::SignPartial ==> cooperative_action(run)
                == ActionView::Perform(
                Task::SignCooperatively,
                seq![decimal(height as nat), own, theirs],
            )
            &&& run.phase == CooperativePhase::SayPartial ==> cooperative_action(run)
                == ActionView::Perform(
                Task::SayCooperative,
                seq!["partial_signature"@, own, theirs],
            )
        }),
{
}

/// A joint signature is made of one nonce from each side, this side's own first: the nonces that this
/// side signs with, and those that it says its part was made with, are the text that was revealed
/// as its own nonce and the value of the provider's message that showed theirs.
pub proof fn law_nonces_come_from_both_sides(
    trace: Seq<(CooperativeRunView, ReplyView)>,
    kinds: RecordKinds,
    provider: Seq<char>,
    last: int,
) -> (places: (int, int))
    requires
        is_cooperative_trace(trace),
        is_answered_cooperative(trace, kinds, provider),
        0 <= last < trace.len(),
        trace[last].0.phase == CooperativePhase::SignPartial || trace[last].0.phase
            == CooperativePhase::SayPartial,
    ensures
        0 <= places.0 < places.1 < last,
        signs(trace[places.0].1, provider, "public_nonce"@),
        trace[places.0].1->Signing_value is Some,
        cooperative_action(trace[places.1].0) matches ActionView::Perform(Task::RevealNonce, _),
        trace[places.1].1 is Texts,
        ({
            let own = trace[places.1].1->Texts_0[0];
            let theirs = trace[places.0].1->Signing_value->0;
            let height = height_reading(
                cooperative_told(trace, CooperativePhase::ReadHeight)->Number_0,
                "Bitcoin chain height exceeds u32"@,
            )->Ok_0;
            &&& trace[last].0.phase == CooperativePhase::SignPartial ==> cooperative_action(
                trace[last].0,
            ) == ActionView::Perform(
                Task::SignCooperatively,
                seq![decimal(height as nat), own, theirs],
            )
            &&& trace[last].0.phase == CooperativePhase::SayPartial ==> cooperative_action(
                trace[last].0,
            ) == ActionView::Perform(
                Task::SayCooperative,
                seq!["partial_signature"@, own, theirs],
            )
        }),
{
    let (first, second) = lemma_nonces_were_shown(trace, last);
    assert(answers(cooperative_action(trace[first].0), trace[first].1, kinds, provider));
    law_cooperative_keeps_what_it_was_told(trace, last);
    lemma_signs_with_what_was_shown(trace, trace[last].0, trace[first].1->Signing_value->0);
    (first, second)
}

/// What is registered of the provider is the commitment that they made, byte by byte.
pub proof fn law_registered_commitment_is_the_providers(run: CooperativeRunView, reply: ReplyView)
    requires
        run.phase == CooperativePhase::BeginRound,
        cooperative_step(run, reply) is Ok,
    ensures
        run.provider_commitment is Some,
        fixed_reading(run.provider_commitment->0, "provider nonce commitment"@, 32) is Ok,
        cooperative_action(cooperative_step(run, reply)->Ok_0) == ActionView::Perform(
            Task::RegisterCommitment,
            seq![
                hex_text(
                    fixed_reading(run.provider_commitment->0, "provider nonce commitment"@, 32)->Ok_0,
                ),
                decimal(run.height as nat),
            ],
        ),
{
}

/// A joint signature is begun only after the provider said that the invoice is paid.
pub proof fn law_signing_follows_the_payment(
    trace: Seq<(CooperativeRunView, ReplyView)>,
    kinds: RecordKinds,
    provider: Seq<char>,
    last: int,
)
    requires
        is_cooperative_trace(trace),
        is_answered_cooperative(trace, kinds, provider),
        0 <= last < trace.len(),
        trace[last].0.phase == CooperativePhase::BeginRound || trace[last].0.phase == CooperativePhase::SignPartial,
    ensures
        exists|i: int|
            0 <= i < last && (#[trigger] trace[i]).0.phase == CooperativePhase::AwaitPaid && says(
                trace[i].1,
                kinds,
                provider,
                "lightning_paid"@,
            ),
{
    let i = lemma_milestone(
        trace,
        |run: CooperativeRunView, reply: ReplyView| cooperative_step(run, reply),
        |run: CooperativeRunView| run.phase.rank(),
        17,
        last,
    );
    assert(trace[i].0.phase == CooperativePhase::AwaitPaid);
    assert(answers(cooperative_action(trace[i].0), trace[i].1, kinds, provider));
}

impl CooperativeRun {
    fn read_nonce(&self, value: &Option<String>) -> (nonce: Result<String, String>)
        ensures
            told_text(nonce) == nonce_reading(self.journey, maybe(*value)),
    {
        if self.journey != CooperativeJourney::Complete {
            return Ok("".to_owned());
        }
        let bytes: Vec<u8> = signed_value::<66>(
            value,
            "provider public-nonce Status has no nonce",
            "provider public nonce",
        )?;
        Ok(lower_hex(bytes.as_slice()))
    }
}

/// The records of a joint signature, in the order in which they were made.
pub open spec fn status_ids_doc(run: CooperativeRunView) -> JsonView {
    texts_doc(
        match run.journey {
            CooperativeJourney::Complete => seq![
                run.provider_commitment_id,
                run.requester_commitment_id,
                run.provider_nonce_id,
                run.requester_nonce_id,
                run.provider_partial_id,
                run.requester_partial_id,
                run.provider_final_id,
            ],
            CooperativeJourney::CrashCutRecovery => seq![
                run.provider_commitment_id,
                run.requester_commitment_id,
                run.provider_nonce_id,
                run.provider_abort_id,
            ],
            CooperativeJourney::AbortAfterProviderNonce => seq![
                run.provider_commitment_id,
                run.requester_commitment_id,
                run.provider_nonce_id,
                run.requester_abort_id,
                run.provider_abort_id,
            ],
        },
    )
}

impl CooperativeRun {
    /// The records of a joint signature, in the order in which they were made.
    pub fn status_ids(&self) -> (document: Json)
        ensures
            document@ == status_ids_doc(self@),
    {
        let ids: Vec<&str> = match self.journey {
            CooperativeJourney::Complete => vec![
                self.provider_commitment_id.as_str(),
                self.requester_commitment_id.as_str(),
                self.provider_nonce_id.as_str(),
                self.requester_nonce_id.as_str(),
                self.provider_partial_id.as_str(),
                self.requester_partial_id.as_str(),
                self.provider_final_id.as_str(),
            ],
            CooperativeJourney::CrashCutRecovery => vec![
                self.provider_commitment_id.as_str(),
                self.requester_commitment_id.as_str(),
                self.provider_nonce_id.as_str(),
                self.provider_abort_id.as_str(),
            ],
            CooperativeJourney::AbortAfterProviderNonce => vec![
                self.provider_commitment_id.as_str(),
                self.requester_commitment_id.as_str(),
                self.provider_nonce_id.as_str(),
                self.requester_abort_id.as_str(),
                self.provider_abort_id.as_str(),
            ],
        };
        assert(status_ids_doc(self@) == texts_doc(name_views(ids@))) by {
            match self.journey {
                CooperativeJourney::Complete => {
                    assert(name_views(ids@) =~= seq![
                        self.provider_commitment_id@,
                        self.requester_commitment_id@,
                        self.provider_nonce_id@,
                        self.requester_nonce_id@,
                        self.provider_partial_id@,
                        self.requester_partial_id@,
                        self.provider_final_id@,
                    ]);
                },
                CooperativeJourney::CrashCutRecovery => {
                    assert(name_views(ids@) =~= seq![
                        self.provider_commitment_id@,
                        self.requester_commitment_id@,
                        self.provider_nonce_id@,
                        self.provider_abort_id@,
                    ]);
                },
                CooperativeJourney::AbortAfterProviderNonce => {
                    assert(name_views(ids@) =~= seq![
                        self.provider_commitment_id@,
                        self.requester_commitment_id@,
                        self.provider_nonce_id@,
                        self.requester_abort_id@,
                        self.provider_abort_id@,
                    ]);
                },
            }
        }
        Json::texts(&ids)
    }

    /// The claim that the swap goes on with.
    pub fn claim(&self, confirmations: u64) -> (run: CooperativeClaimRun)
        ensures
            run@.phase == claim_start(self@.journey),
            run@.journey == self@.journey,
            run@.confirmations == confirmations,
            run@.payment_hash == self@.payment_hash,
            run@.order_id == self@.order_id,
            run@.contract == self@.contract,
            run@.lockup_txid == self@.lockup_txid,
            run@.status_ids == status_ids_doc(self@),
    {
        CooperativeClaimRun::new(
            self.journey,
            confirmations,
            self.payment_hash.as_str(),
            self.order_id.as_str(),
            &self.contract,
            self.lockup_txid.as_str(),
            &self.status_ids(),
        )
    }
}

/// The phases of the claim of a jointly signed swap, in their order.
#[derive(Clone, Copy, Debug, PartialEq, Eq, Structural)]
pub enum CooperativeClaimPhase {
    ReadTranscript,
    AwaitClaimPending,
    AwaitOnBothNodes,
    MineClaim,
    AwaitClaimed,
    AwaitCompleted,
    AwaitClose,
    InspectSettlement,
    LoadProof,
    KeepResult,
    Finished,
}

impl CooperativeClaimPhase {
    /// The place of the phase in their order.
    pub open spec fn rank(self) -> int {
        match self {
            CooperativeClaimPhase::ReadTranscript => 0,
            CooperativeClaimPhase::AwaitClaimPending => 1,
            CooperativeClaimPhase::AwaitOnBothNodes => 2,
            CooperativeClaimPhase::MineClaim => 3,
            CooperativeClaimPhase::AwaitClaimed => 4,
            CooperativeClaimPhase::AwaitCompleted => 5,
            CooperativeClaimPhase::AwaitClose => 6,
            CooperativeClaimPhase::InspectSettlement => 7,
            CooperativeClaimPhase::LoadProof => 8,
            CooperativeClaimPhase::KeepResult => 9,
            CooperativeClaimPhase::Finished => 10,
        }
    }
}

/// Where a claim begins: a signature that was given up is shown first, by what each side has said.
pub open spec fn claim_start(journey: CooperativeJourney) -> CooperativeClaimPhase {
    if journey == CooperativeJourney::Complete {
        CooperativeClaimPhase::AwaitClaimPending
    } else {
        CooperativeClaimPhase::ReadTranscript
    }
}

/// The claim of a swap that was to be signed together: by the joint key, or by the script where the
/// signature was given up.
pub struct CooperativeClaimRun {
    pub phase: CooperativeClaimPhase,
    pub journey: CooperativeJourney,
    pub confirmations: u64,
    pub payment_hash: String,
    pub order_id: String,
    pub contract: Json,
    pub lockup_txid: String,
    pub status_ids: Json,
    pub claim_txid: String,
    pub witness: Json,
    pub external_control: Json,
}

/// The claim of a swap that was to be signed together: by the joint key, or by the script where the
/// signature was given up.
#[verifier::ext_equal]
pub struct CooperativeClaimRunView {
    pub phase: CooperativeClaimPhase,
    pub journey: CooperativeJourney,
    pub confirmations: u64,
    pub payment_hash: Seq<char>,
    pub order_id: Seq<char>,
    pub contract: JsonView,
    pub lockup_txid: Seq<char>,
    pub status_ids: JsonView,
    pub claim_txid: Seq<char>,
    pub witness: JsonView,
    pub external_control: JsonView,
}

impl View for CooperativeClaimRun {
    type V = CooperativeClaimRunView;

    open spec fn view(&self) -> CooperativeClaimRunView {
        CooperativeClaimRunView {
            phase: self.phase,
            journey: self.journey,
            confirmations: self.confirmations,
            payment_hash: self.payment_hash@,
            order_id: self.order_id@,
            contract: self.contract@,
            lockup_txid: self.lockup_txid@,
            status_ids: self.status_ids@,
            claim_txid: self.claim_txid@,
            witness: self.witness@,
            external_control: self.external_control@,
        }
    }
}

/// What the claim of a jointly signed swap asks for next.
pub open spec fn cooperative_claim_action(run: CooperativeClaimRunView) -> ActionView {
    match run.phase {
        CooperativeClaimPhase::ReadTranscript => ActionView::Perform(Task::ReadTranscript, seq![]),
        CooperativeClaimPhase::AwaitClaimPending => ActionView::AwaitState(
            "provider_claim_pending"@,
        ),
        CooperativeClaimPhase::AwaitOnBothNodes => ActionView::Perform(
            Task::AwaitOnBothNodes,
            seq![run.claim_txid, settlement_label(run.journey)],
        ),
        CooperativeClaimPhase::MineClaim => ActionView::Mine(
            "bitcoin"@,
            run.confirmations,
            settlement_label(run.journey),
        ),
        CooperativeClaimPhase::AwaitClaimed => ActionView::AwaitState("provider_claimed"@),
        CooperativeClaimPhase::AwaitCompleted => ActionView::AwaitState("completed"@),
        CooperativeClaimPhase::AwaitClose => ActionView::AwaitClose(
            CloseCheckView {
                outcome: "completed"@,
                bitcoin: Some(run.claim_txid),
                liquid: None,
                lightning: Some(LightningView::Incoming(run.payment_hash)),
            },
        ),
        CooperativeClaimPhase::InspectSettlement => ActionView::Perform(
            Task::InspectSettlement,
            seq![run.claim_txid],
        ),
        CooperativeClaimPhase::LoadProof => ActionView::LoadControllerProof,
        CooperativeClaimPhase::KeepResult => ActionView::Keep(
            "completed"@,
            JsonView::Object(no_members().insert("result"@, cooperative_result(run))),
        ),
        CooperativeClaimPhase::Finished => ActionView::Finish,
    }
}

/// Where a reply takes the claim of a jointly signed swap.
pub open spec fn cooperative_claim_step(run: CooperativeClaimRunView, reply: ReplyView) -> Result<
    CooperativeClaimRunView,
    Seq<char>,
> {
    match (run.phase, reply) {
        (CooperativeClaimPhase::ReadTranscript, ReplyView::Transcript { provider, requester }) => {
            if !gave_up(provider, requester, run.journey) {
                Err("cooperative fallback transcript has another terminal shape"@)
            } else {
                Ok(
                    CooperativeClaimRunView {
                        phase: CooperativeClaimPhase::AwaitClaimPending,
                        ..run
                    },
                )
            }
        },
        (CooperativeClaimPhase::AwaitClaimPending, ReplyView::Record { id, pubkey, tags, content, .. }) => match transaction_reading(
            content,
        ) {
            Err(message) => Err(message),
            Ok(found) => Ok(
                CooperativeClaimRunView {
                    phase: CooperativeClaimPhase::AwaitOnBothNodes,
                    claim_txid: found,
                    ..run
                },
            ),
        },
        (CooperativeClaimPhase::AwaitOnBothNodes, ReplyView::Done) => Ok(
            CooperativeClaimRunView { phase: CooperativeClaimPhase::MineClaim, ..run },
        ),
        (CooperativeClaimPhase::MineClaim, ReplyView::Done) => Ok(
            CooperativeClaimRunView { phase: CooperativeClaimPhase::AwaitClaimed, ..run },
        ),
        (CooperativeClaimPhase::AwaitClaimed, ReplyView::Record { .. }) => Ok(
            CooperativeClaimRunView { phase: CooperativeClaimPhase::AwaitCompleted, ..run },
        ),
        (CooperativeClaimPhase::AwaitCompleted, ReplyView::Record { .. }) => Ok(
            CooperativeClaimRunView { phase: CooperativeClaimPhase::AwaitClose, ..run },
        ),
        (CooperativeClaimPhase::AwaitClose, ReplyView::Record { .. }) => Ok(
            CooperativeClaimRunView { phase: CooperativeClaimPhase::InspectSettlement, ..run },
        ),
        (CooperativeClaimPhase::InspectSettlement, ReplyView::Settlement { primary, secondary, parsed }) => match settlement_reading(
            run.contract,
            run.lockup_txid,
            run.claim_txid,
            run.confirmations,
            run.journey == CooperativeJourney::Complete,
            primary,
            secondary,
            parsed,
        ) {
            Err(message) => Err(message),
            Ok(witness) => {
                if run.journey == CooperativeJourney::CrashCutRecovery {
                    Ok(
                        CooperativeClaimRunView {
                            phase: CooperativeClaimPhase::LoadProof,
                            witness: witness,
                            ..run
                        },
                    )
                } else {
                    Ok(
                        CooperativeClaimRunView {
                            phase: CooperativeClaimPhase::KeepResult,
                            witness: witness,
                            ..run
                        },
                    )
                }
            },
        },
        (CooperativeClaimPhase::LoadProof, ReplyView::Document(Some(document))) => Ok(
            CooperativeClaimRunView {
                phase: CooperativeClaimPhase::KeepResult,
                external_control: document,
                ..run
            },
        ),
        (CooperativeClaimPhase::LoadProof, ReplyView::Document(None)) => Err(
            "cooperative crash has no process proof"@,
        ),
        (CooperativeClaimPhase::KeepResult, ReplyView::Done) => Ok(
            CooperativeClaimRunView { phase: CooperativeClaimPhase::Finished, ..run },
        ),
        _ => Err(wrong_reply()),
    }
}

impl CooperativeClaimRun {
    /// The claim of a jointly signed swap before its first action.
    pub fn new(
        journey: CooperativeJourney,
        confirmations: u64,
        payment_hash: &str,
        order_id: &str,
        contract: &Json,
        lockup_txid: &str,
        status_ids: &Json,
    ) -> (run: CooperativeClaimRun)
        ensures
            run@.phase == claim_start(journey),
            run@.journey == journey,
            run@.confirmations == confirmations,
            run@.payment_hash == payment_hash@,
            run@.order_id == order_id@,
            run@.contract == contract@,
            run@.lockup_txid == lockup_txid@,
            run@.status_ids == status_ids@,
            run@.claim_txid == Seq::<char>::empty(),
            run@.witness == JsonView::Null,
            run@.external_control == JsonView::Null,
    {
        CooperativeClaimRun {
            phase: if journey == CooperativeJourney::Complete {
                CooperativeClaimPhase::AwaitClaimPending
            } else {
                CooperativeClaimPhase::ReadTranscript
            },
            journey,
            confirmations,
            payment_hash: payment_hash.to_owned(),
            order_id: order_id.to_owned(),
            contract: contract.copy(),
            lockup_txid: lockup_txid.to_owned(),
            status_ids: status_ids.copy(),
            claim_txid: String::new(),
            witness: Json::null(),
            external_control: Json::null(),
        }
    }

    /// What the journey asks for next.
    pub fn action(&self) -> (action: Action)
        ensures
            action@ == cooperative_claim_action(self@),
    {
        match self.phase {
            CooperativeClaimPhase::ReadTranscript => perform(Task::ReadTranscript),
            CooperativeClaimPhase::AwaitClaimPending => Action::AwaitState(
                "provider_claim_pending",
            ),
            CooperativeClaimPhase::AwaitOnBothNodes => perform_with_two(
                Task::AwaitOnBothNodes,
                self.claim_txid.as_str(),
                self.label(),
            ),
            CooperativeClaimPhase::MineClaim => Action::Mine(
                "bitcoin".to_owned(),
                self.confirmations,
                self.label(),
            ),
            CooperativeClaimPhase::AwaitClaimed => Action::AwaitState("provider_claimed"),
            CooperativeClaimPhase::AwaitCompleted => Action::AwaitState("completed"),
            CooperativeClaimPhase::AwaitClose => Action::AwaitClose(
                CloseCheck {
                    outcome: "completed",
                    bitcoin: Some(self.claim_txid.clone()),
                    liquid: None,
                    lightning: Some(
                        LightningTerminalCheck::IncomingInvoice {
                            payment_hash: self.payment_hash.clone(),
                        },
                    ),
                },
            ),
            CooperativeClaimPhase::InspectSettlement => perform_with(
                Task::InspectSettlement,
                self.claim_txid.as_str(),
            ),
            CooperativeClaimPhase::LoadProof => Action::LoadControllerProof,
            CooperativeClaimPhase::KeepResult => Action::Keep(
                "completed",
                Json::object(JsonObject::new().with("result", self.result_document())),
            ),
            CooperativeClaimPhase::Finished => Action::Finish,
        }
    }

    /// Takes a reply: the journey goes on to its next phase, or ends with a message.
    #[verifier::rlimit(60)]
    pub fn advance(&mut self, reply: Reply) -> (moved: Result<(), String>)
        ensures
            match moved {
                Ok(_) => cooperative_claim_step(
                    old(self)@,
                    reply@,
                ) == Ok::<CooperativeClaimRunView, Seq<char>>(final(self)@),
                Err(message) => {
                    &&& cooperative_claim_step(
                        old(self)@,
                        reply@,
                    ) == Err::<CooperativeClaimRunView, Seq<char>>(message@)
                    &&& final(self)@ == old(self)@
                },
            },
    {
        match (self.phase, reply) {
            (CooperativeClaimPhase::ReadTranscript, Reply::Transcript { provider, requester }) => {
                if !self.gave_up(&provider, &requester) {
                    return Err(
                        "cooperative fallback transcript has another terminal shape".to_owned(),
                    );
                }
                self.phase = CooperativeClaimPhase::AwaitClaimPending;
                Ok(())
            },
            (CooperativeClaimPhase::AwaitClaimPending, Reply::Record(event)) => {
                let found: String = status_transaction_id(&event)?;
                self.claim_txid = found;
                self.phase = CooperativeClaimPhase::AwaitOnBothNodes;
                Ok(())
            },
            (CooperativeClaimPhase::AwaitOnBothNodes, Reply::Done) => {
                self.phase = CooperativeClaimPhase::MineClaim;
                Ok(())
            },
            (CooperativeClaimPhase::MineClaim, Reply::Done) => {
                self.phase = CooperativeClaimPhase::AwaitClaimed;
                Ok(())
            },
            (CooperativeClaimPhase::AwaitClaimed, Reply::Record(_)) => {
                self.phase = CooperativeClaimPhase::AwaitCompleted;
                Ok(())
            },
            (CooperativeClaimPhase::AwaitCompleted, Reply::Record(_)) => {
                self.phase = CooperativeClaimPhase::AwaitClose;
                Ok(())
            },
            (CooperativeClaimPhase::AwaitClose, Reply::Record(_)) => {
                self.phase = CooperativeClaimPhase::InspectSettlement;
                Ok(())
            },
            (CooperativeClaimPhase::InspectSettlement, Reply::Settlement { primary, secondary, parsed }) => {
                let witness: Json = inspect_cooperative_settlement(
                    &self.contract,
                    self.lockup_txid.as_str(),
                    self.claim_txid.as_str(),
                    self.confirmations,
                    self.journey == CooperativeJourney::Complete,
                    &primary,
                    &secondary,
                    &parsed,
                )?;
                self.witness = witness;
                self.phase = if self.journey == CooperativeJourney::CrashCutRecovery {
                    CooperativeClaimPhase::LoadProof
                } else {
                    CooperativeClaimPhase::KeepResult
                };
                Ok(())
            },
            (CooperativeClaimPhase::LoadProof, Reply::Document(Some(document))) => {
                self.external_control = document;
                self.phase = CooperativeClaimPhase::KeepResult;
                Ok(())
            },
            (CooperativeClaimPhase::LoadProof, Reply::Document(None)) => {
                Err("cooperative crash has no process proof".to_owned())
            },
            (CooperativeClaimPhase::KeepResult, Reply::Done) => {
                self.phase = CooperativeClaimPhase::Finished;
                Ok(())
            },
            _ => Err(wrong_reply_text()),
        }
    }
}

/// Whether each entry of a trace leads to the one after it, from the first phase on.
pub open spec fn is_cooperative_claim_trace(
    trace: Seq<(CooperativeClaimRunView, ReplyView)>,
) -> bool {
    &&& trace.len() > 0
    &&& trace[0].0.phase == claim_start(trace[0].0.journey)
    &&& forall|i: int|
        0 <= i < trace.len() - 1 ==> cooperative_claim_step(
            (#[trigger] trace[i]).0,
            trace[i].1,
        ) == Ok::<
            CooperativeClaimRunView,
            Seq<char>,
        >(trace[i + 1].0)
}

/// Each reply takes the claim of a jointly signed swap forward, never back and never in place.
pub proof fn law_cooperative_claim_moves_forward(run: CooperativeClaimRunView, reply: ReplyView)
    requires
        cooperative_claim_step(run, reply) is Ok,
    ensures
        run.phase.rank() < cooperative_claim_step(run, reply)->Ok_0.phase.rank(),
{
}

/// Which replies take the claim of a jointly signed swap on, and to which phase: in each phase
/// exactly the replies that pass every check of that phase, and no others.
pub proof fn law_cooperative_claim_goes_on_only_when_answered(
    run: CooperativeClaimRunView,
    reply: ReplyView,
)
    ensures
        ({
            let next = cooperative_claim_step(run, reply);
            match run.phase {
                CooperativeClaimPhase::ReadTranscript => {
                    &&& next is Ok <==> {
                        &&& reply is Transcript
                        &&& gave_up(
                            reply->Transcript_provider,
                            reply->Transcript_requester,
                            run.journey,
                        )
                    }
                    &&& next is Ok ==> next->Ok_0.phase == CooperativeClaimPhase::AwaitClaimPending
                },
                CooperativeClaimPhase::AwaitClaimPending => {
                    &&& next is Ok <==> {
                        &&& reply is Record
                        &&& transaction_reading(reply->Record_content) is Ok
                    }
                    &&& next is Ok ==> next->Ok_0.phase == CooperativeClaimPhase::AwaitOnBothNodes
                },
                CooperativeClaimPhase::AwaitOnBothNodes => {
                    &&& next is Ok <==> reply is Done
                    &&& next is Ok ==> next->Ok_0.phase == CooperativeClaimPhase::MineClaim
                },
                CooperativeClaimPhase::MineClaim => {
                    &&& next is Ok <==> reply is Done
                    &&& next is Ok ==> next->Ok_0.phase == CooperativeClaimPhase::AwaitClaimed
                },
                CooperativeClaimPhase::AwaitClaimed => {
                    &&& next is Ok <==> reply is Record
                    &&& next is Ok ==> next->Ok_0.phase == CooperativeClaimPhase::AwaitCompleted
                },
                CooperativeClaimPhase::AwaitCompleted => {
                    &&& next is Ok <==> reply is Record
                    &&& next is Ok ==> next->Ok_0.phase == CooperativeClaimPhase::AwaitClose
                },
                CooperativeClaimPhase::AwaitClose => {
                    &&& next is Ok <==> reply is Record
                    &&& next is Ok ==> next->Ok_0.phase == CooperativeClaimPhase::InspectSettlement
                },
                CooperativeClaimPhase::InspectSettlement => {
                    let case_1 = run.journey == CooperativeJourney::CrashCutRecovery;
                    let case_2 = run.journey != CooperativeJourney::CrashCutRecovery;
                    &&& next is Ok <==> {
                        &&& reply is Settlement
                        &&& settlement_reading(
                            run.contract,
                            run.lockup_txid,
                            run.claim_txid,
                            run.confirmations,
                            run.journey == CooperativeJourney::Complete,
                            reply->Settlement_primary,
                            reply->Settlement_secondary,
                            reply->Settlement_parsed,
                        ) is Ok
                        &&& (case_1 || case_2)
                    }
                    &&& next is Ok && case_1 ==> next->Ok_0.phase == CooperativeClaimPhase::LoadProof
                    &&& next is Ok && case_2 ==> next->Ok_0.phase == CooperativeClaimPhase::KeepResult
                },
                CooperativeClaimPhase::LoadProof => {
                    &&& next is Ok <==> {
                        &&& reply is Document
                        &&& reply->Document_0 is Some
                    }
                    &&& next is Ok ==> next->Ok_0.phase == CooperativeClaimPhase::KeepResult
                },
                CooperativeClaimPhase::KeepResult => {
                    &&& next is Ok <==> reply is Done
                    &&& next is Ok ==> next->Ok_0.phase == CooperativeClaimPhase::Finished
                },
                CooperativeClaimPhase::Finished => next is Err,
            }
        }),
{
}

/// The reply that a trace of the claim of a jointly signed swap holds for a phase.
pub open spec fn cooperative_claim_told(
    trace: Seq<(CooperativeClaimRunView, ReplyView)>,
    phase: CooperativeClaimPhase,
) -> ReplyView {
    trace[choose|i: int| 0 <= i < trace.len() && (#[trigger] trace[i]).0.phase == phase].1
}

/// The values that a run of the claim of a jointly signed swap holds, by the replies that gave
/// them: each stays as the reply to one phase gave it, or as the run started with it.
pub open spec fn cooperative_claim_holds(
    trace: Seq<(CooperativeClaimRunView, ReplyView)>,
    run: CooperativeClaimRunView,
) -> bool {
    let start = trace[0].0;
    let claim_txid = transaction_reading(
        cooperative_claim_told(trace, CooperativeClaimPhase::AwaitClaimPending)->Record_content,
    )->Ok_0;
    let witness = settlement_reading(
        start.contract,
        start.lockup_txid,
        claim_txid,
        start.confirmations,
        start.journey == CooperativeJourney::Complete,
        cooperative_claim_told(trace, CooperativeClaimPhase::InspectSettlement)->Settlement_primary,
        cooperative_claim_told(
            trace,
            CooperativeClaimPhase::InspectSettlement,
        )->Settlement_secondary,
        cooperative_claim_told(trace, CooperativeClaimPhase::InspectSettlement)->Settlement_parsed,
    )->Ok_0;
    let external_control = if start.journey == CooperativeJourney::CrashCutRecovery {
        cooperative_claim_told(trace, CooperativeClaimPhase::LoadProof)->Document_0->0
    } else { start.external_control };
    &&& run.journey == start.journey
    &&& run.confirmations == start.confirmations
    &&& run.payment_hash == start.payment_hash
    &&& run.order_id == start.order_id
    &&& run.contract == start.contract
    &&& run.lockup_txid == start.lockup_txid
    &&& run.status_ids == start.status_ids
    &&& run.phase.rank() > CooperativeClaimPhase::AwaitClaimPending.rank()
        ==> run.claim_txid == claim_txid
    &&& run.phase.rank() > CooperativeClaimPhase::InspectSettlement.rank()
        ==> run.witness == witness
    &&& run.phase.rank() > CooperativeClaimPhase::LoadProof.rank()
        ==> run.external_control == external_control
    &&& run.phase.rank() <= CooperativeClaimPhase::LoadProof.rank()
        ==> run.external_control == start.external_control
    &&& run.phase == CooperativeClaimPhase::LoadProof
        ==> start.journey == CooperativeJourney::CrashCutRecovery
}

/// No phase of the claim of a jointly signed swap comes twice in a trace.
proof fn lemma_cooperative_claim_told_once(
    trace: Seq<(CooperativeClaimRunView, ReplyView)>,
    place: int,
)
    requires
        is_cooperative_claim_trace(trace),
        0 <= place < trace.len(),
    ensures
        cooperative_claim_told(trace, trace[place].0.phase) == trace[place].1,
{
    let phase = trace[place].0.phase;
    let other = choose|i: int| 0 <= i < trace.len() && (#[trigger] trace[i]).0.phase == phase;
    assert(trace[place].0.phase == phase);
    if other != place {
        let (early, late) = if other < place {
            (other, place)
        } else {
            (place, other)
        };
        assert forall|run: CooperativeClaimRunView, reply: ReplyView|
            (#[trigger] cooperative_claim_step(run, reply)) is Ok implies run.phase.rank() < cooperative_claim_step(
            run,
            reply,
        )->Ok_0.phase.rank() by {
            law_cooperative_claim_moves_forward(run, reply);
        }
        lemma_ranks_rise(
            trace,
            |run: CooperativeClaimRunView, reply: ReplyView| cooperative_claim_step(run, reply),
            |run: CooperativeClaimRunView| run.phase.rank(),
            early,
            late,
        );
    }
}

/// A reply keeps what the claim of a jointly signed swap holds, and adds what it tells.
proof fn lemma_cooperative_claim_holds_on(
    trace: Seq<(CooperativeClaimRunView, ReplyView)>,
    run: CooperativeClaimRunView,
    reply: ReplyView,
)
    requires
        cooperative_claim_holds(trace, run),
        cooperative_claim_told(trace, run.phase) == reply,
        cooperative_claim_step(run, reply) is Ok,
    ensures
        cooperative_claim_holds(trace, cooperative_claim_step(run, reply)->Ok_0),
{
    let next = cooperative_claim_step(run, reply)->Ok_0;
    match run.phase {
        CooperativeClaimPhase::ReadTranscript => assert(cooperative_claim_holds(trace, next)),
        CooperativeClaimPhase::AwaitClaimPending => assert(cooperative_claim_holds(trace, next)),
        CooperativeClaimPhase::AwaitOnBothNodes => assert(cooperative_claim_holds(trace, next)),
        CooperativeClaimPhase::MineClaim => assert(cooperative_claim_holds(trace, next)),
        CooperativeClaimPhase::AwaitClaimed => assert(cooperative_claim_holds(trace, next)),
        CooperativeClaimPhase::AwaitCompleted => assert(cooperative_claim_holds(trace, next)),
        CooperativeClaimPhase::AwaitClose => assert(cooperative_claim_holds(trace, next)),
        CooperativeClaimPhase::InspectSettlement => assert(cooperative_claim_holds(trace, next)),
        CooperativeClaimPhase::LoadProof => assert(cooperative_claim_holds(trace, next)),
        CooperativeClaimPhase::KeepResult => assert(cooperative_claim_holds(trace, next)),
        CooperativeClaimPhase::Finished => assert(cooperative_claim_holds(trace, next)),
    }
}

/// What the claim of a jointly signed swap has been told, it keeps: at every place of a trace each
/// value that the run holds is the one that the reply to the phase that asks for it gave, or the
/// one that the run started with.
pub proof fn law_cooperative_claim_keeps_what_it_was_told(
    trace: Seq<(CooperativeClaimRunView, ReplyView)>,
    last: int,
)
    requires
        is_cooperative_claim_trace(trace),
        0 <= last < trace.len(),
    ensures
        cooperative_claim_holds(trace, trace[last].0),
    decreases last,
{
    if last > 0 {
        let before = last - 1;
        law_cooperative_claim_keeps_what_it_was_told(trace, before);
        lemma_cooperative_claim_told_once(trace, before);
        assert(cooperative_claim_step(trace[before].0, trace[before].1) == Ok::<CooperativeClaimRunView, Seq<char>>(
            trace[before + 1].0,
        ));
        lemma_cooperative_claim_holds_on(trace, trace[before].0, trace[before].1);
    }
}

/// What the claim of a jointly signed swap asks for in each phase, in terms of the replies before
/// it: the values in a request are those that the replies to the named phases gave, or those that
/// the run started with.
pub proof fn law_cooperative_claim_asks_with_what_it_was_told(
    trace: Seq<(CooperativeClaimRunView, ReplyView)>,
    last: int,
)
    requires
        is_cooperative_claim_trace(trace),
        0 <= last < trace.len(),
    ensures
        ({
            let start = trace[0].0;
            let claim_txid = transaction_reading(
                cooperative_claim_told(
                    trace,
                    CooperativeClaimPhase::AwaitClaimPending,
                )->Record_content,
            )->Ok_0;
            let witness = settlement_reading(
                start.contract,
                start.lockup_txid,
                claim_txid,
                start.confirmations,
                start.journey == CooperativeJourney::Complete,
                cooperative_claim_told(
                    trace,
                    CooperativeClaimPhase::InspectSettlement,
                )->Settlement_primary,
                cooperative_claim_told(
                    trace,
                    CooperativeClaimPhase::InspectSettlement,
                )->Settlement_secondary,
                cooperative_claim_told(
                    trace,
                    CooperativeClaimPhase::InspectSettlement,
                )->Settlement_parsed,
            )->Ok_0;
            let external_control = if start.journey == CooperativeJourney::CrashCutRecovery {
                cooperative_claim_told(trace, CooperativeClaimPhase::LoadProof)->Document_0->0
            } else { start.external_control };
            let action = cooperative_claim_action(trace[last].0);
            match trace[last].0.phase {
                CooperativeClaimPhase::ReadTranscript => action == ActionView::Perform(
                    Task::ReadTranscript,
                    seq![],
                ),
                CooperativeClaimPhase::AwaitClaimPending => action == ActionView::AwaitState(
                    "provider_claim_pending"@,
                ),
                CooperativeClaimPhase::AwaitOnBothNodes => action == ActionView::Perform(
                    Task::AwaitOnBothNodes,
                    seq![claim_txid, settlement_label(start.journey)],
                ),
                CooperativeClaimPhase::MineClaim => action == ActionView::Mine(
                    "bitcoin"@,
                    start.confirmations,
                    settlement_label(start.journey),
                ),
                CooperativeClaimPhase::AwaitClaimed => action == ActionView::AwaitState(
                    "provider_claimed"@,
                ),
                CooperativeClaimPhase::AwaitCompleted => action == ActionView::AwaitState(
                    "completed"@,
                ),
                CooperativeClaimPhase::AwaitClose => action == ActionView::AwaitClose(
                    CloseCheckView {
                        outcome: "completed"@,
                        bitcoin: Some(claim_txid),
                        liquid: None,
                        lightning: Some(LightningView::Incoming(start.payment_hash)),
                    },
                ),
                CooperativeClaimPhase::InspectSettlement => action == ActionView::Perform(
                    Task::InspectSettlement,
                    seq![claim_txid],
                ),
                CooperativeClaimPhase::LoadProof => action == ActionView::LoadControllerProof,
                CooperativeClaimPhase::KeepResult => action == ActionView::Keep(
                    "completed"@,
                    JsonView::Object(
                        no_members().insert(
                            "result"@,
                            if start.journey == CooperativeJourney::Complete { JsonView::Object(no_members().insert("order_id"@, text_doc(start.order_id)).insert("lockup_txid"@, text_doc(start.lockup_txid)).insert("lockup_vout"@, number_doc(0)).insert("claim_txid"@, text_doc(claim_txid)).insert("payment_hash"@, text_doc(start.payment_hash)).insert("cooperative_status_ids"@, start.status_ids).insert("cooperative_status_count"@, number_doc(7)).insert("provider_final_signature_bytes"@, number_doc(64)).insert("witness"@, witness).insert("effect_states"@, JsonView::Object(no_members().insert("cooperative_sign"@, text_doc("applied"@)).insert("chain_claim"@, text_doc("applied"@)))).insert("result"@, text_doc("claimed"@))) } else {
                                JsonView::Object(
                                    no_members().insert("order_id"@, text_doc(start.order_id)).insert("lockup_txid"@, text_doc(start.lockup_txid)).insert("lockup_vout"@, number_doc(0)).insert("claim_txid"@, text_doc(claim_txid)).insert("payment_hash"@, text_doc(start.payment_hash)).insert("cooperative_status_ids"@, start.status_ids).insert("cooperative_status_count"@, number_doc(if start.journey == CooperativeJourney::CrashCutRecovery { 4 } else { 5 })).insert("provider_abort_count"@, number_doc(1)).insert("provider_public_nonce_count"@, number_doc(1)).insert("provider_partial_count"@, number_doc(0)).insert("provider_final_count"@, number_doc(0)).insert("requester_public_nonce_count"@, number_doc(0)).insert("requester_abort_count"@, number_doc(if start.journey == CooperativeJourney::CrashCutRecovery { 0 } else { 1 })).insert("witness"@, witness).insert(
                                        "effect_states"@,
                                        JsonView::Object(
                                            no_members().insert(
                                                "cooperative_sign"@,
                                                text_doc("applied"@),
                                            ).insert("chain_claim"@, text_doc("applied"@)),
                                        ),
                                    ).insert(
                                        "external_control"@,
                                        external_control,
                                    ).insert("result"@, text_doc("claimed"@)),
                                )
                            },
                        ),
                    ),
                ),
                CooperativeClaimPhase::Finished => action == ActionView::Finish,
            }
        }),
{
    law_cooperative_claim_keeps_what_it_was_told(trace, last);
}

/// A swap whose signature was given up is claimed only after what each side has said showed that.
pub proof fn law_fallback_shows_its_transcript(
    trace: Seq<(CooperativeClaimRunView, ReplyView)>,
    last: int,
)
    requires
        is_cooperative_claim_trace(trace),
        trace[0].0.journey != CooperativeJourney::Complete,
        0 < last < trace.len(),
    ensures
        trace[0].1 matches ReplyView::Transcript { provider, requester } && gave_up(
            provider,
            requester,
            trace[0].0.journey,
        ),
{
    assert(cooperative_claim_step(trace[0].0, trace[0].1) == Ok::<
        CooperativeClaimRunView,
        Seq<char>,
    >(trace[1].0));
}

/// A swap is kept as completed only after its settlement was inspected: it is the claim of this
/// lock, by the joint key or by the script as the journey has it, and its witness is what is kept.
pub proof fn law_cooperative_claim_is_inspected(
    trace: Seq<(CooperativeClaimRunView, ReplyView)>,
    last: int,
) -> (place: int)
    requires
        is_cooperative_claim_trace(trace),
        0 <= last < trace.len(),
        trace[last].0.phase.rank() > CooperativeClaimPhase::InspectSettlement.rank(),
    ensures
        0 <= place < last,
        trace[place].0.phase == CooperativeClaimPhase::InspectSettlement,
        trace[place].1 matches ReplyView::Settlement { primary, secondary, parsed }
            && settlement_reading(
            trace[last].0.contract,
            trace[last].0.lockup_txid,
            trace[last].0.claim_txid,
            trace[last].0.confirmations,
            trace[last].0.journey == CooperativeJourney::Complete,
            primary,
            secondary,
            parsed,
        ) == Ok::<JsonView, Seq<char>>(trace[last].0.witness),
    decreases last,
{
    let before = trace[last - 1].0;
    assert(cooperative_claim_step(before, trace[last - 1].1) == Ok::<
        CooperativeClaimRunView,
        Seq<char>,
    >(trace[last].0));
    if before.phase == CooperativeClaimPhase::InspectSettlement {
        last - 1
    } else {
        law_cooperative_claim_is_inspected(trace, last - 1)
    }
}

impl CooperativeClaimRun {
    fn gave_up(
        &self,
        provider: &Vec<CooperativeAction>,
        requester: &Vec<CooperativeAction>,
    ) -> (is: bool)
        ensures
            is == gave_up(provider@, requester@, self.journey),
    {
        let aborts: usize = if self.journey == CooperativeJourney::CrashCutRecovery {
            0
        } else {
            1
        };
        count_actions(provider, CooperativeAction::Aborted) == 1 && count_actions(
            provider,
            CooperativeAction::PublicNonce,
        ) == 1 && count_actions(
            provider,
            CooperativeAction::PartialSignature,
        ) == 0 && count_actions(
            provider,
            CooperativeAction::FinalSignature,
        ) == 0 && count_actions(requester, CooperativeAction::PublicNonce) == 0 && count_actions(
            requester,
            CooperativeAction::Aborted,
        ) == aborts
    }

    fn label(&self) -> (text: &'static str)
        ensures
            text@ == settlement_label(self.journey),
    {
        if self.journey == CooperativeJourney::Complete {
            "cooperative-key-path"
        } else {
            "cooperative-script-fallback"
        }
    }
}

/// What a swap comes to that was signed together.
pub open spec fn signed_result(run: CooperativeClaimRunView) -> JsonView {
    JsonView::Object(
        no_members().insert("order_id"@, text_doc(run.order_id)).insert(
            "lockup_txid"@,
            text_doc(run.lockup_txid),
        ).insert("lockup_vout"@, number_doc(0)).insert(
            "claim_txid"@,
            text_doc(run.claim_txid),
        ).insert("payment_hash"@, text_doc(run.payment_hash)).insert(
            "cooperative_status_ids"@,
            run.status_ids,
        ).insert("cooperative_status_count"@, number_doc(7)).insert(
            "provider_final_signature_bytes"@,
            number_doc(64),
        ).insert("witness"@, run.witness).insert(
            "effect_states"@,
            JsonView::Object(
                no_members().insert("cooperative_sign"@, text_doc("applied"@)).insert(
                    "chain_claim"@,
                    text_doc("applied"@),
                ),
            ),
        ).insert("result"@, text_doc("claimed"@)),
    )
}

/// What a swap comes to whose joint signature was given up.
pub open spec fn fallback_result(run: CooperativeClaimRunView) -> JsonView {
    JsonView::Object(
        no_members().insert("order_id"@, text_doc(run.order_id)).insert(
            "lockup_txid"@,
            text_doc(run.lockup_txid),
        ).insert("lockup_vout"@, number_doc(0)).insert(
            "claim_txid"@,
            text_doc(run.claim_txid),
        ).insert("payment_hash"@, text_doc(run.payment_hash)).insert(
            "cooperative_status_ids"@,
            run.status_ids,
        ).insert(
            "cooperative_status_count"@,
            number_doc(if run.journey == CooperativeJourney::CrashCutRecovery { 4 } else { 5 }),
        ).insert("provider_abort_count"@, number_doc(1)).insert(
            "provider_public_nonce_count"@,
            number_doc(1),
        ).insert("provider_partial_count"@, number_doc(0)).insert(
            "provider_final_count"@,
            number_doc(0),
        ).insert("requester_public_nonce_count"@, number_doc(0)).insert(
            "requester_abort_count"@,
            number_doc(if run.journey == CooperativeJourney::CrashCutRecovery { 0 } else { 1 }),
        ).insert("witness"@, run.witness).insert(
            "effect_states"@,
            JsonView::Object(
                no_members().insert("cooperative_sign"@, text_doc("applied"@)).insert(
                    "chain_claim"@,
                    text_doc("applied"@),
                ),
            ),
        ).insert("external_control"@, run.external_control).insert("result"@, text_doc("claimed"@)),
    )
}

/// What the claim of a jointly signed swap comes to.
pub open spec fn cooperative_result(run: CooperativeClaimRunView) -> JsonView {
    if run.journey == CooperativeJourney::Complete {
        signed_result(run)
    } else {
        fallback_result(run)
    }
}

impl CooperativeClaimRun {
    fn result_document(&self) -> (document: Json)
        ensures
            document@ == cooperative_result(self@),
    {
        if self.journey == CooperativeJourney::Complete {
            self.signed()
        } else {
            self.fallback()
        }
    }

    /// What the claim of a jointly signed swap comes to; nothing before it is over.
    pub fn result(&self) -> (document: Option<Json>)
        ensures
            match document {
                Some(document) => self@.phase == CooperativeClaimPhase::Finished && document@ == cooperative_result(self@),
                None => self@.phase != CooperativeClaimPhase::Finished,
            },
    {
        if self.phase == CooperativeClaimPhase::Finished {
            Some(self.result_document())
        } else {
            None
        }
    }

    fn signed(&self) -> (document: Json)
        ensures
            document@ == signed_result(self@),
    {
        Json::object(
            JsonObject::new().with_text("order_id", self.order_id.as_str()).with_text(
                "lockup_txid",
                self.lockup_txid.as_str(),
            ).with_number("lockup_vout", 0).with_text(
                "claim_txid",
                self.claim_txid.as_str(),
            ).with_text("payment_hash", self.payment_hash.as_str()).with(
                "cooperative_status_ids",
                self.status_ids.copy(),
            ).with_number("cooperative_status_count", 7).with_number(
                "provider_final_signature_bytes",
                64,
            ).with("witness", self.witness.copy()).with(
                "effect_states",
                Json::object(
                    JsonObject::new().with_text("cooperative_sign", "applied").with_text(
                        "chain_claim",
                        "applied",
                    ),
                ),
            ).with_text("result", "claimed"),
        )
    }

    fn fallback(&self) -> (document: Json)
        ensures
            document@ == fallback_result(self@),
    {
        let crash: bool = self.journey == CooperativeJourney::CrashCutRecovery;
        Json::object(
            JsonObject::new().with_text("order_id", self.order_id.as_str()).with_text(
                "lockup_txid",
                self.lockup_txid.as_str(),
            ).with_number("lockup_vout", 0).with_text(
                "claim_txid",
                self.claim_txid.as_str(),
            ).with_text("payment_hash", self.payment_hash.as_str()).with(
                "cooperative_status_ids",
                self.status_ids.copy(),
            ).with("cooperative_status_count", Json::number(if crash { 4 } else { 5 })).with_number(
                "provider_abort_count",
                1,
            ).with_number("provider_public_nonce_count", 1).with_number(
                "provider_partial_count",
                0,
            ).with_number("provider_final_count", 0).with_number(
                "requester_public_nonce_count",
                0,
            ).with("requester_abort_count", Json::number(if crash { 0 } else { 1 })).with(
                "witness",
                self.witness.copy(),
            ).with(
                "effect_states",
                Json::object(
                    JsonObject::new().with_text("cooperative_sign", "applied").with_text(
                        "chain_claim",
                        "applied",
                    ),
                ),
            ).with("external_control", self.external_control.copy()).with_text("result", "claimed"),
        )
    }
}

/// A swap whose signature was given up is settled by the script, and neither side has signed for
/// the joint key.
pub proof fn law_fallback_has_no_joint_signature(
    run: CooperativeClaimRunView,
    provider: Seq<CooperativeAction>,
    requester: Seq<CooperativeAction>,
)
    requires
        run.phase == CooperativeClaimPhase::ReadTranscript,
        run.journey != CooperativeJourney::Complete,
        cooperative_claim_step(run, ReplyView::Transcript { provider, requester }) is Ok,
    ensures
        forall|i: int|
            0 <= i < provider.len() ==> #[trigger] provider[i] != CooperativeAction::PartialSignature
                && provider[i] != CooperativeAction::FinalSignature,
        forall|i: int|
            0 <= i < requester.len() ==> #[trigger] requester[i] != CooperativeAction::PublicNonce,
{
    lemma_none_counted(provider, CooperativeAction::PartialSignature);
    lemma_none_counted(provider, CooperativeAction::FinalSignature);
    lemma_none_counted(requester, CooperativeAction::PublicNonce);
}

proof fn lemma_none_counted(actions: Seq<CooperativeAction>, action: CooperativeAction)
    requires
        count_of(actions, action) == 0,
    ensures
        forall|i: int| 0 <= i < actions.len() ==> #[trigger] actions[i] != action,
    decreases actions.len(),
{
    if actions.len() > 0 {
        lemma_none_counted(actions.drop_last(), action);
        assert forall|i: int| 0 <= i < actions.len() implies #[trigger] actions[i] != action by {
            if i < actions.len() - 1 {
                assert(actions.drop_last()[i] == actions[i]);
            }
        }
    }
}

/// The messages that a joint signature reports are those that were exchanged, in the order in which the
/// two sides took turns; a signature that is given up reports those up to the end of it.
pub proof fn law_status_ids_are_of_the_exchange(
    trace: Seq<(CooperativeRunView, ReplyView)>,
    last: int,
)
    requires
        is_cooperative_trace(trace),
        0 <= last < trace.len(),
        trace[last].0.phase == CooperativePhase::Signed || trace[last].0.phase
            == CooperativePhase::Aborted,
    ensures
        ({
            let committed = cooperative_told(trace, CooperativePhase::AwaitCommitment)->Signing_id;
            let answered = cooperative_told(trace, CooperativePhase::SayCommitment)->Record_id;
            let shown = cooperative_told(trace, CooperativePhase::AwaitNonce)->Signing_id;
            let ended = cooperative_told(trace, CooperativePhase::AwaitAbort)->Signing_id;
            status_ids_doc(trace[last].0) == texts_doc(
                match trace[0].0.journey {
                    CooperativeJourney::Complete => seq![
                        committed,
                        answered,
                        shown,
                        cooperative_told(trace, CooperativePhase::SayNonce)->Record_id,
                        cooperative_told(trace, CooperativePhase::AwaitPartial)->Signing_id,
                        cooperative_told(trace, CooperativePhase::SayPartial)->Record_id,
                        cooperative_told(trace, CooperativePhase::AwaitFinalSignature)->Signing_id,
                    ],
                    CooperativeJourney::CrashCutRecovery => seq![committed, answered, shown, ended],
                    CooperativeJourney::AbortAfterProviderNonce => seq![
                        committed,
                        answered,
                        shown,
                        cooperative_told(trace, CooperativePhase::SayAbort)->Record_id,
                        ended,
                    ],
                },
            )
        }),
{
    law_cooperative_keeps_what_it_was_told(trace, last);
}

/// A step is counted as often as it was taken, so it was taken at all exactly where its count is not
/// zero.
pub proof fn law_counted_steps_were_taken(
    actions: Seq<CooperativeAction>,
    action: CooperativeAction,
)
    ensures
        count_of(actions, action) == 0 <==> !actions.contains(action),
        count_of(actions, action) <= actions.len(),
    decreases actions.len(),
{
    if actions.len() > 0 {
        let rest = actions.drop_last();
        law_counted_steps_were_taken(rest, action);
        assert(actions =~= rest.push(actions.last()));
        if actions.last() == action {
            assert(actions[actions.len() - 1] == action);
        } else if rest.contains(action) {
            let i = choose|i: int| 0 <= i < rest.len() && rest[i] == action;
            assert(actions[i] == action);
        } else if actions.contains(action) {
            let i = choose|i: int| 0 <= i < actions.len() && actions[i] == action;
            assert(rest[i] == action);
        }
    }
}

/// A joint signature that was given up has no part of a signature in it: the provider showed a nonce and
/// ended it, neither they nor this side signed or showed a nonce after, and this side ended it too
/// unless it had crashed.
pub proof fn law_given_up_signature_has_no_part(
    provider: Seq<CooperativeAction>,
    requester: Seq<CooperativeAction>,
    journey: CooperativeJourney,
)
    requires
        gave_up(provider, requester, journey),
    ensures
        provider.contains(CooperativeAction::PublicNonce),
        provider.contains(CooperativeAction::Aborted),
        !provider.contains(CooperativeAction::PartialSignature),
        !provider.contains(CooperativeAction::FinalSignature),
        !requester.contains(CooperativeAction::PublicNonce),
        requester.contains(CooperativeAction::Aborted) <==> journey
            != CooperativeJourney::CrashCutRecovery,
{
    law_counted_steps_were_taken(provider, CooperativeAction::PublicNonce);
    law_counted_steps_were_taken(provider, CooperativeAction::Aborted);
    law_counted_steps_were_taken(provider, CooperativeAction::PartialSignature);
    law_counted_steps_were_taken(provider, CooperativeAction::FinalSignature);
    law_counted_steps_were_taken(requester, CooperativeAction::PublicNonce);
    law_counted_steps_were_taken(requester, CooperativeAction::Aborted);
}

} // verus!
