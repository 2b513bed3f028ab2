//! Transactions that settle a lock, before they are signed.

use vstd::prelude::*;
use crate::amount::{amount_reading, canonical_u64, parse_u64, parsed_u64};
use crate::contract::{
    BitcoinTerms, after_fee, amount_after_fee, amount_member, bitcoin_terms, bytes_member,
    leg_verifier, required_amount, required_bytes, required_reading, required_string, strings,
    terms_reading, verifier_for_leg,
};
use crate::control::counted;
use crate::hex::{
    decode_fixed_hex, decode_hex, display_txid_wire, fixed_reading, hex_reading, hex_text,
    lower_hex, told_bytes, txid_wire_reading,
};
use crate::json::{Json, JsonObject, JsonView, member, members_of, seen};
use crate::node::{raw_id_reading, transaction_id};
use crate::terminal::ParsedTransaction;
use crate::text::{join, same_text, told};

verus! {

fn copy_bytes(bytes: &Vec<u8>) -> (copied: Vec<u8>)
    ensures
        copied@ == bytes@,
{
    let mut copied: Vec<u8> = Vec::new();
    let mut i: usize = 0;
    while i < bytes.len()
        invariant
            i <= bytes@.len(),
            copied@ == bytes@.subrange(0, i as int),
        decreases bytes@.len() - i,
    {
        copied.push(bytes[i]);
        i = i + 1;
        assert(copied@ =~= bytes@.subrange(0, i as int));
    }
    assert(bytes@.subrange(0, i as int) =~= bytes@);
    copied
}

/// A count that fits thirty-two bits; nothing where there is none or it is too large.
pub open spec fn narrow_count(count: Option<u64>) -> Option<u32> {
    match count {
        Some(count) if count <= u32::MAX => Some(count as u32),
        _ => None,
    }
}

/// A count that fits thirty-two bits; nothing where there is none or it is too large.
pub fn narrow_index(count: Option<u64>) -> (narrow: Option<u32>)
    ensures
        narrow == narrow_count(count),
{
    match count {
        Some(count) if count <= 0xffff_ffff => Some(count as u32),
        _ => None,
    }
}

/// A transaction that settles a lock, before it is signed.
pub struct SettlementTemplate {
    pub previous_txid_wire: [u8; 32],
    pub previous_output: u32,
    pub prevout_value_sat: u64,
    pub prevout_script_pubkey: Vec<u8>,
    pub destination_value_sat: u64,
    pub destination_script_pubkey: Vec<u8>,
    pub transaction_version: u32,
    pub input_sequence: u32,
    pub lock_time: u32,
    pub taproot_script: Vec<u8>,
    pub taproot_control_block: Vec<u8>,
    pub maximum_fee_sat: u64,
    pub maximum_fee_rate_sat_per_vbyte: u64,
    pub maximum_weight: u64,
    pub dust_relay_fee_sat_per_kilobyte: u64,
}

/// A transaction that settles a lock, before it is signed.
#[verifier::ext_equal]
pub struct SettlementTemplateView {
    pub previous_txid_wire: Seq<u8>,
    pub previous_output: u32,
    pub prevout_value_sat: u64,
    pub prevout_script_pubkey: Seq<u8>,
    pub destination_value_sat: u64,
    pub destination_script_pubkey: Seq<u8>,
    pub transaction_version: u32,
    pub input_sequence: u32,
    pub lock_time: u32,
    pub taproot_script: Seq<u8>,
    pub taproot_control_block: Seq<u8>,
    pub maximum_fee_sat: u64,
    pub maximum_fee_rate_sat_per_vbyte: u64,
    pub maximum_weight: u64,
    pub dust_relay_fee_sat_per_kilobyte: u64,
}

impl View for SettlementTemplate {
    type V = SettlementTemplateView;

    open spec fn view(&self) -> SettlementTemplateView {
        SettlementTemplateView {
            previous_txid_wire: self.previous_txid_wire@,
            previous_output: self.previous_output,
            prevout_value_sat: self.prevout_value_sat,
            prevout_script_pubkey: self.prevout_script_pubkey@,
            destination_value_sat: self.destination_value_sat,
            destination_script_pubkey: self.destination_script_pubkey@,
            transaction_version: self.transaction_version,
            input_sequence: self.input_sequence,
            lock_time: self.lock_time,
            taproot_script: self.taproot_script@,
            taproot_control_block: self.taproot_control_block@,
            maximum_fee_sat: self.maximum_fee_sat,
            maximum_fee_rate_sat_per_vbyte: self.maximum_fee_rate_sat_per_vbyte,
            maximum_weight: self.maximum_weight,
            dust_relay_fee_sat_per_kilobyte: self.dust_relay_fee_sat_per_kilobyte,
        }
    }
}

/// The claim of a lock: all of it but the fee, with the claim script. `consumed` is said where the
/// fee takes all.
pub open spec fn claim_template_reading(
    contract: JsonView,
    leg_id: Seq<char>,
    funding_id: Seq<char>,
    previous_output: u32,
    destination: Seq<u8>,
    consumed: Seq<char>,
) -> Result<SettlementTemplateView, Seq<char>> {
    match terms_reading(contract, leg_id) {
        Err(message) => Err(message),
        Ok(terms) => match after_fee(terms.amount_sat, terms.miner_fee_budget_sat) {
            None => Err(consumed),
            Some(left) => match txid_wire_reading(funding_id) {
                Err(message) => Err(message),
                Ok(wire) => Ok(
                    SettlementTemplateView {
                        previous_txid_wire: wire,
                        previous_output,
                        prevout_value_sat: terms.amount_sat,
                        prevout_script_pubkey: terms.script_pubkey,
                        destination_value_sat: left,
                        destination_script_pubkey: destination,
                        transaction_version: 2,
                        input_sequence: 0xffff_fffe,
                        lock_time: 0,
                        taproot_script: terms.claim_script,
                        taproot_control_block: terms.claim_control_block,
                        maximum_fee_sat: terms.miner_fee_budget_sat,
                        maximum_fee_rate_sat_per_vbyte: 10_000,
                        maximum_weight: 1_600,
                        dust_relay_fee_sat_per_kilobyte: 3_000,
                    },
                ),
            },
        },
    }
}

/// The claim of a lock: it can be had exactly where every part that it rests on can, and each part
/// of it is the one that its name says.
pub proof fn law_claim_template_is_read_from_its_parts(
    contract: JsonView,
    leg_id: Seq<char>,
    funding_id: Seq<char>,
    previous_output: u32,
    destination: Seq<u8>,
    consumed: Seq<char>,
)
    ensures
        ({
            let read = claim_template_reading(
                contract,
                leg_id,
                funding_id,
                previous_output,
                destination,
                consumed,
            );
            let terms = terms_reading(contract, leg_id)->Ok_0;
            let given = read->Ok_0;
            &&& read is Ok <==> {
                &&& terms_reading(contract, leg_id) is Ok
                &&& after_fee(terms.amount_sat, terms.miner_fee_budget_sat) is Some
                &&& txid_wire_reading(funding_id) is Ok
            }
            &&& read is Ok ==> {
                &&& given.previous_txid_wire == txid_wire_reading(funding_id)->Ok_0
                &&& given.previous_output == previous_output
                &&& given.prevout_value_sat == terms.amount_sat
                &&& given.prevout_script_pubkey == terms.script_pubkey
                &&& given.destination_value_sat == after_fee(
                    terms.amount_sat,
                    terms.miner_fee_budget_sat,
                )->0
                &&& given.destination_script_pubkey == destination
                &&& given.transaction_version == 2
                &&& given.input_sequence == 0xffff_fffe
                &&& given.lock_time == 0
                &&& given.taproot_script == terms.claim_script
                &&& given.taproot_control_block == terms.claim_control_block
                &&& given.maximum_fee_sat == terms.miner_fee_budget_sat
                &&& given.maximum_fee_rate_sat_per_vbyte == 10_000
                &&& given.maximum_weight == 1_600
                &&& given.dust_relay_fee_sat_per_kilobyte == 3_000
            }
        }),
{
}

/// The claim of a lock: all of it but the fee, with the claim script. `consumed` is said where the
/// fee takes all.
pub fn claim_template(
    contract: &Json,
    leg_id: &str,
    funding_id: &str,
    previous_output: u32,
    destination: &Vec<u8>,
    consumed: &str,
) -> (outcome: Result<SettlementTemplate, String>)
    ensures
        (match outcome { Ok(value) => Ok(value@), Err(message) => Err(message@) }) == claim_template_reading(
            contract@,
            leg_id@,
            funding_id@,
            previous_output,
            destination@,
            consumed@,
        ),
{
    let terms: BitcoinTerms = bitcoin_terms(contract, leg_id)?;
    let left: u64 = match amount_after_fee(terms.amount_sat, terms.miner_fee_budget_sat) {
        Some(left) => left,
        None => {
            return Err(consumed.to_owned());
        },
    };
    let wire: [u8; 32] = display_txid_wire(funding_id)?;
    Ok(
        SettlementTemplate {
            previous_txid_wire: wire,
            previous_output,
            prevout_value_sat: terms.amount_sat,
            prevout_script_pubkey: terms.script_pubkey,
            destination_value_sat: left,
            destination_script_pubkey: copy_bytes(destination),
            transaction_version: 2,
            input_sequence: 0xffff_fffe,
            lock_time: 0,
            taproot_script: terms.claim_script,
            taproot_control_block: terms.claim_control_block,
            maximum_fee_sat: terms.miner_fee_budget_sat,
            maximum_fee_rate_sat_per_vbyte: 10_000,
            maximum_weight: 1_600,
            dust_relay_fee_sat_per_kilobyte: 3_000,
        },
    )
}

/// The refund of a lock: all of it but the fee, with the refund script, once its height is reached.
/// `consumed` is said where the fee takes all.
pub open spec fn refund_template_reading(
    contract: JsonView,
    leg_id: Seq<char>,
    funding_id: Seq<char>,
    previous_output: u32,
    destination: Seq<u8>,
    consumed: Seq<char>,
) -> Result<SettlementTemplateView, Seq<char>> {
    match terms_reading(contract, leg_id) {
        Err(message) => Err(message),
        Ok(terms) => match after_fee(terms.amount_sat, terms.miner_fee_budget_sat) {
            None => Err(consumed),
            Some(left) => match txid_wire_reading(funding_id) {
                Err(message) => Err(message),
                Ok(wire) => Ok(
                    SettlementTemplateView {
                        previous_txid_wire: wire,
                        previous_output,
                        prevout_value_sat: terms.amount_sat,
                        prevout_script_pubkey: terms.script_pubkey,
                        destination_value_sat: left,
                        destination_script_pubkey: destination,
                        transaction_version: 2,
                        input_sequence: 0xffff_fffe,
                        lock_time: terms.refund_lock_height,
                        taproot_script: terms.refund_script,
                        taproot_control_block: terms.refund_control_block,
                        maximum_fee_sat: terms.miner_fee_budget_sat,
                        maximum_fee_rate_sat_per_vbyte: 10_000,
                        maximum_weight: 1_600,
                        dust_relay_fee_sat_per_kilobyte: 3_000,
                    },
                ),
            },
        },
    }
}

/// The refund of a lock: it can be had exactly where every part that it rests on can, and each part
/// of it is the one that its name says.
pub proof fn law_refund_template_is_read_from_its_parts(
    contract: JsonView,
    leg_id: Seq<char>,
    funding_id: Seq<char>,
    previous_output: u32,
    destination: Seq<u8>,
    consumed: Seq<char>,
)
    ensures
        ({
            let read = refund_template_reading(
                contract,
                leg_id,
                funding_id,
                previous_output,
                destination,
                consumed,
            );
            let terms = terms_reading(contract, leg_id)->Ok_0;
            let given = read->Ok_0;
            &&& read is Ok <==> {
                &&& terms_reading(contract, leg_id) is Ok
                &&& after_fee(terms.amount_sat, terms.miner_fee_budget_sat) is Some
                &&& txid_wire_reading(funding_id) is Ok
            }
            &&& read is Ok ==> {
                &&& given.previous_txid_wire == txid_wire_reading(funding_id)->Ok_0
                &&& given.previous_output == previous_output
                &&& given.prevout_value_sat == terms.amount_sat
                &&& given.prevout_script_pubkey == terms.script_pubkey
                &&& given.destination_value_sat == after_fee(
                    terms.amount_sat,
                    terms.miner_fee_budget_sat,
                )->0
                &&& given.destination_script_pubkey == destination
                &&& given.transaction_version == 2
                &&& given.input_sequence == 0xffff_fffe
                &&& given.lock_time == terms.refund_lock_height
                &&& given.taproot_script == terms.refund_script
                &&& given.taproot_control_block == terms.refund_control_block
                &&& given.maximum_fee_sat == terms.miner_fee_budget_sat
                &&& given.maximum_fee_rate_sat_per_vbyte == 10_000
                &&& given.maximum_weight == 1_600
                &&& given.dust_relay_fee_sat_per_kilobyte == 3_000
            }
        }),
{
}

/// The refund of a lock: all of it but the fee, with the refund script, once its height is reached.
/// `consumed` is said where the fee takes all.
pub fn refund_template(
    contract: &Json,
    leg_id: &str,
    funding_id: &str,
    previous_output: u32,
    destination: &Vec<u8>,
    consumed: &str,
) -> (outcome: Result<SettlementTemplate, String>)
    ensures
        (match outcome { Ok(value) => Ok(value@), Err(message) => Err(message@) }) == refund_template_reading(
            contract@,
            leg_id@,
            funding_id@,
            previous_output,
            destination@,
            consumed@,
        ),
{
    let terms: BitcoinTerms = bitcoin_terms(contract, leg_id)?;
    let left: u64 = match amount_after_fee(terms.amount_sat, terms.miner_fee_budget_sat) {
        Some(left) => left,
        None => {
            return Err(consumed.to_owned());
        },
    };
    let wire: [u8; 32] = display_txid_wire(funding_id)?;
    Ok(
        SettlementTemplate {
            previous_txid_wire: wire,
            previous_output,
            prevout_value_sat: terms.amount_sat,
            prevout_script_pubkey: terms.script_pubkey,
            destination_value_sat: left,
            destination_script_pubkey: copy_bytes(destination),
            transaction_version: 2,
            input_sequence: 0xffff_fffe,
            lock_time: terms.refund_lock_height,
            taproot_script: terms.refund_script,
            taproot_control_block: terms.refund_control_block,
            maximum_fee_sat: terms.miner_fee_budget_sat,
            maximum_fee_rate_sat_per_vbyte: 10_000,
            maximum_weight: 1_600,
            dust_relay_fee_sat_per_kilobyte: 3_000,
        },
    )
}

/// The outpoint that the contract commits a leg to, given what its funding parses as. `unbounded`
/// is said where the output is none.
pub open spec fn committed_outpoint_reading(
    contract: JsonView,
    leg_id: Seq<char>,
    parsed: Result<ParsedTransaction, String>,
    unbounded: Seq<char>,
) -> Result<(Seq<char>, u32), Seq<char>> {
    match leg_verifier(contract, leg_id) {
        None => Err("funded contract has no "@ + leg_id + " verifier"@),
        Some(verifier) => match required_reading(verifier, "funding_transaction"@) {
            Err(message) => Err(message),
            Ok(raw) => match raw_id_reading(raw, parsed) {
                Err(message) => Err(message),
                Ok(id) => match narrow_count(counted(verifier, "output_index"@)) {
                    None => Err(unbounded),
                    Some(output) => Ok((id, output)),
                },
            },
        },
    }
}

/// The outpoint that the contract commits a leg to, given what its funding parses as: it can be had
/// exactly where every part that it rests on can, and each part of it is the one that its name
/// says.
pub proof fn law_committed_outpoint_is_read_from_its_parts(
    contract: JsonView,
    leg_id: Seq<char>,
    parsed: Result<ParsedTransaction, String>,
    unbounded: Seq<char>,
)
    ensures
        ({
            let read = committed_outpoint_reading(contract, leg_id, parsed, unbounded);
            let verifier = leg_verifier(contract, leg_id)->0;
            let raw = required_reading(verifier, "funding_transaction"@)->Ok_0;
            let given = read->Ok_0;
            &&& read is Ok <==> {
                &&& leg_verifier(contract, leg_id) is Some
                &&& required_reading(verifier, "funding_transaction"@) is Ok
                &&& raw_id_reading(raw, parsed) is Ok
                &&& narrow_count(counted(verifier, "output_index"@)) is Some
            }
            &&& read is Ok ==> {
                &&& given.0 == raw_id_reading(raw, parsed)->Ok_0
                &&& given.1 == narrow_count(counted(verifier, "output_index"@))->0
            }
        }),
{
}

/// The outpoint that the contract commits a leg to, given what its funding parses as. `unbounded`
/// is said where the output is none.
pub fn committed_outpoint(
    contract: &Json,
    leg_id: &str,
    parsed: &Result<ParsedTransaction, String>,
    unbounded: &str,
) -> (outcome: Result<(String, u32), String>)
    ensures
        (match outcome { Ok((id, output)) => Ok((id@, output)), Err(message) => Err(message@) }) == committed_outpoint_reading(
            contract@,
            leg_id@,
            *parsed,
            unbounded@,
        ),
{
    let verifier: &JsonObject = verifier_for_leg(contract, leg_id)?;
    let raw: &str = required_string(verifier, "funding_transaction")?;
    let id: String = transaction_id(raw, parsed)?;
    let output: u32 = match narrow_index(verifier.u64_at("output_index")) {
        Some(output) => output,
        None => {
            return Err(unbounded.to_owned());
        },
    };
    Ok((id, output))
}

/// What a joint signature is made of, by the provider's message.
pub struct SigningContext {
    pub unsigned_transaction: String,
    pub input_index: u32,
    /// The amount and the script of each output that is spent.
    pub prevouts: Vec<(String, String)>,
    pub participant_keys: Vec<String>,
    pub aggregate_key: String,
    pub signature_hash: String,
    /// The digest of the whole message.
    pub sha256: Result<String, String>,
    pub latest_safe_height: String,
}

/// The transaction of a joint signature, parsed.
pub struct UnsignedSettlement {
    pub version: u32,
    pub lock_time: u32,
    /// The identifier in wire order, the output and the sequence number of each input.
    pub inputs: Vec<([u8; 32], u32, u32)>,
    /// The value and the script of each output.
    pub outputs: Vec<(u64, Vec<u8>)>,
}

/// A joint signature, before it is begun.
pub struct CooperativeTemplate {
    pub settlement: SettlementTemplate,
    pub first_key: Vec<u8>,
    pub second_key: Vec<u8>,
    pub taproot_merkle_root: Vec<u8>,
    pub transcript_digest: Vec<u8>,
    pub latest_safe_height: u32,
}

/// A joint signature, before it is begun.
#[verifier::ext_equal]
pub struct CooperativeTemplateView {
    pub settlement: SettlementTemplateView,
    pub first_key: Seq<u8>,
    pub second_key: Seq<u8>,
    pub taproot_merkle_root: Seq<u8>,
    pub transcript_digest: Seq<u8>,
    pub latest_safe_height: u32,
}

impl View for CooperativeTemplate {
    type V = CooperativeTemplateView;

    open spec fn view(&self) -> CooperativeTemplateView {
        CooperativeTemplateView {
            settlement: self.settlement@,
            first_key: self.first_key@,
            second_key: self.second_key@,
            taproot_merkle_root: self.taproot_merkle_root@,
            transcript_digest: self.transcript_digest@,
            latest_safe_height: self.latest_safe_height,
        }
    }
}

/// The keys of both sides, from all that a message names.
pub open spec fn keys_reading(keys: Seq<Seq<char>>) -> Result<Seq<Seq<u8>>, Seq<char>>
    decreases keys.len(),
{
    if keys.len() == 0 {
        Ok(Seq::empty())
    } else {
        match keys_reading(keys.drop_last()) {
            Err(message) => Err(message),
            Ok(front) => match fixed_reading(keys.last(), "cooperative participant key"@, 33) {
                Err(message) => Err(message),
                Ok(key) => Ok(front.push(key)),
            },
        }
    }
}

/// Byte strings by what they hold.
pub open spec fn byte_views(values: Seq<Vec<u8>>) -> Seq<Seq<u8>> {
    values.map_values(|value: Vec<u8>| value@)
}

proof fn lemma_keys_prefix(keys: Seq<Seq<char>>, upto: int)
    requires
        0 <= upto <= keys.len(),
        keys_reading(keys.subrange(0, upto)) is Err,
    ensures
        keys_reading(keys) == keys_reading(keys.subrange(0, upto)),
    decreases keys.len() - upto,
{
    if upto == keys.len() {
        assert(keys.subrange(0, upto) =~= keys);
    } else {
        let longer = keys.subrange(0, upto + 1);
        assert(longer.drop_last() =~= keys.subrange(0, upto));
        lemma_keys_prefix(keys, upto + 1);
    }
}

fn read_keys(keys: &Vec<String>) -> (read: Result<Vec<Vec<u8>>, String>)
    ensures
        (match read {
            Ok(read) => Ok(byte_views(read@)),
            Err(message) => Err(message@),
        }) == keys_reading(strings(keys@)),
{
    let mut read: Vec<Vec<u8>> = Vec::new();
    let mut i: usize = 0;
    let ghost texts = strings(keys@);
    assert(texts.subrange(0, 0) =~= Seq::<Seq<char>>::empty());
    assert(byte_views(read@) =~= Seq::<Seq<u8>>::empty());
    while i < keys.len()
        invariant
            i <= keys@.len(),
            texts == strings(keys@),
            keys_reading(texts.subrange(0, i as int)) == Ok::<Seq<Seq<u8>>, Seq<char>>(
                byte_views(read@),
            ),
        decreases keys@.len() - i,
    {
        proof {
            let longer = texts.subrange(0, i + 1);
            assert(longer.drop_last() =~= texts.subrange(0, i as int));
            assert(longer.last() == keys@[i as int]@);
        }
        match decode_fixed_hex::<33>(keys[i].as_str(), "cooperative participant key") {
            Ok(key) => {
                let ghost before = read@;
                read.push(key);
                assert(byte_views(read@) =~= byte_views(before).push(key@));
            },
            Err(message) => {
                proof {
                    lemma_keys_prefix(texts, i + 1);
                }
                return Err(message);
            },
        }
        i = i + 1;
    }
    assert(texts.subrange(0, i as int) =~= texts);
    Ok(read)
}

/// The objects of an exit package that a joint signature reads.
pub open spec fn package_reading(package: JsonView) -> Result<
    (Map<Seq<char>, JsonView>, Map<Seq<char>, JsonView>),
    Seq<char>,
> {
    match members_of(member(package, "exit"@)) {
        None => Err("requester exit package has no exit object"@),
        Some(exit) => match members_of(member(package, "verification"@)) {
            None => Err("requester exit package has no verification object"@),
            Some(verification) => match members_of(
                member(JsonView::Object(exit), "fee_policy"@),
            ) {
                None => Err("requester exit package has no fee policy"@),
                Some(fee_policy) => Ok((verification, fee_policy)),
            },
        },
    }
}

/// The objects of an exit package that a joint signature reads: it can be had exactly where every
/// part that it rests on can, and each part of it is the one that its name says.
pub proof fn law_package_is_read_from_its_parts(package: JsonView)
    ensures
        ({
            let read = package_reading(package);
            let exit = members_of(member(package, "exit"@))->0;
            let given = read->Ok_0;
            &&& read is Ok <==> {
                &&& members_of(member(package, "exit"@)) is Some
                &&& members_of(member(package, "verification"@)) is Some
                &&& members_of(member(JsonView::Object(exit), "fee_policy"@)) is Some
            }
            &&& read is Ok ==> {
                &&& given.0 == members_of(member(package, "verification"@))->0
                &&& given.1 == members_of(member(JsonView::Object(exit), "fee_policy"@))->0
            }
        }),
{
}

fn object_at<'a>(document: &'a Json, name: &str) -> (found: Option<&'a JsonObject>)
    ensures
        (match found {
            Some(members) => Some(members@),
            None => None,
        }) == members_of(member(document@, name@)),
{
    match document.get(name) {
        Some(value) => value.as_object(),
        None => None,
    }
}

fn package_parts<'a>(package: &'a Json) -> (parts: Result<(&'a JsonObject, &'a JsonObject), String>)
    ensures
        (match parts {
            Ok((verification, fee_policy)) => Ok((verification@, fee_policy@)),
            Err(message) => Err(message@),
        }) == package_reading(package@),
{
    let exit: &JsonObject = match object_at(package, "exit") {
        Some(exit) => exit,
        None => {
            return Err("requester exit package has no exit object".to_owned());
        },
    };
    let verification: &JsonObject = match object_at(package, "verification") {
        Some(verification) => verification,
        None => {
            return Err("requester exit package has no verification object".to_owned());
        },
    };
    let fee_policy: Option<&JsonObject> = match exit.get("fee_policy") {
        Some(value) => value.as_object(),
        None => None,
    };
    match fee_policy {
        Some(fee_policy) => Ok((verification, fee_policy)),
        None => Err("requester exit package has no fee policy".to_owned()),
    }
}

/// A height that a message writes as text.
pub open spec fn safe_height_reading(text: Seq<char>) -> Result<u32, Seq<char>> {
    match narrow_count(parsed_u64(text)) {
        Some(height) => Ok(height),
        None => Err("cooperative latest safe height is invalid"@),
    }
}

/// A height that a message writes as text: it can be had exactly where every part that it rests on
/// can, and each part of it is the one that its name says.
pub proof fn law_safe_height_is_read_from_its_parts(text: Seq<char>)
    ensures
        ({
            let read = safe_height_reading(text);
            let given = read->Ok_0;
            &&& read is Ok <==> {
                &&& narrow_count(parsed_u64(text)) is Some
            }
            &&& read is Ok ==> {
                &&& given == narrow_count(parsed_u64(text))->0
            }
        }),
{
}

fn safe_height(text: &str) -> (height: Result<u32, String>)
    ensures
        told(height) == safe_height_reading(text@),
{
    match narrow_index(parse_u64(text)) {
        Some(height) => Ok(height),
        None => Err("cooperative latest safe height is invalid".to_owned()),
    }
}

/// The transaction of a joint signature, or why it could not be parsed.
pub open spec fn unsigned_reading(parsed: Result<UnsignedSettlement, String>) -> Result<
    UnsignedSettlement,
    Seq<char>,
> {
    match parsed {
        Ok(transaction) => Ok(transaction),
        Err(message) => Err("cooperative unsigned transaction is invalid: "@ + message@),
    }
}

/// The transaction of a joint signature, or why it could not be parsed: it can be had exactly where
/// every part that it rests on can, and each part of it is the one that its name says.
pub proof fn law_unsigned_is_read_from_its_parts(parsed: Result<UnsignedSettlement, String>)
    ensures
        ({
            let read = unsigned_reading(parsed);
            let given = read->Ok_0;
            &&& read is Ok <==> {
                &&& parsed is Ok
            }
            &&& read is Ok ==> {
                &&& given == parsed->Ok_0
            }
        }),
{
}

fn read_unsigned(parsed: &Result<UnsignedSettlement, String>) -> (transaction: Result<
    &UnsignedSettlement,
    String,
>)
    ensures
        (match transaction {
            Ok(transaction) => Ok(*transaction),
            Err(message) => Err(message@),
        }) == unsigned_reading(*parsed),
{
    match parsed {
        Ok(transaction) => Ok(transaction),
        Err(message) => Err(
            join("cooperative unsigned transaction is invalid: ", message.as_str()),
        ),
    }
}

/// The digest of a message, or why there is none.
pub open spec fn digest_reading(digest: Result<String, String>) -> Result<Seq<char>, Seq<char>> {
    match digest {
        Ok(digest) => Ok(digest@),
        Err(message) => Err("cooperative context digest failed: "@ + message@),
    }
}

/// The digest of a message, or why there is none: it can be had exactly where every part that it
/// rests on can, and each part of it is the one that its name says.
pub proof fn law_digest_is_read_from_its_parts(digest: Result<String, String>)
    ensures
        ({
            let read = digest_reading(digest);
            let given = read->Ok_0;
            &&& read is Ok <==> {
                &&& digest is Ok
            }
            &&& read is Ok ==> {
                &&& given == digest->Ok_0@
            }
        }),
{
}

fn read_digest(digest: &Result<String, String>) -> (text: Result<String, String>)
    ensures
        crate::text::told_text(text) == digest_reading(*digest),
{
    match digest {
        Ok(digest) => Ok(digest.clone()),
        Err(message) => Err(join("cooperative context digest failed: ", message.as_str())),
    }
}

/// The transaction of a joint signature, which spends one output to one output.
pub open spec fn pinned_reading(
    context: SigningContext,
    parsed: Result<UnsignedSettlement, String>,
) -> Result<UnsignedSettlement, Seq<char>> {
    match hex_reading(context.unsigned_transaction@) {
        Err(message) => Err(message),
        Ok(_) => match unsigned_reading(parsed) {
            Err(message) => Err(message),
            Ok(transaction) => {
                if transaction.inputs@.len() == 0 {
                    Err("cooperative transaction has no input"@)
                } else if transaction.outputs@.len() == 0 {
                    Err("cooperative transaction has no output"@)
                } else if transaction.inputs@.len() != 1
                    || transaction.outputs@.len() != 1
                    || context.input_index != 0
                {
                    Err(
                        "cooperative transaction is not the pinned one-input one-output shape"@,
                    )
                } else if context.prevouts@.len() == 0 {
                    Err("cooperative context has no prevout"@)
                } else {
                    Ok(transaction)
                }
            },
        },
    }
}

/// The transaction of a joint signature, which spends one output to one output: it can be had
/// exactly where every part that it rests on can, and each part of it is the one that its name
/// says.
pub proof fn law_pinned_is_read_from_its_parts(
    context: SigningContext,
    parsed: Result<UnsignedSettlement, String>,
)
    ensures
        ({
            let read = pinned_reading(context, parsed);
            let transaction = unsigned_reading(parsed)->Ok_0;
            let given = read->Ok_0;
            &&& read is Ok <==> {
                &&& hex_reading(context.unsigned_transaction@) is Ok
                &&& unsigned_reading(parsed) is Ok
                &&& transaction.inputs@.len() != 0
                &&& transaction.outputs@.len() != 0
                &&& transaction.inputs@.len() == 1
                &&& transaction.outputs@.len() == 1
                &&& context.input_index == 0
                &&& context.prevouts@.len() != 0
            }
            &&& read is Ok ==> {
                &&& given == transaction
            }
        }),
{
}

/// The transaction of a joint signature, which spends one output to one output.
fn read_pinned<'a>(
    context: &SigningContext,
    parsed: &'a Result<UnsignedSettlement, String>,
) -> (outcome: Result<&'a UnsignedSettlement, String>)
    ensures
        (match outcome {
            Ok(value) => Ok(*value),
            Err(message) => Err(message@),
        }) == pinned_reading(*context, *parsed),
{
    let _: Vec<u8> = decode_hex(context.unsigned_transaction.as_str())?;
    let transaction: &UnsignedSettlement = read_unsigned(parsed)?;
    if transaction.inputs.len() == 0 {
        return Err("cooperative transaction has no input".to_owned());
    }
    if transaction.outputs.len() == 0 {
        return Err("cooperative transaction has no output".to_owned());
    }
    if transaction.inputs.len() != 1 || transaction.outputs.len() != 1 || context.input_index != 0 {
        return Err(
            "cooperative transaction is not the pinned one-input one-output shape".to_owned(),
        );
    }
    if context.prevouts.len() == 0 {
        return Err("cooperative context has no prevout".to_owned());
    }
    Ok(transaction)
}

/// The two keys of a joint signature.
pub open spec fn two_keys_reading(
    context: SigningContext,
) -> Result<(Seq<u8>, Seq<u8>), Seq<char>> {
    match keys_reading(strings(context.participant_keys@)) {
        Err(message) => Err(message),
        Ok(keys) => {
            if keys.len() != 2 {
                Err("cooperative context does not contain two participant keys"@)
            } else {
                Ok((keys[0], keys[1]))
            }
        },
    }
}

/// The two keys of a joint signature: it can be had exactly where every part that it rests on can,
/// and each part of it is the one that its name says.
pub proof fn law_two_keys_is_read_from_its_parts(context: SigningContext)
    ensures
        ({
            let read = two_keys_reading(context);
            let keys = keys_reading(strings(context.participant_keys@))->Ok_0;
            let given = read->Ok_0;
            &&& read is Ok <==> {
                &&& keys_reading(strings(context.participant_keys@)) is Ok
                &&& keys.len() == 2
            }
            &&& read is Ok ==> {
                &&& given.0 == keys[0]
                &&& given.1 == keys[1]
            }
        }),
{
}

/// The two keys of a joint signature.
fn read_two_keys(context: &SigningContext) -> (outcome: Result<(Vec<u8>, Vec<u8>), String>)
    ensures
        (match outcome {
            Ok(pair) => Ok((pair.0@, pair.1@)),
            Err(message) => Err(message@),
        }) == two_keys_reading(*context),
{
    let keys: Vec<Vec<u8>> = read_keys(&context.participant_keys)?;
    if keys.len() != 2 {
        return Err("cooperative context does not contain two participant keys".to_owned());
    }
    assert(byte_views(keys@)[0] == keys@[0]@);
    assert(byte_views(keys@)[1] == keys@[1]@);
    Ok((copy_bytes(&keys[0]), copy_bytes(&keys[1])))
}

/// The amount and the script of the output that a joint signature spends.
pub open spec fn prevout_reading(
    amount: Seq<char>,
    script_pubkey: Seq<char>,
) -> Result<(u64, Seq<u8>), Seq<char>> {
    match amount_reading(amount) {
        Err(message) => Err(message),
        Ok(value) => match hex_reading(script_pubkey) {
            Err(message) => Err(message),
            Ok(script) => Ok((value, script)),
        },
    }
}

/// The amount and the script of the output that a joint signature spends: it can be had exactly
/// where every part that it rests on can, and each part of it is the one that its name says.
pub proof fn law_prevout_is_read_from_its_parts(amount: Seq<char>, script_pubkey: Seq<char>)
    ensures
        ({
            let read = prevout_reading(amount, script_pubkey);
            let given = read->Ok_0;
            &&& read is Ok <==> {
                &&& amount_reading(amount) is Ok
                &&& hex_reading(script_pubkey) is Ok
            }
            &&& read is Ok ==> {
                &&& given.0 == amount_reading(amount)->Ok_0
                &&& given.1 == hex_reading(script_pubkey)->Ok_0
            }
        }),
{
}

/// The amount and the script of the output that a joint signature spends.
fn read_prevout(amount: &str, script_pubkey: &str) -> (outcome: Result<(u64, Vec<u8>), String>)
    ensures
        (match outcome {
            Ok(pair) => Ok((pair.0, pair.1@)),
            Err(message) => Err(message@),
        }) == prevout_reading(amount@, script_pubkey@),
{
    let value: u64 = canonical_u64(amount)?;
    let script: Vec<u8> = decode_hex(script_pubkey)?;
    Ok((value, script))
}

/// The root of the Taproot tree of a lock.
pub open spec fn merkle_root_reading(
    verifier: Map<Seq<char>, JsonView>,
) -> Result<Seq<u8>, Seq<char>> {
    match required_reading(verifier, "taproot_merkle_root"@) {
        Err(message) => Err(message),
        Ok(text) => fixed_reading(text, "cooperative Taproot merkle root"@, 32),
    }
}

/// The root of the Taproot tree of a lock: it can be had exactly where every part that it rests on
/// can, and each part of it is the one that its name says.
pub proof fn law_merkle_root_is_read_from_its_parts(verifier: Map<Seq<char>, JsonView>)
    ensures
        ({
            let read = merkle_root_reading(verifier);
            let text = required_reading(verifier, "taproot_merkle_root"@)->Ok_0;
            let given = read->Ok_0;
            &&& read is Ok <==> {
                &&& required_reading(verifier, "taproot_merkle_root"@) is Ok
                &&& fixed_reading(text, "cooperative Taproot merkle root"@, 32) is Ok
            }
            &&& read is Ok ==> {
                &&& given == fixed_reading(text, "cooperative Taproot merkle root"@, 32)->Ok_0
            }
        }),
{
}

/// The root of the Taproot tree of a lock.
fn read_merkle_root(verifier: &JsonObject) -> (outcome: Result<Vec<u8>, String>)
    ensures
        told_bytes(outcome) == merkle_root_reading(verifier@),
{
    let text: &str = required_string(verifier, "taproot_merkle_root")?;
    decode_fixed_hex::<32>(text, "cooperative Taproot merkle root")
}

/// The digest of the message that describes a joint signature.
pub open spec fn transcript_reading(digest: Result<String, String>) -> Result<Seq<u8>, Seq<char>> {
    match digest_reading(digest) {
        Err(message) => Err(message),
        Ok(text) => fixed_reading(text, "cooperative context digest"@, 32),
    }
}

/// The digest of the message that describes a joint signature: it can be had exactly where every
/// part that it rests on can, and each part of it is the one that its name says.
pub proof fn law_transcript_is_read_from_its_parts(digest: Result<String, String>)
    ensures
        ({
            let read = transcript_reading(digest);
            let text = digest_reading(digest)->Ok_0;
            let given = read->Ok_0;
            &&& read is Ok <==> {
                &&& digest_reading(digest) is Ok
                &&& fixed_reading(text, "cooperative context digest"@, 32) is Ok
            }
            &&& read is Ok ==> {
                &&& given == fixed_reading(text, "cooperative context digest"@, 32)->Ok_0
            }
        }),
{
}

/// The digest of the message that describes a joint signature.
fn read_transcript(digest: &Result<String, String>) -> (outcome: Result<Vec<u8>, String>)
    ensures
        told_bytes(outcome) == transcript_reading(*digest),
{
    let text: String = read_digest(digest)?;
    decode_fixed_hex::<32>(text.as_str(), "cooperative context digest")
}

/// What a joint signature reads as before it is begun, from the provider's message, the contract
/// and the requester's own exit.
pub open spec fn cooperative_template_reading(
    contract: JsonView,
    package: Option<JsonView>,
    context: SigningContext,
    parsed: Result<UnsignedSettlement, String>,
) -> Result<CooperativeTemplateView, Seq<char>> {
    match package {
        None => Err("cooperative requester exit package is absent"@),
        Some(package) => match pinned_reading(context, parsed) {
            Err(message) => Err(message),
            Ok(transaction) => match package_reading(package) {
                Err(message) => Err(message),
                Ok(parts) => match two_keys_reading(context) {
                    Err(message) => Err(message),
                    Ok(keys) => match leg_verifier(contract, "source"@) {
                        None => Err("funded contract has no "@ + "source"@ + " verifier"@),
                        Some(verifier) => match prevout_reading(
                            context.prevouts@[0].0@,
                            context.prevouts@[0].1@,
                        ) {
                            Err(message) => Err(message),
                            Ok(prevout) => match required_bytes(parts.0, "taproot_script"@) {
                                Err(message) => Err(message),
                                Ok(taproot_script) => match required_bytes(
                                    parts.0,
                                    "taproot_control_block"@,
                                ) {
                                    Err(message) => Err(message),
                                    Ok(taproot_control_block) => match required_amount(
                                        parts.1,
                                        "maximum_fee"@,
                                    ) {
                                        Err(message) => Err(message),
                                        Ok(maximum_fee_sat) => match merkle_root_reading(verifier) {
                                            Err(message) => Err(message),
                                            Ok(root) => match transcript_reading(context.sha256) {
                                                Err(message) => Err(message),
                                                Ok(digest) => match safe_height_reading(
                                                    context.latest_safe_height@,
                                                ) {
                                                    Err(message) => Err(message),
                                                    Ok(height) => Ok(
                                                        CooperativeTemplateView {
                                                            settlement: SettlementTemplateView {
                                                                previous_txid_wire: transaction.inputs@[0].0@,
                                                                previous_output: transaction.inputs@[0].1,
                                                                prevout_value_sat: prevout.0,
                                                                prevout_script_pubkey: prevout.1,
                                                                destination_value_sat: transaction.outputs@[0].0,
                                                                destination_script_pubkey: transaction.outputs@[0].1@,
                                                                transaction_version: transaction.version,
                                                                input_sequence: transaction.inputs@[0].2,
                                                                lock_time: transaction.lock_time,
                                                                taproot_script,
                                                                taproot_control_block,
                                                                maximum_fee_sat,
                                                                maximum_fee_rate_sat_per_vbyte: 10_000,
                                                                maximum_weight: 1_600,
                                                                dust_relay_fee_sat_per_kilobyte: 3_000,
                                                            },
                                                            first_key: keys.0,
                                                            second_key: keys.1,
                                                            taproot_merkle_root: root,
                                                            transcript_digest: digest,
                                                            latest_safe_height: height,
                                                        },
                                                    ),
                                                },
                                            },
                                        },
                                    },
                                },
                            },
                        },
                    },
                },
            },
        },
    }
}

/// What a joint signature reads as before it is begun, from the provider's message, the contract
/// and the requester's own exit: it can be had exactly where every part that it rests on can, and
/// each part of it is the one that its name says.
pub proof fn law_cooperative_template_is_read_from_its_parts(
    contract: JsonView,
    package: Option<JsonView>,
    context: SigningContext,
    parsed: Result<UnsignedSettlement, String>,
)
    ensures
        ({
            let read = cooperative_template_reading(contract, package, context, parsed);
            let read_package = package->0;
            let transaction = pinned_reading(context, parsed)->Ok_0;
            let parts = package_reading(read_package)->Ok_0;
            let keys = two_keys_reading(context)->Ok_0;
            let verifier = leg_verifier(contract, "source"@)->0;
            let prevout = prevout_reading(context.prevouts@[0].0@, context.prevouts@[0].1@)->Ok_0;
            let taproot_script = required_bytes(parts.0, "taproot_script"@)->Ok_0;
            let taproot_control_block = required_bytes(parts.0, "taproot_control_block"@)->Ok_0;
            let maximum_fee_sat = required_amount(parts.1, "maximum_fee"@)->Ok_0;
            let given = read->Ok_0;
            &&& read is Ok <==> {
                &&& package is Some
                &&& pinned_reading(context, parsed) is Ok
                &&& package_reading(read_package) is Ok
                &&& two_keys_reading(context) is Ok
                &&& leg_verifier(contract, "source"@) is Some
                &&& prevout_reading(context.prevouts@[0].0@, context.prevouts@[0].1@) is Ok
                &&& required_bytes(parts.0, "taproot_script"@) is Ok
                &&& required_bytes(parts.0, "taproot_control_block"@) is Ok
                &&& required_amount(parts.1, "maximum_fee"@) is Ok
                &&& merkle_root_reading(verifier) is Ok
                &&& transcript_reading(context.sha256) is Ok
                &&& safe_height_reading(context.latest_safe_height@) is Ok
            }
            &&& read is Ok ==> {
                &&& given.settlement == SettlementTemplateView {
                    previous_txid_wire: transaction.inputs@[0].0@,
                    previous_output: transaction.inputs@[0].1,
                    prevout_value_sat: prevout.0,
                    prevout_script_pubkey: prevout.1,
                    destination_value_sat: transaction.outputs@[0].0,
                    destination_script_pubkey: transaction.outputs@[0].1@,
                    transaction_version: transaction.version,
                    input_sequence: transaction.inputs@[0].2,
                    lock_time: transaction.lock_time,
                    taproot_script,
                    taproot_control_block,
                    maximum_fee_sat,
                    maximum_fee_rate_sat_per_vbyte: 10_000,
                    maximum_weight: 1_600,
                    dust_relay_fee_sat_per_kilobyte: 3_000,
                }
                &&& given.first_key == keys.0
                &&& given.second_key == keys.1
                &&& given.taproot_merkle_root == merkle_root_reading(verifier)->Ok_0
                &&& given.transcript_digest == transcript_reading(context.sha256)->Ok_0
                &&& given.latest_safe_height == safe_height_reading(context.latest_safe_height@)->Ok_0
            }
        }),
{
}

/// What a joint signature reads as before it is begun, from the provider's message, the contract
/// and the requester's own exit.
#[verifier::rlimit(40)]
pub fn cooperative_template(
    contract: &Json,
    package: Option<&Json>,
    context: &SigningContext,
    parsed: &Result<UnsignedSettlement, String>,
) -> (outcome: Result<CooperativeTemplate, String>)
    ensures
        (match outcome {
            Ok(value) => Ok(value@),
            Err(message) => Err(message@),
        }) == cooperative_template_reading(contract@, seen(package), *context, *parsed),
{
    let package: &Json = match package {
        Some(package) => package,
        None => {
            return Err("cooperative requester exit package is absent".to_owned());
        },
    };
    let transaction: &UnsignedSettlement = read_pinned(context, parsed)?;
    let parts: (&JsonObject, &JsonObject) = package_parts(package)?;
    let keys: (Vec<u8>, Vec<u8>) = read_two_keys(context)?;
    let verifier: &JsonObject = verifier_for_leg(contract, "source")?;
    let prevout: (u64, Vec<u8>) = read_prevout(
        context.prevouts[0].0.as_str(),
        context.prevouts[0].1.as_str(),
    )?;
    let taproot_script: Vec<u8> = bytes_member(parts.0, "taproot_script")?;
    let taproot_control_block: Vec<u8> = bytes_member(parts.0, "taproot_control_block")?;
    let maximum_fee_sat: u64 = amount_member(parts.1, "maximum_fee")?;
    let root: Vec<u8> = read_merkle_root(verifier)?;
    let digest: Vec<u8> = read_transcript(&context.sha256)?;
    let height: u32 = safe_height(context.latest_safe_height.as_str())?;
    Ok(
        CooperativeTemplate {
            settlement: SettlementTemplate {
                previous_txid_wire: transaction.inputs[0].0,
                previous_output: transaction.inputs[0].1,
                prevout_value_sat: prevout.0,
                prevout_script_pubkey: prevout.1,
                destination_value_sat: transaction.outputs[0].0,
                destination_script_pubkey: copy_bytes(&transaction.outputs[0].1),
                transaction_version: transaction.version,
                input_sequence: transaction.inputs[0].2,
                lock_time: transaction.lock_time,
                taproot_script,
                taproot_control_block,
                maximum_fee_sat,
                maximum_fee_rate_sat_per_vbyte: 10_000,
                maximum_weight: 1_600,
                dust_relay_fee_sat_per_kilobyte: 3_000,
            },
            first_key: keys.0,
            second_key: keys.1,
            taproot_merkle_root: root,
            transcript_digest: digest,
            latest_safe_height: height,
        },
    )
}

/// Checks that a joint signature which was begun is the one that the provider described.
pub fn check_round(
    context: &SigningContext,
    aggregate_key: &Vec<u8>,
    signature_hash: &Vec<u8>,
    unsigned_transaction: &Result<Vec<u8>, String>,
) -> (checked: Result<(), String>)
    ensures
        told(checked) == round_reading(
            *context,
            aggregate_key@,
            signature_hash@,
            *unsigned_transaction,
        ),
{
    if !same_text(lower_hex(aggregate_key.as_slice()).as_str(), context.aggregate_key.as_str())
        || !same_text(
            lower_hex(signature_hash.as_slice()).as_str(),
            context.signature_hash.as_str(),
        ) {
        return Err("requester cooperative round differs from provider context".to_owned());
    }
    match unsigned_transaction {
        Err(message) => Err(join("requester cooperative transaction failed: ", message.as_str())),
        Ok(bytes) => if !same_text(
            lower_hex(bytes.as_slice()).as_str(),
            context.unsigned_transaction.as_str(),
        ) {
            Err("requester cooperative round differs from provider context".to_owned())
        } else {
            Ok(())
        },
    }
}

/// What a joint signature reads as that was begun.
pub open spec fn round_reading(
    context: SigningContext,
    aggregate_key: Seq<u8>,
    signature_hash: Seq<u8>,
    unsigned_transaction: Result<Vec<u8>, String>,
) -> Result<(), Seq<char>> {
    if hex_text(aggregate_key) != context.aggregate_key@ || hex_text(signature_hash)
        != context.signature_hash@ {
        Err("requester cooperative round differs from provider context"@)
    } else {
        match unsigned_transaction {
            Err(message) => Err("requester cooperative transaction failed: "@ + message@),
            Ok(bytes) => if hex_text(bytes@) != context.unsigned_transaction@ {
                Err("requester cooperative round differs from provider context"@)
            } else {
                Ok(())
            },
        }
    }
}

/// What a joint signature reads as that was begun: it holds exactly where every one of these
/// conditions does.
pub proof fn law_round_holds_by_its_parts(
    context: SigningContext,
    aggregate_key: Seq<u8>,
    signature_hash: Seq<u8>,
    unsigned_transaction: Result<Vec<u8>, String>,
)
    ensures
        ({
            let read = round_reading(context, aggregate_key, signature_hash, unsigned_transaction);
            &&& read is Ok <==> {
                &&& hex_text(aggregate_key) == context.aggregate_key@
                &&& hex_text(signature_hash) == context.signature_hash@
                &&& unsigned_transaction is Ok
                &&& hex_text(unsigned_transaction->Ok_0@) == context.unsigned_transaction@
            }
        }),
{
}

/// A claim and a refund of the same lock spend the same outpoint and pay out the same value; only
/// the refund waits.
pub proof fn law_claim_and_refund_share_the_lock(
    contract: JsonView,
    leg_id: Seq<char>,
    funding_id: Seq<char>,
    previous_output: u32,
    destination: Seq<u8>,
    consumed: Seq<char>,
)
    requires
        claim_template_reading(contract, leg_id, funding_id, previous_output, destination, consumed)
            is Ok,
    ensures
        ({
            let claim = claim_template_reading(
                contract,
                leg_id,
                funding_id,
                previous_output,
                destination,
                consumed,
            )->Ok_0;
            refund_template_reading(
                contract,
                leg_id,
                funding_id,
                previous_output,
                destination,
                consumed,
            ) matches Ok(refund) && {
                &&& refund.previous_txid_wire == claim.previous_txid_wire
                &&& refund.previous_output == claim.previous_output
                &&& refund.destination_value_sat == claim.destination_value_sat
                &&& claim.lock_time == 0
            }
        }),
{
}

/// What a settlement pays out and what it may take as fee make up the lock, and something is paid
/// out.
pub proof fn law_settlement_pays_all_but_the_fee(
    contract: JsonView,
    leg_id: Seq<char>,
    funding_id: Seq<char>,
    previous_output: u32,
    destination: Seq<u8>,
    consumed: Seq<char>,
)
    requires
        claim_template_reading(contract, leg_id, funding_id, previous_output, destination, consumed)
            is Ok,
    ensures
        ({
            let claim = claim_template_reading(
                contract,
                leg_id,
                funding_id,
                previous_output,
                destination,
                consumed,
            )->Ok_0;
            &&& claim.destination_value_sat > 0
            &&& claim.destination_value_sat + claim.maximum_fee_sat == claim.prevout_value_sat
        }),
{
}

} // verus!
