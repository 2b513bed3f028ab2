//! What the client verifies before anything is funded, and what it may authorize.

use vstd::prelude::*;
use vstd::string::*;
use crate::amount::{amount_reading, canonical_u64, parse_u64, parsed_u64};
use crate::contract::{
    amount_member, bounded_u32_member, bounded_u32_reading, leg_verifier, narrow_amount,
    narrow_reading, required_amount, required_reading, required_string,
    verifier_for_leg,
};
use crate::control::{counted, said};
use crate::journey::HarnessInjection;
use crate::json::{Json, JsonObject, JsonView, member, member_text, members_of};
use crate::lifecycle::{find_kind, first_of_kind};
use crate::record::{Event, RecordKinds, tag_values, texts};
use crate::restore::truth_of;
use crate::settlement::{narrow_count, narrow_index};
use crate::text::{decimal, decimal_text, join, maybe, maybe_str, same_text, told};

verus! {

fn ladder_members<'a>(contract: &'a Json) -> (ladder: Option<&'a JsonObject>)
    ensures
        (match ladder {
            Some(ladder) => Some(ladder@),
            None => None,
        }) == members_of(member(contract@, "timeout_ladder"@)),
{
    match contract.get("timeout_ladder") {
        Some(value) => value.as_object(),
        None => None,
    }
}

/// What the client verifies of a lock on Bitcoin.
pub struct FundingInput {
    pub raw_transaction: String,
    pub output_index: u32,
    pub expected_amount: String,
    pub expected_script_pubkey: String,
    pub taproot_output_key: String,
    pub taproot_script: String,
    pub taproot_control_block: String,
}

/// What the client verifies of a lock on Bitcoin.
#[verifier::ext_equal]
pub struct FundingInputView {
    pub raw_transaction: Seq<char>,
    pub output_index: u32,
    pub expected_amount: Seq<char>,
    pub expected_script_pubkey: Seq<char>,
    pub taproot_output_key: Seq<char>,
    pub taproot_script: Seq<char>,
    pub taproot_control_block: Seq<char>,
}

impl View for FundingInput {
    type V = FundingInputView;

    open spec fn view(&self) -> FundingInputView {
        FundingInputView {
            raw_transaction: self.raw_transaction@,
            output_index: self.output_index,
            expected_amount: self.expected_amount@,
            expected_script_pubkey: self.expected_script_pubkey@,
            taproot_output_key: self.taproot_output_key@,
            taproot_script: self.taproot_script@,
            taproot_control_block: self.taproot_control_block@,
        }
    }
}

/// What the client verifies of an invoice.
pub struct InvoiceInput {
    pub invoice: String,
    pub expected_network: String,
    pub expected_amount_msat: String,
    pub observed_at: u64,
    pub required_minimum_final_cltv_delta: u64,
}

/// What the client verifies of an invoice.
#[verifier::ext_equal]
pub struct InvoiceInputView {
    pub invoice: Seq<char>,
    pub expected_network: Seq<char>,
    pub expected_amount_msat: Seq<char>,
    pub observed_at: u64,
    pub required_minimum_final_cltv_delta: u64,
}

impl View for InvoiceInput {
    type V = InvoiceInputView;

    open spec fn view(&self) -> InvoiceInputView {
        InvoiceInputView {
            invoice: self.invoice@,
            expected_network: self.expected_network@,
            expected_amount_msat: self.expected_amount_msat@,
            observed_at: self.observed_at,
            required_minimum_final_cltv_delta: self.required_minimum_final_cltv_delta,
        }
    }
}

/// The order of the timeouts of a chain swap.
pub struct ChainLadder {
    pub destination_final: bool,
    pub destination_refund_time: u64,
    pub source_refund_time: u64,
    pub provider_claim_margin: u64,
    pub both_network_reorg_margins: u64,
    pub both_network_broadcast_margins: u64,
}

/// The order of the timeouts of a chain swap.
#[verifier::ext_equal]
pub struct ChainLadderView {
    pub destination_final: bool,
    pub destination_refund_time: u64,
    pub source_refund_time: u64,
    pub provider_claim_margin: u64,
    pub both_network_reorg_margins: u64,
    pub both_network_broadcast_margins: u64,
}

impl View for ChainLadder {
    type V = ChainLadderView;

    open spec fn view(&self) -> ChainLadderView {
        ChainLadderView {
            destination_final: self.destination_final,
            destination_refund_time: self.destination_refund_time,
            source_refund_time: self.source_refund_time,
            provider_claim_margin: self.provider_claim_margin,
            both_network_reorg_margins: self.both_network_reorg_margins,
            both_network_broadcast_margins: self.both_network_broadcast_margins,
        }
    }
}

/// What the client verifies of a chain swap before anything is funded.
pub struct ChainFundInput {
    pub observed_at: u64,
    pub payment_hash: String,
    pub funding: FundingInput,
    pub timeout_ladder: ChainLadder,
    pub minimum_confirmations: u32,
    pub replacement_policy: String,
}

/// What the client verifies of a chain swap before anything is funded.
#[verifier::ext_equal]
pub struct ChainFundInputView {
    pub observed_at: u64,
    pub payment_hash: Seq<char>,
    pub funding: FundingInputView,
    pub timeout_ladder: ChainLadderView,
    pub minimum_confirmations: u32,
    pub replacement_policy: Seq<char>,
}

impl View for ChainFundInput {
    type V = ChainFundInputView;

    open spec fn view(&self) -> ChainFundInputView {
        ChainFundInputView {
            observed_at: self.observed_at,
            payment_hash: self.payment_hash@,
            funding: self.funding@,
            timeout_ladder: self.timeout_ladder@,
            minimum_confirmations: self.minimum_confirmations,
            replacement_policy: self.replacement_policy@,
        }
    }
}

/// What the client verifies of a swap before anything is funded.
pub struct FundInput {
    pub observed_at: u64,
    pub payment_hash: String,
    pub funding: FundingInput,
    pub invoice: InvoiceInput,
    pub timeout_ladder: Json,
    pub minimum_confirmations: u32,
    pub replacement_policy: String,
}

/// What the client verifies of a swap before anything is funded.
#[verifier::ext_equal]
pub struct FundInputView {
    pub observed_at: u64,
    pub payment_hash: Seq<char>,
    pub funding: FundingInputView,
    pub invoice: InvoiceInputView,
    pub timeout_ladder: JsonView,
    pub minimum_confirmations: u32,
    pub replacement_policy: Seq<char>,
}

impl View for FundInput {
    type V = FundInputView;

    open spec fn view(&self) -> FundInputView {
        FundInputView {
            observed_at: self.observed_at,
            payment_hash: self.payment_hash@,
            funding: self.funding@,
            invoice: self.invoice@,
            timeout_ladder: self.timeout_ladder@,
            minimum_confirmations: self.minimum_confirmations,
            replacement_policy: self.replacement_policy@,
        }
    }
}

/// The scripts that a leg of a chain swap is left by, by its name.
pub open spec fn exit_names(leg_id: Seq<char>) -> Option<(Seq<char>, Seq<char>)> {
    if leg_id == "source"@ {
        Some(("refund_script"@, "taproot_refund_control_block"@))
    } else if leg_id == "destination"@ {
        Some(("claim_script"@, "taproot_claim_control_block"@))
    } else {
        None
    }
}

fn find_exit_names(leg_id: &str) -> (names: Option<(&'static str, &'static str)>)
    ensures
        (match names {
            Some((script, control)) => Some((script@, control@)),
            None => None,
        }) == exit_names(leg_id@),
{
    if same_text(leg_id, "source") {
        Some(("refund_script", "taproot_refund_control_block"))
    } else if same_text(leg_id, "destination") {
        Some(("claim_script", "taproot_claim_control_block"))
    } else {
        None
    }
}

/// What the client verifies of the Bitcoin leg of a chain swap.
pub open spec fn chain_funding_reading(
    contract: JsonView,
    leg_id: Seq<char>,
) -> Result<FundingInputView, Seq<char>> {
    match leg_verifier(contract, leg_id) {
        None => Err("funded contract has no "@ + leg_id + " verifier"@),
        Some(verifier) => match required_reading(verifier, "funding_transaction"@) {
            Err(message) => Err(message),
            Ok(raw_transaction) => match bounded_u32_reading(verifier, "output_index"@) {
                Err(message) => Err(message),
                Ok(output_index) => match required_reading(verifier, "amount"@) {
                    Err(message) => Err(message),
                    Ok(expected_amount) => match required_reading(verifier, "script_pubkey"@) {
                        Err(message) => Err(message),
                        Ok(expected_script_pubkey) => match required_reading(
                            verifier,
                            "taproot_output_key"@,
                        ) {
                            Err(message) => Err(message),
                            Ok(taproot_output_key) => match exit_names(leg_id) {
                                None => Err("chain Bitcoin verifier leg is unsupported"@),
                                Some(names) => match required_reading(verifier, names.0) {
                                    Err(message) => Err(message),
                                    Ok(taproot_script) => match required_reading(
                                        verifier,
                                        names.1,
                                    ) {
                                        Err(message) => Err(message),
                                        Ok(taproot_control_block) => Ok(
                                            FundingInputView {
                                                raw_transaction,
                                                output_index,
                                                expected_amount,
                                                expected_script_pubkey,
                                                taproot_output_key,
                                                taproot_script,
                                                taproot_control_block,
                                            },
                                        ),
                                    },
                                },
                            },
                        },
                    },
                },
            },
        },
    }
}

/// What the client verifies of the Bitcoin leg of a chain swap.
pub fn chain_bitcoin_verification_input(
    contract: &Json,
    leg_id: &str,
) -> (outcome: Result<FundingInput, String>)
    ensures
        (match outcome { Ok(value) => Ok(value@), Err(message) => Err(message@) }) == chain_funding_reading(
            contract@,
            leg_id@,
        ),
{
    let verifier: &JsonObject = verifier_for_leg(contract, leg_id)?;
    let raw_transaction: &str = required_string(verifier, "funding_transaction")?;
    let output_index: u32 = bounded_u32_member(verifier, "output_index")?;
    let expected_amount: &str = required_string(verifier, "amount")?;
    let expected_script_pubkey: &str = required_string(verifier, "script_pubkey")?;
    let taproot_output_key: &str = required_string(verifier, "taproot_output_key")?;
    let names: (&'static str, &'static str) = match find_exit_names(leg_id) {
        Some(names) => names,
        None => {
            return Err("chain Bitcoin verifier leg is unsupported".to_owned());
        },
    };
    let taproot_script: &str = required_string(verifier, names.0)?;
    let taproot_control_block: &str = required_string(verifier, names.1)?;
    Ok(
        FundingInput {
            raw_transaction: raw_transaction.to_owned(),
            output_index,
            expected_amount: expected_amount.to_owned(),
            expected_script_pubkey: expected_script_pubkey.to_owned(),
            taproot_output_key: taproot_output_key.to_owned(),
            taproot_script: taproot_script.to_owned(),
            taproot_control_block: taproot_control_block.to_owned(),
        },
    )
}

/// The order of the timeouts of a chain swap.
pub open spec fn chain_ladder_reading(contract: JsonView) -> Result<ChainLadderView, Seq<char>> {
    match members_of(member(contract, "timeout_ladder"@)) {
        None => Err("chain contract has no timeout ladder"@),
        Some(ladder) => match truth_of(ladder, "destination_final"@) {
            None => Err("chain ladder has no destination finality"@),
            Some(destination_final) => match counted(ladder, "destination_refund_time"@) {
                None => Err("chain ladder has no destination refund time"@),
                Some(destination_refund_time) => match counted(ladder, "source_refund_time"@) {
                    None => Err("chain ladder has no source refund time"@),
                    Some(source_refund_time) => match counted(ladder, "provider_claim_margin"@) {
                        None => Err("chain ladder has no provider claim margin"@),
                        Some(provider_claim_margin) => match counted(
                            ladder,
                            "both_network_reorg_margins"@,
                        ) {
                            None => Err("chain ladder has no reorg margins"@),
                            Some(both_network_reorg_margins) => match counted(
                                ladder,
                                "both_network_broadcast_margins"@,
                            ) {
                                None => Err("chain ladder has no broadcast margins"@),
                                Some(both_network_broadcast_margins) => Ok(
                                    ChainLadderView {
                                        destination_final,
                                        destination_refund_time,
                                        source_refund_time,
                                        provider_claim_margin,
                                        both_network_reorg_margins,
                                        both_network_broadcast_margins,
                                    },
                                ),
                            },
                        },
                    },
                },
            },
        },
    }
}

/// The order of the timeouts of a chain swap.
pub fn chain_timeout_ladder(contract: &Json) -> (outcome: Result<ChainLadder, String>)
    ensures
        (match outcome { Ok(value) => Ok(value@), Err(message) => Err(message@) }) == chain_ladder_reading(
            contract@,
        ),
{
    let ladder: &JsonObject = match ladder_members(contract) {
        Some(ladder) => ladder,
        None => {
            return Err("chain contract has no timeout ladder".to_owned());
        },
    };
    let destination_final: bool = match ladder.bool_at("destination_final") {
        Some(destination_final) => destination_final,
        None => {
            return Err("chain ladder has no destination finality".to_owned());
        },
    };
    let destination_refund_time: u64 = match ladder.u64_at("destination_refund_time") {
        Some(destination_refund_time) => destination_refund_time,
        None => {
            return Err("chain ladder has no destination refund time".to_owned());
        },
    };
    let source_refund_time: u64 = match ladder.u64_at("source_refund_time") {
        Some(source_refund_time) => source_refund_time,
        None => {
            return Err("chain ladder has no source refund time".to_owned());
        },
    };
    let provider_claim_margin: u64 = match ladder.u64_at("provider_claim_margin") {
        Some(provider_claim_margin) => provider_claim_margin,
        None => {
            return Err("chain ladder has no provider claim margin".to_owned());
        },
    };
    let both_network_reorg_margins: u64 = match ladder.u64_at("both_network_reorg_margins") {
        Some(both_network_reorg_margins) => both_network_reorg_margins,
        None => {
            return Err("chain ladder has no reorg margins".to_owned());
        },
    };
    let both_network_broadcast_margins: u64 = match ladder.u64_at(
        "both_network_broadcast_margins",
    ) {
        Some(both_network_broadcast_margins) => both_network_broadcast_margins,
        None => {
            return Err("chain ladder has no broadcast margins".to_owned());
        },
    };
    Ok(
        ChainLadder {
            destination_final,
            destination_refund_time,
            source_refund_time,
            provider_claim_margin,
            both_network_reorg_margins,
            both_network_broadcast_margins,
        },
    )
}

/// What the client verifies of a chain swap before anything is funded.
pub open spec fn chain_fund_reading(
    contract: JsonView,
    leg_id: Seq<char>,
    observed_at: u64,
) -> Result<ChainFundInputView, Seq<char>> {
    match chain_funding_reading(contract, leg_id) {
        Err(message) => Err(message),
        Ok(funding) => match leg_verifier(contract, leg_id) {
            None => Err("funded contract has no "@ + leg_id + " verifier"@),
            Some(verifier) => match member_text(contract, "payment_hash"@) {
                None => Err("chain contract has no payment hash"@),
                Some(payment_hash) => match chain_ladder_reading(contract) {
                    Err(message) => Err(message),
                    Ok(ladder) => match narrow_reading(
                        required_amount(verifier, "minimum_confirmations"@),
                        "chain minimum confirmation count exceeds u32"@,
                    ) {
                        Err(message) => Err(message),
                        Ok(confirmations) => match required_reading(
                            verifier,
                            "replacement_policy"@,
                        ) {
                            Err(message) => Err(message),
                            Ok(policy) => Ok(
                                ChainFundInputView {
                                    observed_at,
                                    payment_hash,
                                    funding,
                                    timeout_ladder: ladder,
                                    minimum_confirmations: confirmations,
                                    replacement_policy: policy,
                                },
                            ),
                        },
                    },
                },
            },
        },
    }
}

/// What the client verifies of a chain swap before anything is funded.
pub fn chain_bitcoin_before_fund_input(
    contract: &Json,
    leg_id: &str,
    observed_at: u64,
) -> (outcome: Result<ChainFundInput, String>)
    ensures
        (match outcome { Ok(value) => Ok(value@), Err(message) => Err(message@) }) == chain_fund_reading(
            contract@,
            leg_id@,
            observed_at,
        ),
{
    let funding: FundingInput = chain_bitcoin_verification_input(contract, leg_id)?;
    let verifier: &JsonObject = verifier_for_leg(contract, leg_id)?;
    let payment_hash: &str = match contract.text_at("payment_hash") {
        Some(payment_hash) => payment_hash,
        None => {
            return Err("chain contract has no payment hash".to_owned());
        },
    };
    let ladder: ChainLadder = chain_timeout_ladder(contract)?;
    let confirmations: u32 = narrow_amount(
        verifier,
        "minimum_confirmations",
        "chain minimum confirmation count exceeds u32",
    )?;
    let policy: &str = required_string(verifier, "replacement_policy")?;
    Ok(
        ChainFundInput {
            observed_at,
            payment_hash: payment_hash.to_owned(),
            funding,
            timeout_ladder: ladder,
            minimum_confirmations: confirmations,
            replacement_policy: policy.to_owned(),
        },
    )
}

/// What the client verifies of the invoice of a Liquid swap.
pub open spec fn liquid_invoice_reading(
    contract: JsonView,
    invoice: Seq<char>,
    observed_at: u64,
) -> Result<InvoiceInputView, Seq<char>> {
    match leg_verifier(contract, "lightning"@) {
        None => Err("funded contract has no "@ + "lightning"@ + " verifier"@),
        Some(lightning) => match required_reading(lightning, "invoice_network"@) {
            Err(message) => Err(message),
            Ok(network) => match required_reading(lightning, "invoice_amount_msat"@) {
                Err(message) => Err(message),
                Ok(amount_msat) => match required_amount(
                    lightning,
                    "invoice_minimum_final_cltv_delta"@,
                ) {
                    Err(message) => Err(message),
                    Ok(delta) => Ok(
                        InvoiceInputView {
                            invoice,
                            expected_network: network,
                            expected_amount_msat: amount_msat,
                            observed_at,
                            required_minimum_final_cltv_delta: delta,
                        },
                    ),
                },
            },
        },
    }
}

/// What the client verifies of the invoice of a Liquid swap.
pub fn liquid_invoice_verification(
    contract: &Json,
    invoice: &str,
    observed_at: u64,
) -> (outcome: Result<InvoiceInput, String>)
    ensures
        (match outcome { Ok(value) => Ok(value@), Err(message) => Err(message@) }) == liquid_invoice_reading(
            contract@,
            invoice@,
            observed_at,
        ),
{
    let lightning: &JsonObject = verifier_for_leg(contract, "lightning")?;
    let network: &str = required_string(lightning, "invoice_network")?;
    let amount_msat: &str = required_string(lightning, "invoice_amount_msat")?;
    let delta: u64 = amount_member(lightning, "invoice_minimum_final_cltv_delta")?;
    Ok(
        InvoiceInput {
            invoice: invoice.to_owned(),
            expected_network: network.to_owned(),
            expected_amount_msat: amount_msat.to_owned(),
            observed_at,
            required_minimum_final_cltv_delta: delta,
        },
    )
}

/// The leg on Bitcoin of a swap, by its kind.
pub open spec fn bitcoin_leg(swap_type: Seq<char>) -> Option<Seq<char>> {
    if swap_type == "submarine"@ {
        Some("source"@)
    } else if swap_type == "reverse"@ {
        Some("destination"@)
    } else {
        None
    }
}

fn find_bitcoin_leg(swap_type: &str) -> (leg: Option<&'static str>)
    ensures
        maybe_str(leg) == bitcoin_leg(swap_type@),
{
    if same_text(swap_type, "submarine") {
        Some("source")
    } else if same_text(swap_type, "reverse") {
        Some("destination")
    } else {
        None
    }
}

/// The first expiration that the first quote names.
pub open spec fn quote_expiration(records: Seq<Event>, kinds: RecordKinds) -> Option<Seq<char>> {
    match first_of_kind(records, kinds.quote) {
        None => None,
        Some(quote) => {
            let values = tag_values(quote.tags@, "expiration"@);
            if values.len() == 0 {
                None
            } else {
                Some(values[0])
            }
        },
    }
}

fn find_expiration(records: &Vec<Event>, kinds: RecordKinds) -> (expiration: Option<String>)
    ensures
        maybe(expiration) == quote_expiration(records@, kinds),
{
    match find_kind(records, kinds.quote) {
        None => None,
        Some(quote) => {
            let values: Vec<&str> = quote.tag_values("expiration");
            assert(texts(values@).len() == values@.len());
            if values.len() == 0 {
                None
            } else {
                assert(texts(values@)[0] == values@[0]@);
                Some(values[0].to_owned())
            }
        },
    }
}

/// The time at which a quote has just become stale.
pub open spec fn stale_time_reading(
    contract: JsonView,
    records: Seq<Event>,
    kinds: RecordKinds,
) -> Result<u64, Seq<char>> {
    match quote_expiration(records, kinds) {
        None => Err("stale-quote injection found no Quote expiration"@),
        Some(text) => match parsed_u64(text) {
            None => Err("stale-quote injection found an invalid expiration"@),
            Some(expiration) => match member_text(contract, "clock_skew_seconds"@) {
                None => Err("stale-quote injection found no clock-skew bound"@),
                Some(skew_text) => match amount_reading(skew_text) {
                    Err(message) => Err(message),
                    Ok(skew) => {
                        if expiration + skew + 1 > u64::MAX {
                            Err("stale-quote injection deadline overflowed"@)
                        } else {
                            Ok((expiration + skew + 1) as u64)
                        }
                    },
                },
            },
        },
    }
}

/// The time at which a quote has just become stale: it can be had exactly where every part that it
/// rests on can, and each part of it is the one that its name says.
pub proof fn law_stale_time_is_read_from_its_parts(
    contract: JsonView,
    records: Seq<Event>,
    kinds: RecordKinds,
)
    ensures
        ({
            let read = stale_time_reading(contract, records, kinds);
            let text = quote_expiration(records, kinds)->0;
            let expiration = parsed_u64(text)->0;
            let skew_text = member_text(contract, "clock_skew_seconds"@)->0;
            let skew = amount_reading(skew_text)->Ok_0;
            let given = read->Ok_0;
            &&& read is Ok <==> {
                &&& quote_expiration(records, kinds) is Some
                &&& parsed_u64(text) is Some
                &&& member_text(contract, "clock_skew_seconds"@) is Some
                &&& amount_reading(skew_text) is Ok
                &&& expiration + skew + 1 <= u64::MAX
            }
            &&& read is Ok ==> {
                &&& given == (expiration + skew + 1) as u64
            }
        }),
{
}

/// The time at which a quote has just become stale.
pub fn stale_quote_time(
    contract: &Json,
    records: &Vec<Event>,
    kinds: RecordKinds,
) -> (outcome: Result<u64, String>)
    ensures
        told(outcome) == stale_time_reading(contract@, records@, kinds),
{
    let text: String = match find_expiration(records, kinds) {
        Some(text) => text,
        None => {
            return Err("stale-quote injection found no Quote expiration".to_owned());
        },
    };
    let expiration: u64 = match parse_u64(text.as_str()) {
        Some(expiration) => expiration,
        None => {
            return Err("stale-quote injection found an invalid expiration".to_owned());
        },
    };
    let skew_text: &str = match contract.text_at("clock_skew_seconds") {
        Some(skew_text) => skew_text,
        None => {
            return Err("stale-quote injection found no clock-skew bound".to_owned());
        },
    };
    let skew: u64 = canonical_u64(skew_text)?;
    if expiration > u64::MAX - skew || expiration + skew == u64::MAX {
        return Err("stale-quote injection deadline overflowed".to_owned());
    }
    Ok(expiration + skew + 1)
}

/// The time at which a swap is verified: now, unless a stale quote is injected.
pub open spec fn observed_time_reading(
    contract: JsonView,
    records: Seq<Event>,
    kinds: RecordKinds,
    injection: Option<HarnessInjection>,
    now: u64,
) -> Result<u64, Seq<char>> {
    if injection == Some(HarnessInjection::StaleQuote) {
        stale_time_reading(contract, records, kinds)
    } else {
        Ok(now)
    }
}

/// The time at which a swap is verified: it can be had exactly where every part that it rests on
/// can, and each part of it is the one that its name says.
pub proof fn law_observed_time_is_read_from_its_parts(
    contract: JsonView,
    records: Seq<Event>,
    kinds: RecordKinds,
    injection: Option<HarnessInjection>,
    now: u64,
)
    ensures
        ({
            let read = observed_time_reading(contract, records, kinds, injection, now);
            let given = read->Ok_0;
            let case_1 = {
                &&& injection == Some(HarnessInjection::StaleQuote)
                &&& stale_time_reading(contract, records, kinds) is Ok
            };
            let case_2 = injection != Some(HarnessInjection::StaleQuote);
            &&& (read is Ok <==> case_1 || case_2)
            &&& read is Ok && case_1 ==> {
                &&& given == stale_time_reading(contract, records, kinds)->Ok_0
            }
            &&& read is Ok && case_2 ==> {
                &&& given == now
            }
        }),
{
}

/// The time at which a swap is verified: now, unless a stale quote is injected.
fn observed_time(
    contract: &Json,
    records: &Vec<Event>,
    kinds: RecordKinds,
    injection: Option<HarnessInjection>,
    now: u64,
) -> (outcome: Result<u64, String>)
    ensures
        told(outcome) == observed_time_reading(contract@, records@, kinds, injection, now),
{
    if injection == Some(HarnessInjection::StaleQuote) {
        stale_quote_time(contract, records, kinds)
    } else {
        Ok(now)
    }
}

/// What the client verifies of a lock, by the verifier inputs of its leg.
pub open spec fn funding_members_reading(
    verifier: Map<Seq<char>, JsonView>,
    output_index: u32,
) -> Result<FundingInputView, Seq<char>> {
    match required_reading(verifier, "funding_transaction"@) {
        Err(message) => Err(message),
        Ok(raw_transaction) => match required_reading(verifier, "amount"@) {
            Err(message) => Err(message),
            Ok(expected_amount) => match required_reading(verifier, "script_pubkey"@) {
                Err(message) => Err(message),
                Ok(expected_script_pubkey) => match required_reading(
                    verifier,
                    "taproot_output_key"@,
                ) {
                    Err(message) => Err(message),
                    Ok(taproot_output_key) => match required_reading(verifier, "taproot_script"@) {
                        Err(message) => Err(message),
                        Ok(taproot_script) => match required_reading(
                            verifier,
                            "taproot_control_block"@,
                        ) {
                            Err(message) => Err(message),
                            Ok(taproot_control_block) => Ok(
                                FundingInputView {
                                    raw_transaction,
                                    output_index,
                                    expected_amount,
                                    expected_script_pubkey,
                                    taproot_output_key,
                                    taproot_script,
                                    taproot_control_block,
                                },
                            ),
                        },
                    },
                },
            },
        },
    }
}

/// What the client verifies of a lock, by the verifier inputs of its leg: it can be had exactly
/// where every part that it rests on can, and each part of it is the one that its name says.
pub proof fn law_funding_members_is_read_from_its_parts(
    verifier: Map<Seq<char>, JsonView>,
    output_index: u32,
)
    ensures
        ({
            let read = funding_members_reading(verifier, output_index);
            let given = read->Ok_0;
            &&& read is Ok <==> {
                &&& required_reading(verifier, "funding_transaction"@) is Ok
                &&& required_reading(verifier, "amount"@) is Ok
                &&& required_reading(verifier, "script_pubkey"@) is Ok
                &&& required_reading(verifier, "taproot_output_key"@) is Ok
                &&& required_reading(verifier, "taproot_script"@) is Ok
                &&& required_reading(verifier, "taproot_control_block"@) is Ok
            }
            &&& read is Ok ==> {
                &&& given.raw_transaction == required_reading(verifier, "funding_transaction"@)->Ok_0
                &&& given.output_index == output_index
                &&& given.expected_amount == required_reading(verifier, "amount"@)->Ok_0
                &&& given.expected_script_pubkey == required_reading(verifier, "script_pubkey"@)->Ok_0
                &&& given.taproot_output_key == required_reading(verifier, "taproot_output_key"@)->Ok_0
                &&& given.taproot_script == required_reading(verifier, "taproot_script"@)->Ok_0
                &&& given.taproot_control_block == required_reading(
                    verifier,
                    "taproot_control_block"@,
                )->Ok_0
            }
        }),
{
}

/// What the client verifies of a lock, by the verifier inputs of its leg.
fn funding_input(
    verifier: &JsonObject,
    output_index: u32,
) -> (outcome: Result<FundingInput, String>)
    ensures
        (match outcome {
            Ok(value) => Ok(value@),
            Err(message) => Err(message@),
        }) == funding_members_reading(verifier@, output_index),
{
    let raw_transaction: &str = required_string(verifier, "funding_transaction")?;
    let expected_amount: &str = required_string(verifier, "amount")?;
    let expected_script_pubkey: &str = required_string(verifier, "script_pubkey")?;
    let taproot_output_key: &str = required_string(verifier, "taproot_output_key")?;
    let taproot_script: &str = required_string(verifier, "taproot_script")?;
    let taproot_control_block: &str = required_string(verifier, "taproot_control_block")?;
    Ok(
        FundingInput {
            raw_transaction: raw_transaction.to_owned(),
            output_index,
            expected_amount: expected_amount.to_owned(),
            expected_script_pubkey: expected_script_pubkey.to_owned(),
            taproot_output_key: taproot_output_key.to_owned(),
            taproot_script: taproot_script.to_owned(),
            taproot_control_block: taproot_control_block.to_owned(),
        },
    )
}

/// What the client verifies of an invoice, by the verifier inputs of its leg.
pub open spec fn invoice_members_reading(
    lightning: Map<Seq<char>, JsonView>,
    invoice: Seq<char>,
    observed_at: u64,
    delta: u64,
) -> Result<InvoiceInputView, Seq<char>> {
    match required_reading(lightning, "invoice_network"@) {
        Err(message) => Err(message),
        Ok(network) => match required_reading(lightning, "invoice_amount_msat"@) {
            Err(message) => Err(message),
            Ok(amount_msat) => Ok(
                InvoiceInputView {
                    invoice,
                    expected_network: network,
                    expected_amount_msat: amount_msat,
                    observed_at,
                    required_minimum_final_cltv_delta: delta,
                },
            ),
        },
    }
}

/// What the client verifies of an invoice, by the verifier inputs of its leg: it can be had exactly
/// where every part that it rests on can, and each part of it is the one that its name says.
pub proof fn law_invoice_members_is_read_from_its_parts(
    lightning: Map<Seq<char>, JsonView>,
    invoice: Seq<char>,
    observed_at: u64,
    delta: u64,
)
    ensures
        ({
            let read = invoice_members_reading(lightning, invoice, observed_at, delta);
            let given = read->Ok_0;
            &&& read is Ok <==> {
                &&& required_reading(lightning, "invoice_network"@) is Ok
                &&& required_reading(lightning, "invoice_amount_msat"@) is Ok
            }
            &&& read is Ok ==> {
                &&& given.invoice == invoice
                &&& given.expected_network == required_reading(lightning, "invoice_network"@)->Ok_0
                &&& given.expected_amount_msat == required_reading(
                    lightning,
                    "invoice_amount_msat"@,
                )->Ok_0
                &&& given.observed_at == observed_at
                &&& given.required_minimum_final_cltv_delta == delta
            }
        }),
{
}

/// What the client verifies of an invoice, by the verifier inputs of its leg.
fn invoice_input(
    lightning: &JsonObject,
    invoice: &str,
    observed_at: u64,
    delta: u64,
) -> (outcome: Result<InvoiceInput, String>)
    ensures
        (match outcome {
            Ok(value) => Ok(value@),
            Err(message) => Err(message@),
        }) == invoice_members_reading(lightning@, invoice@, observed_at, delta),
{
    let network: &str = required_string(lightning, "invoice_network")?;
    let amount_msat: &str = required_string(lightning, "invoice_amount_msat")?;
    Ok(
        InvoiceInput {
            invoice: invoice.to_owned(),
            expected_network: network.to_owned(),
            expected_amount_msat: amount_msat.to_owned(),
            observed_at,
            required_minimum_final_cltv_delta: delta,
        },
    )
}

/// What the client verifies of a swap before anything is funded. `ladder_error` says why the
/// timeouts could not be read.
pub open spec fn fund_input_reading(
    contract: JsonView,
    records: Seq<Event>,
    kinds: RecordKinds,
    injection: Option<HarnessInjection>,
    now: u64,
    invoice: Seq<char>,
    ladder_error: Option<Seq<char>>,
) -> Result<FundInputView, Seq<char>> {
    match member_text(contract, "swap_type"@) {
        None => Err("funded contract has no swap type"@),
        Some(swap_type) => match bitcoin_leg(swap_type) {
            None => Err("funded contract has an unsupported verification flow"@),
            Some(leg_id) => match leg_verifier(contract, leg_id) {
                None => Err("funded contract has no "@ + leg_id + " verifier"@),
                Some(verifier) => match leg_verifier(contract, "lightning"@) {
                    None => Err("funded contract has no "@ + "lightning"@ + " verifier"@),
                    Some(lightning) => match narrow_count(counted(verifier, "output_index"@)) {
                        None => Err("funded verifier has no bounded output index"@),
                        Some(output_index) => match observed_time_reading(
                            contract,
                            records,
                            kinds,
                            injection,
                            now,
                        ) {
                            Err(message) => Err(message),
                            Ok(observed_at) => match narrow_reading(
                                required_amount(verifier, "minimum_confirmations"@),
                                "minimum confirmation count exceeds u32"@,
                            ) {
                                Err(message) => Err(message),
                                Ok(confirmations) => match required_amount(
                                    lightning,
                                    "invoice_minimum_final_cltv_delta"@,
                                ) {
                                    Err(message) => Err(message),
                                    Ok(delta) => match member(contract, "timeout_ladder"@) {
                                        None => Err("funded contract has no timeout ladder"@),
                                        Some(ladder) => {
                                            if ladder_error is Some {
                                                Err(
                                                    "funded timeout ladder is invalid: "@ + ladder_error->0,
                                                )
                                            } else {
                                                match member_text(contract, "payment_hash"@) {
                                                    None => Err(
                                                        "funded contract has no payment hash"@,
                                                    ),
                                                    Some(
                                                        payment_hash,
                                                    ) => match funding_members_reading(
                                                        verifier,
                                                        output_index,
                                                    ) {
                                                        Err(message) => Err(message),
                                                        Ok(
                                                            funding,
                                                        ) => match invoice_members_reading(
                                                            lightning,
                                                            invoice,
                                                            observed_at,
                                                            delta,
                                                        ) {
                                                            Err(message) => Err(message),
                                                            Ok(verified) => match required_reading(
                                                                verifier,
                                                                "replacement_policy"@,
                                                            ) {
                                                                Err(message) => Err(message),
                                                                Ok(policy) => Ok(
                                                                    FundInputView {
                                                                        observed_at,
                                                                        payment_hash,
                                                                        funding,
                                                                        invoice: verified,
                                                                        timeout_ladder: ladder,
                                                                        minimum_confirmations: confirmations,
                                                                        replacement_policy: policy,
                                                                    },
                                                                ),
                                                            },
                                                        },
                                                    },
                                                }
                                            }
                                        },
                                    },
                                },
                            },
                        },
                    },
                },
            },
        },
    }
}

/// What the client verifies of a swap before anything is funded. `ladder_error` says why the
/// timeouts could not be read.
#[verifier::rlimit(60)]
pub fn verify_before_fund_input(
    contract: &Json,
    records: &Vec<Event>,
    kinds: RecordKinds,
    injection: Option<HarnessInjection>,
    now: u64,
    invoice: &str,
    ladder_error: Option<&str>,
) -> (outcome: Result<FundInput, String>)
    ensures
        (match outcome {
            Ok(value) => Ok(value@),
            Err(message) => Err(message@),
        }) == fund_input_reading(
            contract@,
            records@,
            kinds,
            injection,
            now,
            invoice@,
            maybe_str(ladder_error),
        ),
{
    let swap_type: &str = match contract.text_at("swap_type") {
        Some(swap_type) => swap_type,
        None => {
            return Err("funded contract has no swap type".to_owned());
        },
    };
    let leg_id: &'static str = match find_bitcoin_leg(swap_type) {
        Some(leg_id) => leg_id,
        None => {
            return Err("funded contract has an unsupported verification flow".to_owned());
        },
    };
    let verifier: &JsonObject = verifier_for_leg(contract, leg_id)?;
    let lightning: &JsonObject = verifier_for_leg(contract, "lightning")?;
    let output_index: u32 = match narrow_index(verifier.u64_at("output_index")) {
        Some(output_index) => output_index,
        None => {
            return Err("funded verifier has no bounded output index".to_owned());
        },
    };
    let observed_at: u64 = observed_time(contract, records, kinds, injection, now)?;
    let confirmations: u32 = narrow_amount(
        verifier,
        "minimum_confirmations",
        "minimum confirmation count exceeds u32",
    )?;
    let delta: u64 = amount_member(lightning, "invoice_minimum_final_cltv_delta")?;
    let ladder: Json = match contract.get("timeout_ladder") {
        Some(ladder) => ladder.copy(),
        None => {
            return Err("funded contract has no timeout ladder".to_owned());
        },
    };
    if ladder_error.is_some() {
        return Err(join("funded timeout ladder is invalid: ", ladder_error.unwrap_or("")));
    }
    let payment_hash: &str = match contract.text_at("payment_hash") {
        Some(payment_hash) => payment_hash,
        None => {
            return Err("funded contract has no payment hash".to_owned());
        },
    };
    let funding: FundingInput = funding_input(verifier, output_index)?;
    let verified: InvoiceInput = invoice_input(lightning, invoice, observed_at, delta)?;
    let policy: &str = required_string(verifier, "replacement_policy")?;
    Ok(
        FundInput {
            observed_at,
            payment_hash: payment_hash.to_owned(),
            funding,
            invoice: verified,
            timeout_ladder: ladder,
            minimum_confirmations: confirmations,
            replacement_policy: policy.to_owned(),
        },
    )
}

/// What the client asks a node of Lightning before an invoice is paid.
pub struct ReadinessRequest {
    pub network: String,
    pub hold_invoice_required: bool,
    pub hold_expiry_height: u32,
    pub minimum_final_cltv_delta: u64,
}

/// What a node of Lightning reports of itself.
pub struct NodeInfo {
    pub network: String,
    pub block_height: u32,
}

/// The lowest height at which a payment that is sent now can expire.
pub open spec fn expiry_reading(
    info: NodeInfo,
    request: ReadinessRequest,
    too_large: Seq<char>,
    overflow: Seq<char>,
) -> Result<u32, Seq<char>> {
    if request.minimum_final_cltv_delta > u32::MAX {
        Err(too_large)
    } else if info.block_height + request.minimum_final_cltv_delta > u32::MAX {
        Err(overflow)
    } else {
        Ok((info.block_height + request.minimum_final_cltv_delta) as u32)
    }
}

/// The lowest height at which a payment that is sent now can expire: it can be had exactly where
/// every part that it rests on can, and each part of it is the one that its name says.
pub proof fn law_expiry_is_read_from_its_parts(
    info: NodeInfo,
    request: ReadinessRequest,
    too_large: Seq<char>,
    overflow: Seq<char>,
)
    ensures
        ({
            let read = expiry_reading(info, request, too_large, overflow);
            let given = read->Ok_0;
            &&& read is Ok <==> {
                &&& request.minimum_final_cltv_delta <= u32::MAX
                &&& info.block_height + request.minimum_final_cltv_delta <= u32::MAX
            }
            &&& read is Ok ==> {
                &&& given == (info.block_height + request.minimum_final_cltv_delta) as u32
            }
        }),
{
}

fn outgoing_expiry(
    info: &NodeInfo,
    request: &ReadinessRequest,
    too_large: &str,
    overflow: &str,
) -> (
    expiry: Result<u32, String>)
    ensures
        told(expiry) == expiry_reading(*info, *request, too_large@, overflow@),
{
    if request.minimum_final_cltv_delta > 0xffff_ffff {
        return Err(too_large.to_owned());
    }
    let delta: u32 = request.minimum_final_cltv_delta as u32;
    if info.block_height > u32::MAX - delta {
        return Err(overflow.to_owned());
    }
    Ok(info.block_height + delta)
}

/// Whether a node can hold a payment as an invoice asks for.
pub open spec fn can_hold(info: NodeInfo, request: ReadinessRequest, expiry: u32) -> bool {
    &&& info.network@ == request.network@
    &&& request.hold_invoice_required
    &&& info.block_height < request.hold_expiry_height
    &&& expiry >= request.hold_expiry_height
}

fn holds(info: &NodeInfo, request: &ReadinessRequest, expiry: u32) -> (is: bool)
    ensures
        is == can_hold(*info, *request, expiry),
{
    same_text(info.network.as_str(), request.network.as_str()) && request.hold_invoice_required
        && info.block_height < request.hold_expiry_height && expiry >= request.hold_expiry_height
}

/// What a node's report reads as: `None` where it is asked again, because its chain is still behind
/// and there is time.
pub open spec fn readiness_reading(
    info: NodeInfo,
    request: ReadinessRequest,
    expired: bool,
) -> Result<
    Option<()>,
    Seq<char>,
> {
    match expiry_reading(
        info,
        request,
        "invoice final CLTV delta exceeds u32"@,
        "requester CLN expiry calculation overflowed"@,
    ) {
        Err(message) => Err(message),
        Ok(expiry) => if expiry < request.hold_expiry_height && !expired {
            Ok(None)
        } else if can_hold(info, request, expiry) {
            Ok(Some(()))
        } else {
            Err(
                "requester CLN cannot satisfy the bound hold-invoice timing: network="@
                    + info.network@ + ", expected_network="@ + request.network@ + ", height="@
                    + decimal(info.block_height as nat) + ", hold_expiry_height="@ + decimal(
                    request.hold_expiry_height as nat,
                ) + ", minimum_final_cltv_delta="@ + decimal(
                    request.minimum_final_cltv_delta as nat,
                ) + ", hold_required="@ + truth_text(request.hold_invoice_required),
            )
        },
    }
}

/// What a node's report reads as: it can be had exactly where every part that it rests on can, and
/// each part of it is the one that its name says.
pub proof fn law_readiness_is_read_from_its_parts(
    info: NodeInfo,
    request: ReadinessRequest,
    expired: bool,
)
    ensures
        ({
            let read = readiness_reading(info, request, expired);
            let expiry = expiry_reading(
                info,
                request,
                "invoice final CLTV delta exceeds u32"@,
                "requester CLN expiry calculation overflowed"@,
            )->Ok_0;
            let given = read->Ok_0;
            let case_1 = {
                &&& expiry < request.hold_expiry_height
                &&& !expired
            };
            let case_2 = {
                &&& !(expiry < request.hold_expiry_height && !expired)
                &&& can_hold(info, request, expiry)
            };
            &&& read is Ok <==> {
                &&& expiry_reading(
                    info,
                    request,
                    "invoice final CLTV delta exceeds u32"@,
                    "requester CLN expiry calculation overflowed"@,
                ) is Ok
                &&& case_1 || case_2
            }
            &&& read is Ok && case_1 ==> {
                &&& given is None
            }
            &&& read is Ok && case_2 ==> {
                &&& given == Some(())
            }
        }),
{
}

/// A truth as text.
pub open spec fn truth_text(value: bool) -> Seq<char> {
    if value {
        "true"@
    } else {
        "false"@
    }
}

/// Whether a node can hold a payment: `None` where it is asked again.
pub fn lightning_readiness(
    info: &NodeInfo,
    request: &ReadinessRequest,
    expired: bool,
) -> (ready: Result<
    Option<()>,
    String,
>)
    ensures
        told(ready) == readiness_reading(*info, *request, expired),
{
    let expiry: u32 = outgoing_expiry(
        info,
        request,
        "invoice final CLTV delta exceeds u32",
        "requester CLN expiry calculation overflowed",
    )?;
    if expiry < request.hold_expiry_height && !expired {
        return Ok(None);
    }
    if holds(info, request, expiry) {
        return Ok(Some(()));
    }
    let mut message: String =
        "requester CLN cannot satisfy the bound hold-invoice timing: network=".to_owned();
    message.append(info.network.as_str());
    message.append(", expected_network=");
    message.append(request.network.as_str());
    message.append(", height=");
    message.append(decimal_text(info.block_height as u64).as_str());
    message.append(", hold_expiry_height=");
    message.append(decimal_text(request.hold_expiry_height as u64).as_str());
    message.append(", minimum_final_cltv_delta=");
    message.append(decimal_text(request.minimum_final_cltv_delta).as_str());
    message.append(", hold_required=");
    message.append(
        if request.hold_invoice_required {
            "true"
        } else {
            "false"
        },
    );
    Err(message)
}

/// What a node's report reads as for a Liquid swap.
pub open spec fn liquid_readiness_reading(
    info: NodeInfo,
    request: ReadinessRequest,
    expired: bool,
) -> Result<
    Option<()>,
    Seq<char>,
> {
    match expiry_reading(
        info,
        request,
        "Liquid invoice final CLTV delta exceeds u32"@,
        "Liquid requester CLN expiry calculation overflowed"@,
    ) {
        Err(message) => Err(message),
        Ok(expiry) => if expiry < request.hold_expiry_height && !expired {
            Ok(None)
        } else if can_hold(info, request, expiry) {
            Ok(Some(()))
        } else {
            Err("requester CLN cannot satisfy Liquid hold-invoice timing"@)
        },
    }
}

/// What a node's report reads as for a Liquid swap: it can be had exactly where every part that it
/// rests on can, and each part of it is the one that its name says.
pub proof fn law_liquid_readiness_is_read_from_its_parts(
    info: NodeInfo,
    request: ReadinessRequest,
    expired: bool,
)
    ensures
        ({
            let read = liquid_readiness_reading(info, request, expired);
            let expiry = expiry_reading(
                info,
                request,
                "Liquid invoice final CLTV delta exceeds u32"@,
                "Liquid requester CLN expiry calculation overflowed"@,
            )->Ok_0;
            let given = read->Ok_0;
            let case_1 = {
                &&& expiry < request.hold_expiry_height
                &&& !expired
            };
            let case_2 = {
                &&& !(expiry < request.hold_expiry_height && !expired)
                &&& can_hold(info, request, expiry)
            };
            &&& read is Ok <==> {
                &&& expiry_reading(
                    info,
                    request,
                    "Liquid invoice final CLTV delta exceeds u32"@,
                    "Liquid requester CLN expiry calculation overflowed"@,
                ) is Ok
                &&& case_1 || case_2
            }
            &&& read is Ok && case_1 ==> {
                &&& given is None
            }
            &&& read is Ok && case_2 ==> {
                &&& given == Some(())
            }
        }),
{
}

/// Whether a node can hold a payment of a Liquid swap: `None` where it is asked again.
pub fn liquid_lightning_readiness(
    info: &NodeInfo,
    request: &ReadinessRequest,
    expired: bool,
) -> (ready:
    Result<Option<()>, String>)
    ensures
        told(ready) == liquid_readiness_reading(*info, *request, expired),
{
    let expiry: u32 = outgoing_expiry(
        info,
        request,
        "Liquid invoice final CLTV delta exceeds u32",
        "Liquid requester CLN expiry calculation overflowed",
    )?;
    if expiry < request.hold_expiry_height && !expired {
        return Ok(None);
    }
    if holds(info, request, expiry) {
        Ok(Some(()))
    } else {
        Err("requester CLN cannot satisfy Liquid hold-invoice timing".to_owned())
    }
}

/// A node that is found ready can hold the payment until the invoice expires, on its own network.
pub proof fn law_ready_node_can_hold(info: NodeInfo, request: ReadinessRequest, expired: bool)
    requires
        readiness_reading(info, request, expired) == Ok::<Option<()>, Seq<char>>(Some(())),
    ensures
        info.network@ == request.network@,
        info.block_height < request.hold_expiry_height,
        info.block_height + request.minimum_final_cltv_delta >= request.hold_expiry_height,
{
}

/// What the client has authorized.
pub enum Authorized {
    Bitcoin { leg_id: String, raw_transaction: String },
    Liquid { leg_id: String, raw_transaction: String },
    Invoice { leg_id: String, invoice: String, hold_invoice_required: bool },
    Other,
}

/// Where an authorization is asked for.
#[derive(Clone, Copy, Debug, PartialEq, Eq, Structural)]
pub enum FundingSite {
    Submarine,
    SubmarineReturned,
    Reverse,
    ReverseReturned,
    LiquidSubmarine,
    LiquidReverse,
    BitcoinPreflight,
    LiquidPreflight,
    BitcoinToLiquid,
    LiquidToBitcoin,
}

impl FundingSite {
    /// What is said where another thing was authorized.
    pub open spec fn refusal(self) -> Seq<char> {
        match self {
            FundingSite::Submarine => "client authorized another submarine funding action"@,
            FundingSite::SubmarineReturned => "client returned another submarine funding request"@,
            FundingSite::Reverse => "client authorized another reverse funding action"@,
            FundingSite::ReverseReturned => "client returned another reverse funding request"@,
            FundingSite::LiquidSubmarine => "client authorized another Liquid submarine effect"@,
            FundingSite::LiquidReverse => "client authorized another Liquid reverse effect"@,
            FundingSite::BitcoinPreflight => "source preflight authorized another Bitcoin effect"@,
            FundingSite::LiquidPreflight => "source preflight authorized another Liquid effect"@,
            FundingSite::BitcoinToLiquid => "client authorized another BTC-to-Liquid source effect"@,
            FundingSite::LiquidToBitcoin => "client authorized another Liquid-to-Bitcoin source effect"@,
        }
    }

    /// What is said where another thing was authorized.
    pub fn refusal_text(self) -> (text: &'static str)
        ensures
            text@ == self.refusal(),
    {
        match self {
            FundingSite::Submarine => "client authorized another submarine funding action",
            FundingSite::SubmarineReturned => "client returned another submarine funding request",
            FundingSite::Reverse => "client authorized another reverse funding action",
            FundingSite::ReverseReturned => "client returned another reverse funding request",
            FundingSite::LiquidSubmarine => "client authorized another Liquid submarine effect",
            FundingSite::LiquidReverse => "client authorized another Liquid reverse effect",
            FundingSite::BitcoinPreflight => "source preflight authorized another Bitcoin effect",
            FundingSite::LiquidPreflight => "source preflight authorized another Liquid effect",
            FundingSite::BitcoinToLiquid => "client authorized another BTC-to-Liquid source effect",
            FundingSite::LiquidToBitcoin => "client authorized another Liquid-to-Bitcoin source effect",
        }
    }
}

/// Whether the client has authorized exactly this lock on Bitcoin.
pub open spec fn authorizes_bitcoin(action: Authorized, expected: Seq<char>) -> bool {
    action matches Authorized::Bitcoin { leg_id, raw_transaction } && leg_id@ == "source"@
        && raw_transaction@ == expected
}

/// Whether the client has authorized a lock on Liquid: exactly this one, where one is expected.
pub open spec fn authorizes_liquid(action: Authorized, expected: Option<Seq<char>>) -> bool {
    action matches Authorized::Liquid { leg_id, raw_transaction } && leg_id@ == "source"@ && (
    expected matches Some(expected) ==> raw_transaction@ == expected)
}

/// Whether the client has authorized exactly this payment, to be held.
pub open spec fn authorizes_invoice(action: Authorized, expected: Seq<char>) -> bool {
    action matches Authorized::Invoice { leg_id, invoice, hold_invoice_required } && leg_id@
        == "lightning"@ && invoice@ == expected && hold_invoice_required
}

/// Whether what the client has authorized is what was expected: a lock by its bytes, or a payment
/// by its invoice. A chain swap from Liquid may use any lock of the source.
pub open spec fn is_expected(site: FundingSite, action: Authorized, expected: Seq<char>) -> bool {
    match site {
        FundingSite::Submarine | FundingSite::SubmarineReturned | FundingSite::BitcoinPreflight
        | FundingSite::BitcoinToLiquid => authorizes_bitcoin(action, expected),
        FundingSite::LiquidSubmarine | FundingSite::LiquidPreflight => authorizes_liquid(
            action,
            Some(expected),
        ),
        FundingSite::LiquidToBitcoin => authorizes_liquid(action, None),
        FundingSite::Reverse | FundingSite::ReverseReturned | FundingSite::LiquidReverse =>
            authorizes_invoice(action, expected),
    }
}

fn bitcoin_expected(action: &Authorized, expected: &str) -> (is: bool)
    ensures
        is == authorizes_bitcoin(*action, expected@),
{
    match action {
        Authorized::Bitcoin { leg_id, raw_transaction } => same_text(leg_id.as_str(), "source")
            && same_text(raw_transaction.as_str(), expected),
        _ => false,
    }
}

fn liquid_expected(action: &Authorized, expected: Option<&str>) -> (is: bool)
    ensures
        is == authorizes_liquid(*action, maybe_str(expected)),
{
    match action {
        Authorized::Liquid { leg_id, raw_transaction } => same_text(leg_id.as_str(), "source")
            && match expected {
            Some(expected) => same_text(raw_transaction.as_str(), expected),
            None => true,
        },
        _ => false,
    }
}

fn invoice_expected(action: &Authorized, expected: &str) -> (is: bool)
    ensures
        is == authorizes_invoice(*action, expected@),
{
    match action {
        Authorized::Invoice { leg_id, invoice, hold_invoice_required } => same_text(
            leg_id.as_str(),
            "lightning",
        ) && same_text(invoice.as_str(), expected) && *hold_invoice_required,
        _ => false,
    }
}

/// Checks that the client has authorized what was expected.
pub fn check_authorized(site: FundingSite, action: &Authorized, expected: &str) -> (checked: Result<
    (),
    String,
>)
    ensures
        told(checked) == (if is_expected(site, *action, expected@) {
            Ok(())
        } else {
            Err(site.refusal())
        }),
{
    let is: bool = match site {
        FundingSite::Submarine | FundingSite::SubmarineReturned | FundingSite::BitcoinPreflight
        | FundingSite::BitcoinToLiquid => bitcoin_expected(action, expected),
        FundingSite::LiquidSubmarine | FundingSite::LiquidPreflight => liquid_expected(
            action,
            Some(expected),
        ),
        FundingSite::LiquidToBitcoin => liquid_expected(action, None),
        FundingSite::Reverse | FundingSite::ReverseReturned | FundingSite::LiquidReverse =>
            invoice_expected(action, expected),
    };
    if is {
        Ok(())
    } else {
        Err(site.refusal_text().to_owned())
    }
}

/// Whether a lock is verified by the members of its verifier that its parts are named after: the
/// transaction, the output, the amount and script that it has to pay, and its Taproot key.
pub open spec fn is_verified_by(funding: FundingInputView, verifier: Map<Seq<char>, JsonView>) -> bool {
    &&& said(verifier, "funding_transaction"@) == Some(funding.raw_transaction)
    &&& counted(verifier, "output_index"@) == Some(funding.output_index as u64)
    &&& said(verifier, "amount"@) == Some(funding.expected_amount)
    &&& said(verifier, "script_pubkey"@) == Some(funding.expected_script_pubkey)
    &&& said(verifier, "taproot_output_key"@) == Some(funding.taproot_output_key)
}

/// What the client verifies before a swap is funded is what the contract says of the swap's own legs:
/// the lock is held against the verifier of the Bitcoin leg, which is the source of a submarine
/// swap and the destination of a reverse one, the invoice against the verifier of the Lightning
/// leg, each part against the member that it is named after; and nothing else is put in.
pub proof fn law_swap_is_verified_by_its_own_legs(
    contract: JsonView,
    records: Seq<Event>,
    kinds: RecordKinds,
    injection: Option<HarnessInjection>,
    now: u64,
    invoice: Seq<char>,
    ladder_error: Option<Seq<char>>,
)
    requires
        fund_input_reading(
            contract,
            records,
            kinds,
            injection,
            now,
            invoice,
            ladder_error,
        ) is Ok,
    ensures
        ({
            let input = fund_input_reading(
                contract,
                records,
                kinds,
                injection,
                now,
                invoice,
                ladder_error,
            )->Ok_0;
            let swap_type = member_text(contract, "swap_type"@);
            let leg = if swap_type == Some("submarine"@) {
                "source"@
            } else {
                "destination"@
            };
            let verifier = leg_verifier(contract, leg);
            let lightning = leg_verifier(contract, "lightning"@);
            &&& swap_type == Some("submarine"@) || swap_type == Some("reverse"@)
            &&& verifier is Some
            &&& is_verified_by(input.funding, verifier->0)
            &&& said(verifier->0, "taproot_script"@) == Some(input.funding.taproot_script)
            &&& said(verifier->0, "taproot_control_block"@) == Some(
                input.funding.taproot_control_block,
            )
            &&& required_amount(verifier->0, "minimum_confirmations"@) == Ok::<u64, Seq<char>>(
                input.minimum_confirmations as u64,
            )
            &&& said(verifier->0, "replacement_policy"@) == Some(input.replacement_policy)
            &&& lightning is Some
            &&& input.invoice.invoice == invoice
            &&& said(lightning->0, "invoice_network"@) == Some(input.invoice.expected_network)
            &&& said(lightning->0, "invoice_amount_msat"@) == Some(
                input.invoice.expected_amount_msat,
            )
            &&& required_amount(lightning->0, "invoice_minimum_final_cltv_delta"@) == Ok::<
                u64,
                Seq<char>,
            >(input.invoice.required_minimum_final_cltv_delta)
            &&& input.invoice.observed_at == input.observed_at
            &&& injection != Some(HarnessInjection::StaleQuote) ==> input.observed_at == now
            &&& member_text(contract, "payment_hash"@) == Some(input.payment_hash)
            &&& member(contract, "timeout_ladder"@) == Some(input.timeout_ladder)
            &&& ladder_error is None
        }),
{
    reveal_strlit("submarine");
    reveal_strlit("reverse");
    assert("submarine"@.len() == 9);
    assert("reverse"@.len() == 7);
}

/// What the client verifies of the Bitcoin leg of a chain swap is what the contract says of that leg:
/// each part is the member that it is named after, and the script and its control block are those
/// by which the requester leaves the leg, the refund of a source and the claim of a destination.
pub proof fn law_chain_leg_is_verified_by_its_own_members(
    contract: JsonView,
    leg_id: Seq<char>,
    observed_at: u64,
)
    requires
        chain_fund_reading(contract, leg_id, observed_at) is Ok,
    ensures
        ({
            let input = chain_fund_reading(contract, leg_id, observed_at)->Ok_0;
            let verifier = leg_verifier(contract, leg_id);
            let ladder = members_of(member(contract, "timeout_ladder"@));
            &&& leg_id == "source"@ || leg_id == "destination"@
            &&& verifier is Some
            &&& is_verified_by(input.funding, verifier->0)
            &&& leg_id == "source"@ ==> said(verifier->0, "refund_script"@) == Some(
                input.funding.taproot_script,
            ) && said(verifier->0, "taproot_refund_control_block"@) == Some(
                input.funding.taproot_control_block,
            )
            &&& leg_id == "destination"@ ==> said(verifier->0, "claim_script"@) == Some(
                input.funding.taproot_script,
            ) && said(verifier->0, "taproot_claim_control_block"@) == Some(
                input.funding.taproot_control_block,
            )
            &&& required_amount(verifier->0, "minimum_confirmations"@) == Ok::<u64, Seq<char>>(
                input.minimum_confirmations as u64,
            )
            &&& said(verifier->0, "replacement_policy"@) == Some(input.replacement_policy)
            &&& member_text(contract, "payment_hash"@) == Some(input.payment_hash)
            &&& input.observed_at == observed_at
            &&& ladder is Some
            &&& truth_of(ladder->0, "destination_final"@) == Some(
                input.timeout_ladder.destination_final,
            )
            &&& counted(ladder->0, "destination_refund_time"@) == Some(
                input.timeout_ladder.destination_refund_time,
            )
            &&& counted(ladder->0, "source_refund_time"@) == Some(
                input.timeout_ladder.source_refund_time,
            )
            &&& counted(ladder->0, "provider_claim_margin"@) == Some(
                input.timeout_ladder.provider_claim_margin,
            )
            &&& counted(ladder->0, "both_network_reorg_margins"@) == Some(
                input.timeout_ladder.both_network_reorg_margins,
            )
            &&& counted(ladder->0, "both_network_broadcast_margins"@) == Some(
                input.timeout_ladder.both_network_broadcast_margins,
            )
        }),
{
    reveal_strlit("source");
    reveal_strlit("destination");
    assert("source"@.len() == 6);
    assert("destination"@.len() == 11);
}

/// What the client verifies of the invoice of a Liquid swap is what the contract says of the Lightning
/// leg, each part by the member that it is named after.
pub proof fn law_liquid_invoice_is_verified_by_the_lightning_leg(
    contract: JsonView,
    invoice: Seq<char>,
    observed_at: u64,
)
    requires
        liquid_invoice_reading(contract, invoice, observed_at) is Ok,
    ensures
        ({
            let input = liquid_invoice_reading(contract, invoice, observed_at)->Ok_0;
            let lightning = leg_verifier(contract, "lightning"@);
            &&& lightning is Some
            &&& input.invoice == invoice
            &&& input.observed_at == observed_at
            &&& said(lightning->0, "invoice_network"@) == Some(input.expected_network)
            &&& said(lightning->0, "invoice_amount_msat"@) == Some(input.expected_amount_msat)
            &&& required_amount(lightning->0, "invoice_minimum_final_cltv_delta"@) == Ok::<
                u64,
                Seq<char>,
            >(input.required_minimum_final_cltv_delta)
        }),
{
}

/// Only a payment that is to be held is ever accepted in place of a lock.
pub proof fn law_only_held_payments_are_authorized(
    site: FundingSite,
    leg_id: String,
    invoice: String,
    expected: Seq<char>,
)
    ensures
        !is_expected(
            site,
            Authorized::Invoice { leg_id, invoice, hold_invoice_required: false },
            expected,
        ),
{
}

/// A stale quote is verified strictly after it has expired, by more than the clocks may differ.
pub proof fn law_stale_quote_is_past_its_expiration(
    contract: JsonView,
    records: Seq<Event>,
    kinds: RecordKinds,
)
    requires
        stale_time_reading(contract, records, kinds) is Ok,
    ensures
        parsed_u64(quote_expiration(records, kinds)->0) matches Some(expiration) && amount_reading(
            member_text(contract, "clock_skew_seconds"@)->0,
        ) matches Ok(skew) && stale_time_reading(
            contract,
            records,
            kinds,
        )->Ok_0 > expiration + skew,
{
}

/// What is authorized is one payment on one rail: an action is never good for two rails, and on its rail
/// it is good for one transaction or one invoice only.
pub proof fn law_authorized_payment_is_one(
    action: Authorized,
    expected: Seq<char>,
    other: Seq<char>,
    any: Option<Seq<char>>,
)
    ensures
        !(authorizes_bitcoin(action, expected) && authorizes_liquid(action, any)),
        !(authorizes_bitcoin(action, expected) && authorizes_invoice(action, other)),
        !(authorizes_liquid(action, any) && authorizes_invoice(action, other)),
        authorizes_bitcoin(action, expected) ==> (authorizes_bitcoin(action, other) <==> other
            == expected),
        authorizes_liquid(action, Some(expected)) ==> (authorizes_liquid(action, Some(other))
            <==> other == expected),
        authorizes_liquid(action, Some(expected)) ==> authorizes_liquid(action, None),
        authorizes_invoice(action, expected) ==> (authorizes_invoice(action, other) <==> other
            == expected),
{
}

/// A lock on Bitcoin is paid for by a Bitcoin transaction, a lock on Liquid by a Liquid one, and a swap
/// that pays an invoice by that invoice, held; only the way from Liquid to Bitcoin leaves open which
/// Liquid transaction it is.
pub proof fn law_each_site_is_paid_on_its_rail(
    site: FundingSite,
    action: Authorized,
    expected: Seq<char>,
)
    requires
        is_expected(site, action, expected),
    ensures
        site is Submarine || site is SubmarineReturned || site is BitcoinPreflight
            || site is BitcoinToLiquid ==> authorizes_bitcoin(action, expected),
        site is LiquidSubmarine || site is LiquidPreflight ==> authorizes_liquid(
            action,
            Some(expected),
        ),
        site is LiquidToBitcoin ==> authorizes_liquid(action, None),
        site is Reverse || site is ReverseReturned || site is LiquidReverse ==> authorizes_invoice(
            action,
            expected,
        ),
{
}

} // verus!
