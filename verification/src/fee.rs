//! Fees on Liquid: how large its transactions are, what they may cost, and what pays for them.

use vstd::prelude::*;
use crate::amount::{amount_reading, canonical_u64};
use crate::contract::{
    amount_member, bounded_u32_member, bounded_u32_reading, bytes_member, leg_entry, leg_members,
    leg_verifier, narrow_amount, narrow_reading, required_amount, required_bytes, required_reading,
    required_string, verifier_for_leg,
};
use crate::control::{counted, said};
use crate::hex::{decode_hex, hex_reading, hex_text, lower_hex};
use crate::journey::LiquidChainDirection;
use crate::json::{
    Json, JsonObject, JsonView, items_of, items_view, lemma_items_view, member, member_text,
    members_of, text_of,
};
use crate::text::{decimal, decimal_text, ends_with, has_suffix, join, join3, same_text, told};

verus! {

/// The kind of a swap with a leg on Liquid.
#[derive(Clone, Copy, Debug, PartialEq, Eq, Structural)]
pub enum LiquidSwap {
    Submarine,
    Reverse,
    Chain,
}

/// How large the transactions of a swap are in virtual bytes: what a quote is priced by for each
/// kind of swap, and single transactions.
#[derive(Clone, Copy, Debug, PartialEq, Eq, Structural)]
pub struct LiquidSizes {
    pub submarine_quote: u64,
    pub reverse_quote: u64,
    pub bitcoin_to_liquid_quote: u64,
    pub liquid_to_bitcoin_quote: u64,
    pub single_input_funding: u64,
    pub claim: u64,
    pub refund: u64,
}

/// Whether an asset of an ordered pair is on Liquid.
pub open spec fn is_on_liquid(asset: JsonView) -> bool {
    match text_of(Some(asset)) {
        Some(asset) => has_suffix(asset, ":liquid"@),
        None => false,
    }
}

fn on_liquid(asset: &Json) -> (is: bool)
    ensures
        is == is_on_liquid(asset@),
{
    match asset.as_str() {
        Some(asset) => ends_with(asset, ":liquid"),
        None => false,
    }
}

/// The ordered pair of assets of a contract.
pub open spec fn asset_pair(contract: JsonView) -> Option<(JsonView, JsonView)> {
    match items_of(member(contract, "asset_pair"@)) {
        Some(pair) if pair.len() == 2 => Some((pair[0], pair[1])),
        _ => None,
    }
}

fn find_pair<'a>(contract: &'a Json) -> (pair: Option<(&'a Json, &'a Json)>)
    ensures
        (match pair {
            Some((first, second)) => Some((first@, second@)),
            None => None,
        }) == asset_pair(contract@),
{
    match contract.get("asset_pair") {
        Some(value) => match value.as_array() {
            Some(pair) => {
                proof {
                    lemma_items_view(pair@);
                }
                if pair.len() == 2 {
                    assert(items_view(pair@)[0] == pair@[0]@);
                    assert(items_view(pair@)[1] == pair@[1]@);
                    Some((&pair[0], &pair[1]))
                } else {
                    None
                }
            },
            None => None,
        },
        None => None,
    }
}

/// The size that the quote of a swap is priced by.
pub open spec fn priced_reading(contract: JsonView, swap: LiquidSwap, sizes: LiquidSizes) -> Result<
    u64,
    Seq<char>,
> {
    match swap {
        LiquidSwap::Submarine => Ok(sizes.submarine_quote),
        LiquidSwap::Reverse => Ok(sizes.reverse_quote),
        LiquidSwap::Chain => match asset_pair(contract) {
            None => Err("Liquid chain Contract has no ordered asset pair"@),
            Some((first, second)) => if !is_on_liquid(first) && is_on_liquid(second) {
                Ok(sizes.bitcoin_to_liquid_quote)
            } else if is_on_liquid(first) && !is_on_liquid(second) {
                Ok(sizes.liquid_to_bitcoin_quote)
            } else {
                Err("Liquid chain Contract does not contain one Liquid asset"@)
            },
        },
    }
}

/// The size that the quote of a swap is priced by: it can be had exactly where every part that it
/// rests on can, and each part of it is the one that its name says.
pub proof fn law_priced_is_read_from_its_parts(
    contract: JsonView,
    swap: LiquidSwap,
    sizes: LiquidSizes,
)
    ensures
        ({
            let read = priced_reading(contract, swap, sizes);
            let first = asset_pair(contract)->Some_0.0;
            let second = asset_pair(contract)->Some_0.1;
            let given = read->Ok_0;
            let case_1 = swap == LiquidSwap::Submarine;
            let case_2 = swap == LiquidSwap::Reverse;
            let case_3 = {
                &&& swap == LiquidSwap::Chain
                &&& asset_pair(contract) is Some
                &&& !is_on_liquid(first)
                &&& is_on_liquid(second)
            };
            let case_4 = {
                &&& swap == LiquidSwap::Chain
                &&& asset_pair(contract) is Some
                &&& !(!is_on_liquid(first) && is_on_liquid(second))
                &&& is_on_liquid(first)
                &&& !is_on_liquid(second)
            };
            &&& (read is Ok <==> case_1 || case_2 || case_3 || case_4)
            &&& read is Ok && case_1 ==> {
                &&& given == sizes.submarine_quote
            }
            &&& read is Ok && case_2 ==> {
                &&& given == sizes.reverse_quote
            }
            &&& read is Ok && case_3 ==> {
                &&& given == sizes.bitcoin_to_liquid_quote
            }
            &&& read is Ok && case_4 ==> {
                &&& given == sizes.liquid_to_bitcoin_quote
            }
        }),
{
}

/// The size that the quote of a swap is priced by.
pub fn liquid_quote_priced_vbytes(contract: &Json, swap: LiquidSwap, sizes: LiquidSizes) -> (vbytes:
    Result<u64, String>)
    ensures
        told(vbytes) == priced_reading(contract@, swap, sizes),
{
    match swap {
        LiquidSwap::Submarine => Ok(sizes.submarine_quote),
        LiquidSwap::Reverse => Ok(sizes.reverse_quote),
        LiquidSwap::Chain => match find_pair(contract) {
            None => Err("Liquid chain Contract has no ordered asset pair".to_owned()),
            Some((first, second)) => {
                let from_liquid: bool = on_liquid(first);
                let to_liquid: bool = on_liquid(second);
                if !from_liquid && to_liquid {
                    Ok(sizes.bitcoin_to_liquid_quote)
                } else if from_liquid && !to_liquid {
                    Ok(sizes.liquid_to_bitcoin_quote)
                } else {
                    Err("Liquid chain Contract does not contain one Liquid asset".to_owned())
                }
            },
        },
    }
}

/// What a transaction of a size costs at a rate.
pub open spec fn cost_reading(vbytes: u64, rate: u64, label: Seq<char>) -> Result<u64, Seq<char>> {
    if vbytes * rate > u64::MAX {
        Err("Liquid "@ + label + " fee cap overflows"@)
    } else {
        Ok((vbytes * rate) as u64)
    }
}

/// What a transaction of a size costs at a rate: it can be had exactly where every part that it
/// rests on can, and each part of it is the one that its name says.
pub proof fn law_cost_is_read_from_its_parts(vbytes: u64, rate: u64, label: Seq<char>)
    ensures
        ({
            let read = cost_reading(vbytes, rate, label);
            let given = read->Ok_0;
            &&& read is Ok <==> {
                &&& vbytes * rate <= u64::MAX
            }
            &&& read is Ok ==> {
                &&& given == (vbytes * rate) as u64
            }
        }),
{
}

fn effect_fee(vbytes: u64, rate: u64, label: &str) -> (fee: Result<u64, String>)
    ensures
        told(fee) == cost_reading(vbytes, rate, label@),
{
    match vbytes.checked_mul(rate) {
        Some(fee) => Ok(fee),
        None => Err(join3("Liquid ", label, " fee cap overflows")),
    }
}

/// Scripts and a lock, or a message.
pub open spec fn told_scripts(outcome: Result<(Vec<u8>, Vec<u8>, u32), String>) -> Result<
    (Seq<u8>, Seq<u8>, u32),
    Seq<char>,
> {
    match outcome {
        Ok((script, control, lock)) => Ok((script@, control@, lock)),
        Err(message) => Err(message@),
    }
}

/// What the transactions of a swap on Liquid may cost.
pub struct LiquidFeeSchedule {
    pub sat_per_vbyte: u64,
    pub funding_fee_cap_sat: u64,
    pub claim_fee_sat: u64,
    pub refund_fee_sat: u64,
}

/// What the transactions of a swap on Liquid may cost.
#[verifier::ext_equal]
pub struct LiquidFeeScheduleView {
    pub sat_per_vbyte: u64,
    pub funding_fee_cap_sat: u64,
    pub claim_fee_sat: u64,
    pub refund_fee_sat: u64,
}

impl View for LiquidFeeSchedule {
    type V = LiquidFeeScheduleView;

    open spec fn view(&self) -> LiquidFeeScheduleView {
        LiquidFeeScheduleView {
            sat_per_vbyte: self.sat_per_vbyte,
            funding_fee_cap_sat: self.funding_fee_cap_sat,
            claim_fee_sat: self.claim_fee_sat,
            refund_fee_sat: self.refund_fee_sat,
        }
    }
}

/// What the rate of a swap on Liquid is derived from: the size that it is priced by, and the
/// budget.
pub open spec fn fee_inputs_reading(
    contract: JsonView,
    swap: LiquidSwap,
    sizes: LiquidSizes,
) -> Result<(u64, u64), Seq<char>> {
    match priced_reading(contract, swap, sizes) {
        Err(message) => Err(message),
        Ok(vbytes) => match member_text(contract, "miner_fee_budget"@) {
            None => Err("Liquid contract has no miner fee budget"@),
            Some(text) => match amount_reading(text) {
                Err(message) => Err(message),
                Ok(budget) => Ok((vbytes, budget)),
            },
        },
    }
}

/// What the rate of a swap on Liquid is derived from: it can be had exactly where every part that
/// it rests on can, and each part of it is the one that its name says.
pub proof fn law_fee_inputs_is_read_from_its_parts(
    contract: JsonView,
    swap: LiquidSwap,
    sizes: LiquidSizes,
)
    ensures
        ({
            let read = fee_inputs_reading(contract, swap, sizes);
            let text = member_text(contract, "miner_fee_budget"@)->0;
            let given = read->Ok_0;
            &&& read is Ok <==> {
                &&& priced_reading(contract, swap, sizes) is Ok
                &&& member_text(contract, "miner_fee_budget"@) is Some
                &&& amount_reading(text) is Ok
            }
            &&& read is Ok ==> {
                &&& given.0 == priced_reading(contract, swap, sizes)->Ok_0
                &&& given.1 == amount_reading(text)->Ok_0
            }
        }),
{
}

/// What the rate of a swap on Liquid is derived from: the size that it is priced by, and the
/// budget.
pub fn liquid_fee_inputs(
    contract: &Json,
    swap: LiquidSwap,
    sizes: LiquidSizes,
) -> (outcome: Result<(u64, u64), String>)
    ensures
        told(outcome) == fee_inputs_reading(contract@, swap, sizes),
{
    let vbytes: u64 = liquid_quote_priced_vbytes(contract, swap, sizes)?;
    let text: &str = match contract.text_at("miner_fee_budget") {
        Some(text) => text,
        None => {
            return Err("Liquid contract has no miner fee budget".to_owned());
        },
    };
    let budget: u64 = canonical_u64(text)?;
    Ok((vbytes, budget))
}

/// What the transactions of a swap on Liquid may cost at a rate.
pub open spec fn costs_reading(rate: Result<u64, String>, sizes: LiquidSizes) -> Result<
    LiquidFeeScheduleView,
    Seq<char>,
> {
    match told(rate) {
        Err(message) => Err(message),
        Ok(rate) => match cost_reading(sizes.single_input_funding, rate, "single-input funding"@) {
            Err(message) => Err(message),
            Ok(funding) => match cost_reading(sizes.claim, rate, "claim"@) {
                Err(message) => Err(message),
                Ok(claim) => match cost_reading(sizes.refund, rate, "refund"@) {
                    Err(message) => Err(message),
                    Ok(refund) => Ok(
                        LiquidFeeScheduleView {
                            sat_per_vbyte: rate,
                            funding_fee_cap_sat: funding,
                            claim_fee_sat: claim,
                            refund_fee_sat: refund,
                        },
                    ),
                },
            },
        },
    }
}

/// What the transactions of a swap on Liquid may cost at a rate: it can be had exactly where every
/// part that it rests on can, and each part of it is the one that its name says.
pub proof fn law_costs_is_read_from_its_parts(rate: Result<u64, String>, sizes: LiquidSizes)
    ensures
        ({
            let read = costs_reading(rate, sizes);
            let read_rate = told(rate)->Ok_0;
            let given = read->Ok_0;
            &&& read is Ok <==> {
                &&& told(rate) is Ok
                &&& cost_reading(sizes.single_input_funding, read_rate, "single-input funding"@) is Ok
                &&& cost_reading(sizes.claim, read_rate, "claim"@) is Ok
                &&& cost_reading(sizes.refund, read_rate, "refund"@) is Ok
            }
            &&& read is Ok ==> {
                &&& given.sat_per_vbyte == read_rate
                &&& given.funding_fee_cap_sat == cost_reading(
                    sizes.single_input_funding,
                    read_rate,
                    "single-input funding"@,
                )->Ok_0
                &&& given.claim_fee_sat == cost_reading(sizes.claim, read_rate, "claim"@)->Ok_0
                &&& given.refund_fee_sat == cost_reading(sizes.refund, read_rate, "refund"@)->Ok_0
            }
        }),
{
}

/// What the transactions of a swap on Liquid may cost, given the rate that the size and the budget
/// of its contract come to.
pub open spec fn fee_schedule_reading(
    contract: JsonView,
    swap: LiquidSwap,
    sizes: LiquidSizes,
    rate: Result<u64, String>,
) -> Result<LiquidFeeScheduleView, Seq<char>> {
    match fee_inputs_reading(contract, swap, sizes) {
        Err(message) => Err(message),
        Ok(_) => costs_reading(rate, sizes),
    }
}

/// What the transactions of a swap on Liquid may cost, given the rate that the size and the budget
/// of its contract come to: it can be had exactly where every part that it rests on can, and each
/// part of it is the one that its name says.
pub proof fn law_fee_schedule_is_read_from_its_parts(
    contract: JsonView,
    swap: LiquidSwap,
    sizes: LiquidSizes,
    rate: Result<u64, String>,
)
    ensures
        ({
            let read = fee_schedule_reading(contract, swap, sizes, rate);
            let given = read->Ok_0;
            &&& read is Ok <==> {
                &&& fee_inputs_reading(contract, swap, sizes) is Ok
                &&& costs_reading(rate, sizes) is Ok
            }
            &&& read is Ok ==> {
                &&& given == costs_reading(rate, sizes)->Ok_0
            }
        }),
{
}

/// What the transactions of a swap on Liquid may cost. `rate` is what the size and the budget of
/// its contract, as `liquid_fee_inputs` gives them, come to.
pub fn liquid_fee_schedule(
    contract: &Json,
    swap: LiquidSwap,
    sizes: LiquidSizes,
    rate: &Result<u64, String>,
) -> (outcome: Result<LiquidFeeSchedule, String>)
    ensures
        (match outcome {
            Ok(value) => Ok(value@),
            Err(message) => Err(message@),
        }) == fee_schedule_reading(contract@, swap, sizes, *rate),
{
    let inputs: (u64, u64) = liquid_fee_inputs(contract, swap, sizes)?;
    let rate: u64 = match rate {
        Ok(rate) => *rate,
        Err(message) => {
            return Err(message.clone());
        },
    };
    let funding: u64 = effect_fee(sizes.single_input_funding, rate, "single-input funding")?;
    let claim: u64 = effect_fee(sizes.claim, rate, "claim")?;
    let refund: u64 = effect_fee(sizes.refund, rate, "refund")?;
    Ok(
        LiquidFeeSchedule {
            sat_per_vbyte: rate,
            funding_fee_cap_sat: funding,
            claim_fee_sat: claim,
            refund_fee_sat: refund,
        },
    )
}

/// The first output of a wallet that covers an amount.
pub open spec fn first_covering(amounts: Seq<u64>, required: u64) -> Option<int>
    decreases amounts.len(),
{
    if amounts.len() == 0 {
        None
    } else if amounts[0] >= required {
        Some(0)
    } else {
        match first_covering(amounts.drop_first(), required) {
            Some(place) => Some(place + 1),
            None => None,
        }
    }
}

proof fn lemma_first_covering(amounts: Seq<u64>, required: u64, place: int)
    requires
        0 <= place <= amounts.len(),
        forall|j: int| 0 <= j < place ==> #[trigger] amounts[j] < required,
        place < amounts.len() ==> amounts[place] >= required,
    ensures
        first_covering(amounts, required) == (if place < amounts.len() {
            Some(place)
        } else {
            None
        }),
    decreases place,
{
    if place > 0 {
        assert(amounts[0] < required);
        let rest = amounts.drop_first();
        assert forall|j: int| 0 <= j < place - 1 implies #[trigger] rest[j] < required by {
            assert(amounts[j + 1] < required);
        }
        lemma_first_covering(rest, required, place - 1);
    }
}

/// The one output that a lock on Liquid is funded from: it covers the amount and the fee.
pub open spec fn covering_reading(
    amounts: Seq<u64>,
    amount: u64,
    fee_cap: u64,
) -> Result<int, Seq<char>> {
    if amount + fee_cap > u64::MAX {
        Err("Liquid source capacity target overflows"@)
    } else {
        match first_covering(amounts, (amount + fee_cap) as u64) {
            Some(place) => Ok(place),
            None => Err(
                "requester elementsd wallet has no single confirmed output covering amount and derived funding fee cap"@,
            ),
        }
    }
}

/// The one output that a lock on Liquid is funded from: it can be had exactly where every part that
/// it rests on can, and each part of it is the one that its name says.
pub proof fn law_covering_is_read_from_its_parts(amounts: Seq<u64>, amount: u64, fee_cap: u64)
    ensures
        ({
            let read = covering_reading(amounts, amount, fee_cap);
            let given = read->Ok_0;
            &&& read is Ok <==> {
                &&& amount + fee_cap <= u64::MAX
                &&& first_covering(amounts, (amount + fee_cap) as u64) is Some
            }
            &&& read is Ok ==> {
                &&& given == first_covering(amounts, (amount + fee_cap) as u64)->0
            }
        }),
{
}

/// The one output that a lock on Liquid is funded from, by the amounts of the confirmed ones.
pub fn covering_output(
    amounts: &Vec<u64>,
    amount_sat: u64,
    funding_fee_cap_sat: u64,
) -> (place: Result<
    usize,
    String,
>)
    ensures
        (match place {
            Ok(place) => Ok(place as int),
            Err(message) => Err(message@),
        }) == covering_reading(amounts@, amount_sat, funding_fee_cap_sat),
{
    let required: u64 = match amount_sat.checked_add(funding_fee_cap_sat) {
        Some(required) => required,
        None => {
            return Err("Liquid source capacity target overflows".to_owned());
        },
    };
    let mut i: usize = 0;
    while i < amounts.len()
        invariant
            i <= amounts@.len(),
            required == amount_sat + funding_fee_cap_sat,
            forall|j: int| 0 <= j < i ==> #[trigger] amounts@[j] < required,
        decreases amounts@.len() - i,
    {
        if amounts[i] >= required {
            proof {
                lemma_first_covering(amounts@, required, i as int);
            }
            return Ok(i);
        }
        i = i + 1;
    }
    proof {
        lemma_first_covering(amounts@, required, i as int);
    }
    Err(
        "requester elementsd wallet has no single confirmed output covering amount and derived funding fee cap".to_owned(),
    )
}

/// The output that is selected covers the amount together with the fee.
pub proof fn law_covering_output_suffices(amounts: Seq<u64>, amount: u64, fee_cap: u64)
    requires
        covering_reading(amounts, amount, fee_cap) is Ok,
    ensures
        0 <= covering_reading(amounts, amount, fee_cap)->Ok_0 < amounts.len(),
        amounts[covering_reading(amounts, amount, fee_cap)->Ok_0] >= amount + fee_cap,
{
    lemma_covering_place(amounts, (amount + fee_cap) as u64);
}

proof fn lemma_covering_place(amounts: Seq<u64>, required: u64)
    requires
        first_covering(amounts, required) is Some,
    ensures
        0 <= first_covering(amounts, required)->0 < amounts.len(),
        amounts[first_covering(amounts, required)->0] >= required,
    decreases amounts.len(),
{
    if amounts[0] < required {
        lemma_covering_place(amounts.drop_first(), required);
    }
}

/// How the laboratory prices a quote.
pub struct LabPricing {
    pub spread_bps: u64,
    pub sat_per_vbyte: u64,
    pub min_swap_sat: u64,
    pub max_swap_sat: u64,
    pub quote_expiry_seconds: u64,
    pub lightning_routing_fee_ppm: u64,
}

/// How the laboratory prices a quote.
#[verifier::ext_equal]
pub struct LabPricingView {
    pub spread_bps: u64,
    pub sat_per_vbyte: u64,
    pub min_swap_sat: u64,
    pub max_swap_sat: u64,
    pub quote_expiry_seconds: u64,
    pub lightning_routing_fee_ppm: u64,
}

impl View for LabPricing {
    type V = LabPricingView;

    open spec fn view(&self) -> LabPricingView {
        LabPricingView {
            spread_bps: self.spread_bps,
            sat_per_vbyte: self.sat_per_vbyte,
            min_swap_sat: self.min_swap_sat,
            max_swap_sat: self.max_swap_sat,
            quote_expiry_seconds: self.quote_expiry_seconds,
            lightning_routing_fee_ppm: self.lightning_routing_fee_ppm,
        }
    }
}

/// The pricing that a laboratory is forced to.
pub open spec fn forced_pricing(
    profile: Map<Seq<char>, JsonView>,
) -> Option<Map<Seq<char>, JsonView>> {
    match members_of(member(JsonView::Object(profile), "pricing"@)) {
        Some(pricing) if said(pricing, "source"@) == Some("configured_fallback_only"@) => Some(
            pricing,
        ),
        _ => None,
    }
}

fn find_pricing<'a>(profile: &'a JsonObject) -> (pricing: Option<&'a JsonObject>)
    ensures
        (match pricing {
            Some(pricing) => Some(pricing@),
            None => None,
        }) == forced_pricing(profile@),
{
    match profile.get("pricing") {
        Some(value) => match value.as_object() {
            Some(pricing) => if pricing.says("source", "configured_fallback_only") {
                Some(pricing)
            } else {
                None
            },
            None => None,
        },
        None => None,
    }
}

fn find_profile<'a>(fixture: &'a Json) -> (profile: Option<&'a JsonObject>)
    ensures
        (match profile {
            Some(profile) => Some(profile@),
            None => None,
        }) == members_of(member(fixture@, "lab_profile"@)),
{
    match fixture.get("lab_profile") {
        Some(value) => value.as_object(),
        None => None,
    }
}

/// How the laboratory prices a quote, by its description.
pub open spec fn lab_pricing_reading(fixture: JsonView) -> Result<LabPricingView, Seq<char>> {
    match members_of(member(fixture, "lab_profile"@)) {
        None => Err("adversarial fixture has no lab profile"@),
        Some(profile) => match forced_pricing(profile) {
            None => Err("adversarial fixture has no forced fallback pricing"@),
            Some(pricing) => match counted(pricing, "sat_per_vbyte"@) {
                None => Err("adversarial lab pricing has no "@ + "sat_per_vbyte"@),
                Some(sat_per_vbyte) => match counted(pricing, "spread_bps"@) {
                    None => Err("adversarial lab pricing has no "@ + "spread_bps"@),
                    Some(spread_bps) => match counted(pricing, "min_swap_sat"@) {
                        None => Err("adversarial lab pricing has no "@ + "min_swap_sat"@),
                        Some(min_swap_sat) => match counted(pricing, "max_swap_sat"@) {
                            None => Err("adversarial lab pricing has no "@ + "max_swap_sat"@),
                            Some(max_swap_sat) => match counted(
                                profile,
                                "tiny_quote_expiry_seconds"@,
                            ) {
                                None => Err(
                                    "adversarial lab pricing has no "@ + "tiny_quote_expiry_seconds"@,
                                ),
                                Some(quote_expiry_seconds) => match counted(
                                    pricing,
                                    "lightning_routing_fee_ppm"@,
                                ) {
                                    None => Err(
                                        "adversarial lab pricing has no "@ + "lightning_routing_fee_ppm"@,
                                    ),
                                    Some(lightning_routing_fee_ppm) => Ok(
                                        LabPricingView {
                                            spread_bps,
                                            sat_per_vbyte,
                                            min_swap_sat,
                                            max_swap_sat,
                                            quote_expiry_seconds,
                                            lightning_routing_fee_ppm,
                                        },
                                    ),
                                },
                            },
                        },
                    },
                },
            },
        },
    }
}

/// How the laboratory prices a quote, by its description: it can be had exactly where every part
/// that it rests on can, and each part of it is the one that its name says.
pub proof fn law_lab_pricing_is_read_from_its_parts(fixture: JsonView)
    ensures
        ({
            let read = lab_pricing_reading(fixture);
            let profile = members_of(member(fixture, "lab_profile"@))->0;
            let pricing = forced_pricing(profile)->0;
            let given = read->Ok_0;
            &&& read is Ok <==> {
                &&& members_of(member(fixture, "lab_profile"@)) is Some
                &&& forced_pricing(profile) is Some
                &&& counted(pricing, "sat_per_vbyte"@) is Some
                &&& counted(pricing, "spread_bps"@) is Some
                &&& counted(pricing, "min_swap_sat"@) is Some
                &&& counted(pricing, "max_swap_sat"@) is Some
                &&& counted(profile, "tiny_quote_expiry_seconds"@) is Some
                &&& counted(pricing, "lightning_routing_fee_ppm"@) is Some
            }
            &&& read is Ok ==> {
                &&& given.spread_bps == counted(pricing, "spread_bps"@)->0
                &&& given.sat_per_vbyte == counted(pricing, "sat_per_vbyte"@)->0
                &&& given.min_swap_sat == counted(pricing, "min_swap_sat"@)->0
                &&& given.max_swap_sat == counted(pricing, "max_swap_sat"@)->0
                &&& given.quote_expiry_seconds == counted(profile, "tiny_quote_expiry_seconds"@)->0
                &&& given.lightning_routing_fee_ppm == counted(pricing, "lightning_routing_fee_ppm"@)->0
            }
        }),
{
}

/// How the laboratory prices a quote, by its description.
pub fn lab_pricing(fixture: &Json) -> (outcome: Result<LabPricing, String>)
    ensures
        (match outcome { Ok(value) => Ok(value@), Err(message) => Err(message@) }) == lab_pricing_reading(
            fixture@,
        ),
{
    let profile: &JsonObject = match find_profile(fixture) {
        Some(profile) => profile,
        None => {
            return Err("adversarial fixture has no lab profile".to_owned());
        },
    };
    let pricing: &JsonObject = match find_pricing(profile) {
        Some(pricing) => pricing,
        None => {
            return Err("adversarial fixture has no forced fallback pricing".to_owned());
        },
    };
    let sat_per_vbyte: u64 = match pricing.u64_at("sat_per_vbyte") {
        Some(sat_per_vbyte) => sat_per_vbyte,
        None => {
            return Err(join("adversarial lab pricing has no ", "sat_per_vbyte"));
        },
    };
    let spread_bps: u64 = match pricing.u64_at("spread_bps") {
        Some(spread_bps) => spread_bps,
        None => {
            return Err(join("adversarial lab pricing has no ", "spread_bps"));
        },
    };
    let min_swap_sat: u64 = match pricing.u64_at("min_swap_sat") {
        Some(min_swap_sat) => min_swap_sat,
        None => {
            return Err(join("adversarial lab pricing has no ", "min_swap_sat"));
        },
    };
    let max_swap_sat: u64 = match pricing.u64_at("max_swap_sat") {
        Some(max_swap_sat) => max_swap_sat,
        None => {
            return Err(join("adversarial lab pricing has no ", "max_swap_sat"));
        },
    };
    let quote_expiry_seconds: u64 = match profile.u64_at("tiny_quote_expiry_seconds") {
        Some(quote_expiry_seconds) => quote_expiry_seconds,
        None => {
            return Err(join("adversarial lab pricing has no ", "tiny_quote_expiry_seconds"));
        },
    };
    let lightning_routing_fee_ppm: u64 = match pricing.u64_at("lightning_routing_fee_ppm") {
        Some(lightning_routing_fee_ppm) => lightning_routing_fee_ppm,
        None => {
            return Err(join("adversarial lab pricing has no ", "lightning_routing_fee_ppm"));
        },
    };
    Ok(
        LabPricing {
            spread_bps,
            sat_per_vbyte,
            min_swap_sat,
            max_swap_sat,
            quote_expiry_seconds,
            lightning_routing_fee_ppm,
        },
    )
}

/// The amount of the invoice of a Liquid submarine swap, by the quote that was derived.
pub open spec fn invoice_amount_reading(derived: Result<String, String>) -> Result<u64, Seq<char>> {
    match derived {
        Err(message) => Err("could not derive Liquid submarine lab Quote: "@ + message@),
        Ok(amount) => amount_reading(amount@),
    }
}

/// The amount of the invoice of a Liquid submarine swap, by the quote that was derived: it can be
/// had exactly where every part that it rests on can, and each part of it is the one that its name
/// says.
pub proof fn law_invoice_amount_is_read_from_its_parts(derived: Result<String, String>)
    ensures
        ({
            let read = invoice_amount_reading(derived);
            let amount = derived->Ok_0;
            let given = read->Ok_0;
            &&& read is Ok <==> {
                &&& derived is Ok
                &&& amount_reading(amount@) is Ok
            }
            &&& read is Ok ==> {
                &&& given == amount_reading(amount@)->Ok_0
            }
        }),
{
}

/// The amount of the invoice of a Liquid submarine swap, by the quote that was derived.
pub fn liquid_submarine_invoice_amount_sat(derived: &Result<String, String>) -> (amount: Result<
    u64,
    String,
>)
    ensures
        told(amount) == invoice_amount_reading(*derived),
{
    match derived {
        Err(message) => Err(
            join("could not derive Liquid submarine lab Quote: ", message.as_str()),
        ),
        Ok(amount) => canonical_u64(amount.as_str()),
    }
}

/// What is known of the file that a secret is kept in.
pub struct SecretFile {
    pub is_symlink: bool,
    pub is_file: bool,
    pub length: u64,
    pub mode: u32,
}

/// What the file of a secret reads as.
pub open spec fn secret_file_reading(file: SecretFile) -> Result<(), Seq<char>> {
    if file.is_symlink || !file.is_file || file.length != 32 {
        Err("Liquid preimage recovery record is not an exact private 32-byte file"@)
    } else if file.mode & 0o777 != 0o600 {
        Err("Liquid preimage recovery record permissions are not 0600"@)
    } else {
        Ok(())
    }
}

/// What the file of a secret reads as: it holds exactly where every one of these conditions does.
pub proof fn law_secret_file_holds_by_its_parts(file: SecretFile)
    ensures
        ({
            let read = secret_file_reading(file);
            &&& read is Ok <==> {
                &&& !(file.is_symlink)
                &&& file.is_file
                &&& file.length == 32
                &&& file.mode & 0o777 == 0o600
            }
        }),
{
}

/// Checks that the file of a secret is one that only its owner can read and write.
pub fn check_secret_file(file: &SecretFile) -> (checked: Result<(), String>)
    ensures
        told(checked) == secret_file_reading(*file),
{
    if file.is_symlink || !file.is_file || file.length != 32 {
        return Err(
            "Liquid preimage recovery record is not an exact private 32-byte file".to_owned(),
        );
    }
    if file.mode & 0o777 != 0o600 {
        return Err("Liquid preimage recovery record permissions are not 0600".to_owned());
    }
    Ok(())
}

/// The text whose digest refers to a key of the wallet.
pub open spec fn wallet_binding(account: u32, change: bool, address_index: u32) -> Seq<char> {
    "openagents.immortal.lab-liquid-wallet-ref.v1\0"@ + decimal(account as nat) + "\0"@ + (
    if change {
        "true"@
    } else {
        "false"@
    }) + "\0"@ + decimal(address_index as nat)
}

/// The text whose digest refers to a key of the wallet.
pub fn wallet_binding_text(account: u32, change: bool, address_index: u32) -> (text: String)
    ensures
        text@ == wallet_binding(account, change, address_index),
{
    let mut text: String = "openagents.immortal.lab-liquid-wallet-ref.v1\0".to_owned();
    text.append(decimal_text(account as u64).as_str());
    text.append("\0");
    text.append(
        if change {
            "true"
        } else {
            "false"
        },
    );
    text.append("\0");
    text.append(decimal_text(address_index as u64).as_str());
    text
}

/// The text whose digest refers to a kept secret.
pub open spec fn preimage_binding(journey: Seq<char>, path: Seq<char>) -> Seq<char> {
    "openagents.immortal.lab-liquid-preimage-ref.v1\0"@ + journey + "\0"@ + path
}

/// The text whose digest refers to a kept secret.
pub fn preimage_binding_text(journey_name: &str, path: &str) -> (text: String)
    ensures
        text@ == preimage_binding(journey_name@, path@),
{
    let mut text: String = join3(
        "openagents.immortal.lab-liquid-preimage-ref.v1\0",
        journey_name,
        "\0",
    );
    text.append(path);
    text
}

/// What the exit of a Liquid leg is built from.
pub struct LiquidExitPlan {
    pub funding_transaction: String,
    pub output_index: u32,
    pub amount_sat: u64,
    pub script_pubkey: Vec<u8>,
    pub script: Vec<u8>,
    pub control_block: Vec<u8>,
    pub timelock: u32,
    pub leaves_by_refund: bool,
}

/// What the exit of a Liquid leg is built from.
#[verifier::ext_equal]
pub struct LiquidExitPlanView {
    pub funding_transaction: Seq<char>,
    pub output_index: u32,
    pub amount_sat: u64,
    pub script_pubkey: Seq<u8>,
    pub script: Seq<u8>,
    pub control_block: Seq<u8>,
    pub timelock: u32,
    pub leaves_by_refund: bool,
}

impl View for LiquidExitPlan {
    type V = LiquidExitPlanView;

    open spec fn view(&self) -> LiquidExitPlanView {
        LiquidExitPlanView {
            funding_transaction: self.funding_transaction@,
            output_index: self.output_index,
            amount_sat: self.amount_sat,
            script_pubkey: self.script_pubkey@,
            script: self.script@,
            control_block: self.control_block@,
            timelock: self.timelock,
            leaves_by_refund: self.leaves_by_refund,
        }
    }
}

/// How a leg is left by its claim.
pub open spec fn claim_scripts_reading(
    verifier: Map<Seq<char>, JsonView>,
) -> Result<(Seq<u8>, Seq<u8>, u32), Seq<char>> {
    match required_bytes(verifier, "claim_script"@) {
        Err(message) => Err(message),
        Ok(script) => match required_bytes(verifier, "taproot_claim_control_block"@) {
            Err(message) => Err(message),
            Ok(control_block) => Ok((script, control_block, 0)),
        },
    }
}

/// How a leg is left by its claim: it can be had exactly where every part that it rests on can, and
/// each part of it is the one that its name says.
pub proof fn law_claim_scripts_is_read_from_its_parts(verifier: Map<Seq<char>, JsonView>)
    ensures
        ({
            let read = claim_scripts_reading(verifier);
            let given = read->Ok_0;
            &&& read is Ok <==> {
                &&& required_bytes(verifier, "claim_script"@) is Ok
                &&& required_bytes(verifier, "taproot_claim_control_block"@) is Ok
            }
            &&& read is Ok ==> {
                &&& given.0 == required_bytes(verifier, "claim_script"@)->Ok_0
                &&& given.1 == required_bytes(verifier, "taproot_claim_control_block"@)->Ok_0
                &&& given.2 == 0
            }
        }),
{
}

/// How a leg is left by its claim.
fn claim_scripts(verifier: &JsonObject) -> (outcome: Result<(Vec<u8>, Vec<u8>, u32), String>)
    ensures
        told_scripts(outcome) == claim_scripts_reading(verifier@),
{
    let script: Vec<u8> = bytes_member(verifier, "claim_script")?;
    let control_block: Vec<u8> = bytes_member(verifier, "taproot_claim_control_block")?;
    Ok((script, control_block, 0))
}

/// How a leg is left by its refund.
pub open spec fn refund_scripts_reading(
    verifier: Map<Seq<char>, JsonView>,
    leg: Map<Seq<char>, JsonView>,
) -> Result<(Seq<u8>, Seq<u8>, u32), Seq<char>> {
    match required_bytes(verifier, "refund_script"@) {
        Err(message) => Err(message),
        Ok(script) => match required_bytes(verifier, "taproot_refund_control_block"@) {
            Err(message) => Err(message),
            Ok(control_block) => match narrow_reading(
                required_amount(leg, "refund_lock_value"@),
                "Liquid refund lock exceeds u32"@,
            ) {
                Err(message) => Err(message),
                Ok(timelock) => Ok((script, control_block, timelock)),
            },
        },
    }
}

/// How a leg is left by its refund: it can be had exactly where every part that it rests on can,
/// and each part of it is the one that its name says.
pub proof fn law_refund_scripts_is_read_from_its_parts(
    verifier: Map<Seq<char>, JsonView>,
    leg: Map<Seq<char>, JsonView>,
)
    ensures
        ({
            let read = refund_scripts_reading(verifier, leg);
            let given = read->Ok_0;
            &&& read is Ok <==> {
                &&& required_bytes(verifier, "refund_script"@) is Ok
                &&& required_bytes(verifier, "taproot_refund_control_block"@) is Ok
                &&& narrow_reading(
                    required_amount(leg, "refund_lock_value"@),
                    "Liquid refund lock exceeds u32"@,
                ) is Ok
            }
            &&& read is Ok ==> {
                &&& given.0 == required_bytes(verifier, "refund_script"@)->Ok_0
                &&& given.1 == required_bytes(verifier, "taproot_refund_control_block"@)->Ok_0
                &&& given.2 == narrow_reading(
                    required_amount(leg, "refund_lock_value"@),
                    "Liquid refund lock exceeds u32"@,
                )->Ok_0
            }
        }),
{
}

/// How a leg is left by its refund.
fn refund_scripts(
    verifier: &JsonObject,
    leg: &JsonObject,
) -> (outcome: Result<(Vec<u8>, Vec<u8>, u32), String>)
    ensures
        told_scripts(outcome) == refund_scripts_reading(verifier@, leg@),
{
    let script: Vec<u8> = bytes_member(verifier, "refund_script")?;
    let control_block: Vec<u8> = bytes_member(verifier, "taproot_refund_control_block")?;
    let timelock: u32 = narrow_amount(leg, "refund_lock_value", "Liquid refund lock exceeds u32")?;
    Ok((script, control_block, timelock))
}

/// The script that a Liquid leg is left by, its control block and how long it waits.
pub open spec fn exit_scripts_of(
    leg_id: Seq<char>,
    verifier: Map<Seq<char>, JsonView>,
    leg: Map<Seq<char>, JsonView>,
) -> Result<(Seq<u8>, Seq<u8>, u32), Seq<char>> {
    if leg_id == "source"@ {
        refund_scripts_reading(verifier, leg)
    } else {
        claim_scripts_reading(verifier)
    }
}

/// The script that a Liquid leg is left by, its control block and how long it waits: it can be had
/// exactly where every part that it rests on can, and each part of it is the one that its name
/// says.
pub proof fn law_exit_scripts_of_is_read_from_its_parts(
    leg_id: Seq<char>,
    verifier: Map<Seq<char>, JsonView>,
    leg: Map<Seq<char>, JsonView>,
)
    ensures
        ({
            let read = exit_scripts_of(leg_id, verifier, leg);
            let given = read->Ok_0;
            let case_1 = {
                &&& leg_id == "source"@
                &&& refund_scripts_reading(verifier, leg) is Ok
            };
            let case_2 = {
                &&& leg_id != "source"@
                &&& claim_scripts_reading(verifier) is Ok
            };
            &&& (read is Ok <==> case_1 || case_2)
            &&& read is Ok && case_1 ==> {
                &&& given == refund_scripts_reading(verifier, leg)->Ok_0
            }
            &&& read is Ok && case_2 ==> {
                &&& given == claim_scripts_reading(verifier)->Ok_0
            }
        }),
{
}

/// What the exit of a Liquid leg is built from: the source is left by its refund, the destination
/// by its claim.
pub open spec fn liquid_exit_reading(
    contract: JsonView,
    leg_id: Seq<char>,
) -> Result<LiquidExitPlanView, Seq<char>> {
    if members_of(Some(contract)) is None {
        Err("chain contract is not an object"@)
    } else {
        match leg_verifier(contract, leg_id) {
            None => Err("funded contract has no "@ + leg_id + " verifier"@),
            Some(verifier) => match required_reading(verifier, "funding_transaction"@) {
                Err(message) => Err(message),
                Ok(raw) => match hex_reading(raw) {
                    Err(message) => Err(message),
                    Ok(raw_bytes) => match bounded_u32_reading(verifier, "output_index"@) {
                        Err(message) => Err(message),
                        Ok(output_index) => match required_amount(verifier, "amount"@) {
                            Err(message) => Err(message),
                            Ok(amount_sat) => match required_bytes(verifier, "script_pubkey"@) {
                                Err(message) => Err(message),
                                Ok(script_pubkey) => match members_of(
                                    leg_entry(contract, "legs"@, leg_id),
                                ) {
                                    None => Err("chain contract has no "@ + leg_id + " leg"@),
                                    Some(leg) => match exit_scripts_of(leg_id, verifier, leg) {
                                        Err(message) => Err(message),
                                        Ok(exit) => Ok(
                                            LiquidExitPlanView {
                                                funding_transaction: raw,
                                                output_index,
                                                amount_sat,
                                                script_pubkey,
                                                script: exit.0,
                                                control_block: exit.1,
                                                timelock: exit.2,
                                                leaves_by_refund: leg_id == "source"@,
                                            },
                                        ),
                                    },
                                },
                            },
                        },
                    },
                },
            },
        }
    }
}

/// What the exit of a Liquid leg is built from: it can be had exactly where every part that it
/// rests on can, and each part of it is the one that its name says.
pub proof fn law_liquid_exit_is_read_from_its_parts(contract: JsonView, leg_id: Seq<char>)
    ensures
        ({
            let read = liquid_exit_reading(contract, leg_id);
            let verifier = leg_verifier(contract, leg_id)->0;
            let raw = required_reading(verifier, "funding_transaction"@)->Ok_0;
            let leg = members_of(leg_entry(contract, "legs"@, leg_id))->0;
            let exit = exit_scripts_of(leg_id, verifier, leg)->Ok_0;
            let given = read->Ok_0;
            &&& read is Ok <==> {
                &&& members_of(Some(contract)) is Some
                &&& leg_verifier(contract, leg_id) is Some
                &&& required_reading(verifier, "funding_transaction"@) is Ok
                &&& hex_reading(raw) is Ok
                &&& bounded_u32_reading(verifier, "output_index"@) is Ok
                &&& required_amount(verifier, "amount"@) is Ok
                &&& required_bytes(verifier, "script_pubkey"@) is Ok
                &&& members_of(leg_entry(contract, "legs"@, leg_id)) is Some
                &&& exit_scripts_of(leg_id, verifier, leg) is Ok
            }
            &&& read is Ok ==> {
                &&& given.funding_transaction == raw
                &&& given.output_index == bounded_u32_reading(verifier, "output_index"@)->Ok_0
                &&& given.amount_sat == required_amount(verifier, "amount"@)->Ok_0
                &&& given.script_pubkey == required_bytes(verifier, "script_pubkey"@)->Ok_0
                &&& given.script == exit.0
                &&& given.control_block == exit.1
                &&& given.timelock == exit.2
                &&& given.leaves_by_refund == (leg_id == "source"@)
            }
        }),
{
}

/// What the exit of a Liquid leg is built from: the source is left by its refund, the destination
/// by its claim.
pub fn plan_liquid_exit(contract: &Json, leg_id: &str) -> (outcome: Result<LiquidExitPlan, String>)
    ensures
        (match outcome { Ok(value) => Ok(value@), Err(message) => Err(message@) }) == liquid_exit_reading(
            contract@,
            leg_id@,
        ),
{
    if contract.as_object().is_none() {
        return Err("chain contract is not an object".to_owned());
    }
    let verifier: &JsonObject = verifier_for_leg(contract, leg_id)?;
    let raw: &str = required_string(verifier, "funding_transaction")?;
    let raw_bytes: Vec<u8> = decode_hex(raw)?;
    let output_index: u32 = bounded_u32_member(verifier, "output_index")?;
    let amount_sat: u64 = amount_member(verifier, "amount")?;
    let script_pubkey: Vec<u8> = bytes_member(verifier, "script_pubkey")?;
    let leg: &JsonObject = match leg_members(contract, leg_id) {
        Some(leg) => leg,
        None => {
            return Err(join3("chain contract has no ", leg_id, " leg"));
        },
    };
    let exit: (Vec<u8>, Vec<u8>, u32) = if same_text(leg_id, "source") {
        refund_scripts(verifier, leg)?
    } else {
        claim_scripts(verifier)?
    };
    Ok(
        LiquidExitPlan {
            funding_transaction: raw.to_owned(),
            output_index,
            amount_sat,
            script_pubkey,
            script: exit.0,
            control_block: exit.1,
            timelock: exit.2,
            leaves_by_refund: same_text(leg_id, "source"),
        },
    )
}

/// Whether the exit of a Liquid leg can be built with or without references to a kept secret.
pub open spec fn recovery_reading(leaves_by_refund: bool, recovers: bool) -> Result<(), Seq<char>> {
    if !leaves_by_refund && !recovers {
        Err("Liquid claim has no persisted preimage recovery reference"@)
    } else if leaves_by_refund && recovers {
        Err("Liquid refund unexpectedly has claim recovery references"@)
    } else {
        Ok(())
    }
}

/// Checks that a claim has references to a kept secret, and a refund has none.
pub fn check_recovery(leaves_by_refund: bool, recovers: bool) -> (checked: Result<(), String>)
    ensures
        told(checked) == recovery_reading(leaves_by_refund, recovers),
{
    if !leaves_by_refund && !recovers {
        Err("Liquid claim has no persisted preimage recovery reference".to_owned())
    } else if leaves_by_refund && recovers {
        Err("Liquid refund unexpectedly has claim recovery references".to_owned())
    } else {
        Ok(())
    }
}

/// What the client verifies of a Liquid leg before anything is funded.
pub struct LiquidFundRequest {
    pub input_asset_id: String,
    pub output_asset_id: String,
    pub transaction_sha256: String,
    pub asset_id: String,
    pub amount: String,
    pub script_pubkey: String,
    pub taproot_internal_key: String,
    pub taproot_merkle_root: String,
    pub minimum_confirmations: u32,
    pub replacement_policy: String,
}

/// What the client verifies of a Liquid leg before anything is funded.
#[verifier::ext_equal]
pub struct LiquidFundRequestView {
    pub input_asset_id: Seq<char>,
    pub output_asset_id: Seq<char>,
    pub transaction_sha256: Seq<char>,
    pub asset_id: Seq<char>,
    pub amount: Seq<char>,
    pub script_pubkey: Seq<char>,
    pub taproot_internal_key: Seq<char>,
    pub taproot_merkle_root: Seq<char>,
    pub minimum_confirmations: u32,
    pub replacement_policy: Seq<char>,
}

impl View for LiquidFundRequest {
    type V = LiquidFundRequestView;

    open spec fn view(&self) -> LiquidFundRequestView {
        LiquidFundRequestView {
            input_asset_id: self.input_asset_id@,
            output_asset_id: self.output_asset_id@,
            transaction_sha256: self.transaction_sha256@,
            asset_id: self.asset_id@,
            amount: self.amount@,
            script_pubkey: self.script_pubkey@,
            taproot_internal_key: self.taproot_internal_key@,
            taproot_merkle_root: self.taproot_merkle_root@,
            minimum_confirmations: self.minimum_confirmations,
            replacement_policy: self.replacement_policy@,
        }
    }
}

/// What the client verifies of a Liquid leg before anything is funded.
pub open spec fn liquid_request_reading(
    contract: JsonView,
    leg_id: Seq<char>,
) -> Result<LiquidFundRequestView, Seq<char>> {
    match leg_verifier(contract, leg_id) {
        None => Err("funded contract has no "@ + leg_id + " verifier"@),
        Some(verifier) => match members_of(leg_entry(contract, "legs"@, leg_id)) {
            None => Err("chain contract has no "@ + leg_id + " leg"@),
            Some(leg) => match required_amount(verifier, "amount"@) {
                Err(message) => Err(message),
                Ok(amount_sat) => match required_bytes(verifier, "script_pubkey"@) {
                    Err(message) => Err(message),
                    Ok(script_pubkey) => match asset_pair(contract) {
                        None => Err("chain contract has no ordered asset pair"@),
                        Some(pair) => match text_of(Some(pair.0)) {
                            None => Err("chain input asset is invalid"@),
                            Some(input_asset) => match text_of(Some(pair.1)) {
                                None => Err("chain output asset is invalid"@),
                                Some(output_asset) => match required_reading(
                                    verifier,
                                    "funding_transaction_sha256"@,
                                ) {
                                    Err(message) => Err(message),
                                    Ok(sha256) => match required_reading(leg, "asset_id"@) {
                                        Err(message) => Err(message),
                                        Ok(asset_id) => match required_reading(
                                            verifier,
                                            "taproot_internal_key"@,
                                        ) {
                                            Err(message) => Err(message),
                                            Ok(internal_key) => match required_reading(
                                                verifier,
                                                "taproot_merkle_root"@,
                                            ) {
                                                Err(message) => Err(message),
                                                Ok(merkle_root) => match narrow_reading(
                                                    required_amount(
                                                        verifier,
                                                        "minimum_confirmations"@,
                                                    ),
                                                    "Liquid minimum confirmations exceed u32"@,
                                                ) {
                                                    Err(message) => Err(message),
                                                    Ok(confirmations) => match required_reading(
                                                        verifier,
                                                        "replacement_policy"@,
                                                    ) {
                                                        Err(message) => Err(message),
                                                        Ok(policy) => Ok(
                                                            LiquidFundRequestView {
                                                                input_asset_id: input_asset,
                                                                output_asset_id: output_asset,
                                                                transaction_sha256: sha256,
                                                                asset_id,
                                                                amount: decimal(amount_sat as nat),
                                                                script_pubkey: hex_text(
                                                                    script_pubkey,
                                                                ),
                                                                taproot_internal_key: internal_key,
                                                                taproot_merkle_root: merkle_root,
                                                                minimum_confirmations: confirmations,
                                                                replacement_policy: policy,
                                                            },
                                                        ),
                                                    },
                                                },
                                            },
                                        },
                                    },
                                },
                            },
                        },
                    },
                },
            },
        },
    }
}

/// What the client verifies of a Liquid leg before anything is funded: it can be had exactly where
/// every part that it rests on can, and each part of it is the one that its name says.
pub proof fn law_liquid_request_is_read_from_its_parts(contract: JsonView, leg_id: Seq<char>)
    ensures
        ({
            let read = liquid_request_reading(contract, leg_id);
            let verifier = leg_verifier(contract, leg_id)->0;
            let leg = members_of(leg_entry(contract, "legs"@, leg_id))->0;
            let pair = asset_pair(contract)->0;
            let given = read->Ok_0;
            &&& read is Ok <==> {
                &&& leg_verifier(contract, leg_id) is Some
                &&& members_of(leg_entry(contract, "legs"@, leg_id)) is Some
                &&& required_amount(verifier, "amount"@) is Ok
                &&& required_bytes(verifier, "script_pubkey"@) is Ok
                &&& asset_pair(contract) is Some
                &&& text_of(Some(pair.0)) is Some
                &&& text_of(Some(pair.1)) is Some
                &&& required_reading(verifier, "funding_transaction_sha256"@) is Ok
                &&& required_reading(leg, "asset_id"@) is Ok
                &&& required_reading(verifier, "taproot_internal_key"@) is Ok
                &&& required_reading(verifier, "taproot_merkle_root"@) is Ok
                &&& narrow_reading(
                    required_amount(verifier, "minimum_confirmations"@),
                    "Liquid minimum confirmations exceed u32"@,
                ) is Ok
                &&& required_reading(verifier, "replacement_policy"@) is Ok
            }
            &&& read is Ok ==> {
                &&& given.input_asset_id == text_of(Some(pair.0))->0
                &&& given.output_asset_id == text_of(Some(pair.1))->0
                &&& given.transaction_sha256 == required_reading(
                    verifier,
                    "funding_transaction_sha256"@,
                )->Ok_0
                &&& given.asset_id == required_reading(leg, "asset_id"@)->Ok_0
                &&& given.amount == decimal(required_amount(verifier, "amount"@)->Ok_0 as nat)
                &&& given.script_pubkey == hex_text(required_bytes(verifier, "script_pubkey"@)->Ok_0)
                &&& given.taproot_internal_key == required_reading(
                    verifier,
                    "taproot_internal_key"@,
                )->Ok_0
                &&& given.taproot_merkle_root == required_reading(
                    verifier,
                    "taproot_merkle_root"@,
                )->Ok_0
                &&& given.minimum_confirmations == narrow_reading(
                    required_amount(verifier, "minimum_confirmations"@),
                    "Liquid minimum confirmations exceed u32"@,
                )->Ok_0
                &&& given.replacement_policy == required_reading(verifier, "replacement_policy"@)->Ok_0
            }
        }),
{
}

/// What the client verifies of a Liquid leg before anything is funded.
pub fn liquid_fund_request(
    contract: &Json,
    leg_id: &str,
) -> (outcome: Result<LiquidFundRequest, String>)
    ensures
        (match outcome { Ok(value) => Ok(value@), Err(message) => Err(message@) }) == liquid_request_reading(
            contract@,
            leg_id@,
        ),
{
    let verifier: &JsonObject = verifier_for_leg(contract, leg_id)?;
    let leg: &JsonObject = match leg_members(contract, leg_id) {
        Some(leg) => leg,
        None => {
            return Err(join3("chain contract has no ", leg_id, " leg"));
        },
    };
    let amount_sat: u64 = amount_member(verifier, "amount")?;
    let script_pubkey: Vec<u8> = bytes_member(verifier, "script_pubkey")?;
    let pair: (&Json, &Json) = match find_pair(contract) {
        Some(pair) => pair,
        None => {
            return Err("chain contract has no ordered asset pair".to_owned());
        },
    };
    let input_asset: &str = match pair.0.as_str() {
        Some(input_asset) => input_asset,
        None => {
            return Err("chain input asset is invalid".to_owned());
        },
    };
    let output_asset: &str = match pair.1.as_str() {
        Some(output_asset) => output_asset,
        None => {
            return Err("chain output asset is invalid".to_owned());
        },
    };
    let sha256: &str = required_string(verifier, "funding_transaction_sha256")?;
    let asset_id: &str = required_string(leg, "asset_id")?;
    let internal_key: &str = required_string(verifier, "taproot_internal_key")?;
    let merkle_root: &str = required_string(verifier, "taproot_merkle_root")?;
    let confirmations: u32 = narrow_amount(
        verifier,
        "minimum_confirmations",
        "Liquid minimum confirmations exceed u32",
    )?;
    let policy: &str = required_string(verifier, "replacement_policy")?;
    Ok(
        LiquidFundRequest {
            input_asset_id: input_asset.to_owned(),
            output_asset_id: output_asset.to_owned(),
            transaction_sha256: sha256.to_owned(),
            asset_id: asset_id.to_owned(),
            amount: decimal_text(amount_sat),
            script_pubkey: lower_hex(script_pubkey.as_slice()),
            taproot_internal_key: internal_key.to_owned(),
            taproot_merkle_root: merkle_root.to_owned(),
            minimum_confirmations: confirmations,
            replacement_policy: policy.to_owned(),
        },
    )
}

/// A claim is built at once, a refund only after its lock.
pub proof fn law_only_refunds_wait(contract: JsonView, leg_id: Seq<char>)
    requires
        liquid_exit_reading(contract, leg_id) is Ok,
        leg_id != "source"@,
    ensures
        liquid_exit_reading(contract, leg_id)->Ok_0.timelock == 0,
        !liquid_exit_reading(contract, leg_id)->Ok_0.leaves_by_refund,
{
}

} // verus!
