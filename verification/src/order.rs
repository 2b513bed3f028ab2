//! Negotiating a swap: what is asked for, ordered and contracted.

use vstd::prelude::*;
use crate::answer::{answers, countersigns};
use crate::amount::INPUT_AMOUNT_SAT;
use crate::contract::{
    BitcoinTerms, amount_member, bitcoin_terms, bytes_member, leg_verifier, required_amount,
    required_bytes, terms_reading, verifier_for_leg,
};
use crate::control::told_json;
use crate::exit::{
    bind_effects, bind_exit_commitment, bind_requester_exit_packages, bind_requester_funding,
    bind_verifier_digest, commitment_reading, digest_binding_reading, effects_reading,
    exit_shape, exits_reading, funding_binding_reading, is_cooperative, requester_exit_shape,
    settles_jointly,
};
use crate::hex::{hex_text, lower_hex};
use crate::journey::{HarnessInjection, LiquidChainDirection, LiquidJourney};
use crate::json::{
    Json, JsonObject, JsonView, items_of, items_view, lemma_items_view, member, member_text,
    name_views, no_members, number_doc, step, text_doc, text_of, texts_doc,
};
use crate::lifecycle::{find_kind, first_of_kind};
use crate::machine::{
    Action, ActionView, Reply, ReplyView, Task, lemma_milestone, lemma_ranks_rise, perform,
    perform_with, perform_with_four, perform_with_three, wrong_reply, wrong_reply_text,
};
use crate::probe::{Probe, pre_fund_probe, probe_for};
use crate::record::{
    Event, EventTag, RecordKinds, exact_tag_reading, exact_tag_value, profile_reading,
    record_profile,
};
use crate::relay::OFFERING_ID;
use crate::text::{decimal, decimal_text, join, join3, maybe, same_text};

verus! {

/// The network that Bitcoin legs are on.
pub const NETWORK_ID: &'static str = "bip122:0f9188f13cb7b2c9e5c72a6b65eeada4";

/// The text whose digest identifies a session.
pub open spec fn session_text(run_id: Seq<char>, journey: Seq<char>) -> Seq<char> {
    "funded-smoke:"@ + run_id + ":"@ + journey
}

/// The text whose digest identifies a session.
pub fn funded_session_text(run_id: &str, journey_name: &str) -> (text: String)
    ensures
        text@ == session_text(run_id@, journey_name@),
{
    let mut text: String = join3("funded-smoke:", run_id, ":");
    text.append(journey_name);
    text
}

/// The text whose digest identifies the session of a chain swap.
pub fn chain_session_text(run_id: &str, direction: LiquidChainDirection) -> (text: String)
    ensures
        text@ == "funded-smoke:"@ + run_id@ + ":chain:"@ + direction.label(),
{
    let mut text: String = join3("funded-smoke:", run_id, ":chain:");
    text.append(direction.name());
    text
}

/// Sessions of one run for journeys of different names are identified by different texts.
pub proof fn law_sessions_of_a_run_differ(run_id: Seq<char>, first: Seq<char>, second: Seq<char>)
    requires
        session_text(run_id, first) == session_text(run_id, second),
    ensures
        first == second,
{
    let head = "funded-smoke:"@ + run_id + ":"@;
    let (left, right) = (head + first, head + second);
    assert(left.len() == right.len());
    assert forall|i: int| 0 <= i < first.len() implies first[i] == second[i] by {
        assert(left[head.len() + i] == right[head.len() + i]);
    }
    assert(first =~= second);
}

/// Where the offering of a provider stands.
pub fn offering_address(provider_pubkey: &str) -> (address: String)
    ensures
        address@ == "39601:"@ + provider_pubkey@ + ":"@ + OFFERING_ID@,
{
    let mut address: String = join3("39601:", provider_pubkey, ":");
    address.append(OFFERING_ID);
    address
}

/// A time after another, up to the last one.
pub open spec fn later(time: u64, seconds: u64) -> u64 {
    if time + seconds > u64::MAX {
        u64::MAX
    } else {
        (time + seconds) as u64
    }
}

/// A time after another, up to the last one.
pub fn seconds_later(time: u64, seconds: u64) -> (after: u64)
    ensures
        after == later(time, seconds),
{
    if time > u64::MAX - seconds {
        u64::MAX
    } else {
        time + seconds
    }
}

/// When a request for quotes expires.
pub fn rfq_expiry(now: u64) -> (expiry: u64)
    ensures
        expiry == later(now, 600),
{
    seconds_later(now, 600)
}

/// The asset of Bitcoin on a rail.
pub open spec fn bitcoin_asset(rail: Seq<char>) -> Seq<char> {
    "swp:1:"@ + NETWORK_ID@ + ":btc:"@ + rail
}

fn bitcoin_asset_text(rail: &str) -> (text: String)
    ensures
        text@ == bitcoin_asset(rail@),
{
    let mut text: String = join3("swp:1:", NETWORK_ID, ":btc:");
    text.append(rail);
    text
}

/// The pegged asset of a Liquid network.
pub open spec fn liquid_asset(network_id: Seq<char>, pegged_asset: Seq<char>) -> Seq<char> {
    "swp:1:"@ + network_id + ":elements:"@ + pegged_asset + ":liquid"@
}

fn liquid_asset_text(network_id: &str, pegged_asset: &str) -> (text: String)
    ensures
        text@ == liquid_asset(network_id@, pegged_asset@),
{
    let mut text: String = join3("swp:1:", network_id, ":elements:");
    text.append(pegged_asset);
    text.append(":liquid");
    text
}

fn two_texts(first: &str, second: &str) -> (document: Json)
    ensures
        document@ == texts_doc(seq![first@, second@]),
{
    let texts: Vec<&str> = vec![first, second];
    assert(name_views(texts@) =~= seq![first@, second@]);
    Json::texts(&texts)
}

fn script_modes() -> (document: Json)
    ensures
        document@ == texts_doc(seq!["taproot-musig2-script-exit"@]),
{
    let texts: Vec<&str> = vec!["taproot-musig2-script-exit"];
    assert(name_views(texts@) =~= seq!["taproot-musig2-script-exit"@]);
    Json::texts(&texts)
}

/// A key of the requester for leaving a leg.
pub open spec fn key_doc(leg_id: Seq<char>, path: Seq<char>, key: Seq<u8>) -> JsonView {
    JsonView::Object(
        no_members().insert("leg_id"@, text_doc(leg_id)).insert("path"@, text_doc(path)).insert(
            "public_key"@,
            text_doc(hex_text(key)),
        ),
    )
}

/// A key of the requester for leaving a leg: what stands under each of its names.
pub proof fn law_key_says_each_part_by_its_name(leg_id: Seq<char>, path: Seq<char>, key: Seq<u8>)
    ensures
        ({
            let document = key_doc(leg_id, path, key);
            &&& member_text(document, "leg_id"@) == Some(leg_id)
            &&& member_text(document, "path"@) == Some(path)
            &&& member_text(document, "public_key"@) == Some(hex_text(key))
        }),
{
    reveal_strlit("leg_id");
    reveal_strlit("path");
    reveal_strlit("public_key");
    assert("leg_id"@.len() == 6);
    assert("path"@.len() == 4);
    assert("public_key"@.len() == 10);
}

fn key_document(leg_id: &str, path: &str, key: &Vec<u8>) -> (document: Json)
    ensures
        document@ == key_doc(leg_id@, path@, key@),
{
    Json::object(
        JsonObject::new().with_text("leg_id", leg_id).with_text("path", path).with_text(
            "public_key",
            lower_hex(key.as_slice()).as_str(),
        ),
    )
}

/// How many confirmations a lock needs; `zero_confirmation` is whether none may do.
pub open spec fn confirmation_doc(zero_confirmation: bool) -> JsonView {
    JsonView::Object(
        no_members().insert("minimum_confirmations"@, text_doc("1"@)).insert(
            "reorg_safety_blocks"@,
            text_doc("2"@),
        ).insert(
            "zero_confirmation"@,
            text_doc(
                if zero_confirmation {
                    "allowed"@
                } else {
                    "forbidden"@
                },
            ),
        ).insert("rbf"@, text_doc("reject"@)).insert(
            "replacement"@,
            text_doc(
                if zero_confirmation {
                    "track"@
                } else {
                    "reject"@
                },
            ),
        ),
    )
}

/// How many confirmations a lock needs: what stands under each of its names.
pub proof fn law_confirmation_says_each_part_by_its_name(zero_confirmation: bool)
    ensures
        ({
            let document = confirmation_doc(zero_confirmation);
            &&& member_text(document, "minimum_confirmations"@) == Some("1"@)
            &&& member_text(document, "reorg_safety_blocks"@) == Some("2"@)
            &&& member_text(document, "zero_confirmation"@) == Some(
                if zero_confirmation { "allowed"@ } else { "forbidden"@ },
            )
            &&& member_text(document, "rbf"@) == Some("reject"@)
            &&& member_text(document, "replacement"@) == Some(
                if zero_confirmation { "track"@ } else { "reject"@ },
            )
        }),
{
    reveal_strlit("minimum_confirmations");
    reveal_strlit("reorg_safety_blocks");
    reveal_strlit("zero_confirmation");
    reveal_strlit("rbf");
    reveal_strlit("replacement");
    assert("minimum_confirmations"@.len() == 21);
    assert("reorg_safety_blocks"@.len() == 19);
    assert("zero_confirmation"@.len() == 17);
    assert("rbf"@.len() == 3);
    assert("replacement"@.len() == 11);
}

fn confirmation_document(zero_confirmation: bool) -> (document: Json)
    ensures
        document@ == confirmation_doc(zero_confirmation),
{
    let accepted: &str = if zero_confirmation {
        "allowed"
    } else {
        "forbidden"
    };
    let replacement: &str = if zero_confirmation {
        "track"
    } else {
        "reject"
    };
    Json::object(
        JsonObject::new().with_text("minimum_confirmations", "1").with_text(
            "reorg_safety_blocks",
            "2",
        ).with_text("zero_confirmation", accepted).with_text("rbf", "reject").with_text(
            "replacement",
            replacement,
        ),
    )
}

/// What a swap is asked for with.
pub struct Wishes {
    pub asset_pair: Json,
    pub input_amount_sat: u64,
    pub maximum_total_fee: String,
    pub payment_hash: String,
    pub keys: Json,
    pub swap_type: String,
    pub zero_confirmation: bool,
    pub now: u64,
}

/// What a swap is asked for with.
#[verifier::ext_equal]
pub struct WishesView {
    pub asset_pair: JsonView,
    pub input_amount_sat: u64,
    pub maximum_total_fee: Seq<char>,
    pub payment_hash: Seq<char>,
    pub keys: JsonView,
    pub swap_type: Seq<char>,
    pub zero_confirmation: bool,
    pub now: u64,
}

impl View for Wishes {
    type V = WishesView;

    open spec fn view(&self) -> WishesView {
        WishesView {
            asset_pair: self.asset_pair@,
            input_amount_sat: self.input_amount_sat,
            maximum_total_fee: self.maximum_total_fee@,
            payment_hash: self.payment_hash@,
            keys: self.keys@,
            swap_type: self.swap_type@,
            zero_confirmation: self.zero_confirmation,
            now: self.now,
        }
    }
}

/// The constraints that a request for quotes states, but for an invoice.
pub open spec fn constraints(wishes: WishesView) -> Map<Seq<char>, JsonView> {
    no_members().insert(
        "allowed_script_modes"@,
        texts_doc(seq!["taproot-musig2-script-exit"@]),
    ).insert("asset_pair"@, wishes.asset_pair).insert(
        "confirmation_policy"@,
        confirmation_doc(wishes.zero_confirmation),
    ).insert("desired_completion_time"@, number_doc(later(wishes.now, 86_400))).insert(
        "firm_quote_required"@,
        JsonView::Bool(true),
    ).insert("input_amount"@, text_doc(decimal(wishes.input_amount_sat as nat))).insert(
        "maximum_total_fee"@,
        text_doc(wishes.maximum_total_fee),
    ).insert("payment_hash"@, text_doc(wishes.payment_hash)).insert(
        "requester_public_keys"@,
        wishes.keys,
    ).insert("swap_type"@, text_doc(wishes.swap_type))
}

/// The constraints that a request for quotes states, but for an invoice: what stands under each of
/// its names.
pub proof fn law_constraints_says_each_part_by_its_name(wishes: WishesView)
    ensures
        ({
            let document = JsonView::Object(constraints(wishes));
            &&& member(document, "allowed_script_modes"@) == Some(
                texts_doc(seq!["taproot-musig2-script-exit"@]),
            )
            &&& member(document, "asset_pair"@) == Some(wishes.asset_pair)
            &&& member(document, "confirmation_policy"@) == Some(
                confirmation_doc(wishes.zero_confirmation),
            )
            &&& member(document, "desired_completion_time"@) == Some(
                number_doc(later(wishes.now, 86_400)),
            )
            &&& member(document, "firm_quote_required"@) == Some(JsonView::Bool(true))
            &&& member_text(document, "input_amount"@) == Some(
                decimal(wishes.input_amount_sat as nat),
            )
            &&& member_text(document, "maximum_total_fee"@) == Some(wishes.maximum_total_fee)
            &&& member_text(document, "payment_hash"@) == Some(wishes.payment_hash)
            &&& member(document, "requester_public_keys"@) == Some(wishes.keys)
            &&& member_text(document, "swap_type"@) == Some(wishes.swap_type)
        }),
{
    reveal_strlit("allowed_script_modes");
    reveal_strlit("asset_pair");
    reveal_strlit("confirmation_policy");
    reveal_strlit("desired_completion_time");
    reveal_strlit("firm_quote_required");
    reveal_strlit("input_amount");
    reveal_strlit("maximum_total_fee");
    reveal_strlit("payment_hash");
    reveal_strlit("requester_public_keys");
    reveal_strlit("swap_type");
    assert("allowed_script_modes"@.len() == 20);
    assert("asset_pair"@.len() == 10);
    assert("confirmation_policy"@.len() == 19);
    assert("desired_completion_time"@.len() == 23);
    assert("firm_quote_required"@.len() == 19);
    assert("input_amount"@.len() == 12);
    assert("maximum_total_fee"@.len() == 17);
    assert("payment_hash"@.len() == 12);
    assert("requester_public_keys"@.len() == 21);
    assert("swap_type"@.len() == 9);
    assert("confirmation_policy"@[0] == 'c');
    assert("firm_quote_required"@[0] == 'f');
    assert("input_amount"@[0] == 'i');
    assert("payment_hash"@[0] == 'p');
}

fn constraint_members(wishes: &Wishes) -> (members: JsonObject)
    ensures
        members@ == constraints(wishes@),
{
    JsonObject::new().with("allowed_script_modes", script_modes()).with(
        "asset_pair",
        wishes.asset_pair.copy(),
    ).with("confirmation_policy", confirmation_document(wishes.zero_confirmation)).with_number(
        "desired_completion_time",
        seconds_later(wishes.now, 86_400),
    ).with_bool("firm_quote_required", true).with_text(
        "input_amount",
        decimal_text(wishes.input_amount_sat).as_str(),
    ).with_text("maximum_total_fee", wishes.maximum_total_fee.as_str()).with_text(
        "payment_hash",
        wishes.payment_hash.as_str(),
    ).with("requester_public_keys", wishes.keys.copy()).with_text(
        "swap_type",
        wishes.swap_type.as_str(),
    )
}

/// An invoice and its digest.
pub struct RfqInvoice {
    pub invoice: String,
    pub sha256: String,
}

/// The digest of an invoice, or nothing, as a document.
pub open spec fn digest_doc(invoice: Option<RfqInvoice>) -> JsonView {
    match invoice {
        Some(invoice) => text_doc(invoice.sha256@),
        None => JsonView::Null,
    }
}

fn digest_document(invoice: &Option<RfqInvoice>) -> (document: Json)
    ensures
        document@ == digest_doc(*invoice),
{
    match invoice {
        Some(invoice) => Json::text(invoice.sha256.as_str()),
        None => Json::null(),
    }
}

/// The profile of a request for quotes: its constraints, with the digest of the invoice unless the
/// swap is a reverse one, and the invoice where there is one.
pub open spec fn profile_doc(
    members: Map<Seq<char>, JsonView>,
    invoice: Option<RfqInvoice>,
    reverse: bool,
) -> JsonView {
    let stated = if reverse {
        members
    } else {
        members.insert("invoice_sha256"@, digest_doc(invoice))
    };
    let profile = no_members().insert("constraints"@, JsonView::Object(stated));
    JsonView::Object(
        match invoice {
            Some(invoice) => profile.insert("invoice"@, text_doc(invoice.invoice@)),
            None => profile,
        },
    )
}

fn profile_document(
    members: JsonObject,
    invoice: &Option<RfqInvoice>,
    reverse: bool,
) -> (document: Json)
    ensures
        document@ == profile_doc(members@, *invoice, reverse),
{
    let stated: JsonObject = if reverse {
        members
    } else {
        members.with("invoice_sha256", digest_document(invoice))
    };
    let profile: JsonObject = JsonObject::new().with("constraints", Json::object(stated));
    Json::object(
        match invoice {
            Some(invoice) => profile.with_text("invoice", invoice.invoice.as_str()),
            None => profile,
        },
    )
}

fn one_key(leg_id: &str, path: &str, key: &Vec<u8>) -> (document: Json)
    ensures
        document@ == JsonView::Array(seq![key_doc(leg_id@, path@, key@)]),
{
    let items: Vec<Json> = vec![key_document(leg_id, path, key)];
    proof {
        lemma_items_view(items@);
        assert(items_view(items@) =~= seq![key_doc(leg_id@, path@, key@)]);
    }
    Json::array(items)
}

/// What is asked for in a swap between Bitcoin and Lightning.
pub open spec fn funded_wishes(
    reverse: bool,
    payment_hash: Seq<char>,
    key: Seq<u8>,
    now: u64,
    amount: u64,
    fee: u64,
    zero_confirmation: bool,
) -> WishesView {
    WishesView {
        asset_pair: if reverse {
            texts_doc(seq![bitcoin_asset("lightning"@), bitcoin_asset("chain"@)])
        } else {
            texts_doc(seq![bitcoin_asset("chain"@), bitcoin_asset("lightning"@)])
        },
        input_amount_sat: amount,
        maximum_total_fee: decimal(fee as nat),
        payment_hash,
        keys: JsonView::Array(
            seq![
                if reverse {
                    key_doc("destination"@, "claim"@, key)
                } else {
                    key_doc("source"@, "refund"@, key)
                },
            ],
        ),
        swap_type: if reverse {
            "reverse"@
        } else {
            "submarine"@
        },
        zero_confirmation,
        now,
    }
}

/// What the profile of a request for quotes between Bitcoin and Lightning reads as.
pub open spec fn funded_profile_reading(
    swap_type: Seq<char>,
    payment_hash: Seq<char>,
    invoice: Option<RfqInvoice>,
    key: Seq<u8>,
    now: u64,
    amount: u64,
    fee: u64,
    zero_confirmation: bool,
) -> Result<JsonView, Seq<char>> {
    let reverse = swap_type == "reverse"@;
    if !reverse && swap_type != "submarine"@ {
        Err("funded smoke requested an unsupported swap type"@)
    } else {
        Ok(
            profile_doc(
                constraints(
                    funded_wishes(
                        reverse,
                        payment_hash,
                        key,
                        now,
                        amount,
                        fee,
                        zero_confirmation,
                    ),
                ),
                invoice,
                reverse,
            ),
        )
    }
}

/// What the profile of a request for quotes between Bitcoin and Lightning reads as: it can be had
/// exactly where every part that it rests on can, and each part of it is the one that its name
/// says.
pub proof fn law_funded_profile_is_read_from_its_parts(
    swap_type: Seq<char>,
    payment_hash: Seq<char>,
    invoice: Option<RfqInvoice>,
    key: Seq<u8>,
    now: u64,
    amount: u64,
    fee: u64,
    zero_confirmation: bool,
)
    ensures
        ({
            let read = funded_profile_reading(
                swap_type,
                payment_hash,
                invoice,
                key,
                now,
                amount,
                fee,
                zero_confirmation,
            );
            let reverse = swap_type == "reverse"@;
            let given = read->Ok_0;
            &&& read is Ok <==> {
                &&& !(!reverse && swap_type != "submarine"@)
            }
            &&& read is Ok ==> {
                &&& given == profile_doc(
                    constraints(
                        funded_wishes(
                            reverse,
                            payment_hash,
                            key,
                            now,
                            amount,
                            fee,
                            zero_confirmation,
                        ),
                    ),
                    invoice,
                    reverse,
                )
            }
        }),
{
}

/// Whether a fault is about a lock without confirmations.
pub open spec fn wants_zero_confirmation(injection: Option<HarnessInjection>) -> bool {
    ||| injection == Some(HarnessInjection::ZeroConfRbfReplacement)
    ||| injection == Some(HarnessInjection::ZeroConfDoubleSpend)
    ||| injection == Some(HarnessInjection::ZeroConfAncestorEviction)
}

/// Whether a fault is about a lock without confirmations.
pub fn asks_zero_confirmation(injection: Option<HarnessInjection>) -> (asks: bool)
    ensures
        asks == wants_zero_confirmation(injection),
{
    injection == Some(HarnessInjection::ZeroConfRbfReplacement) || injection == Some(
        HarnessInjection::ZeroConfDoubleSpend,
    ) || injection == Some(HarnessInjection::ZeroConfAncestorEviction)
}

/// The profile of a request for quotes between Bitcoin and Lightning.
pub fn funded_rfq_profile_with_terms(
    swap_type: &str,
    payment_hash: &str,
    invoice: &Option<RfqInvoice>,
    requester_key: &Vec<u8>,
    now: u64,
    input_amount_sat: u64,
    maximum_total_fee_sat: u64,
    zero_confirmation: bool,
) -> (profile: Result<Json, String>)
    ensures
        told_json(profile) == funded_profile_reading(
            swap_type@,
            payment_hash@,
            *invoice,
            requester_key@,
            now,
            input_amount_sat,
            maximum_total_fee_sat,
            zero_confirmation,
        ),
{
    let reverse: bool = same_text(swap_type, "reverse");
    if !reverse && !same_text(swap_type, "submarine") {
        return Err("funded smoke requested an unsupported swap type".to_owned());
    }
    let chain: String = bitcoin_asset_text("chain");
    let lightning: String = bitcoin_asset_text("lightning");
    let wishes: Wishes = Wishes {
        asset_pair: if reverse {
            two_texts(lightning.as_str(), chain.as_str())
        } else {
            two_texts(chain.as_str(), lightning.as_str())
        },
        input_amount_sat,
        maximum_total_fee: decimal_text(maximum_total_fee_sat),
        payment_hash: payment_hash.to_owned(),
        keys: if reverse {
            one_key("destination", "claim", requester_key)
        } else {
            one_key("source", "refund", requester_key)
        },
        swap_type: swap_type.to_owned(),
        zero_confirmation,
        now,
    };
    Ok(profile_document(constraint_members(&wishes), invoice, reverse))
}

/// What is asked for in a chain swap.
pub open spec fn chain_wishes(
    direction: LiquidChainDirection,
    network_id: Seq<char>,
    pegged_asset: Seq<char>,
    payment_hash: Seq<u8>,
    source_key: Seq<u8>,
    destination_key: Seq<u8>,
    now: u64,
) -> WishesView {
    WishesView {
        asset_pair: match direction {
            LiquidChainDirection::BitcoinToLiquid => texts_doc(
                seq![bitcoin_asset("chain"@), liquid_asset(network_id, pegged_asset)],
            ),
            LiquidChainDirection::LiquidToBitcoin => texts_doc(
                seq![liquid_asset(network_id, pegged_asset), bitcoin_asset("chain"@)],
            ),
        },
        input_amount_sat: INPUT_AMOUNT_SAT,
        maximum_total_fee: "5000"@,
        payment_hash: hex_text(payment_hash),
        keys: JsonView::Array(
            seq![
                key_doc("destination"@, "claim"@, destination_key),
                key_doc("source"@, "refund"@, source_key),
            ],
        ),
        swap_type: "chain"@,
        zero_confirmation: false,
        now,
    }
}

/// The profile of a request for quotes in a chain swap.
pub fn funded_chain_rfq_profile(
    direction: LiquidChainDirection,
    network_id: &str,
    pegged_asset: &str,
    payment_hash: &Vec<u8>,
    source_requester_key: &Vec<u8>,
    destination_requester_key: &Vec<u8>,
    now: u64,
) -> (profile: Json)
    ensures
        profile@ == profile_doc(
            constraints(
                chain_wishes(
                    direction,
                    network_id@,
                    pegged_asset@,
                    payment_hash@,
                    source_requester_key@,
                    destination_requester_key@,
                    now,
                ),
            ),
            None,
            false,
        ),
{
    let bitcoin: String = bitcoin_asset_text("chain");
    let liquid: String = liquid_asset_text(network_id, pegged_asset);
    let keys: Vec<Json> = vec![
        key_document("destination", "claim", destination_requester_key),
        key_document("source", "refund", source_requester_key),
    ];
    proof {
        lemma_items_view(keys@);
        assert(items_view(keys@) =~= seq![
            key_doc("destination"@, "claim"@, destination_requester_key@),
            key_doc("source"@, "refund"@, source_requester_key@),
        ]);
    }
    let wishes: Wishes = Wishes {
        asset_pair: match direction {
            LiquidChainDirection::BitcoinToLiquid => two_texts(bitcoin.as_str(), liquid.as_str()),
            LiquidChainDirection::LiquidToBitcoin => two_texts(liquid.as_str(), bitcoin.as_str()),
        },
        input_amount_sat: INPUT_AMOUNT_SAT,
        maximum_total_fee: "5000".to_owned(),
        payment_hash: lower_hex(payment_hash.as_slice()),
        keys: Json::array(keys),
        swap_type: "chain".to_owned(),
        zero_confirmation: false,
        now,
    };
    profile_document(constraint_members(&wishes), &None, false)
}

/// What is asked for in a swap between Liquid and Lightning.
pub open spec fn liquid_wishes(
    journey: LiquidJourney,
    network_id: Seq<char>,
    pegged_asset: Seq<char>,
    payment_hash: Seq<u8>,
    key: Seq<u8>,
    now: u64,
) -> WishesView {
    WishesView {
        asset_pair: match journey {
            LiquidJourney::Submarine => texts_doc(
                seq![liquid_asset(network_id, pegged_asset), bitcoin_asset("lightning"@)],
            ),
            LiquidJourney::Reverse => texts_doc(
                seq![bitcoin_asset("lightning"@), liquid_asset(network_id, pegged_asset)],
            ),
        },
        input_amount_sat: INPUT_AMOUNT_SAT,
        maximum_total_fee: "5000"@,
        payment_hash: hex_text(payment_hash),
        keys: JsonView::Array(
            seq![
                match journey {
                    LiquidJourney::Submarine => key_doc("source"@, "refund"@, key),
                    LiquidJourney::Reverse => key_doc("destination"@, "claim"@, key),
                },
            ],
        ),
        swap_type: journey.swap_label(),
        zero_confirmation: false,
        now,
    }
}

/// The profile of a request for quotes between Liquid and Lightning.
pub fn funded_liquid_rfq_profile(
    journey: LiquidJourney,
    network_id: &str,
    pegged_asset: &str,
    payment_hash: &Vec<u8>,
    invoice: &Option<RfqInvoice>,
    requester_key: &Vec<u8>,
    now: u64,
) -> (profile: Json)
    ensures
        profile@ == profile_doc(
            constraints(
                liquid_wishes(
                    journey,
                    network_id@,
                    pegged_asset@,
                    payment_hash@,
                    requester_key@,
                    now,
                ),
            ),
            *invoice,
            journey == LiquidJourney::Reverse,
        ),
{
    let lightning: String = bitcoin_asset_text("lightning");
    let liquid: String = liquid_asset_text(network_id, pegged_asset);
    let wishes: Wishes = Wishes {
        asset_pair: match journey {
            LiquidJourney::Submarine => two_texts(liquid.as_str(), lightning.as_str()),
            LiquidJourney::Reverse => two_texts(lightning.as_str(), liquid.as_str()),
        },
        input_amount_sat: INPUT_AMOUNT_SAT,
        maximum_total_fee: "5000".to_owned(),
        payment_hash: lower_hex(payment_hash.as_slice()),
        keys: match journey {
            LiquidJourney::Submarine => one_key("source", "refund", requester_key),
            LiquidJourney::Reverse => one_key("destination", "claim", requester_key),
        },
        swap_type: journey.swap_type().to_owned(),
        zero_confirmation: false,
        now,
    };
    profile_document(constraint_members(&wishes), invoice, journey == LiquidJourney::Reverse)
}

/// What a request for quotes asks for under a name.
pub open spec fn asked(profile: JsonView, name: Seq<char>) -> Option<JsonView> {
    step(member(profile, "constraints"@), name)
}

/// The two assets that a request for quotes asks to change, the first into the second.
pub open spec fn asked_pair(profile: JsonView) -> (JsonView, JsonView) {
    let items = items_of(asked(profile, "asset_pair"@))->0;
    (items[0], items[1])
}

/// The keys that a request for quotes gives for leaving the legs.
pub open spec fn asked_keys(profile: JsonView) -> Seq<JsonView> {
    items_of(asked(profile, "requester_public_keys"@))->0
}

/// Each wish stands in the request under its own name.
proof fn lemma_wishes_are_asked(
    wishes: WishesView,
    invoice: Option<RfqInvoice>,
    reverse: bool,
)
    ensures
        ({
            let profile = profile_doc(constraints(wishes), invoice, reverse);
            &&& asked(profile, "asset_pair"@) == Some(wishes.asset_pair)
            &&& asked(profile, "requester_public_keys"@) == Some(wishes.keys)
            &&& asked(profile, "swap_type"@) == Some(text_doc(wishes.swap_type))
            &&& asked(profile, "payment_hash"@) == Some(text_doc(wishes.payment_hash))
            &&& asked(profile, "input_amount"@) == Some(
                text_doc(decimal(wishes.input_amount_sat as nat)),
            )
            &&& asked(profile, "maximum_total_fee"@) == Some(text_doc(wishes.maximum_total_fee))
            &&& asked(profile, "desired_completion_time"@) == Some(
                number_doc(later(wishes.now, 86_400)),
            )
            &&& asked(profile, "confirmation_policy"@) == Some(
                confirmation_doc(wishes.zero_confirmation),
            )
            &&& asked(profile, "firm_quote_required"@) == Some(JsonView::Bool(true))
            &&& !reverse ==> asked(profile, "invoice_sha256"@) == Some(digest_doc(invoice))
            &&& reverse ==> asked(profile, "invoice_sha256"@) is None
            &&& member_text(profile, "invoice"@) == (match invoice {
                Some(invoice) => Some(invoice.invoice@),
                None => None,
            })
        }),
{
    reveal_strlit("allowed_script_modes");
    reveal_strlit("asset_pair");
    reveal_strlit("confirmation_policy");
    reveal_strlit("desired_completion_time");
    reveal_strlit("firm_quote_required");
    reveal_strlit("input_amount");
    reveal_strlit("maximum_total_fee");
    reveal_strlit("payment_hash");
    reveal_strlit("requester_public_keys");
    reveal_strlit("swap_type");
    reveal_strlit("invoice_sha256");
    reveal_strlit("constraints");
    reveal_strlit("invoice");
    assert("allowed_script_modes"@.len() == 20);
    assert("asset_pair"@.len() == 10);
    assert("confirmation_policy"@.len() == 19);
    assert("desired_completion_time"@.len() == 23);
    assert("firm_quote_required"@.len() == 19);
    assert("input_amount"@.len() == 12);
    assert("maximum_total_fee"@.len() == 17);
    assert("payment_hash"@.len() == 12);
    assert("requester_public_keys"@.len() == 21);
    assert("swap_type"@.len() == 9);
    assert("invoice_sha256"@.len() == 14);
    assert("constraints"@.len() == 11);
    assert("invoice"@.len() == 7);
    assert("confirmation_policy"@[0] == 'c' && "firm_quote_required"@[0] == 'f');
    assert("input_amount"@[0] == 'i' && "payment_hash"@[0] == 'p');
}

/// Bitcoin on a rail and the pegged asset of a Liquid network are different assets.
proof fn lemma_assets_differ(network_id: Seq<char>, pegged_asset: Seq<char>)
    ensures
        bitcoin_asset("lightning"@) != bitcoin_asset("chain"@),
        liquid_asset(network_id, pegged_asset) != bitcoin_asset("lightning"@),
        liquid_asset(network_id, pegged_asset) != bitcoin_asset("chain"@),
{
    reveal_strlit("lightning");
    reveal_strlit("chain");
    reveal_strlit(":liquid");
    let liquid = liquid_asset(network_id, pegged_asset);
    let lightning = bitcoin_asset("lightning"@);
    let chain = bitcoin_asset("chain"@);
    assert(liquid[liquid.len() - 1] == 'd');
    assert(lightning[lightning.len() - 1] == 'g');
    assert(chain[chain.len() - 1] == 'n');
}

/// A key for leaving a leg names the leg and the path.
proof fn lemma_key_names_its_leg(leg_id: Seq<char>, path: Seq<char>, key: Seq<u8>)
    ensures
        member_text(key_doc(leg_id, path, key), "leg_id"@) == Some(leg_id),
        member_text(key_doc(leg_id, path, key), "path"@) == Some(path),
        member_text(key_doc(leg_id, path, key), "public_key"@) == Some(hex_text(key)),
{
    reveal_strlit("leg_id");
    reveal_strlit("path");
    reveal_strlit("public_key");
    assert("leg_id"@.len() == 6);
    assert("path"@.len() == 4);
    assert("public_key"@.len() == 10);
}

/// Whether a key is for the refund of the leg that the requester funds.
pub open spec fn refunds_source(key: JsonView) -> bool {
    member_text(key, "leg_id"@) == Some("source"@) && member_text(key, "path"@) == Some("refund"@)
}

/// Whether a key is for the claim of the leg that the provider funds.
pub open spec fn claims_destination(key: JsonView) -> bool {
    member_text(key, "leg_id"@) == Some("destination"@) && member_text(key, "path"@) == Some(
        "claim"@,
    )
}

/// The two Liquid journeys ask for the same pair, each the other way round. The asset on the Liquid rail
/// stands first exactly where the one key of the requester refunds the source leg, and second
/// exactly where it claims the destination leg; the first is called a submarine swap, the second a
/// reverse one.
pub proof fn law_liquid_journeys_ask_for_reversed_pairs(
    network_id: Seq<char>,
    pegged_asset: Seq<char>,
    payment_hash: Seq<u8>,
    key: Seq<u8>,
    now: u64,
    invoice: Option<RfqInvoice>,
    other_invoice: Option<RfqInvoice>,
)
    ensures
        ({
            let out = profile_doc(
                constraints(
                    liquid_wishes(
                        LiquidJourney::Submarine,
                        network_id,
                        pegged_asset,
                        payment_hash,
                        key,
                        now,
                    ),
                ),
                invoice,
                false,
            );
            let back = profile_doc(
                constraints(
                    liquid_wishes(
                        LiquidJourney::Reverse,
                        network_id,
                        pegged_asset,
                        payment_hash,
                        key,
                        now,
                    ),
                ),
                other_invoice,
                true,
            );
            let liquid = text_doc(liquid_asset(network_id, pegged_asset));
            let (from, to) = asked_pair(out);
            &&& asked_pair(back) == (to, from)
            &&& from == liquid && to == text_doc(bitcoin_asset("lightning"@)) && from != to
            &&& asked_keys(out).len() == 1 && refunds_source(asked_keys(out)[0])
                && !claims_destination(asked_keys(out)[0])
            &&& asked_keys(back).len() == 1 && claims_destination(asked_keys(back)[0])
                && !refunds_source(asked_keys(back)[0])
            &&& member_text(asked_keys(out)[0], "public_key"@) == Some(hex_text(key))
            &&& member_text(asked_keys(back)[0], "public_key"@) == Some(hex_text(key))
            &&& text_of(asked(out, "swap_type"@)) == Some("submarine"@)
            &&& text_of(asked(back, "swap_type"@)) == Some("reverse"@)
            &&& text_of(asked(out, "payment_hash"@)) == Some(hex_text(payment_hash))
            &&& text_of(asked(back, "payment_hash"@)) == Some(hex_text(payment_hash))
        }),
{
    lemma_wishes_are_asked(
        liquid_wishes(
            LiquidJourney::Submarine,
            network_id,
            pegged_asset,
            payment_hash,
            key,
            now,
        ),
        invoice,
        false,
    );
    lemma_wishes_are_asked(
        liquid_wishes(LiquidJourney::Reverse, network_id, pegged_asset, payment_hash, key, now),
        other_invoice,
        true,
    );
    lemma_assets_differ(network_id, pegged_asset);
    lemma_key_names_its_leg("source"@, "refund"@, key);
    lemma_key_names_its_leg("destination"@, "claim"@, key);
    reveal_strlit("source");
    reveal_strlit("destination");
    assert("source"@.len() == 6);
    assert("destination"@.len() == 11);
}

/// The two swaps between Bitcoin and Lightning ask for the same pair, each the other way round. Bitcoin
/// on its chain stands first exactly where the one key of the requester refunds the source leg,
/// and second exactly where it claims the destination leg.
pub proof fn law_funded_swaps_ask_for_reversed_pairs(
    payment_hash: Seq<char>,
    key: Seq<u8>,
    now: u64,
    amount: u64,
    fee: u64,
    zero_confirmation: bool,
    invoice: Option<RfqInvoice>,
    other_invoice: Option<RfqInvoice>,
)
    ensures
        ({
            let out = funded_profile_reading(
                "submarine"@,
                payment_hash,
                invoice,
                key,
                now,
                amount,
                fee,
                zero_confirmation,
            );
            let back = funded_profile_reading(
                "reverse"@,
                payment_hash,
                other_invoice,
                key,
                now,
                amount,
                fee,
                zero_confirmation,
            );
            let (from, to) = asked_pair(out->Ok_0);
            &&& out is Ok && back is Ok
            &&& asked_pair(back->Ok_0) == (to, from)
            &&& from == text_doc(bitcoin_asset("chain"@)) && to == text_doc(
                bitcoin_asset("lightning"@),
            ) && from != to
            &&& asked_keys(out->Ok_0).len() == 1 && refunds_source(asked_keys(out->Ok_0)[0])
            &&& asked_keys(back->Ok_0).len() == 1 && claims_destination(
                asked_keys(back->Ok_0)[0],
            )
            &&& member_text(asked_keys(out->Ok_0)[0], "public_key"@) == Some(hex_text(key))
            &&& member_text(asked_keys(back->Ok_0)[0], "public_key"@) == Some(hex_text(key))
            &&& text_of(asked(out->Ok_0, "swap_type"@)) == Some("submarine"@)
            &&& text_of(asked(back->Ok_0, "swap_type"@)) == Some("reverse"@)
            &&& text_of(asked(out->Ok_0, "payment_hash"@)) == Some(payment_hash)
            &&& text_of(asked(out->Ok_0, "input_amount"@)) == Some(decimal(amount as nat))
            &&& text_of(asked(out->Ok_0, "maximum_total_fee"@)) == Some(decimal(fee as nat))
            &&& text_of(asked(back->Ok_0, "payment_hash"@)) == Some(payment_hash)
            &&& text_of(asked(back->Ok_0, "input_amount"@)) == Some(decimal(amount as nat))
            &&& text_of(asked(back->Ok_0, "maximum_total_fee"@)) == Some(decimal(fee as nat))
            &&& text_of(step(asked(out->Ok_0, "confirmation_policy"@), "zero_confirmation"@))
                == Some(
                if zero_confirmation {
                    "allowed"@
                } else {
                    "forbidden"@
                },
            )
        }),
{
    reveal_strlit("submarine");
    reveal_strlit("reverse");
    assert("submarine"@.len() == 9);
    assert("reverse"@.len() == 7);
    lemma_wishes_are_asked(
        funded_wishes(false, payment_hash, key, now, amount, fee, zero_confirmation),
        invoice,
        false,
    );
    lemma_wishes_are_asked(
        funded_wishes(true, payment_hash, key, now, amount, fee, zero_confirmation),
        other_invoice,
        true,
    );
    lemma_assets_differ(""@, ""@);
    lemma_key_names_its_leg("source"@, "refund"@, key);
    lemma_key_names_its_leg("destination"@, "claim"@, key);
    reveal_strlit("zero_confirmation");
    reveal_strlit("minimum_confirmations");
    reveal_strlit("reorg_safety_blocks");
    reveal_strlit("rbf");
    reveal_strlit("replacement");
    assert("zero_confirmation"@.len() == 17);
    assert("minimum_confirmations"@.len() == 21);
    assert("reorg_safety_blocks"@.len() == 19);
    assert("rbf"@.len() == 3);
    assert("replacement"@.len() == 11);
}

/// The two directions of a chain swap ask for the same pair, each the other way round, from Bitcoin
/// exactly where they are named so; and in both the requester gives one key to claim the
/// destination with and another to refund the source with.
pub proof fn law_chain_directions_ask_for_reversed_pairs(
    network_id: Seq<char>,
    pegged_asset: Seq<char>,
    payment_hash: Seq<u8>,
    source_key: Seq<u8>,
    destination_key: Seq<u8>,
    now: u64,
)
    ensures
        ({
            let out = profile_doc(
                constraints(
                    chain_wishes(
                        LiquidChainDirection::BitcoinToLiquid,
                        network_id,
                        pegged_asset,
                        payment_hash,
                        source_key,
                        destination_key,
                        now,
                    ),
                ),
                None,
                false,
            );
            let back = profile_doc(
                constraints(
                    chain_wishes(
                        LiquidChainDirection::LiquidToBitcoin,
                        network_id,
                        pegged_asset,
                        payment_hash,
                        source_key,
                        destination_key,
                        now,
                    ),
                ),
                None,
                false,
            );
            let (from, to) = asked_pair(out);
            let keys = asked_keys(out);
            &&& asked_pair(back) == (to, from)
            &&& from == text_doc(bitcoin_asset("chain"@)) && to == text_doc(
                liquid_asset(network_id, pegged_asset),
            ) && from != to
            &&& asked_keys(back) == keys && keys.len() == 2
            &&& claims_destination(keys[0]) && member_text(keys[0], "public_key"@) == Some(
                hex_text(destination_key),
            )
            &&& refunds_source(keys[1]) && member_text(keys[1], "public_key"@) == Some(
                hex_text(source_key),
            )
            &&& text_of(asked(out, "swap_type"@)) == Some("chain"@)
            &&& text_of(asked(back, "swap_type"@)) == Some("chain"@)
            &&& text_of(asked(out, "payment_hash"@)) == Some(hex_text(payment_hash))
            &&& text_of(asked(back, "payment_hash"@)) == Some(hex_text(payment_hash))
        }),
{
    lemma_wishes_are_asked(
        chain_wishes(
            LiquidChainDirection::BitcoinToLiquid,
            network_id,
            pegged_asset,
            payment_hash,
            source_key,
            destination_key,
            now,
        ),
        None,
        false,
    );
    lemma_wishes_are_asked(
        chain_wishes(
            LiquidChainDirection::LiquidToBitcoin,
            network_id,
            pegged_asset,
            payment_hash,
            source_key,
            destination_key,
            now,
        ),
        None,
        false,
    );
    lemma_assets_differ(network_id, pegged_asset);
    lemma_key_names_its_leg("source"@, "refund"@, source_key);
    lemma_key_names_its_leg("destination"@, "claim"@, destination_key);
}

/// The request for quotes and the quote that a session starts with; `what` names the session in
/// messages.
pub open spec fn quoted_reading(records: Seq<Event>, kinds: RecordKinds, what: Seq<char>) -> Result<
    (Seq<char>, Seq<char>),
    Seq<char>,
> {
    match first_of_kind(records, kinds.rfq) {
        None => Err(what + " has no RFQ"@),
        Some(rfq) => match first_of_kind(records, kinds.quote) {
            None => Err(what + " has no Quote"@),
            Some(quote) => Ok((rfq.id@, quote.id@)),
        },
    }
}

/// The request for quotes and the quote that a session starts with: it can be had exactly where
/// every part that it rests on can, and each part of it is the one that its name says.
pub proof fn law_quoted_is_read_from_its_parts(
    records: Seq<Event>,
    kinds: RecordKinds,
    what: Seq<char>,
)
    ensures
        ({
            let read = quoted_reading(records, kinds, what);
            let given = read->Ok_0;
            &&& read is Ok <==> {
                &&& first_of_kind(records, kinds.rfq) is Some
                &&& first_of_kind(records, kinds.quote) is Some
            }
            &&& read is Ok ==> {
                &&& given.0 == first_of_kind(records, kinds.rfq)->0.id@
                &&& given.1 == first_of_kind(records, kinds.quote)->0.id@
            }
        }),
{
}

/// The request for quotes and the quote that a session starts with.
pub fn quoted_records(records: &Vec<Event>, kinds: RecordKinds, what: &str) -> (ids: Result<
    (String, String),
    String,
>)
    ensures
        crate::boltz::told_pair(ids) == quoted_reading(records@, kinds, what@),
{
    let rfq: &Event = match find_kind(records, kinds.rfq) {
        Some(rfq) => rfq,
        None => {
            return Err(join(what, " has no RFQ"));
        },
    };
    let quote: &Event = match find_kind(records, kinds.quote) {
        Some(quote) => quote,
        None => {
            return Err(join(what, " has no Quote"));
        },
    };
    Ok((rfq.id.clone(), quote.id.clone()))
}

/// What a drafted contract reads as that the requester goes on with: one that they fund is checked
/// for its terms, one that they do not fund has its effects bound.
pub open spec fn draft_reading(
    contract: JsonView,
    swap_type: Seq<char>,
    funds: bool,
    presign: bool,
) -> Result<JsonView, Seq<char>> {
    if funds && swap_type == "submarine"@ {
        match terms_reading(contract, "source"@) {
            Err(message) => Err(message),
            Ok(_) => Ok(contract),
        }
    } else if !funds && swap_type == "reverse"@ {
        effects_reading(contract, swap_type, presign)
    } else {
        Err("funded smoke requester funding input has the wrong shape"@)
    }
}

/// What a drafted contract reads as that the requester goes on with: it can be had exactly where
/// every part that it rests on can, and each part of it is the one that its name says.
pub proof fn law_draft_is_read_from_its_parts(
    contract: JsonView,
    swap_type: Seq<char>,
    funds: bool,
    presign: bool,
)
    ensures
        ({
            let read = draft_reading(contract, swap_type, funds, presign);
            let given = read->Ok_0;
            let case_1 = {
                &&& funds
                &&& swap_type == "submarine"@
                &&& terms_reading(contract, "source"@) is Ok
            };
            let case_2 = {
                &&& !(funds && swap_type == "submarine"@)
                &&& !funds
                &&& swap_type == "reverse"@
                &&& effects_reading(contract, swap_type, presign) is Ok
            };
            &&& (read is Ok <==> case_1 || case_2)
            &&& read is Ok && case_1 ==> {
                &&& given == contract
            }
            &&& read is Ok && case_2 ==> {
                &&& given == effects_reading(contract, swap_type, presign)->Ok_0
            }
        }),
{
}

fn check_draft(contract: Json, swap_type: &str, funds: bool, presign: bool) -> (checked: Result<
    Json,
    String,
>)
    ensures
        told_json(checked) == draft_reading(contract@, swap_type@, funds, presign),
{
    if funds && same_text(swap_type, "submarine") {
        let _terms: BitcoinTerms = bitcoin_terms(&contract, "source")?;
        Ok(contract)
    } else if !funds && same_text(swap_type, "reverse") {
        bind_effects(&contract, swap_type, presign)
    } else {
        Err("funded smoke requester funding input has the wrong shape".to_owned())
    }
}

/// The lock that the requester funds: its script and its amount.
pub open spec fn source_lock_reading(contract: JsonView) -> Result<(Seq<u8>, u64), Seq<char>> {
    match leg_verifier(contract, "source"@) {
        None => Err("funded contract has no "@ + "source"@ + " verifier"@),
        Some(verifier) => match required_bytes(verifier, "script_pubkey"@) {
            Err(message) => Err(message),
            Ok(script) => match required_amount(verifier, "amount"@) {
                Err(message) => Err(message),
                Ok(amount) => Ok((script, amount)),
            },
        },
    }
}

/// The lock that the requester funds: it can be had exactly where every part that it rests on can,
/// and each part of it is the one that its name says.
pub proof fn law_source_lock_is_read_from_its_parts(contract: JsonView)
    ensures
        ({
            let read = source_lock_reading(contract);
            let verifier = leg_verifier(contract, "source"@)->0;
            let given = read->Ok_0;
            &&& read is Ok <==> {
                &&& leg_verifier(contract, "source"@) is Some
                &&& required_bytes(verifier, "script_pubkey"@) is Ok
                &&& required_amount(verifier, "amount"@) is Ok
            }
            &&& read is Ok ==> {
                &&& given.0 == required_bytes(verifier, "script_pubkey"@)->Ok_0
                &&& given.1 == required_amount(verifier, "amount"@)->Ok_0
            }
        }),
{
}

/// The lock that the requester funds: its script and its amount.
pub fn source_lock(contract: &Json) -> (lock: Result<(Vec<u8>, u64), String>)
    ensures
        (match lock {
            Ok((script, amount)) => Ok((script@, amount)),
            Err(message) => Err(message@),
        }) == source_lock_reading(contract@),
{
    let verifier: &JsonObject = verifier_for_leg(contract, "source")?;
    let script: Vec<u8> = bytes_member(verifier, "script_pubkey")?;
    let amount: u64 = amount_member(verifier, "amount")?;
    Ok((script, amount))
}

/// The value of a tag, where there is exactly one of its name.
pub open spec fn single_tag(tags: Seq<EventTag>, name: Seq<char>) -> Option<Seq<char>> {
    match exact_tag_reading(tags, name) {
        Ok(value) => Some(value),
        Err(_) => None,
    }
}

fn find_single_tag(event: &Event, name: &str) -> (value: Option<String>)
    ensures
        maybe(value) == single_tag(event.tags@, name@),
{
    match exact_tag_value(event, name) {
        Ok(value) => Some(value.to_owned()),
        Err(_) => None,
    }
}

/// Whether a signed contract is of exactly these terms.
pub open spec fn carries_terms(profile: Map<Seq<char>, JsonView>, contract: JsonView) -> bool {
    member(JsonView::Object(profile), "contract"@) == Some(contract)
}

fn profile_carries(profile: &JsonObject, contract: &Json) -> (carries: bool)
    ensures
        carries == carries_terms(profile@, contract@),
{
    match profile.get("contract") {
        Some(terms) => terms.same(contract),
        None => false,
    }
}

/// The name of a probe.
pub open spec fn probe_label(probe: Probe) -> Seq<char> {
    match probe {
        Probe::Nothing => "nothing"@,
        Probe::Duplicate => "duplicate"@,
        Probe::Conflict => "conflict"@,
        Probe::SecretLeak => "secret_leak"@,
        Probe::StatusGap => "status_gap"@,
        Probe::StatusFork => "status_fork"@,
    }
}

fn probe_name(probe: Probe) -> (name: &'static str)
    ensures
        name@ == probe_label(probe),
{
    match probe {
        Probe::Nothing => "nothing",
        Probe::Duplicate => "duplicate",
        Probe::Conflict => "conflict",
        Probe::SecretLeak => "secret_leak",
        Probe::StatusGap => "status_gap",
        Probe::StatusFork => "status_fork",
    }
}

/// The phases of a request for quotes, in their order.
#[derive(Clone, Copy, Debug, PartialEq, Eq, Structural)]
pub enum QuotePhase {
    Connect,
    SignRfq,
    PublishRfq,
    AwaitQuote,
    CheckQuote,
    Finished,
}

impl QuotePhase {
    /// The place of the phase in their order.
    pub open spec fn rank(self) -> int {
        match self {
            QuotePhase::Connect => 0,
            QuotePhase::SignRfq => 1,
            QuotePhase::PublishRfq => 2,
            QuotePhase::AwaitQuote => 3,
            QuotePhase::CheckQuote => 4,
            QuotePhase::Finished => 5,
        }
    }
}

/// A request for quotes that a provider answers.
pub struct QuoteRun {
    pub phase: QuotePhase,
    pub session_id: String,
    pub kinds: RecordKinds,
    pub profile: Json,
    pub rfq_id: String,
    pub quote_id: String,
}

/// A request for quotes that a provider answers.
#[verifier::ext_equal]
pub struct QuoteRunView {
    pub phase: QuotePhase,
    pub session_id: Seq<char>,
    pub kinds: RecordKinds,
    pub profile: JsonView,
    pub rfq_id: Seq<char>,
    pub quote_id: Seq<char>,
}

impl View for QuoteRun {
    type V = QuoteRunView;

    open spec fn view(&self) -> QuoteRunView {
        QuoteRunView {
            phase: self.phase,
            session_id: self.session_id@,
            kinds: self.kinds,
            profile: self.profile@,
            rfq_id: self.rfq_id@,
            quote_id: self.quote_id@,
        }
    }
}

/// What a request for quotes asks for next.
pub open spec fn quote_action(run: QuoteRunView) -> ActionView {
    match run.phase {
        QuotePhase::Connect => ActionView::Perform(Task::OpenSubscription, seq![]),
        QuotePhase::SignRfq => ActionView::Perform(Task::SignRfq, seq!["rfq:"@ + run.session_id]),
        QuotePhase::PublishRfq => ActionView::Perform(Task::PublishRfq, seq![run.rfq_id]),
        QuotePhase::AwaitQuote => ActionView::Perform(Task::AwaitQuote, seq![]),
        QuotePhase::CheckQuote => ActionView::Perform(Task::CheckSignature, seq![run.quote_id]),
        QuotePhase::Finished => ActionView::Finish,
    }
}

/// Where a reply takes a request for quotes.
pub open spec fn quote_step(run: QuoteRunView, reply: ReplyView) -> Result<
    QuoteRunView,
    Seq<char>,
> {
    match (run.phase, reply) {
        (QuotePhase::Connect, ReplyView::Done) => Ok(
            QuoteRunView { phase: QuotePhase::SignRfq, ..run },
        ),
        (QuotePhase::SignRfq, ReplyView::Record { id, pubkey, tags, content, .. }) => Ok(
            QuoteRunView { phase: QuotePhase::PublishRfq, rfq_id: id, ..run },
        ),
        (QuotePhase::PublishRfq, ReplyView::Done) => Ok(
            QuoteRunView { phase: QuotePhase::AwaitQuote, ..run },
        ),
        (QuotePhase::AwaitQuote, ReplyView::Records(records)) => {
            if records.len() != 1 || records[0].kind != run.kinds.quote {
                Err(wrong_reply())
            } else {
                Ok(QuoteRunView { phase: QuotePhase::CheckQuote, quote_id: records[0].id@, ..run })
            }
        },
        (QuotePhase::CheckQuote, ReplyView::Done) => Ok(
            QuoteRunView { phase: QuotePhase::Finished, ..run },
        ),
        _ => Err(wrong_reply()),
    }
}

impl QuoteRun {
    /// A request for quotes before its first action.
    pub fn new(session_id: &str, kinds: RecordKinds, profile: &Json) -> (run: QuoteRun)
        ensures
            run@.phase == QuotePhase::Connect,
            run@.session_id == session_id@,
            run@.kinds == kinds,
            run@.profile == profile@,
            run@.rfq_id == Seq::<char>::empty(),
            run@.quote_id == Seq::<char>::empty(),
    {
        QuoteRun {
            phase: QuotePhase::Connect,
            session_id: session_id.to_owned(),
            kinds,
            profile: profile.copy(),
            rfq_id: String::new(),
            quote_id: String::new(),
        }
    }

    /// What the journey asks for next.
    pub fn action(&self) -> (action: Action)
        ensures
            action@ == quote_action(self@),
    {
        match self.phase {
            QuotePhase::Connect => perform(Task::OpenSubscription),
            QuotePhase::SignRfq => perform_with(
                Task::SignRfq,
                join("rfq:", self.session_id.as_str()).as_str(),
            ),
            QuotePhase::PublishRfq => perform_with(Task::PublishRfq, self.rfq_id.as_str()),
            QuotePhase::AwaitQuote => perform(Task::AwaitQuote),
            QuotePhase::CheckQuote => perform_with(Task::CheckSignature, self.quote_id.as_str()),
            QuotePhase::Finished => Action::Finish,
        }
    }

    /// Takes a reply: the journey goes on to its next phase, or ends with a message.
    pub fn advance(&mut self, reply: Reply) -> (moved: Result<(), String>)
        ensures
            match moved {
                Ok(_) => quote_step(old(self)@, reply@) == Ok::<QuoteRunView, Seq<char>>(
                    final(self)@,
                ),
                Err(message) => {
                    &&& quote_step(old(self)@, reply@) == Err::<QuoteRunView, Seq<char>>(message@)
                    &&& final(self)@ == old(self)@
                },
            },
    {
        match (self.phase, reply) {
            (QuotePhase::Connect, Reply::Done) => {
                self.phase = QuotePhase::SignRfq;
                Ok(())
            },
            (QuotePhase::SignRfq, Reply::Record(event)) => {
                self.rfq_id = event.id;
                self.phase = QuotePhase::PublishRfq;
                Ok(())
            },
            (QuotePhase::PublishRfq, Reply::Done) => {
                self.phase = QuotePhase::AwaitQuote;
                Ok(())
            },
            (QuotePhase::AwaitQuote, Reply::Records(records)) => {
                if records.len() != 1 || records[0].kind != self.kinds.quote {
                    return Err(wrong_reply_text());
                }
                self.quote_id = records[0].id.clone();
                self.phase = QuotePhase::CheckQuote;
                Ok(())
            },
            (QuotePhase::CheckQuote, Reply::Done) => {
                self.phase = QuotePhase::Finished;
                Ok(())
            },
            _ => Err(wrong_reply_text()),
        }
    }
}

/// Whether each entry of a trace leads to the one after it, from the first phase on.
pub open spec fn is_quote_trace(trace: Seq<(QuoteRunView, ReplyView)>) -> bool {
    &&& trace.len() > 0
    &&& trace[0].0.phase == QuotePhase::Connect
    &&& forall|i: int|
        0 <= i < trace.len() - 1 ==> quote_step((#[trigger] trace[i]).0, trace[i].1) == Ok::<
            QuoteRunView,
            Seq<char>,
        >(trace[i + 1].0)
}

/// Each reply takes a request for quotes forward, never back and never in place.
pub proof fn law_quote_moves_forward(run: QuoteRunView, reply: ReplyView)
    requires
        quote_step(run, reply) is Ok,
    ensures
        run.phase.rank() < quote_step(run, reply)->Ok_0.phase.rank(),
{
}

/// Which replies take a request for quotes on, and to which phase: in each phase exactly the
/// replies that pass every check of that phase, and no others.
pub proof fn law_quote_goes_on_only_when_answered(run: QuoteRunView, reply: ReplyView)
    ensures
        ({
            let next = quote_step(run, reply);
            match run.phase {
                QuotePhase::Connect => {
                    &&& next is Ok <==> reply is Done
                    &&& next is Ok ==> next->Ok_0.phase == QuotePhase::SignRfq
                },
                QuotePhase::SignRfq => {
                    &&& next is Ok <==> reply is Record
                    &&& next is Ok ==> next->Ok_0.phase == QuotePhase::PublishRfq
                },
                QuotePhase::PublishRfq => {
                    &&& next is Ok <==> reply is Done
                    &&& next is Ok ==> next->Ok_0.phase == QuotePhase::AwaitQuote
                },
                QuotePhase::AwaitQuote => {
                    &&& next is Ok <==> {
                        &&& reply is Records
                        &&& reply->Records_0.len() == 1
                        &&& reply->Records_0[0].kind == run.kinds.quote
                    }
                    &&& next is Ok ==> next->Ok_0.phase == QuotePhase::CheckQuote
                },
                QuotePhase::CheckQuote => {
                    &&& next is Ok <==> reply is Done
                    &&& next is Ok ==> next->Ok_0.phase == QuotePhase::Finished
                },
                QuotePhase::Finished => next is Err,
            }
        }),
{
}

/// The reply that a trace of a request for quotes holds for a phase.
pub open spec fn quote_told(trace: Seq<(QuoteRunView, ReplyView)>, phase: QuotePhase) -> ReplyView {
    trace[choose|i: int| 0 <= i < trace.len() && (#[trigger] trace[i]).0.phase == phase].1
}

/// The values that a run of a request for quotes holds, by the replies that gave them: each stays
/// as the reply to one phase gave it, or as the run started with it.
pub open spec fn quote_holds(trace: Seq<(QuoteRunView, ReplyView)>, run: QuoteRunView) -> bool {
    let start = trace[0].0;
    let rfq_id = quote_told(trace, QuotePhase::SignRfq)->Record_id;
    let quote_id = quote_told(trace, QuotePhase::AwaitQuote)->Records_0[0].id@;
    &&& run.session_id == start.session_id
    &&& run.kinds == start.kinds
    &&& run.profile == start.profile
    &&& run.phase.rank() > QuotePhase::SignRfq.rank() ==> run.rfq_id == rfq_id
    &&& run.phase.rank() > QuotePhase::AwaitQuote.rank() ==> run.quote_id == quote_id
}

/// No phase of a request for quotes comes twice in a trace.
proof fn lemma_quote_told_once(trace: Seq<(QuoteRunView, ReplyView)>, place: int)
    requires
        is_quote_trace(trace),
        0 <= place < trace.len(),
    ensures
        quote_told(trace, trace[place].0.phase) == trace[place].1,
{
    let phase = trace[place].0.phase;
    let other = choose|i: int| 0 <= i < trace.len() && (#[trigger] trace[i]).0.phase == phase;
    assert(trace[place].0.phase == phase);
    if other != place {
        let (early, late) = if other < place {
            (other, place)
        } else {
            (place, other)
        };
        assert forall|run: QuoteRunView, reply: ReplyView|
            (#[trigger] quote_step(run, reply)) is Ok implies run.phase.rank() < quote_step(
            run,
            reply,
        )->Ok_0.phase.rank() by {
            law_quote_moves_forward(run, reply);
        }
        lemma_ranks_rise(
            trace,
            |run: QuoteRunView, reply: ReplyView| quote_step(run, reply),
            |run: QuoteRunView| run.phase.rank(),
            early,
            late,
        );
    }
}

/// A reply keeps what a request for quotes holds, and adds what it tells.
proof fn lemma_quote_holds_on(
    trace: Seq<(QuoteRunView, ReplyView)>,
    run: QuoteRunView,
    reply: ReplyView,
)
    requires
        quote_holds(trace, run),
        quote_told(trace, run.phase) == reply,
        quote_step(run, reply) is Ok,
    ensures
        quote_holds(trace, quote_step(run, reply)->Ok_0),
{
    let next = quote_step(run, reply)->Ok_0;
    match run.phase {
        QuotePhase::Connect => assert(quote_holds(trace, next)),
        QuotePhase::SignRfq => assert(quote_holds(trace, next)),
        QuotePhase::PublishRfq => assert(quote_holds(trace, next)),
        QuotePhase::AwaitQuote => assert(quote_holds(trace, next)),
        QuotePhase::CheckQuote => assert(quote_holds(trace, next)),
        QuotePhase::Finished => assert(quote_holds(trace, next)),
    }
}

/// What a request for quotes has been told, it keeps: at every place of a trace each value that the
/// run holds is the one that the reply to the phase that asks for it gave, or the one that the run
/// started with.
pub proof fn law_quote_keeps_what_it_was_told(trace: Seq<(QuoteRunView, ReplyView)>, last: int)
    requires
        is_quote_trace(trace),
        0 <= last < trace.len(),
    ensures
        quote_holds(trace, trace[last].0),
    decreases last,
{
    if last > 0 {
        let before = last - 1;
        law_quote_keeps_what_it_was_told(trace, before);
        lemma_quote_told_once(trace, before);
        assert(quote_step(trace[before].0, trace[before].1) == Ok::<QuoteRunView, Seq<char>>(
            trace[before + 1].0,
        ));
        lemma_quote_holds_on(trace, trace[before].0, trace[before].1);
    }
}

/// What a request for quotes asks for in each phase, in terms of the replies before it: the values
/// in a request are those that the replies to the named phases gave, or those that the run started
/// with.
pub proof fn law_quote_asks_with_what_it_was_told(trace: Seq<(QuoteRunView, ReplyView)>, last: int)
    requires
        is_quote_trace(trace),
        0 <= last < trace.len(),
    ensures
        ({
            let start = trace[0].0;
            let rfq_id = quote_told(trace, QuotePhase::SignRfq)->Record_id;
            let quote_id = quote_told(trace, QuotePhase::AwaitQuote)->Records_0[0].id@;
            let action = quote_action(trace[last].0);
            match trace[last].0.phase {
                QuotePhase::Connect => action == ActionView::Perform(
                    Task::OpenSubscription,
                    seq![],
                ),
                QuotePhase::SignRfq => action == ActionView::Perform(
                    Task::SignRfq,
                    seq!["rfq:"@ + start.session_id],
                ),
                QuotePhase::PublishRfq => action == ActionView::Perform(
                    Task::PublishRfq,
                    seq![rfq_id],
                ),
                QuotePhase::AwaitQuote => action == ActionView::Perform(Task::AwaitQuote, seq![]),
                QuotePhase::CheckQuote => action == ActionView::Perform(
                    Task::CheckSignature,
                    seq![quote_id],
                ),
                QuotePhase::Finished => action == ActionView::Finish,
            }
        }),
{
    law_quote_keeps_what_it_was_told(trace, last);
}

/// A quote is taken only after the request was published.
pub proof fn law_quote_answers_a_published_request(trace: Seq<(QuoteRunView, ReplyView)>, last: int)
    requires
        is_quote_trace(trace),
        0 <= last < trace.len(),
        trace[last].0.phase == QuotePhase::AwaitQuote || trace[last].0.phase == QuotePhase::CheckQuote,
    ensures
        exists|i: int|
            0 <= i < last && (#[trigger] trace[i]).0.phase == QuotePhase::PublishRfq && trace[i].1
                == ReplyView::Done,
{
    let i = lemma_milestone(
        trace,
        |run: QuoteRunView, reply: ReplyView| quote_step(run, reply),
        |run: QuoteRunView| run.phase.rank(),
        2,
        last,
    );
    assert(trace[i].0.phase == QuotePhase::PublishRfq);
    assert(quote_step(trace[i].0, trace[i].1) == Ok::<QuoteRunView, Seq<char>>(trace[i + 1].0));
}

/// A quote is used only after its signature was checked.
pub proof fn law_quote_is_verified(trace: Seq<(QuoteRunView, ReplyView)>, last: int)
    requires
        is_quote_trace(trace),
        0 <= last < trace.len(),
        trace[last].0.phase == QuotePhase::Finished,
    ensures
        exists|i: int|
            0 <= i < last && (#[trigger] trace[i]).0.phase == QuotePhase::CheckQuote && trace[i].1
                == ReplyView::Done,
{
    let i = lemma_milestone(
        trace,
        |run: QuoteRunView, reply: ReplyView| quote_step(run, reply),
        |run: QuoteRunView| run.phase.rank(),
        4,
        last,
    );
    assert(trace[i].0.phase == QuotePhase::CheckQuote);
    assert(quote_step(trace[i].0, trace[i].1) == Ok::<QuoteRunView, Seq<char>>(trace[i + 1].0));
}

/// The phases of an order, in their order.
#[derive(Clone, Copy, Debug, PartialEq, Eq, Structural)]
pub enum OrderPhase {
    ReadRecords,
    SignOrder,
    PublishOrder,
    DraftContract,
    BuildFunding,
    DigestVerifier,
    BuildExit,
    Finished,
}

impl OrderPhase {
    /// The place of the phase in their order.
    pub open spec fn rank(self) -> int {
        match self {
            OrderPhase::ReadRecords => 0,
            OrderPhase::SignOrder => 1,
            OrderPhase::PublishOrder => 2,
            OrderPhase::DraftContract => 3,
            OrderPhase::BuildFunding => 4,
            OrderPhase::DigestVerifier => 5,
            OrderPhase::BuildExit => 6,
            OrderPhase::Finished => 7,
        }
    }
}

/// A quote that is ordered and contracted between Bitcoin and Lightning.
pub struct OrderRun {
    pub phase: OrderPhase,
    pub swap_type: String,
    pub funds: bool,
    pub presign: bool,
    pub session_id: String,
    pub kinds: RecordKinds,
    pub rfq_id: String,
    pub quote_id: String,
    pub order_id: String,
    pub contract: Json,
    pub funding_hex: String,
    pub funding_sha256: String,
    pub verifier: Json,
}

/// A quote that is ordered and contracted between Bitcoin and Lightning.
#[verifier::ext_equal]
pub struct OrderRunView {
    pub phase: OrderPhase,
    pub swap_type: Seq<char>,
    pub funds: bool,
    pub presign: bool,
    pub session_id: Seq<char>,
    pub kinds: RecordKinds,
    pub rfq_id: Seq<char>,
    pub quote_id: Seq<char>,
    pub order_id: Seq<char>,
    pub contract: JsonView,
    pub funding_hex: Seq<char>,
    pub funding_sha256: Seq<char>,
    pub verifier: JsonView,
}

impl View for OrderRun {
    type V = OrderRunView;

    open spec fn view(&self) -> OrderRunView {
        OrderRunView {
            phase: self.phase,
            swap_type: self.swap_type@,
            funds: self.funds,
            presign: self.presign,
            session_id: self.session_id@,
            kinds: self.kinds,
            rfq_id: self.rfq_id@,
            quote_id: self.quote_id@,
            order_id: self.order_id@,
            contract: self.contract@,
            funding_hex: self.funding_hex@,
            funding_sha256: self.funding_sha256@,
            verifier: self.verifier@,
        }
    }
}

/// What an order asks for next.
pub open spec fn order_action(run: OrderRunView) -> ActionView {
    match run.phase {
        OrderPhase::ReadRecords => ActionView::Perform(Task::ReadRecords, seq![]),
        OrderPhase::SignOrder => ActionView::Perform(
            Task::SignOrder,
            seq!["order:"@ + run.session_id, run.rfq_id, run.quote_id],
        ),
        OrderPhase::PublishOrder => ActionView::Perform(Task::PublishOrder, seq![run.order_id]),
        OrderPhase::DraftContract => ActionView::Perform(Task::DraftContract, seq![run.swap_type]),
        OrderPhase::BuildFunding => ActionView::Perform(Task::BuildFunding, seq!["source"@]),
        OrderPhase::DigestVerifier => ActionView::Perform(Task::DigestVerifier, seq![]),
        OrderPhase::BuildExit => ActionView::Perform(
            Task::BuildExit,
            seq![run.swap_type, run.order_id, run.quote_id],
        ),
        OrderPhase::Finished => ActionView::Finish,
    }
}

/// Where a reply takes an order.
pub open spec fn order_step(run: OrderRunView, reply: ReplyView) -> Result<
    OrderRunView,
    Seq<char>,
> {
    match (run.phase, reply) {
        (OrderPhase::ReadRecords, ReplyView::Records(records)) => match quoted_reading(
            records,
            run.kinds,
            "quoted funded session"@,
        ) {
            Err(message) => Err(message),
            Ok(ids) => Ok(
                OrderRunView {
                    phase: OrderPhase::SignOrder,
                    rfq_id: ids.0,
                    quote_id: ids.1,
                    ..run
                },
            ),
        },
        (OrderPhase::SignOrder, ReplyView::Record { id, pubkey, tags, content, .. }) => Ok(
            OrderRunView { phase: OrderPhase::PublishOrder, order_id: id, ..run },
        ),
        (OrderPhase::PublishOrder, ReplyView::Done) => {
            if exit_shape(run.swap_type) is None {
                Err("funded smoke requester swap type is unsupported"@)
            } else {
                Ok(OrderRunView { phase: OrderPhase::DraftContract, ..run })
            }
        },
        (OrderPhase::DraftContract, ReplyView::Document(Some(document))) => match draft_reading(
            document,
            run.swap_type,
            run.funds,
            run.presign,
        ) {
            Err(message) => Err(message),
            Ok(checked) => {
                if run.funds {
                    Ok(OrderRunView { phase: OrderPhase::BuildFunding, contract: checked, ..run })
                } else {
                    Ok(OrderRunView { phase: OrderPhase::BuildExit, contract: checked, ..run })
                }
            },
        },
        (OrderPhase::BuildFunding, ReplyView::Texts(texts)) => {
            if texts.len() != 2 {
                Err(wrong_reply())
            } else {
                match funding_binding_reading(run.contract, texts[0], texts[1]) {
                    Err(message) => Err(message),
                    Ok(bound) => Ok(
                        OrderRunView {
                            phase: OrderPhase::DigestVerifier,
                            funding_hex: texts[0],
                            funding_sha256: texts[1],
                            contract: bound.0,
                            verifier: bound.1,
                            ..run
                        },
                    ),
                }
            }
        },
        (OrderPhase::DigestVerifier, ReplyView::Texts(texts)) => {
            if texts.len() != 1 {
                Err(wrong_reply())
            } else {
                match digest_binding_reading(run.contract, texts[0]) {
                    Err(message) => Err(message),
                    Ok(bound) => match effects_reading(bound, run.swap_type, run.presign) {
                        Err(message) => Err(message),
                        Ok(ready) => Ok(
                            OrderRunView { phase: OrderPhase::BuildExit, contract: ready, ..run },
                        ),
                    },
                }
            }
        },
        (OrderPhase::BuildExit, ReplyView::Texts(texts)) => {
            if texts.len() != (if is_cooperative(run.contract, run.swap_type) { 3int } else { 2int }) {
                Err(wrong_reply())
            } else {
                match exits_reading(
                    run.contract,
                    run.swap_type,
                    texts[0],
                    texts[1],
                    if texts.len() == 3 { Some(texts[2]) } else { None },
                ) {
                    Err(message) => Err(message),
                    Ok(bound) => Ok(
                        OrderRunView { phase: OrderPhase::Finished, contract: bound, ..run },
                    ),
                }
            }
        },
        _ => Err(wrong_reply()),
    }
}

impl OrderRun {
    /// An order before its first action.
    pub fn new(
        swap_type: &str,
        funds: bool,
        presign: bool,
        session_id: &str,
        kinds: RecordKinds,
    ) -> (run: OrderRun)
        ensures
            run@.phase == OrderPhase::ReadRecords,
            run@.swap_type == swap_type@,
            run@.funds == funds,
            run@.presign == presign,
            run@.session_id == session_id@,
            run@.kinds == kinds,
            run@.rfq_id == Seq::<char>::empty(),
            run@.quote_id == Seq::<char>::empty(),
            run@.order_id == Seq::<char>::empty(),
            run@.contract == JsonView::Null,
            run@.funding_hex == Seq::<char>::empty(),
            run@.funding_sha256 == Seq::<char>::empty(),
            run@.verifier == JsonView::Null,
    {
        OrderRun {
            phase: OrderPhase::ReadRecords,
            swap_type: swap_type.to_owned(),
            funds,
            presign,
            session_id: session_id.to_owned(),
            kinds,
            rfq_id: String::new(),
            quote_id: String::new(),
            order_id: String::new(),
            contract: Json::null(),
            funding_hex: String::new(),
            funding_sha256: String::new(),
            verifier: Json::null(),
        }
    }

    /// What the journey asks for next.
    pub fn action(&self) -> (action: Action)
        ensures
            action@ == order_action(self@),
    {
        match self.phase {
            OrderPhase::ReadRecords => perform(Task::ReadRecords),
            OrderPhase::SignOrder => perform_with_three(
                Task::SignOrder,
                join("order:", self.session_id.as_str()).as_str(),
                self.rfq_id.as_str(),
                self.quote_id.as_str(),
            ),
            OrderPhase::PublishOrder => perform_with(Task::PublishOrder, self.order_id.as_str()),
            OrderPhase::DraftContract => perform_with(Task::DraftContract, self.swap_type.as_str()),
            OrderPhase::BuildFunding => perform_with(Task::BuildFunding, "source"),
            OrderPhase::DigestVerifier => perform(Task::DigestVerifier),
            OrderPhase::BuildExit => perform_with_three(
                Task::BuildExit,
                self.swap_type.as_str(),
                self.order_id.as_str(),
                self.quote_id.as_str(),
            ),
            OrderPhase::Finished => Action::Finish,
        }
    }

    /// Takes a reply: the journey goes on to its next phase, or ends with a message.
    #[verifier::rlimit(60)]
    pub fn advance(&mut self, reply: Reply) -> (moved: Result<(), String>)
        ensures
            match moved {
                Ok(_) => order_step(old(self)@, reply@) == Ok::<OrderRunView, Seq<char>>(
                    final(self)@,
                ),
                Err(message) => {
                    &&& order_step(old(self)@, reply@) == Err::<OrderRunView, Seq<char>>(message@)
                    &&& final(self)@ == old(self)@
                },
            },
    {
        match (self.phase, reply) {
            (OrderPhase::ReadRecords, Reply::Records(records)) => {
                let ids: (String, String) = quoted_records(
                    &records,
                    self.kinds,
                    "quoted funded session",
                )?;
                self.rfq_id = ids.0;
                self.quote_id = ids.1;
                self.phase = OrderPhase::SignOrder;
                Ok(())
            },
            (OrderPhase::SignOrder, Reply::Record(event)) => {
                self.order_id = event.id;
                self.phase = OrderPhase::PublishOrder;
                Ok(())
            },
            (OrderPhase::PublishOrder, Reply::Done) => {
                if requester_exit_shape(self.swap_type.as_str()).is_none() {
                    return Err("funded smoke requester swap type is unsupported".to_owned());
                }
                self.phase = OrderPhase::DraftContract;
                Ok(())
            },
            (OrderPhase::DraftContract, Reply::Document(Some(document))) => {
                let checked: Json = check_draft(
                    document,
                    self.swap_type.as_str(),
                    self.funds,
                    self.presign,
                )?;
                self.contract = checked;
                self.phase = if self.funds {
                    OrderPhase::BuildFunding
                } else {
                    OrderPhase::BuildExit
                };
                Ok(())
            },
            (OrderPhase::BuildFunding, Reply::Texts(texts)) => {
                if texts.len() != 2 {
                    return Err(wrong_reply_text());
                }
                let bound: (Json, Json) = bind_requester_funding(
                    &self.contract,
                    texts[0].as_str(),
                    texts[1].as_str(),
                )?;
                self.funding_hex = texts[0].clone();
                self.funding_sha256 = texts[1].clone();
                self.contract = bound.0;
                self.verifier = bound.1;
                self.phase = OrderPhase::DigestVerifier;
                Ok(())
            },
            (OrderPhase::DigestVerifier, Reply::Texts(texts)) => {
                if texts.len() != 1 {
                    return Err(wrong_reply_text());
                }
                let bound: Json = bind_verifier_digest(&self.contract, texts[0].as_str())?;
                let ready: Json = bind_effects(&bound, self.swap_type.as_str(), self.presign)?;
                self.contract = ready;
                self.phase = OrderPhase::BuildExit;
                Ok(())
            },
            (OrderPhase::BuildExit, Reply::Texts(texts)) => {
                if texts.len() != (if settles_jointly(&self.contract, self.swap_type.as_str()) { 3 } else { 2 }) {
                    return Err(wrong_reply_text());
                }
                let bound: Json = bind_requester_exit_packages(
                    &self.contract,
                    self.swap_type.as_str(),
                    texts[0].as_str(),
                    texts[1].as_str(),
                    if texts.len() == 3 { Some(texts[2].as_str()) } else { None },
                )?;
                self.contract = bound;
                self.phase = OrderPhase::Finished;
                Ok(())
            },
            _ => Err(wrong_reply_text()),
        }
    }
}

/// Whether each entry of a trace leads to the one after it, from the first phase on.
pub open spec fn is_order_trace(trace: Seq<(OrderRunView, ReplyView)>) -> bool {
    &&& trace.len() > 0
    &&& trace[0].0.phase == OrderPhase::ReadRecords
    &&& forall|i: int|
        0 <= i < trace.len() - 1 ==> order_step((#[trigger] trace[i]).0, trace[i].1) == Ok::<
            OrderRunView,
            Seq<char>,
        >(trace[i + 1].0)
}

/// Each reply takes an order forward, never back and never in place.
pub proof fn law_order_moves_forward(run: OrderRunView, reply: ReplyView)
    requires
        order_step(run, reply) is Ok,
    ensures
        run.phase.rank() < order_step(run, reply)->Ok_0.phase.rank(),
{
}

/// Which replies take an order on, and to which phase: in each phase exactly the replies that pass
/// every check of that phase, and no others.
pub proof fn law_order_goes_on_only_when_answered(run: OrderRunView, reply: ReplyView)
    ensures
        ({
            let next = order_step(run, reply);
            match run.phase {
                OrderPhase::ReadRecords => {
                    &&& next is Ok <==> {
                        &&& reply is Records
                        &&& quoted_reading(
                            reply->Records_0,
                            run.kinds,
                            "quoted funded session"@,
                        ) is Ok
                    }
                    &&& next is Ok ==> next->Ok_0.phase == OrderPhase::SignOrder
                },
                OrderPhase::SignOrder => {
                    &&& next is Ok <==> reply is Record
                    &&& next is Ok ==> next->Ok_0.phase == OrderPhase::PublishOrder
                },
                OrderPhase::PublishOrder => {
                    &&& next is Ok <==> {
                        &&& reply is Done
                        &&& exit_shape(run.swap_type) is Some
                    }
                    &&& next is Ok ==> next->Ok_0.phase == OrderPhase::DraftContract
                },
                OrderPhase::DraftContract => {
                    let case_1 = run.funds;
                    let case_2 = !(run.funds);
                    &&& next is Ok <==> {
                        &&& reply is Document
                        &&& reply->Document_0 is Some
                        &&& draft_reading(
                            reply->Document_0->0,
                            run.swap_type,
                            run.funds,
                            run.presign,
                        ) is Ok
                        &&& (case_1 || case_2)
                    }
                    &&& next is Ok && case_1 ==> next->Ok_0.phase == OrderPhase::BuildFunding
                    &&& next is Ok && case_2 ==> next->Ok_0.phase == OrderPhase::BuildExit
                },
                OrderPhase::BuildFunding => {
                    &&& next is Ok <==> {
                        &&& reply is Texts
                        &&& reply->Texts_0.len() == 2
                        &&& funding_binding_reading(
                            run.contract,
                            reply->Texts_0[0],
                            reply->Texts_0[1],
                        ) is Ok
                    }
                    &&& next is Ok ==> next->Ok_0.phase == OrderPhase::DigestVerifier
                },
                OrderPhase::DigestVerifier => {
                    &&& next is Ok <==> {
                        &&& reply is Texts
                        &&& reply->Texts_0.len() == 1
                        &&& digest_binding_reading(run.contract, reply->Texts_0[0]) is Ok
                        &&& effects_reading(
                            digest_binding_reading(run.contract, reply->Texts_0[0])->Ok_0,
                            run.swap_type,
                            run.presign,
                        ) is Ok
                    }
                    &&& next is Ok ==> next->Ok_0.phase == OrderPhase::BuildExit
                },
                OrderPhase::BuildExit => {
                    &&& next is Ok <==> {
                        &&& reply is Texts
                        &&& reply->Texts_0.len() == (
                            if is_cooperative(run.contract, run.swap_type) { 3int } else { 2int }
                        )
                        &&& exits_reading(
                            run.contract,
                            run.swap_type,
                            reply->Texts_0[0],
                            reply->Texts_0[1],
                            if reply->Texts_0.len() == 3 { Some(reply->Texts_0[2]) } else { None },
                        ) is Ok
                    }
                    &&& next is Ok ==> next->Ok_0.phase == OrderPhase::Finished
                },
                OrderPhase::Finished => next is Err,
            }
        }),
{
}

/// The reply that a trace of an order holds for a phase.
pub open spec fn order_told(trace: Seq<(OrderRunView, ReplyView)>, phase: OrderPhase) -> ReplyView {
    trace[choose|i: int| 0 <= i < trace.len() && (#[trigger] trace[i]).0.phase == phase].1
}

/// The values that a run of an order holds, by the replies that gave them: each stays as the reply
/// to one phase gave it, or as the run started with it.
pub open spec fn order_holds(trace: Seq<(OrderRunView, ReplyView)>, run: OrderRunView) -> bool {
    let start = trace[0].0;
    let rfq_id = quoted_reading(
        order_told(trace, OrderPhase::ReadRecords)->Records_0,
        start.kinds,
        "quoted funded session"@,
    )->Ok_0.0;
    let quote_id = quoted_reading(
        order_told(trace, OrderPhase::ReadRecords)->Records_0,
        start.kinds,
        "quoted funded session"@,
    )->Ok_0.1;
    let order_id = order_told(trace, OrderPhase::SignOrder)->Record_id;
    let contract_after_draft_contract = draft_reading(
        order_told(trace, OrderPhase::DraftContract)->Document_0->0,
        start.swap_type,
        start.funds,
        start.presign,
    )->Ok_0;
    let contract_after_build_funding = funding_binding_reading(
        contract_after_draft_contract,
        order_told(trace, OrderPhase::BuildFunding)->Texts_0[0],
        order_told(trace, OrderPhase::BuildFunding)->Texts_0[1],
    )->Ok_0.0;
    let funding_hex = if start.funds {
        order_told(trace, OrderPhase::BuildFunding)->Texts_0[0]
    } else { start.funding_hex };
    let funding_sha256 = if start.funds {
        order_told(trace, OrderPhase::BuildFunding)->Texts_0[1]
    } else { start.funding_sha256 };
    let verifier = if start.funds {
        funding_binding_reading(
            contract_after_draft_contract,
            order_told(trace, OrderPhase::BuildFunding)->Texts_0[0],
            order_told(trace, OrderPhase::BuildFunding)->Texts_0[1],
        )->Ok_0.1
    } else { start.verifier };
    let contract_after_digest_verifier = if start.funds {
        effects_reading(
            digest_binding_reading(
                contract_after_build_funding,
                order_told(trace, OrderPhase::DigestVerifier)->Texts_0[0],
            )->Ok_0,
            start.swap_type,
            start.presign,
        )->Ok_0
    } else { contract_after_draft_contract };
    let contract_after_build_exit = exits_reading(
        contract_after_digest_verifier,
        start.swap_type,
        order_told(trace, OrderPhase::BuildExit)->Texts_0[0],
        order_told(trace, OrderPhase::BuildExit)->Texts_0[1],
        if order_told(trace, OrderPhase::BuildExit)->Texts_0.len() == 3 {
            Some(order_told(trace, OrderPhase::BuildExit)->Texts_0[2])
        } else { None },
    )->Ok_0;
    &&& run.swap_type == start.swap_type
    &&& run.funds == start.funds
    &&& run.presign == start.presign
    &&& run.session_id == start.session_id
    &&& run.kinds == start.kinds
    &&& run.phase.rank() > OrderPhase::ReadRecords.rank() ==> run.rfq_id == rfq_id
    &&& run.phase.rank() > OrderPhase::ReadRecords.rank() ==> run.quote_id == quote_id
    &&& run.phase.rank() > OrderPhase::SignOrder.rank() ==> run.order_id == order_id
    &&& OrderPhase::DraftContract.rank() < run.phase.rank() <= OrderPhase::BuildFunding.rank()
        ==> run.contract == contract_after_draft_contract
    &&& OrderPhase::BuildFunding.rank() < run.phase.rank() <= OrderPhase::DigestVerifier.rank()
        ==> run.contract == contract_after_build_funding
    &&& OrderPhase::DigestVerifier.rank() < run.phase.rank() <= OrderPhase::BuildExit.rank()
        ==> run.contract == contract_after_digest_verifier
    &&& run.phase.rank() > OrderPhase::BuildExit.rank()
        ==> run.contract == contract_after_build_exit
    &&& run.phase.rank() > OrderPhase::BuildFunding.rank() ==> run.funding_hex == funding_hex
    &&& run.phase.rank() > OrderPhase::BuildFunding.rank() ==> run.funding_sha256 == funding_sha256
    &&& run.phase.rank() > OrderPhase::BuildFunding.rank() ==> run.verifier == verifier
    &&& run.phase.rank() <= OrderPhase::BuildFunding.rank() ==> run.funding_hex == start.funding_hex
    &&& run.phase.rank() <= OrderPhase::BuildFunding.rank()
        ==> run.funding_sha256 == start.funding_sha256
    &&& run.phase.rank() <= OrderPhase::BuildFunding.rank() ==> run.verifier == start.verifier
    &&& run.phase == OrderPhase::BuildFunding ==> start.funds
    &&& run.phase == OrderPhase::DigestVerifier ==> start.funds
}

/// No phase of an order comes twice in a trace.
proof fn lemma_order_told_once(trace: Seq<(OrderRunView, ReplyView)>, place: int)
    requires
        is_order_trace(trace),
        0 <= place < trace.len(),
    ensures
        order_told(trace, trace[place].0.phase) == trace[place].1,
{
    let phase = trace[place].0.phase;
    let other = choose|i: int| 0 <= i < trace.len() && (#[trigger] trace[i]).0.phase == phase;
    assert(trace[place].0.phase == phase);
    if other != place {
        let (early, late) = if other < place {
            (other, place)
        } else {
            (place, other)
        };
        assert forall|run: OrderRunView, reply: ReplyView|
            (#[trigger] order_step(run, reply)) is Ok implies run.phase.rank() < order_step(
            run,
            reply,
        )->Ok_0.phase.rank() by {
            law_order_moves_forward(run, reply);
        }
        lemma_ranks_rise(
            trace,
            |run: OrderRunView, reply: ReplyView| order_step(run, reply),
            |run: OrderRunView| run.phase.rank(),
            early,
            late,
        );
    }
}

/// A reply keeps what an order holds, and adds what it tells.
proof fn lemma_order_holds_on(
    trace: Seq<(OrderRunView, ReplyView)>,
    run: OrderRunView,
    reply: ReplyView,
)
    requires
        order_holds(trace, run),
        order_told(trace, run.phase) == reply,
        order_step(run, reply) is Ok,
    ensures
        order_holds(trace, order_step(run, reply)->Ok_0),
{
    let next = order_step(run, reply)->Ok_0;
    match run.phase {
        OrderPhase::ReadRecords => assert(order_holds(trace, next)),
        OrderPhase::SignOrder => assert(order_holds(trace, next)),
        OrderPhase::PublishOrder => assert(order_holds(trace, next)),
        OrderPhase::DraftContract => assert(order_holds(trace, next)),
        OrderPhase::BuildFunding => assert(order_holds(trace, next)),
        OrderPhase::DigestVerifier => assert(order_holds(trace, next)),
        OrderPhase::BuildExit => assert(order_holds(trace, next)),
        OrderPhase::Finished => assert(order_holds(trace, next)),
    }
}

/// What an order has been told, it keeps: at every place of a trace each value that the run holds
/// is the one that the reply to the phase that asks for it gave, or the one that the run started
/// with.
pub proof fn law_order_keeps_what_it_was_told(trace: Seq<(OrderRunView, ReplyView)>, last: int)
    requires
        is_order_trace(trace),
        0 <= last < trace.len(),
    ensures
        order_holds(trace, trace[last].0),
    decreases last,
{
    if last > 0 {
        let before = last - 1;
        law_order_keeps_what_it_was_told(trace, before);
        lemma_order_told_once(trace, before);
        assert(order_step(trace[before].0, trace[before].1) == Ok::<OrderRunView, Seq<char>>(
            trace[before + 1].0,
        ));
        lemma_order_holds_on(trace, trace[before].0, trace[before].1);
    }
}

/// What an order asks for in each phase, in terms of the replies before it: the values in a request
/// are those that the replies to the named phases gave, or those that the run started with.
pub proof fn law_order_asks_with_what_it_was_told(trace: Seq<(OrderRunView, ReplyView)>, last: int)
    requires
        is_order_trace(trace),
        0 <= last < trace.len(),
    ensures
        ({
            let start = trace[0].0;
            let rfq_id = quoted_reading(
                order_told(trace, OrderPhase::ReadRecords)->Records_0,
                start.kinds,
                "quoted funded session"@,
            )->Ok_0.0;
            let quote_id = quoted_reading(
                order_told(trace, OrderPhase::ReadRecords)->Records_0,
                start.kinds,
                "quoted funded session"@,
            )->Ok_0.1;
            let order_id = order_told(trace, OrderPhase::SignOrder)->Record_id;
            let action = order_action(trace[last].0);
            match trace[last].0.phase {
                OrderPhase::ReadRecords => action == ActionView::Perform(Task::ReadRecords, seq![]),
                OrderPhase::SignOrder => action == ActionView::Perform(
                    Task::SignOrder,
                    seq!["order:"@ + start.session_id, rfq_id, quote_id],
                ),
                OrderPhase::PublishOrder => action == ActionView::Perform(
                    Task::PublishOrder,
                    seq![order_id],
                ),
                OrderPhase::DraftContract => action == ActionView::Perform(
                    Task::DraftContract,
                    seq![start.swap_type],
                ),
                OrderPhase::BuildFunding => action == ActionView::Perform(
                    Task::BuildFunding,
                    seq!["source"@],
                ),
                OrderPhase::DigestVerifier => action == ActionView::Perform(
                    Task::DigestVerifier,
                    seq![],
                ),
                OrderPhase::BuildExit => action == ActionView::Perform(
                    Task::BuildExit,
                    seq![start.swap_type, order_id, quote_id],
                ),
                OrderPhase::Finished => action == ActionView::Finish,
            }
        }),
{
    law_order_keeps_what_it_was_told(trace, last);
}

/// A contract is drafted only after the order was signed.
pub proof fn law_order_is_signed_before_its_contract(
    trace: Seq<(OrderRunView, ReplyView)>,
    last: int,
)
    requires
        is_order_trace(trace),
        0 <= last < trace.len(),
        trace[last].0.phase == OrderPhase::DraftContract,
    ensures
        exists|i: int|
            0 <= i < last && (#[trigger] trace[i]).0.phase == OrderPhase::SignOrder && trace[i].1 is
                Record,
{
    let i = lemma_milestone(
        trace,
        |run: OrderRunView, reply: ReplyView| order_step(run, reply),
        |run: OrderRunView| run.phase.rank(),
        1,
        last,
    );
    assert(trace[i].0.phase == OrderPhase::SignOrder);
    assert(order_step(trace[i].0, trace[i].1) == Ok::<OrderRunView, Seq<char>>(trace[i + 1].0));
}

/// The leg on Liquid of a chain swap, what it is for and how it is left.
pub open spec fn liquid_leg_of(
    direction: LiquidChainDirection,
) -> (Seq<char>, Seq<char>, Seq<char>) {
    match direction {
        LiquidChainDirection::BitcoinToLiquid => ("destination"@, "counterparty_lock"@, "claim"@),
        LiquidChainDirection::LiquidToBitcoin => ("source"@, "requester_broadcast"@, "refund"@),
    }
}

/// The leg on Bitcoin of a chain swap and how it is left.
pub open spec fn bitcoin_leg_of(direction: LiquidChainDirection) -> (Seq<char>, Seq<char>) {
    match direction {
        LiquidChainDirection::BitcoinToLiquid => ("source"@, "refund"@),
        LiquidChainDirection::LiquidToBitcoin => ("destination"@, "claim"@),
    }
}

/// The output that funds the source of a chain swap: the first on Bitcoin.
pub open spec fn source_output(direction: LiquidChainDirection, output_index: u32) -> u32 {
    match direction {
        LiquidChainDirection::BitcoinToLiquid => 0,
        LiquidChainDirection::LiquidToBitcoin => output_index,
    }
}

fn source_output_index(direction: LiquidChainDirection, output_index: u32) -> (output: u32)
    ensures
        output == source_output(direction, output_index),
{
    match direction {
        LiquidChainDirection::BitcoinToLiquid => 0,
        LiquidChainDirection::LiquidToBitcoin => output_index,
    }
}

/// The leg on Liquid of a Liquid swap, what it is for and how it is left.
pub open spec fn journey_leg_of(journey: LiquidJourney) -> (Seq<char>, Seq<char>, Seq<char>) {
    match journey {
        LiquidJourney::Submarine => ("source"@, "requester_broadcast"@, "refund"@),
        LiquidJourney::Reverse => ("destination"@, "counterparty_lock"@, "claim"@),
    }
}

/// The phases of the order of a chain swap, in their order.
#[derive(Clone, Copy, Debug, PartialEq, Eq, Structural)]
pub enum ChainOrderPhase {
    ReadRecords,
    SignOrder,
    PublishOrder,
    DraftTerms,
    BuildSource,
    HashFunding,
    DraftContract,
    BuildLiquidExit,
    BuildBitcoinExit,
    Finished,
}

impl ChainOrderPhase {
    /// The place of the phase in their order.
    pub open spec fn rank(self) -> int {
        match self {
            ChainOrderPhase::ReadRecords => 0,
            ChainOrderPhase::SignOrder => 1,
            ChainOrderPhase::PublishOrder => 2,
            ChainOrderPhase::DraftTerms => 3,
            ChainOrderPhase::BuildSource => 4,
            ChainOrderPhase::HashFunding => 5,
            ChainOrderPhase::DraftContract => 6,
            ChainOrderPhase::BuildLiquidExit => 7,
            ChainOrderPhase::BuildBitcoinExit => 8,
            ChainOrderPhase::Finished => 9,
        }
    }
}

/// A quote that is ordered and contracted between Bitcoin and Liquid.
pub struct ChainOrderRun {
    pub phase: ChainOrderPhase,
    pub direction: LiquidChainDirection,
    pub session_id: String,
    pub kinds: RecordKinds,
    pub rfq_id: String,
    pub quote_id: String,
    pub order_id: String,
    pub contract: Json,
    pub amount_sat: u64,
    pub funding_id: String,
    pub funding_output: u32,
    pub funding_hex: String,
    pub funding_sha256: String,
}

/// A quote that is ordered and contracted between Bitcoin and Liquid.
#[verifier::ext_equal]
pub struct ChainOrderRunView {
    pub phase: ChainOrderPhase,
    pub direction: LiquidChainDirection,
    pub session_id: Seq<char>,
    pub kinds: RecordKinds,
    pub rfq_id: Seq<char>,
    pub quote_id: Seq<char>,
    pub order_id: Seq<char>,
    pub contract: JsonView,
    pub amount_sat: u64,
    pub funding_id: Seq<char>,
    pub funding_output: u32,
    pub funding_hex: Seq<char>,
    pub funding_sha256: Seq<char>,
}

impl View for ChainOrderRun {
    type V = ChainOrderRunView;

    open spec fn view(&self) -> ChainOrderRunView {
        ChainOrderRunView {
            phase: self.phase,
            direction: self.direction,
            session_id: self.session_id@,
            kinds: self.kinds,
            rfq_id: self.rfq_id@,
            quote_id: self.quote_id@,
            order_id: self.order_id@,
            contract: self.contract@,
            amount_sat: self.amount_sat,
            funding_id: self.funding_id@,
            funding_output: self.funding_output,
            funding_hex: self.funding_hex@,
            funding_sha256: self.funding_sha256@,
        }
    }
}

/// What the order of a chain swap asks for next.
pub open spec fn chain_order_action(run: ChainOrderRunView) -> ActionView {
    match run.phase {
        ChainOrderPhase::ReadRecords => ActionView::Perform(Task::ReadRecords, seq![]),
        ChainOrderPhase::SignOrder => ActionView::Perform(
            Task::SignOrder,
            seq!["order:"@ + run.session_id, run.rfq_id, run.quote_id],
        ),
        ChainOrderPhase::PublishOrder => ActionView::Perform(
            Task::PublishOrder,
            seq![run.order_id],
        ),
        ChainOrderPhase::DraftTerms => ActionView::Perform(Task::DraftContract, seq!["chain"@]),
        ChainOrderPhase::BuildSource => ActionView::Perform(
            Task::BuildFunding,
            seq![run.direction.source_label()],
        ),
        ChainOrderPhase::HashFunding => ActionView::Perform(
            Task::HashFunding,
            seq![run.funding_hex],
        ),
        ChainOrderPhase::DraftContract => ActionView::Perform(
            Task::DraftContract,
            seq!["chain"@, run.funding_hex, run.funding_sha256, decimal(run.funding_output as nat)],
        ),
        ChainOrderPhase::BuildLiquidExit => ActionView::Perform(
            Task::BuildLiquidExit,
            seq![
                liquid_leg_of(run.direction).0,
                liquid_leg_of(run.direction).1,
                liquid_leg_of(run.direction).2,
            ],
        ),
        ChainOrderPhase::BuildBitcoinExit => ActionView::Perform(
            Task::BuildExit,
            seq![
                bitcoin_leg_of(run.direction).0,
                bitcoin_leg_of(run.direction).1,
                run.order_id,
                run.quote_id,
            ],
        ),
        ChainOrderPhase::Finished => ActionView::Finish,
    }
}

/// Where a reply takes the order of a chain swap.
pub open spec fn chain_order_step(run: ChainOrderRunView, reply: ReplyView) -> Result<
    ChainOrderRunView,
    Seq<char>,
> {
    match (run.phase, reply) {
        (ChainOrderPhase::ReadRecords, ReplyView::Records(records)) => match quoted_reading(
            records,
            run.kinds,
            "quoted chain session"@,
        ) {
            Err(message) => Err(message),
            Ok(ids) => Ok(
                ChainOrderRunView {
                    phase: ChainOrderPhase::SignOrder,
                    rfq_id: ids.0,
                    quote_id: ids.1,
                    ..run
                },
            ),
        },
        (ChainOrderPhase::SignOrder, ReplyView::Record { id, pubkey, tags, content, .. }) => Ok(
            ChainOrderRunView { phase: ChainOrderPhase::PublishOrder, order_id: id, ..run },
        ),
        (ChainOrderPhase::PublishOrder, ReplyView::Done) => Ok(
            ChainOrderRunView { phase: ChainOrderPhase::DraftTerms, ..run },
        ),
        (ChainOrderPhase::DraftTerms, ReplyView::Document(Some(document))) => match source_lock_reading(
            document,
        ) {
            Err(message) => Err(message),
            Ok(lock) => Ok(
                ChainOrderRunView {
                    phase: ChainOrderPhase::BuildSource,
                    amount_sat: lock.1,
                    ..run
                },
            ),
        },
        (ChainOrderPhase::BuildSource, ReplyView::Funding { receipt, id, output_index, hex }) => Ok(
            ChainOrderRunView {
                phase: ChainOrderPhase::HashFunding,
                funding_id: id,
                funding_output: source_output(run.direction, output_index),
                funding_hex: hex,
                ..run
            },
        ),
        (ChainOrderPhase::HashFunding, ReplyView::Texts(texts)) => {
            if texts.len() != 1 {
                Err(wrong_reply())
            } else {
                Ok(
                    ChainOrderRunView {
                        phase: ChainOrderPhase::DraftContract,
                        funding_sha256: texts[0],
                        ..run
                    },
                )
            }
        },
        (ChainOrderPhase::DraftContract, ReplyView::Document(Some(document))) => Ok(
            ChainOrderRunView {
                phase: ChainOrderPhase::BuildLiquidExit,
                contract: document,
                ..run
            },
        ),
        (ChainOrderPhase::BuildLiquidExit, ReplyView::Texts(texts)) => {
            if texts.len() != 2 {
                Err(wrong_reply())
            } else {
                match commitment_reading(
                    run.contract,
                    "requester"@,
                    liquid_leg_of(run.direction).0,
                    liquid_leg_of(run.direction).2,
                    texts[0],
                    texts[1],
                    "chain contract has no mutable exit commitments"@,
                ) {
                    Err(message) => Err(message),
                    Ok(bound) => Ok(
                        ChainOrderRunView {
                            phase: ChainOrderPhase::BuildBitcoinExit,
                            contract: bound,
                            ..run
                        },
                    ),
                }
            }
        },
        (ChainOrderPhase::BuildBitcoinExit, ReplyView::Texts(texts)) => {
            if texts.len() != 1 {
                Err(wrong_reply())
            } else {
                match commitment_reading(
                    run.contract,
                    "requester"@,
                    bitcoin_leg_of(run.direction).0,
                    bitcoin_leg_of(run.direction).1,
                    "wallet_sign"@,
                    texts[0],
                    "chain contract has no mutable exit commitments"@,
                ) {
                    Err(message) => Err(message),
                    Ok(bound) => Ok(
                        ChainOrderRunView {
                            phase: ChainOrderPhase::Finished,
                            contract: bound,
                            ..run
                        },
                    ),
                }
            }
        },
        _ => Err(wrong_reply()),
    }
}

impl ChainOrderRun {
    /// The order of a chain swap before its first action.
    pub fn new(
        direction: LiquidChainDirection,
        session_id: &str,
        kinds: RecordKinds,
    ) -> (run: ChainOrderRun)
        ensures
            run@.phase == ChainOrderPhase::ReadRecords,
            run@.direction == direction,
            run@.session_id == session_id@,
            run@.kinds == kinds,
            run@.rfq_id == Seq::<char>::empty(),
            run@.quote_id == Seq::<char>::empty(),
            run@.order_id == Seq::<char>::empty(),
            run@.contract == JsonView::Null,
            run@.amount_sat == 0,
            run@.funding_id == Seq::<char>::empty(),
            run@.funding_output == 0,
            run@.funding_hex == Seq::<char>::empty(),
            run@.funding_sha256 == Seq::<char>::empty(),
    {
        ChainOrderRun {
            phase: ChainOrderPhase::ReadRecords,
            direction,
            session_id: session_id.to_owned(),
            kinds,
            rfq_id: String::new(),
            quote_id: String::new(),
            order_id: String::new(),
            contract: Json::null(),
            amount_sat: 0,
            funding_id: String::new(),
            funding_output: 0,
            funding_hex: String::new(),
            funding_sha256: String::new(),
        }
    }

    /// What the journey asks for next.
    pub fn action(&self) -> (action: Action)
        ensures
            action@ == chain_order_action(self@),
    {
        match self.phase {
            ChainOrderPhase::ReadRecords => perform(Task::ReadRecords),
            ChainOrderPhase::SignOrder => perform_with_three(
                Task::SignOrder,
                join("order:", self.session_id.as_str()).as_str(),
                self.rfq_id.as_str(),
                self.quote_id.as_str(),
            ),
            ChainOrderPhase::PublishOrder => perform_with(
                Task::PublishOrder,
                self.order_id.as_str(),
            ),
            ChainOrderPhase::DraftTerms => perform_with(Task::DraftContract, "chain"),
            ChainOrderPhase::BuildSource => perform_with(
                Task::BuildFunding,
                self.direction.source_rail(),
            ),
            ChainOrderPhase::HashFunding => perform_with(
                Task::HashFunding,
                self.funding_hex.as_str(),
            ),
            ChainOrderPhase::DraftContract => perform_with_four(
                Task::DraftContract,
                "chain",
                self.funding_hex.as_str(),
                self.funding_sha256.as_str(),
                decimal_text(self.funding_output as u64).as_str(),
            ),
            ChainOrderPhase::BuildLiquidExit => perform_with_three(
                Task::BuildLiquidExit,
                self.liquid_leg().0,
                self.liquid_leg().1,
                self.liquid_leg().2,
            ),
            ChainOrderPhase::BuildBitcoinExit => perform_with_four(
                Task::BuildExit,
                self.bitcoin_leg().0,
                self.bitcoin_leg().1,
                self.order_id.as_str(),
                self.quote_id.as_str(),
            ),
            ChainOrderPhase::Finished => Action::Finish,
        }
    }

    /// Takes a reply: the journey goes on to its next phase, or ends with a message.
    #[verifier::rlimit(60)]
    pub fn advance(&mut self, reply: Reply) -> (moved: Result<(), String>)
        ensures
            match moved {
                Ok(_) => chain_order_step(old(self)@, reply@) == Ok::<ChainOrderRunView, Seq<char>>(
                    final(self)@,
                ),
                Err(message) => {
                    &&& chain_order_step(old(self)@, reply@) == Err::<ChainOrderRunView, Seq<char>>(
                        message@,
                    )
                    &&& final(self)@ == old(self)@
                },
            },
    {
        match (self.phase, reply) {
            (ChainOrderPhase::ReadRecords, Reply::Records(records)) => {
                let ids: (String, String) = quoted_records(
                    &records,
                    self.kinds,
                    "quoted chain session",
                )?;
                self.rfq_id = ids.0;
                self.quote_id = ids.1;
                self.phase = ChainOrderPhase::SignOrder;
                Ok(())
            },
            (ChainOrderPhase::SignOrder, Reply::Record(event)) => {
                self.order_id = event.id;
                self.phase = ChainOrderPhase::PublishOrder;
                Ok(())
            },
            (ChainOrderPhase::PublishOrder, Reply::Done) => {
                self.phase = ChainOrderPhase::DraftTerms;
                Ok(())
            },
            (ChainOrderPhase::DraftTerms, Reply::Document(Some(document))) => {
                let lock: (Vec<u8>, u64) = source_lock(&document)?;
                self.amount_sat = lock.1;
                self.phase = ChainOrderPhase::BuildSource;
                Ok(())
            },
            (ChainOrderPhase::BuildSource, Reply::Funding { receipt: _, id, output_index, hex }) => {
                self.funding_id = id;
                self.funding_output = source_output_index(self.direction, output_index);
                self.funding_hex = hex;
                self.phase = ChainOrderPhase::HashFunding;
                Ok(())
            },
            (ChainOrderPhase::HashFunding, Reply::Texts(texts)) => {
                if texts.len() != 1 {
                    return Err(wrong_reply_text());
                }
                self.funding_sha256 = texts[0].clone();
                self.phase = ChainOrderPhase::DraftContract;
                Ok(())
            },
            (ChainOrderPhase::DraftContract, Reply::Document(Some(document))) => {
                self.contract = document;
                self.phase = ChainOrderPhase::BuildLiquidExit;
                Ok(())
            },
            (ChainOrderPhase::BuildLiquidExit, Reply::Texts(texts)) => {
                if texts.len() != 2 {
                    return Err(wrong_reply_text());
                }
                let bound: Json = bind_exit_commitment(
                    &self.contract,
                    "requester",
                    self.liquid_leg().0,
                    self.liquid_leg().2,
                    texts[0].as_str(),
                    texts[1].as_str(),
                    "chain contract has no mutable exit commitments",
                )?;
                self.contract = bound;
                self.phase = ChainOrderPhase::BuildBitcoinExit;
                Ok(())
            },
            (ChainOrderPhase::BuildBitcoinExit, Reply::Texts(texts)) => {
                if texts.len() != 1 {
                    return Err(wrong_reply_text());
                }
                let bound: Json = bind_exit_commitment(
                    &self.contract,
                    "requester",
                    self.bitcoin_leg().0,
                    self.bitcoin_leg().1,
                    "wallet_sign",
                    texts[0].as_str(),
                    "chain contract has no mutable exit commitments",
                )?;
                self.contract = bound;
                self.phase = ChainOrderPhase::Finished;
                Ok(())
            },
            _ => Err(wrong_reply_text()),
        }
    }
}

/// Whether each entry of a trace leads to the one after it, from the first phase on.
pub open spec fn is_chain_order_trace(trace: Seq<(ChainOrderRunView, ReplyView)>) -> bool {
    &&& trace.len() > 0
    &&& trace[0].0.phase == ChainOrderPhase::ReadRecords
    &&& forall|i: int|
        0 <= i < trace.len() - 1 ==> chain_order_step((#[trigger] trace[i]).0, trace[i].1) == Ok::<
            ChainOrderRunView,
            Seq<char>,
        >(trace[i + 1].0)
}

/// Each reply takes the order of a chain swap forward, never back and never in place.
pub proof fn law_chain_order_moves_forward(run: ChainOrderRunView, reply: ReplyView)
    requires
        chain_order_step(run, reply) is Ok,
    ensures
        run.phase.rank() < chain_order_step(run, reply)->Ok_0.phase.rank(),
{
}

/// Which replies take the order of a chain swap on, and to which phase: in each phase exactly the
/// replies that pass every check of that phase, and no others.
pub proof fn law_chain_order_goes_on_only_when_answered(run: ChainOrderRunView, reply: ReplyView)
    ensures
        ({
            let next = chain_order_step(run, reply);
            match run.phase {
                ChainOrderPhase::ReadRecords => {
                    &&& next is Ok <==> {
                        &&& reply is Records
                        &&& quoted_reading(
                            reply->Records_0,
                            run.kinds,
                            "quoted chain session"@,
                        ) is Ok
                    }
                    &&& next is Ok ==> next->Ok_0.phase == ChainOrderPhase::SignOrder
                },
                ChainOrderPhase::SignOrder => {
                    &&& next is Ok <==> reply is Record
                    &&& next is Ok ==> next->Ok_0.phase == ChainOrderPhase::PublishOrder
                },
                ChainOrderPhase::PublishOrder => {
                    &&& next is Ok <==> reply is Done
                    &&& next is Ok ==> next->Ok_0.phase == ChainOrderPhase::DraftTerms
                },
                ChainOrderPhase::DraftTerms => {
                    &&& next is Ok <==> {
                        &&& reply is Document
                        &&& reply->Document_0 is Some
                        &&& source_lock_reading(reply->Document_0->0) is Ok
                    }
                    &&& next is Ok ==> next->Ok_0.phase == ChainOrderPhase::BuildSource
                },
                ChainOrderPhase::BuildSource => {
                    &&& next is Ok <==> reply is Funding
                    &&& next is Ok ==> next->Ok_0.phase == ChainOrderPhase::HashFunding
                },
                ChainOrderPhase::HashFunding => {
                    &&& next is Ok <==> {
                        &&& reply is Texts
                        &&& reply->Texts_0.len() == 1
                    }
                    &&& next is Ok ==> next->Ok_0.phase == ChainOrderPhase::DraftContract
                },
                ChainOrderPhase::DraftContract => {
                    &&& next is Ok <==> {
                        &&& reply is Document
                        &&& reply->Document_0 is Some
                    }
                    &&& next is Ok ==> next->Ok_0.phase == ChainOrderPhase::BuildLiquidExit
                },
                ChainOrderPhase::BuildLiquidExit => {
                    &&& next is Ok <==> {
                        &&& reply is Texts
                        &&& reply->Texts_0.len() == 2
                        &&& commitment_reading(
                            run.contract,
                            "requester"@,
                            liquid_leg_of(run.direction).0,
                            liquid_leg_of(run.direction).2,
                            reply->Texts_0[0],
                            reply->Texts_0[1],
                            "chain contract has no mutable exit commitments"@,
                        ) is Ok
                    }
                    &&& next is Ok ==> next->Ok_0.phase == ChainOrderPhase::BuildBitcoinExit
                },
                ChainOrderPhase::BuildBitcoinExit => {
                    &&& next is Ok <==> {
                        &&& reply is Texts
                        &&& reply->Texts_0.len() == 1
                        &&& commitment_reading(
                            run.contract,
                            "requester"@,
                            bitcoin_leg_of(run.direction).0,
                            bitcoin_leg_of(run.direction).1,
                            "wallet_sign"@,
                            reply->Texts_0[0],
                            "chain contract has no mutable exit commitments"@,
                        ) is Ok
                    }
                    &&& next is Ok ==> next->Ok_0.phase == ChainOrderPhase::Finished
                },
                ChainOrderPhase::Finished => next is Err,
            }
        }),
{
}

/// The reply that a trace of the order of a chain swap holds for a phase.
pub open spec fn chain_order_told(
    trace: Seq<(ChainOrderRunView, ReplyView)>,
    phase: ChainOrderPhase,
) -> ReplyView {
    trace[choose|i: int| 0 <= i < trace.len() && (#[trigger] trace[i]).0.phase == phase].1
}

/// The values that a run of the order of a chain swap holds, by the replies that gave them: each
/// stays as the reply to one phase gave it, or as the run started with it.
pub open spec fn chain_order_holds(
    trace: Seq<(ChainOrderRunView, ReplyView)>,
    run: ChainOrderRunView,
) -> bool {
    let start = trace[0].0;
    let rfq_id = quoted_reading(
        chain_order_told(trace, ChainOrderPhase::ReadRecords)->Records_0,
        start.kinds,
        "quoted chain session"@,
    )->Ok_0.0;
    let quote_id = quoted_reading(
        chain_order_told(trace, ChainOrderPhase::ReadRecords)->Records_0,
        start.kinds,
        "quoted chain session"@,
    )->Ok_0.1;
    let order_id = chain_order_told(trace, ChainOrderPhase::SignOrder)->Record_id;
    let amount_sat = source_lock_reading(
        chain_order_told(trace, ChainOrderPhase::DraftTerms)->Document_0->0,
    )->Ok_0.1;
    let funding_id = chain_order_told(trace, ChainOrderPhase::BuildSource)->Funding_id;
    let funding_output = source_output(
        start.direction,
        chain_order_told(trace, ChainOrderPhase::BuildSource)->Funding_output_index,
    );
    let funding_hex = chain_order_told(trace, ChainOrderPhase::BuildSource)->Funding_hex;
    let funding_sha256 = chain_order_told(trace, ChainOrderPhase::HashFunding)->Texts_0[0];
    let contract_after_draft_contract = chain_order_told(trace, ChainOrderPhase::DraftContract)->Document_0->0;
    let contract_after_build_liquid_exit = commitment_reading(
        contract_after_draft_contract,
        "requester"@,
        liquid_leg_of(start.direction).0,
        liquid_leg_of(start.direction).2,
        chain_order_told(trace, ChainOrderPhase::BuildLiquidExit)->Texts_0[0],
        chain_order_told(trace, ChainOrderPhase::BuildLiquidExit)->Texts_0[1],
        "chain contract has no mutable exit commitments"@,
    )->Ok_0;
    let contract_after_build_bitcoin_exit = commitment_reading(
        contract_after_build_liquid_exit,
        "requester"@,
        bitcoin_leg_of(start.direction).0,
        bitcoin_leg_of(start.direction).1,
        "wallet_sign"@,
        chain_order_told(trace, ChainOrderPhase::BuildBitcoinExit)->Texts_0[0],
        "chain contract has no mutable exit commitments"@,
    )->Ok_0;
    &&& run.direction == start.direction
    &&& run.session_id == start.session_id
    &&& run.kinds == start.kinds
    &&& run.phase.rank() > ChainOrderPhase::ReadRecords.rank() ==> run.rfq_id == rfq_id
    &&& run.phase.rank() > ChainOrderPhase::ReadRecords.rank() ==> run.quote_id == quote_id
    &&& run.phase.rank() > ChainOrderPhase::SignOrder.rank() ==> run.order_id == order_id
    &&& ChainOrderPhase::DraftContract.rank() < run.phase.rank() <= ChainOrderPhase::BuildLiquidExit.rank()
        ==> run.contract == contract_after_draft_contract
    &&& ChainOrderPhase::BuildLiquidExit.rank() < run.phase.rank() <= ChainOrderPhase::BuildBitcoinExit.rank()
        ==> run.contract == contract_after_build_liquid_exit
    &&& run.phase.rank() > ChainOrderPhase::BuildBitcoinExit.rank()
        ==> run.contract == contract_after_build_bitcoin_exit
    &&& run.phase.rank() > ChainOrderPhase::DraftTerms.rank() ==> run.amount_sat == amount_sat
    &&& run.phase.rank() > ChainOrderPhase::BuildSource.rank() ==> run.funding_id == funding_id
    &&& run.phase.rank() > ChainOrderPhase::BuildSource.rank()
        ==> run.funding_output == funding_output
    &&& run.phase.rank() > ChainOrderPhase::BuildSource.rank() ==> run.funding_hex == funding_hex
    &&& run.phase.rank() > ChainOrderPhase::HashFunding.rank()
        ==> run.funding_sha256 == funding_sha256
}

/// No phase of the order of a chain swap comes twice in a trace.
proof fn lemma_chain_order_told_once(trace: Seq<(ChainOrderRunView, ReplyView)>, place: int)
    requires
        is_chain_order_trace(trace),
        0 <= place < trace.len(),
    ensures
        chain_order_told(trace, trace[place].0.phase) == trace[place].1,
{
    let phase = trace[place].0.phase;
    let other = choose|i: int| 0 <= i < trace.len() && (#[trigger] trace[i]).0.phase == phase;
    assert(trace[place].0.phase == phase);
    if other != place {
        let (early, late) = if other < place {
            (other, place)
        } else {
            (place, other)
        };
        assert forall|run: ChainOrderRunView, reply: ReplyView|
            (#[trigger] chain_order_step(run, reply)) is Ok implies run.phase.rank() < chain_order_step(
            run,
            reply,
        )->Ok_0.phase.rank() by {
            law_chain_order_moves_forward(run, reply);
        }
        lemma_ranks_rise(
            trace,
            |run: ChainOrderRunView, reply: ReplyView| chain_order_step(run, reply),
            |run: ChainOrderRunView| run.phase.rank(),
            early,
            late,
        );
    }
}

/// A reply keeps what the order of a chain swap holds, and adds what it tells.
proof fn lemma_chain_order_holds_on(
    trace: Seq<(ChainOrderRunView, ReplyView)>,
    run: ChainOrderRunView,
    reply: ReplyView,
)
    requires
        chain_order_holds(trace, run),
        chain_order_told(trace, run.phase) == reply,
        chain_order_step(run, reply) is Ok,
    ensures
        chain_order_holds(trace, chain_order_step(run, reply)->Ok_0),
{
    let next = chain_order_step(run, reply)->Ok_0;
    match run.phase {
        ChainOrderPhase::ReadRecords => assert(chain_order_holds(trace, next)),
        ChainOrderPhase::SignOrder => assert(chain_order_holds(trace, next)),
        ChainOrderPhase::PublishOrder => assert(chain_order_holds(trace, next)),
        ChainOrderPhase::DraftTerms => assert(chain_order_holds(trace, next)),
        ChainOrderPhase::BuildSource => assert(chain_order_holds(trace, next)),
        ChainOrderPhase::HashFunding => assert(chain_order_holds(trace, next)),
        ChainOrderPhase::DraftContract => assert(chain_order_holds(trace, next)),
        ChainOrderPhase::BuildLiquidExit => assert(chain_order_holds(trace, next)),
        ChainOrderPhase::BuildBitcoinExit => assert(chain_order_holds(trace, next)),
        ChainOrderPhase::Finished => assert(chain_order_holds(trace, next)),
    }
}

/// What the order of a chain swap has been told, it keeps: at every place of a trace each value
/// that the run holds is the one that the reply to the phase that asks for it gave, or the one that
/// the run started with.
pub proof fn law_chain_order_keeps_what_it_was_told(
    trace: Seq<(ChainOrderRunView, ReplyView)>,
    last: int,
)
    requires
        is_chain_order_trace(trace),
        0 <= last < trace.len(),
    ensures
        chain_order_holds(trace, trace[last].0),
    decreases last,
{
    if last > 0 {
        let before = last - 1;
        law_chain_order_keeps_what_it_was_told(trace, before);
        lemma_chain_order_told_once(trace, before);
        assert(chain_order_step(trace[before].0, trace[before].1) == Ok::<ChainOrderRunView, Seq<char>>(
            trace[before + 1].0,
        ));
        lemma_chain_order_holds_on(trace, trace[before].0, trace[before].1);
    }
}

/// What the order of a chain swap asks for in each phase, in terms of the replies before it: the
/// values in a request are those that the replies to the named phases gave, or those that the run
/// started with.
pub proof fn law_chain_order_asks_with_what_it_was_told(
    trace: Seq<(ChainOrderRunView, ReplyView)>,
    last: int,
)
    requires
        is_chain_order_trace(trace),
        0 <= last < trace.len(),
    ensures
        ({
            let start = trace[0].0;
            let rfq_id = quoted_reading(
                chain_order_told(trace, ChainOrderPhase::ReadRecords)->Records_0,
                start.kinds,
                "quoted chain session"@,
            )->Ok_0.0;
            let quote_id = quoted_reading(
                chain_order_told(trace, ChainOrderPhase::ReadRecords)->Records_0,
                start.kinds,
                "quoted chain session"@,
            )->Ok_0.1;
            let order_id = chain_order_told(trace, ChainOrderPhase::SignOrder)->Record_id;
            let funding_output = source_output(
                start.direction,
                chain_order_told(trace, ChainOrderPhase::BuildSource)->Funding_output_index,
            );
            let funding_hex = chain_order_told(trace, ChainOrderPhase::BuildSource)->Funding_hex;
            let funding_sha256 = chain_order_told(trace, ChainOrderPhase::HashFunding)->Texts_0[0];
            let action = chain_order_action(trace[last].0);
            match trace[last].0.phase {
                ChainOrderPhase::ReadRecords => action == ActionView::Perform(
                    Task::ReadRecords,
                    seq![],
                ),
                ChainOrderPhase::SignOrder => action == ActionView::Perform(
                    Task::SignOrder,
                    seq!["order:"@ + start.session_id, rfq_id, quote_id],
                ),
                ChainOrderPhase::PublishOrder => action == ActionView::Perform(
                    Task::PublishOrder,
                    seq![order_id],
                ),
                ChainOrderPhase::DraftTerms => action == ActionView::Perform(
                    Task::DraftContract,
                    seq!["chain"@],
                ),
                ChainOrderPhase::BuildSource => action == ActionView::Perform(
                    Task::BuildFunding,
                    seq![start.direction.source_label()],
                ),
                ChainOrderPhase::HashFunding => action == ActionView::Perform(
                    Task::HashFunding,
                    seq![funding_hex],
                ),
                ChainOrderPhase::DraftContract => action == ActionView::Perform(
                    Task::DraftContract,
                    seq!["chain"@, funding_hex, funding_sha256, decimal(funding_output as nat)],
                ),
                ChainOrderPhase::BuildLiquidExit => action == ActionView::Perform(
                    Task::BuildLiquidExit,
                    seq![
                        liquid_leg_of(start.direction).0,
                        liquid_leg_of(start.direction).1,
                        liquid_leg_of(start.direction).2,
                    ],
                ),
                ChainOrderPhase::BuildBitcoinExit => action == ActionView::Perform(
                    Task::BuildExit,
                    seq![
                        bitcoin_leg_of(start.direction).0,
                        bitcoin_leg_of(start.direction).1,
                        order_id,
                        quote_id,
                    ],
                ),
                ChainOrderPhase::Finished => action == ActionView::Finish,
            }
        }),
{
    law_chain_order_keeps_what_it_was_told(trace, last);
}

/// A chain swap is ready only after the exit on Liquid was committed to.
pub proof fn law_chain_order_commits_its_liquid_exit(
    trace: Seq<(ChainOrderRunView, ReplyView)>,
    last: int,
)
    requires
        is_chain_order_trace(trace),
        0 <= last < trace.len(),
        trace[last].0.phase == ChainOrderPhase::Finished,
    ensures
        exists|i: int|
            0 <= i < last && (#[trigger] trace[i]).0.phase == ChainOrderPhase::BuildLiquidExit &&
                (trace[i].1 matches ReplyView::Texts(texts) &&
                commitment_reading(trace[i].0.contract, "requester"@,
                liquid_leg_of(trace[i].0.direction).0, liquid_leg_of(trace[i].0.direction).2,
                texts[0], texts[1], "chain contract has no mutable exit commitments"@) is Ok),
{
    let i = lemma_milestone(
        trace,
        |run: ChainOrderRunView, reply: ReplyView| chain_order_step(run, reply),
        |run: ChainOrderRunView| run.phase.rank(),
        7,
        last,
    );
    assert(trace[i].0.phase == ChainOrderPhase::BuildLiquidExit);
    assert(chain_order_step(trace[i].0, trace[i].1) == Ok::<ChainOrderRunView, Seq<char>>(trace[i +
        1].0));
}

/// A chain swap is ready only after the exit on Bitcoin was committed to.
pub proof fn law_chain_order_commits_its_bitcoin_exit(
    trace: Seq<(ChainOrderRunView, ReplyView)>,
    last: int,
)
    requires
        is_chain_order_trace(trace),
        0 <= last < trace.len(),
        trace[last].0.phase == ChainOrderPhase::Finished,
    ensures
        exists|i: int|
            0 <= i < last && (#[trigger] trace[i]).0.phase == ChainOrderPhase::BuildBitcoinExit &&
                (trace[i].1 matches ReplyView::Texts(texts) &&
                commitment_reading(trace[i].0.contract, "requester"@,
                bitcoin_leg_of(trace[i].0.direction).0, bitcoin_leg_of(trace[i].0.direction).1,
                "wallet_sign"@, texts[0], "chain contract has no mutable exit commitments"@) is Ok),
{
    let i = lemma_milestone(
        trace,
        |run: ChainOrderRunView, reply: ReplyView| chain_order_step(run, reply),
        |run: ChainOrderRunView| run.phase.rank(),
        8,
        last,
    );
    assert(trace[i].0.phase == ChainOrderPhase::BuildBitcoinExit);
    assert(chain_order_step(trace[i].0, trace[i].1) == Ok::<ChainOrderRunView, Seq<char>>(trace[i +
        1].0));
}

/// The contract is drafted only after the source was built.
pub proof fn law_chain_source_is_built_before_its_contract(
    trace: Seq<(ChainOrderRunView, ReplyView)>,
    last: int,
)
    requires
        is_chain_order_trace(trace),
        0 <= last < trace.len(),
        trace[last].0.phase == ChainOrderPhase::DraftContract,
    ensures
        exists|i: int|
            0 <= i < last && (#[trigger] trace[i]).0.phase == ChainOrderPhase::BuildSource &&
                trace[i].1 is Funding,
{
    let i = lemma_milestone(
        trace,
        |run: ChainOrderRunView, reply: ReplyView| chain_order_step(run, reply),
        |run: ChainOrderRunView| run.phase.rank(),
        4,
        last,
    );
    assert(trace[i].0.phase == ChainOrderPhase::BuildSource);
    assert(chain_order_step(trace[i].0, trace[i].1) == Ok::<ChainOrderRunView, Seq<char>>(trace[i +
        1].0));
}

/// The phases of the order of a Liquid swap, in their order.
#[derive(Clone, Copy, Debug, PartialEq, Eq, Structural)]
pub enum LiquidOrderPhase {
    ReadRecords,
    SignOrder,
    PublishOrder,
    DraftTerms,
    BuildSource,
    HashFunding,
    DraftContract,
    BuildLiquidExit,
    Finished,
}

impl LiquidOrderPhase {
    /// The place of the phase in their order.
    pub open spec fn rank(self) -> int {
        match self {
            LiquidOrderPhase::ReadRecords => 0,
            LiquidOrderPhase::SignOrder => 1,
            LiquidOrderPhase::PublishOrder => 2,
            LiquidOrderPhase::DraftTerms => 3,
            LiquidOrderPhase::BuildSource => 4,
            LiquidOrderPhase::HashFunding => 5,
            LiquidOrderPhase::DraftContract => 6,
            LiquidOrderPhase::BuildLiquidExit => 7,
            LiquidOrderPhase::Finished => 8,
        }
    }
}

/// A quote that is ordered and contracted between Liquid and Lightning.
pub struct LiquidOrderRun {
    pub phase: LiquidOrderPhase,
    pub journey: LiquidJourney,
    pub session_id: String,
    pub kinds: RecordKinds,
    pub rfq_id: String,
    pub quote_id: String,
    pub order_id: String,
    pub contract: Json,
    pub funding_id: String,
    pub funding_output: u32,
    pub funding_hex: String,
    pub funding_sha256: String,
}

/// A quote that is ordered and contracted between Liquid and Lightning.
#[verifier::ext_equal]
pub struct LiquidOrderRunView {
    pub phase: LiquidOrderPhase,
    pub journey: LiquidJourney,
    pub session_id: Seq<char>,
    pub kinds: RecordKinds,
    pub rfq_id: Seq<char>,
    pub quote_id: Seq<char>,
    pub order_id: Seq<char>,
    pub contract: JsonView,
    pub funding_id: Seq<char>,
    pub funding_output: u32,
    pub funding_hex: Seq<char>,
    pub funding_sha256: Seq<char>,
}

impl View for LiquidOrderRun {
    type V = LiquidOrderRunView;

    open spec fn view(&self) -> LiquidOrderRunView {
        LiquidOrderRunView {
            phase: self.phase,
            journey: self.journey,
            session_id: self.session_id@,
            kinds: self.kinds,
            rfq_id: self.rfq_id@,
            quote_id: self.quote_id@,
            order_id: self.order_id@,
            contract: self.contract@,
            funding_id: self.funding_id@,
            funding_output: self.funding_output,
            funding_hex: self.funding_hex@,
            funding_sha256: self.funding_sha256@,
        }
    }
}

/// What the order of a Liquid swap asks for next.
pub open spec fn liquid_order_action(run: LiquidOrderRunView) -> ActionView {
    match run.phase {
        LiquidOrderPhase::ReadRecords => ActionView::Perform(Task::ReadRecords, seq![]),
        LiquidOrderPhase::SignOrder => ActionView::Perform(
            Task::SignOrder,
            seq!["order:"@ + run.session_id, run.rfq_id, run.quote_id],
        ),
        LiquidOrderPhase::PublishOrder => ActionView::Perform(
            Task::PublishOrder,
            seq![run.order_id],
        ),
        LiquidOrderPhase::DraftTerms => ActionView::Perform(
            Task::DraftContract,
            seq![run.journey.swap_label()],
        ),
        LiquidOrderPhase::BuildSource => ActionView::Perform(Task::BuildFunding, seq!["liquid"@]),
        LiquidOrderPhase::HashFunding => ActionView::Perform(
            Task::HashFunding,
            seq![run.funding_hex],
        ),
        LiquidOrderPhase::DraftContract => ActionView::Perform(
            Task::DraftContract,
            seq![
                run.journey.swap_label(),
                run.funding_hex,
                run.funding_sha256,
                decimal(run.funding_output as nat),
            ],
        ),
        LiquidOrderPhase::BuildLiquidExit => ActionView::Perform(
            Task::BuildLiquidExit,
            seq![
                journey_leg_of(run.journey).0,
                journey_leg_of(run.journey).1,
                journey_leg_of(run.journey).2,
            ],
        ),
        LiquidOrderPhase::Finished => ActionView::Finish,
    }
}

/// Where a reply takes the order of a Liquid swap.
pub open spec fn liquid_order_step(run: LiquidOrderRunView, reply: ReplyView) -> Result<
    LiquidOrderRunView,
    Seq<char>,
> {
    match (run.phase, reply) {
        (LiquidOrderPhase::ReadRecords, ReplyView::Records(records)) => match quoted_reading(
            records,
            run.kinds,
            "quoted Liquid session"@,
        ) {
            Err(message) => Err(message),
            Ok(ids) => Ok(
                LiquidOrderRunView {
                    phase: LiquidOrderPhase::SignOrder,
                    rfq_id: ids.0,
                    quote_id: ids.1,
                    ..run
                },
            ),
        },
        (LiquidOrderPhase::SignOrder, ReplyView::Record { id, pubkey, tags, content, .. }) => Ok(
            LiquidOrderRunView { phase: LiquidOrderPhase::PublishOrder, order_id: id, ..run },
        ),
        (LiquidOrderPhase::PublishOrder, ReplyView::Done) => Ok(
            LiquidOrderRunView { phase: LiquidOrderPhase::DraftTerms, ..run },
        ),
        (LiquidOrderPhase::DraftTerms, ReplyView::Document(Some(document))) => {
            if run.journey == LiquidJourney::Submarine {
                Ok(
                    LiquidOrderRunView {
                        phase: LiquidOrderPhase::BuildSource,
                        contract: document,
                        ..run
                    },
                )
            } else {
                Ok(
                    LiquidOrderRunView {
                        phase: LiquidOrderPhase::DraftContract,
                        contract: document,
                        ..run
                    },
                )
            }
        },
        (LiquidOrderPhase::BuildSource, ReplyView::Funding { receipt, id, output_index, hex }) => Ok(
            LiquidOrderRunView {
                phase: LiquidOrderPhase::HashFunding,
                funding_id: id,
                funding_output: output_index,
                funding_hex: hex,
                ..run
            },
        ),
        (LiquidOrderPhase::HashFunding, ReplyView::Texts(texts)) => {
            if texts.len() != 1 {
                Err(wrong_reply())
            } else {
                Ok(
                    LiquidOrderRunView {
                        phase: LiquidOrderPhase::DraftContract,
                        funding_sha256: texts[0],
                        ..run
                    },
                )
            }
        },
        (LiquidOrderPhase::DraftContract, ReplyView::Document(Some(document))) => Ok(
            LiquidOrderRunView {
                phase: LiquidOrderPhase::BuildLiquidExit,
                contract: document,
                ..run
            },
        ),
        (LiquidOrderPhase::BuildLiquidExit, ReplyView::Texts(texts)) => {
            if texts.len() != 2 {
                Err(wrong_reply())
            } else {
                match commitment_reading(
                    run.contract,
                    "requester"@,
                    journey_leg_of(run.journey).0,
                    journey_leg_of(run.journey).2,
                    texts[0],
                    texts[1],
                    "chain contract has no mutable exit commitments"@,
                ) {
                    Err(message) => Err(message),
                    Ok(bound) => Ok(
                        LiquidOrderRunView {
                            phase: LiquidOrderPhase::Finished,
                            contract: bound,
                            ..run
                        },
                    ),
                }
            }
        },
        _ => Err(wrong_reply()),
    }
}

impl LiquidOrderRun {
    /// The order of a Liquid swap before its first action.
    pub fn new(
        journey: LiquidJourney,
        session_id: &str,
        kinds: RecordKinds,
    ) -> (run: LiquidOrderRun)
        ensures
            run@.phase == LiquidOrderPhase::ReadRecords,
            run@.journey == journey,
            run@.session_id == session_id@,
            run@.kinds == kinds,
            run@.rfq_id == Seq::<char>::empty(),
            run@.quote_id == Seq::<char>::empty(),
            run@.order_id == Seq::<char>::empty(),
            run@.contract == JsonView::Null,
            run@.funding_id == Seq::<char>::empty(),
            run@.funding_output == 0,
            run@.funding_hex == Seq::<char>::empty(),
            run@.funding_sha256 == Seq::<char>::empty(),
    {
        LiquidOrderRun {
            phase: LiquidOrderPhase::ReadRecords,
            journey,
            session_id: session_id.to_owned(),
            kinds,
            rfq_id: String::new(),
            quote_id: String::new(),
            order_id: String::new(),
            contract: Json::null(),
            funding_id: String::new(),
            funding_output: 0,
            funding_hex: String::new(),
            funding_sha256: String::new(),
        }
    }

    /// What the journey asks for next.
    pub fn action(&self) -> (action: Action)
        ensures
            action@ == liquid_order_action(self@),
    {
        match self.phase {
            LiquidOrderPhase::ReadRecords => perform(Task::ReadRecords),
            LiquidOrderPhase::SignOrder => perform_with_three(
                Task::SignOrder,
                join("order:", self.session_id.as_str()).as_str(),
                self.rfq_id.as_str(),
                self.quote_id.as_str(),
            ),
            LiquidOrderPhase::PublishOrder => perform_with(
                Task::PublishOrder,
                self.order_id.as_str(),
            ),
            LiquidOrderPhase::DraftTerms => perform_with(
                Task::DraftContract,
                self.journey.swap_type(),
            ),
            LiquidOrderPhase::BuildSource => perform_with(Task::BuildFunding, "liquid"),
            LiquidOrderPhase::HashFunding => perform_with(
                Task::HashFunding,
                self.funding_hex.as_str(),
            ),
            LiquidOrderPhase::DraftContract => perform_with_four(
                Task::DraftContract,
                self.journey.swap_type(),
                self.funding_hex.as_str(),
                self.funding_sha256.as_str(),
                decimal_text(self.funding_output as u64).as_str(),
            ),
            LiquidOrderPhase::BuildLiquidExit => perform_with_three(
                Task::BuildLiquidExit,
                self.liquid_leg().0,
                self.liquid_leg().1,
                self.liquid_leg().2,
            ),
            LiquidOrderPhase::Finished => Action::Finish,
        }
    }

    /// Takes a reply: the journey goes on to its next phase, or ends with a message.
    #[verifier::rlimit(60)]
    pub fn advance(&mut self, reply: Reply) -> (moved: Result<(), String>)
        ensures
            match moved {
                Ok(_) => liquid_order_step(
                    old(self)@,
                    reply@,
                ) == Ok::<LiquidOrderRunView, Seq<char>>(final(self)@),
                Err(message) => {
                    &&& liquid_order_step(
                        old(self)@,
                        reply@,
                    ) == Err::<LiquidOrderRunView, Seq<char>>(message@)
                    &&& final(self)@ == old(self)@
                },
            },
    {
        match (self.phase, reply) {
            (LiquidOrderPhase::ReadRecords, Reply::Records(records)) => {
                let ids: (String, String) = quoted_records(
                    &records,
                    self.kinds,
                    "quoted Liquid session",
                )?;
                self.rfq_id = ids.0;
                self.quote_id = ids.1;
                self.phase = LiquidOrderPhase::SignOrder;
                Ok(())
            },
            (LiquidOrderPhase::SignOrder, Reply::Record(event)) => {
                self.order_id = event.id;
                self.phase = LiquidOrderPhase::PublishOrder;
                Ok(())
            },
            (LiquidOrderPhase::PublishOrder, Reply::Done) => {
                self.phase = LiquidOrderPhase::DraftTerms;
                Ok(())
            },
            (LiquidOrderPhase::DraftTerms, Reply::Document(Some(document))) => {
                self.contract = document;
                self.phase = if self.journey == LiquidJourney::Submarine {
                    LiquidOrderPhase::BuildSource
                } else {
                    LiquidOrderPhase::DraftContract
                };
                Ok(())
            },
            (LiquidOrderPhase::BuildSource, Reply::Funding { receipt: _, id, output_index, hex }) => {
                self.funding_id = id;
                self.funding_output = output_index;
                self.funding_hex = hex;
                self.phase = LiquidOrderPhase::HashFunding;
                Ok(())
            },
            (LiquidOrderPhase::HashFunding, Reply::Texts(texts)) => {
                if texts.len() != 1 {
                    return Err(wrong_reply_text());
                }
                self.funding_sha256 = texts[0].clone();
                self.phase = LiquidOrderPhase::DraftContract;
                Ok(())
            },
            (LiquidOrderPhase::DraftContract, Reply::Document(Some(document))) => {
                self.contract = document;
                self.phase = LiquidOrderPhase::BuildLiquidExit;
                Ok(())
            },
            (LiquidOrderPhase::BuildLiquidExit, Reply::Texts(texts)) => {
                if texts.len() != 2 {
                    return Err(wrong_reply_text());
                }
                let bound: Json = bind_exit_commitment(
                    &self.contract,
                    "requester",
                    self.liquid_leg().0,
                    self.liquid_leg().2,
                    texts[0].as_str(),
                    texts[1].as_str(),
                    "chain contract has no mutable exit commitments",
                )?;
                self.contract = bound;
                self.phase = LiquidOrderPhase::Finished;
                Ok(())
            },
            _ => Err(wrong_reply_text()),
        }
    }
}

/// Whether each entry of a trace leads to the one after it, from the first phase on.
pub open spec fn is_liquid_order_trace(trace: Seq<(LiquidOrderRunView, ReplyView)>) -> bool {
    &&& trace.len() > 0
    &&& trace[0].0.phase == LiquidOrderPhase::ReadRecords
    &&& forall|i: int|
        0 <= i < trace.len() - 1 ==> liquid_order_step((#[trigger] trace[i]).0, trace[i].1) == Ok::<
            LiquidOrderRunView,
            Seq<char>,
        >(trace[i + 1].0)
}

/// Each reply takes the order of a Liquid swap forward, never back and never in place.
pub proof fn law_liquid_order_moves_forward(run: LiquidOrderRunView, reply: ReplyView)
    requires
        liquid_order_step(run, reply) is Ok,
    ensures
        run.phase.rank() < liquid_order_step(run, reply)->Ok_0.phase.rank(),
{
}

/// Which replies take the order of a Liquid swap on, and to which phase: in each phase exactly the
/// replies that pass every check of that phase, and no others.
pub proof fn law_liquid_order_goes_on_only_when_answered(run: LiquidOrderRunView, reply: ReplyView)
    ensures
        ({
            let next = liquid_order_step(run, reply);
            match run.phase {
                LiquidOrderPhase::ReadRecords => {
                    &&& next is Ok <==> {
                        &&& reply is Records
                        &&& quoted_reading(
                            reply->Records_0,
                            run.kinds,
                            "quoted Liquid session"@,
                        ) is Ok
                    }
                    &&& next is Ok ==> next->Ok_0.phase == LiquidOrderPhase::SignOrder
                },
                LiquidOrderPhase::SignOrder => {
                    &&& next is Ok <==> reply is Record
                    &&& next is Ok ==> next->Ok_0.phase == LiquidOrderPhase::PublishOrder
                },
                LiquidOrderPhase::PublishOrder => {
                    &&& next is Ok <==> reply is Done
                    &&& next is Ok ==> next->Ok_0.phase == LiquidOrderPhase::DraftTerms
                },
                LiquidOrderPhase::DraftTerms => {
                    let case_1 = run.journey == LiquidJourney::Submarine;
                    let case_2 = run.journey != LiquidJourney::Submarine;
                    &&& next is Ok <==> {
                        &&& reply is Document
                        &&& reply->Document_0 is Some
                        &&& (case_1 || case_2)
                    }
                    &&& next is Ok && case_1 ==> next->Ok_0.phase == LiquidOrderPhase::BuildSource
                    &&& next is Ok && case_2 ==> next->Ok_0.phase == LiquidOrderPhase::DraftContract
                },
                LiquidOrderPhase::BuildSource => {
                    &&& next is Ok <==> reply is Funding
                    &&& next is Ok ==> next->Ok_0.phase == LiquidOrderPhase::HashFunding
                },
                LiquidOrderPhase::HashFunding => {
                    &&& next is Ok <==> {
                        &&& reply is Texts
                        &&& reply->Texts_0.len() == 1
                    }
                    &&& next is Ok ==> next->Ok_0.phase == LiquidOrderPhase::DraftContract
                },
                LiquidOrderPhase::DraftContract => {
                    &&& next is Ok <==> {
                        &&& reply is Document
                        &&& reply->Document_0 is Some
                    }
                    &&& next is Ok ==> next->Ok_0.phase == LiquidOrderPhase::BuildLiquidExit
                },
                LiquidOrderPhase::BuildLiquidExit => {
                    &&& next is Ok <==> {
                        &&& reply is Texts
                        &&& reply->Texts_0.len() == 2
                        &&& commitment_reading(
                            run.contract,
                            "requester"@,
                            journey_leg_of(run.journey).0,
                            journey_leg_of(run.journey).2,
                            reply->Texts_0[0],
                            reply->Texts_0[1],
                            "chain contract has no mutable exit commitments"@,
                        ) is Ok
                    }
                    &&& next is Ok ==> next->Ok_0.phase == LiquidOrderPhase::Finished
                },
                LiquidOrderPhase::Finished => next is Err,
            }
        }),
{
}

/// The reply that a trace of the order of a Liquid swap holds for a phase.
pub open spec fn liquid_order_told(
    trace: Seq<(LiquidOrderRunView, ReplyView)>,
    phase: LiquidOrderPhase,
) -> ReplyView {
    trace[choose|i: int| 0 <= i < trace.len() && (#[trigger] trace[i]).0.phase == phase].1
}

/// The values that a run of the order of a Liquid swap holds, by the replies that gave them: each
/// stays as the reply to one phase gave it, or as the run started with it.
pub open spec fn liquid_order_holds(
    trace: Seq<(LiquidOrderRunView, ReplyView)>,
    run: LiquidOrderRunView,
) -> bool {
    let start = trace[0].0;
    let rfq_id = quoted_reading(
        liquid_order_told(trace, LiquidOrderPhase::ReadRecords)->Records_0,
        start.kinds,
        "quoted Liquid session"@,
    )->Ok_0.0;
    let quote_id = quoted_reading(
        liquid_order_told(trace, LiquidOrderPhase::ReadRecords)->Records_0,
        start.kinds,
        "quoted Liquid session"@,
    )->Ok_0.1;
    let order_id = liquid_order_told(trace, LiquidOrderPhase::SignOrder)->Record_id;
    let contract_after_draft_terms = liquid_order_told(trace, LiquidOrderPhase::DraftTerms)->Document_0->0;
    let funding_id = if start.journey == LiquidJourney::Submarine {
        liquid_order_told(trace, LiquidOrderPhase::BuildSource)->Funding_id
    } else { start.funding_id };
    let funding_output = if start.journey == LiquidJourney::Submarine {
        liquid_order_told(trace, LiquidOrderPhase::BuildSource)->Funding_output_index
    } else { start.funding_output };
    let funding_hex = if start.journey == LiquidJourney::Submarine {
        liquid_order_told(trace, LiquidOrderPhase::BuildSource)->Funding_hex
    } else { start.funding_hex };
    let funding_sha256 = if start.journey == LiquidJourney::Submarine {
        liquid_order_told(trace, LiquidOrderPhase::HashFunding)->Texts_0[0]
    } else { start.funding_sha256 };
    let contract_after_draft_contract = liquid_order_told(trace, LiquidOrderPhase::DraftContract)->Document_0->0;
    let contract_after_build_liquid_exit = commitment_reading(
        contract_after_draft_contract,
        "requester"@,
        journey_leg_of(start.journey).0,
        journey_leg_of(start.journey).2,
        liquid_order_told(trace, LiquidOrderPhase::BuildLiquidExit)->Texts_0[0],
        liquid_order_told(trace, LiquidOrderPhase::BuildLiquidExit)->Texts_0[1],
        "chain contract has no mutable exit commitments"@,
    )->Ok_0;
    &&& run.journey == start.journey
    &&& run.session_id == start.session_id
    &&& run.kinds == start.kinds
    &&& run.phase.rank() > LiquidOrderPhase::ReadRecords.rank() ==> run.rfq_id == rfq_id
    &&& run.phase.rank() > LiquidOrderPhase::ReadRecords.rank() ==> run.quote_id == quote_id
    &&& run.phase.rank() > LiquidOrderPhase::SignOrder.rank() ==> run.order_id == order_id
    &&& LiquidOrderPhase::DraftTerms.rank() < run.phase.rank() <= LiquidOrderPhase::DraftContract.rank()
        ==> run.contract == contract_after_draft_terms
    &&& LiquidOrderPhase::DraftContract.rank() < run.phase.rank() <= LiquidOrderPhase::BuildLiquidExit.rank()
        ==> run.contract == contract_after_draft_contract
    &&& run.phase.rank() > LiquidOrderPhase::BuildLiquidExit.rank()
        ==> run.contract == contract_after_build_liquid_exit
    &&& run.phase.rank() > LiquidOrderPhase::BuildSource.rank() ==> run.funding_id == funding_id
    &&& run.phase.rank() > LiquidOrderPhase::BuildSource.rank()
        ==> run.funding_output == funding_output
    &&& run.phase.rank() > LiquidOrderPhase::BuildSource.rank() ==> run.funding_hex == funding_hex
    &&& run.phase.rank() > LiquidOrderPhase::HashFunding.rank()
        ==> run.funding_sha256 == funding_sha256
    &&& run.phase.rank() <= LiquidOrderPhase::BuildSource.rank()
        ==> run.funding_id == start.funding_id
    &&& run.phase.rank() <= LiquidOrderPhase::BuildSource.rank()
        ==> run.funding_output == start.funding_output
    &&& run.phase.rank() <= LiquidOrderPhase::BuildSource.rank()
        ==> run.funding_hex == start.funding_hex
    &&& run.phase.rank() <= LiquidOrderPhase::HashFunding.rank()
        ==> run.funding_sha256 == start.funding_sha256
    &&& run.phase == LiquidOrderPhase::BuildSource ==> start.journey == LiquidJourney::Submarine
    &&& run.phase == LiquidOrderPhase::HashFunding ==> start.journey == LiquidJourney::Submarine
}

/// No phase of the order of a Liquid swap comes twice in a trace.
proof fn lemma_liquid_order_told_once(trace: Seq<(LiquidOrderRunView, ReplyView)>, place: int)
    requires
        is_liquid_order_trace(trace),
        0 <= place < trace.len(),
    ensures
        liquid_order_told(trace, trace[place].0.phase) == trace[place].1,
{
    let phase = trace[place].0.phase;
    let other = choose|i: int| 0 <= i < trace.len() && (#[trigger] trace[i]).0.phase == phase;
    assert(trace[place].0.phase == phase);
    if other != place {
        let (early, late) = if other < place {
            (other, place)
        } else {
            (place, other)
        };
        assert forall|run: LiquidOrderRunView, reply: ReplyView|
            (#[trigger] liquid_order_step(run, reply)) is Ok implies run.phase.rank() < liquid_order_step(
            run,
            reply,
        )->Ok_0.phase.rank() by {
            law_liquid_order_moves_forward(run, reply);
        }
        lemma_ranks_rise(
            trace,
            |run: LiquidOrderRunView, reply: ReplyView| liquid_order_step(run, reply),
            |run: LiquidOrderRunView| run.phase.rank(),
            early,
            late,
        );
    }
}

/// A reply keeps what the order of a Liquid swap holds, and adds what it tells.
proof fn lemma_liquid_order_holds_on(
    trace: Seq<(LiquidOrderRunView, ReplyView)>,
    run: LiquidOrderRunView,
    reply: ReplyView,
)
    requires
        liquid_order_holds(trace, run),
        liquid_order_told(trace, run.phase) == reply,
        liquid_order_step(run, reply) is Ok,
    ensures
        liquid_order_holds(trace, liquid_order_step(run, reply)->Ok_0),
{
    let next = liquid_order_step(run, reply)->Ok_0;
    match run.phase {
        LiquidOrderPhase::ReadRecords => assert(liquid_order_holds(trace, next)),
        LiquidOrderPhase::SignOrder => assert(liquid_order_holds(trace, next)),
        LiquidOrderPhase::PublishOrder => assert(liquid_order_holds(trace, next)),
        LiquidOrderPhase::DraftTerms => assert(liquid_order_holds(trace, next)),
        LiquidOrderPhase::BuildSource => assert(liquid_order_holds(trace, next)),
        LiquidOrderPhase::HashFunding => assert(liquid_order_holds(trace, next)),
        LiquidOrderPhase::DraftContract => assert(liquid_order_holds(trace, next)),
        LiquidOrderPhase::BuildLiquidExit => assert(liquid_order_holds(trace, next)),
        LiquidOrderPhase::Finished => assert(liquid_order_holds(trace, next)),
    }
}

/// What the order of a Liquid swap has been told, it keeps: at every place of a trace each value
/// that the run holds is the one that the reply to the phase that asks for it gave, or the one that
/// the run started with.
pub proof fn law_liquid_order_keeps_what_it_was_told(
    trace: Seq<(LiquidOrderRunView, ReplyView)>,
    last: int,
)
    requires
        is_liquid_order_trace(trace),
        0 <= last < trace.len(),
    ensures
        liquid_order_holds(trace, trace[last].0),
    decreases last,
{
    if last > 0 {
        let before = last - 1;
        law_liquid_order_keeps_what_it_was_told(trace, before);
        lemma_liquid_order_told_once(trace, before);
        assert(liquid_order_step(trace[before].0, trace[before].1) == Ok::<LiquidOrderRunView, Seq<char>>(
            trace[before + 1].0,
        ));
        lemma_liquid_order_holds_on(trace, trace[before].0, trace[before].1);
    }
}

/// What the order of a Liquid swap asks for in each phase, in terms of the replies before it: the
/// values in a request are those that the replies to the named phases gave, or those that the run
/// started with.
pub proof fn law_liquid_order_asks_with_what_it_was_told(
    trace: Seq<(LiquidOrderRunView, ReplyView)>,
    last: int,
)
    requires
        is_liquid_order_trace(trace),
        0 <= last < trace.len(),
    ensures
        ({
            let start = trace[0].0;
            let rfq_id = quoted_reading(
                liquid_order_told(trace, LiquidOrderPhase::ReadRecords)->Records_0,
                start.kinds,
                "quoted Liquid session"@,
            )->Ok_0.0;
            let quote_id = quoted_reading(
                liquid_order_told(trace, LiquidOrderPhase::ReadRecords)->Records_0,
                start.kinds,
                "quoted Liquid session"@,
            )->Ok_0.1;
            let order_id = liquid_order_told(trace, LiquidOrderPhase::SignOrder)->Record_id;
            let funding_output = if start.journey == LiquidJourney::Submarine {
                liquid_order_told(trace, LiquidOrderPhase::BuildSource)->Funding_output_index
            } else { start.funding_output };
            let funding_hex = if start.journey == LiquidJourney::Submarine {
                liquid_order_told(trace, LiquidOrderPhase::BuildSource)->Funding_hex
            } else { start.funding_hex };
            let funding_sha256 = if start.journey == LiquidJourney::Submarine {
                liquid_order_told(trace, LiquidOrderPhase::HashFunding)->Texts_0[0]
            } else { start.funding_sha256 };
            let action = liquid_order_action(trace[last].0);
            match trace[last].0.phase {
                LiquidOrderPhase::ReadRecords => action == ActionView::Perform(
                    Task::ReadRecords,
                    seq![],
                ),
                LiquidOrderPhase::SignOrder => action == ActionView::Perform(
                    Task::SignOrder,
                    seq!["order:"@ + start.session_id, rfq_id, quote_id],
                ),
                LiquidOrderPhase::PublishOrder => action == ActionView::Perform(
                    Task::PublishOrder,
                    seq![order_id],
                ),
                LiquidOrderPhase::DraftTerms => action == ActionView::Perform(
                    Task::DraftContract,
                    seq![start.journey.swap_label()],
                ),
                LiquidOrderPhase::BuildSource => action == ActionView::Perform(
                    Task::BuildFunding,
                    seq!["liquid"@],
                ),
                LiquidOrderPhase::HashFunding => action == ActionView::Perform(
                    Task::HashFunding,
                    seq![funding_hex],
                ),
                LiquidOrderPhase::DraftContract => action == ActionView::Perform(
                    Task::DraftContract,
                    seq![
                        start.journey.swap_label(),
                        funding_hex,
                        funding_sha256,
                        decimal(funding_output as nat),
                    ],
                ),
                LiquidOrderPhase::BuildLiquidExit => action == ActionView::Perform(
                    Task::BuildLiquidExit,
                    seq![
                        journey_leg_of(start.journey).0,
                        journey_leg_of(start.journey).1,
                        journey_leg_of(start.journey).2,
                    ],
                ),
                LiquidOrderPhase::Finished => action == ActionView::Finish,
            }
        }),
{
    law_liquid_order_keeps_what_it_was_told(trace, last);
}

/// A Liquid swap is ready only after its exit was committed to.
pub proof fn law_liquid_order_commits_its_exit(
    trace: Seq<(LiquidOrderRunView, ReplyView)>,
    last: int,
)
    requires
        is_liquid_order_trace(trace),
        0 <= last < trace.len(),
        trace[last].0.phase == LiquidOrderPhase::Finished,
    ensures
        exists|i: int|
            0 <= i < last && (#[trigger] trace[i]).0.phase == LiquidOrderPhase::BuildLiquidExit &&
                (trace[i].1 matches ReplyView::Texts(texts) &&
                commitment_reading(trace[i].0.contract, "requester"@,
                journey_leg_of(trace[i].0.journey).0, journey_leg_of(trace[i].0.journey).2,
                texts[0], texts[1], "chain contract has no mutable exit commitments"@) is Ok),
{
    let i = lemma_milestone(
        trace,
        |run: LiquidOrderRunView, reply: ReplyView| liquid_order_step(run, reply),
        |run: LiquidOrderRunView| run.phase.rank(),
        7,
        last,
    );
    assert(trace[i].0.phase == LiquidOrderPhase::BuildLiquidExit);
    assert(liquid_order_step(trace[i].0, trace[i].1) == Ok::<LiquidOrderRunView, Seq<char>>(trace[i
        + 1].0));
}

impl ChainOrderRun {
    fn liquid_leg(&self) -> (leg: (&'static str, &'static str, &'static str))
        ensures
            ((leg.0)@, (leg.1)@, (leg.2)@) == liquid_leg_of(self.direction),
    {
        match self.direction {
            LiquidChainDirection::BitcoinToLiquid => ("destination", "counterparty_lock", "claim"),
            LiquidChainDirection::LiquidToBitcoin => ("source", "requester_broadcast", "refund"),
        }
    }

    fn bitcoin_leg(&self) -> (leg: (&'static str, &'static str))
        ensures
            ((leg.0)@, (leg.1)@) == bitcoin_leg_of(self.direction),
    {
        match self.direction {
            LiquidChainDirection::BitcoinToLiquid => ("source", "refund"),
            LiquidChainDirection::LiquidToBitcoin => ("destination", "claim"),
        }
    }
}

impl LiquidOrderRun {
    fn liquid_leg(&self) -> (leg: (&'static str, &'static str, &'static str))
        ensures
            ((leg.0)@, (leg.1)@, (leg.2)@) == journey_leg_of(self.journey),
    {
        match self.journey {
            LiquidJourney::Submarine => ("source", "requester_broadcast", "refund"),
            LiquidJourney::Reverse => ("destination", "counterparty_lock", "claim"),
        }
    }
}

/// The two legs of a chain swap are left in opposite ways, each on its own rail.
pub proof fn law_chain_legs_are_opposite(direction: LiquidChainDirection)
    ensures
        liquid_leg_of(direction).0 != bitcoin_leg_of(direction).0,
        liquid_leg_of(direction).2 != bitcoin_leg_of(direction).1,
{
    reveal_strlit("source");
    reveal_strlit("destination");
    reveal_strlit("claim");
    reveal_strlit("refund");
    assert("source"@.len() != "destination"@.len());
    assert("claim"@.len() != "refund"@.len());
}

/// The phases of the signing of a contract, in their order.
#[derive(Clone, Copy, Debug, PartialEq, Eq, Structural)]
pub enum FinalizePhase {
    ReadRecords,
    SignContract,
    PublishContract,
    AwaitProviderContract,
    CheckSignature,
    FinalizeExits,
    FindCanonical,
    VerifySession,
    ApplyProbe,
    Finished,
}

impl FinalizePhase {
    /// The place of the phase in their order.
    pub open spec fn rank(self) -> int {
        match self {
            FinalizePhase::ReadRecords => 0,
            FinalizePhase::SignContract => 1,
            FinalizePhase::PublishContract => 2,
            FinalizePhase::AwaitProviderContract => 3,
            FinalizePhase::CheckSignature => 4,
            FinalizePhase::FinalizeExits => 5,
            FinalizePhase::FindCanonical => 6,
            FinalizePhase::VerifySession => 7,
            FinalizePhase::ApplyProbe => 8,
            FinalizePhase::Finished => 9,
        }
    }
}

/// A contract that both sides sign before anything is funded.
pub struct FinalizeRun {
    pub phase: FinalizePhase,
    pub session_id: String,
    pub kinds: RecordKinds,
    pub injection: Option<HarnessInjection>,
    pub contract: Json,
    pub rfq_id: String,
    pub quote_id: String,
    pub requester_contract_id: String,
    pub requester_digest: Option<String>,
    pub provider_contract_id: String,
    pub provider_digest: Option<String>,
    pub contract_sha256: String,
}

/// A contract that both sides sign before anything is funded.
#[verifier::ext_equal]
pub struct FinalizeRunView {
    pub phase: FinalizePhase,
    pub session_id: Seq<char>,
    pub kinds: RecordKinds,
    pub injection: Option<HarnessInjection>,
    pub contract: JsonView,
    pub rfq_id: Seq<char>,
    pub quote_id: Seq<char>,
    pub requester_contract_id: Seq<char>,
    pub requester_digest: Option<Seq<char>>,
    pub provider_contract_id: Seq<char>,
    pub provider_digest: Option<Seq<char>>,
    pub contract_sha256: Seq<char>,
}

impl View for FinalizeRun {
    type V = FinalizeRunView;

    open spec fn view(&self) -> FinalizeRunView {
        FinalizeRunView {
            phase: self.phase,
            session_id: self.session_id@,
            kinds: self.kinds,
            injection: self.injection,
            contract: self.contract@,
            rfq_id: self.rfq_id@,
            quote_id: self.quote_id@,
            requester_contract_id: self.requester_contract_id@,
            requester_digest: maybe(self.requester_digest),
            provider_contract_id: self.provider_contract_id@,
            provider_digest: maybe(self.provider_digest),
            contract_sha256: self.contract_sha256@,
        }
    }
}

/// What the signing of a contract asks for next.
pub open spec fn finalize_action(run: FinalizeRunView) -> ActionView {
    match run.phase {
        FinalizePhase::ReadRecords => ActionView::Perform(Task::ReadRecords, seq![]),
        FinalizePhase::SignContract => ActionView::Perform(
            Task::SignContract,
            seq!["requester-contract:"@ + run.session_id, run.rfq_id, run.quote_id],
        ),
        FinalizePhase::PublishContract => ActionView::Perform(
            Task::PublishContract,
            seq![run.requester_contract_id],
        ),
        FinalizePhase::AwaitProviderContract => ActionView::Perform(
            Task::AwaitProviderContract,
            seq![],
        ),
        FinalizePhase::CheckSignature => ActionView::Perform(
            Task::CheckSignature,
            seq![run.provider_contract_id],
        ),
        FinalizePhase::FinalizeExits => ActionView::Perform(
            Task::FinalizeExits,
            seq![run.requester_contract_id, run.provider_contract_id, run.contract_sha256],
        ),
        FinalizePhase::FindCanonical => ActionView::Perform(Task::FindCanonical, seq![]),
        FinalizePhase::VerifySession => ActionView::Perform(Task::VerifySession, seq![]),
        FinalizePhase::ApplyProbe => ActionView::Perform(
            Task::ApplyProbe,
            seq![probe_label(probe_for(run.injection))],
        ),
        FinalizePhase::Finished => ActionView::Finish,
    }
}

/// Where a reply takes the signing of a contract.
pub open spec fn finalize_step(run: FinalizeRunView, reply: ReplyView) -> Result<
    FinalizeRunView,
    Seq<char>,
> {
    match (run.phase, reply) {
        (FinalizePhase::ReadRecords, ReplyView::Records(records)) => match quoted_reading(
            records,
            run.kinds,
            "prepared funded session"@,
        ) {
            Err(message) => Err(message),
            Ok(ids) => Ok(
                FinalizeRunView {
                    phase: FinalizePhase::SignContract,
                    rfq_id: ids.0,
                    quote_id: ids.1,
                    ..run
                },
            ),
        },
        (FinalizePhase::SignContract, ReplyView::Record { id, pubkey, tags, content, .. }) => Ok(
            FinalizeRunView {
                phase: FinalizePhase::PublishContract,
                requester_digest: single_tag(tags, "x"@),
                requester_contract_id: id,
                ..run
            },
        ),
        (FinalizePhase::PublishContract, ReplyView::Done) => Ok(
            FinalizeRunView { phase: FinalizePhase::AwaitProviderContract, ..run },
        ),
        (FinalizePhase::AwaitProviderContract, ReplyView::Record { id, pubkey, tags, content, .. }) => match profile_reading(
            content,
        ) {
            Err(message) => Err(message),
            Ok(profile) => {
                if !carries_terms(profile, run.contract) {
                    Err("provider countersigned different funded contract terms"@)
                } else {
                    Ok(
                        FinalizeRunView {
                            phase: FinalizePhase::CheckSignature,
                            provider_digest: single_tag(tags, "x"@),
                            provider_contract_id: id,
                            ..run
                        },
                    )
                }
            },
        },
        (FinalizePhase::CheckSignature, ReplyView::Done) => match run.requester_digest {
            None => Err("event does not have exactly one x tag"@),
            Some(mine) => match run.provider_digest {
                None => Err("event does not have exactly one x tag"@),
                Some(theirs) => {
                    if theirs != mine {
                        Err("provider contract digest differs from requester contract digest"@)
                    } else {
                        Ok(
                            FinalizeRunView {
                                phase: FinalizePhase::FinalizeExits,
                                contract_sha256: mine,
                                ..run
                            },
                        )
                    }
                },
            },
        },
        (FinalizePhase::FinalizeExits, ReplyView::Done) => Ok(
            FinalizeRunView { phase: FinalizePhase::VerifySession, ..run },
        ),
        (FinalizePhase::FinalizeExits, ReplyView::Texts(texts)) => {
            if texts.len() != 2 {
                Err(wrong_reply())
            } else if texts[0] != texts[1] {
                Err(
                    "provider exit seed commitment differs from the accepted-session canonical package"@,
                )
            } else {
                Ok(FinalizeRunView { phase: FinalizePhase::FindCanonical, ..run })
            }
        },
        (FinalizePhase::FindCanonical, ReplyView::Truth(value)) => {
            if value != true {
                Err("finalized provider exit differs from the accepted-session canonical package"@)
            } else {
                Ok(FinalizeRunView { phase: FinalizePhase::VerifySession, ..run })
            }
        },
        (FinalizePhase::VerifySession, ReplyView::Done) => Ok(
            FinalizeRunView { phase: FinalizePhase::ApplyProbe, ..run },
        ),
        (FinalizePhase::ApplyProbe, ReplyView::Done) => Ok(
            FinalizeRunView { phase: FinalizePhase::Finished, ..run },
        ),
        (FinalizePhase::ApplyProbe, ReplyView::Refused { code, message }) => Err(message),
        _ => Err(wrong_reply()),
    }
}

impl FinalizeRun {
    /// The signing of a contract before its first action.
    pub fn new(
        session_id: &str,
        kinds: RecordKinds,
        injection: Option<HarnessInjection>,
        contract: &Json,
    ) -> (run: FinalizeRun)
        ensures
            run@.phase == FinalizePhase::ReadRecords,
            run@.session_id == session_id@,
            run@.kinds == kinds,
            run@.injection == injection,
            run@.contract == contract@,
            run@.rfq_id == Seq::<char>::empty(),
            run@.quote_id == Seq::<char>::empty(),
            run@.requester_contract_id == Seq::<char>::empty(),
            run@.requester_digest is None,
            run@.provider_contract_id == Seq::<char>::empty(),
            run@.provider_digest is None,
            run@.contract_sha256 == Seq::<char>::empty(),
    {
        FinalizeRun {
            phase: FinalizePhase::ReadRecords,
            session_id: session_id.to_owned(),
            kinds,
            injection,
            contract: contract.copy(),
            rfq_id: String::new(),
            quote_id: String::new(),
            requester_contract_id: String::new(),
            requester_digest: None,
            provider_contract_id: String::new(),
            provider_digest: None,
            contract_sha256: String::new(),
        }
    }

    /// What the journey asks for next.
    pub fn action(&self) -> (action: Action)
        ensures
            action@ == finalize_action(self@),
    {
        match self.phase {
            FinalizePhase::ReadRecords => perform(Task::ReadRecords),
            FinalizePhase::SignContract => perform_with_three(
                Task::SignContract,
                join("requester-contract:", self.session_id.as_str()).as_str(),
                self.rfq_id.as_str(),
                self.quote_id.as_str(),
            ),
            FinalizePhase::PublishContract => perform_with(
                Task::PublishContract,
                self.requester_contract_id.as_str(),
            ),
            FinalizePhase::AwaitProviderContract => perform(Task::AwaitProviderContract),
            FinalizePhase::CheckSignature => perform_with(
                Task::CheckSignature,
                self.provider_contract_id.as_str(),
            ),
            FinalizePhase::FinalizeExits => perform_with_three(
                Task::FinalizeExits,
                self.requester_contract_id.as_str(),
                self.provider_contract_id.as_str(),
                self.contract_sha256.as_str(),
            ),
            FinalizePhase::FindCanonical => perform(Task::FindCanonical),
            FinalizePhase::VerifySession => perform(Task::VerifySession),
            FinalizePhase::ApplyProbe => perform_with(
                Task::ApplyProbe,
                probe_name(pre_fund_probe(self.injection)),
            ),
            FinalizePhase::Finished => Action::Finish,
        }
    }

    /// Takes a reply: the journey goes on to its next phase, or ends with a message.
    #[verifier::rlimit(60)]
    pub fn advance(&mut self, reply: Reply) -> (moved: Result<(), String>)
        ensures
            match moved {
                Ok(_) => finalize_step(old(self)@, reply@) == Ok::<FinalizeRunView, Seq<char>>(
                    final(self)@,
                ),
                Err(message) => {
                    &&& finalize_step(old(self)@, reply@) == Err::<FinalizeRunView, Seq<char>>(
                        message@,
                    )
                    &&& final(self)@ == old(self)@
                },
            },
    {
        match (self.phase, reply) {
            (FinalizePhase::ReadRecords, Reply::Records(records)) => {
                let ids: (String, String) = quoted_records(
                    &records,
                    self.kinds,
                    "prepared funded session",
                )?;
                self.rfq_id = ids.0;
                self.quote_id = ids.1;
                self.phase = FinalizePhase::SignContract;
                Ok(())
            },
            (FinalizePhase::SignContract, Reply::Record(event)) => {
                self.requester_digest = find_single_tag(&event, "x");
                self.requester_contract_id = event.id;
                self.phase = FinalizePhase::PublishContract;
                Ok(())
            },
            (FinalizePhase::PublishContract, Reply::Done) => {
                self.phase = FinalizePhase::AwaitProviderContract;
                Ok(())
            },
            (FinalizePhase::AwaitProviderContract, Reply::Record(event)) => {
                let profile: JsonObject = record_profile(&event)?;
                if !profile_carries(&profile, &self.contract) {
                    return Err("provider countersigned different funded contract terms".to_owned());
                }
                self.provider_digest = find_single_tag(&event, "x");
                self.provider_contract_id = event.id;
                self.phase = FinalizePhase::CheckSignature;
                Ok(())
            },
            (FinalizePhase::CheckSignature, Reply::Done) => {
                let mine: String = match &self.requester_digest {
                    Some(mine) => mine.clone(),
                    None => {
                        return Err("event does not have exactly one x tag".to_owned());
                    },
                };
                let theirs: String = match &self.provider_digest {
                    Some(theirs) => theirs.clone(),
                    None => {
                        return Err("event does not have exactly one x tag".to_owned());
                    },
                };
                if !same_text(theirs.as_str(), mine.as_str()) {
                    return Err(
                        "provider contract digest differs from requester contract digest".to_owned(),
                    );
                }
                self.contract_sha256 = mine;
                self.phase = FinalizePhase::FinalizeExits;
                Ok(())
            },
            (FinalizePhase::FinalizeExits, Reply::Done) => {
                self.phase = FinalizePhase::VerifySession;
                Ok(())
            },
            (FinalizePhase::FinalizeExits, Reply::Texts(texts)) => {
                if texts.len() != 2 {
                    return Err(wrong_reply_text());
                }
                if !same_text(texts[0].as_str(), texts[1].as_str()) {
                    return Err(
                        "provider exit seed commitment differs from the accepted-session canonical package".to_owned(),
                    );
                }
                self.phase = FinalizePhase::FindCanonical;
                Ok(())
            },
            (FinalizePhase::FindCanonical, Reply::Truth(value)) => {
                if value != true {
                    return Err(
                        "finalized provider exit differs from the accepted-session canonical package".to_owned(),
                    );
                }
                self.phase = FinalizePhase::VerifySession;
                Ok(())
            },
            (FinalizePhase::VerifySession, Reply::Done) => {
                self.phase = FinalizePhase::ApplyProbe;
                Ok(())
            },
            (FinalizePhase::ApplyProbe, Reply::Done) => {
                self.phase = FinalizePhase::Finished;
                Ok(())
            },
            (FinalizePhase::ApplyProbe, Reply::Refused { code: _, message }) => {
                Err(message)
            },
            _ => Err(wrong_reply_text()),
        }
    }
}

/// Whether each entry of a trace leads to the one after it, from the first phase on.
pub open spec fn is_finalize_trace(trace: Seq<(FinalizeRunView, ReplyView)>) -> bool {
    &&& trace.len() > 0
    &&& trace[0].0.phase == FinalizePhase::ReadRecords
    &&& forall|i: int|
        0 <= i < trace.len() - 1 ==> finalize_step((#[trigger] trace[i]).0, trace[i].1) == Ok::<
            FinalizeRunView,
            Seq<char>,
        >(trace[i + 1].0)
}

/// Each reply takes the signing of a contract forward, never back and never in place.
pub proof fn law_finalize_moves_forward(run: FinalizeRunView, reply: ReplyView)
    requires
        finalize_step(run, reply) is Ok,
    ensures
        run.phase.rank() < finalize_step(run, reply)->Ok_0.phase.rank(),
{
}

/// Which replies take the signing of a contract on, and to which phase: in each phase exactly the
/// replies that pass every check of that phase, and no others.
pub proof fn law_finalize_goes_on_only_when_answered(run: FinalizeRunView, reply: ReplyView)
    ensures
        ({
            let next = finalize_step(run, reply);
            match run.phase {
                FinalizePhase::ReadRecords => {
                    &&& next is Ok <==> {
                        &&& reply is Records
                        &&& quoted_reading(
                            reply->Records_0,
                            run.kinds,
                            "prepared funded session"@,
                        ) is Ok
                    }
                    &&& next is Ok ==> next->Ok_0.phase == FinalizePhase::SignContract
                },
                FinalizePhase::SignContract => {
                    &&& next is Ok <==> reply is Record
                    &&& next is Ok ==> next->Ok_0.phase == FinalizePhase::PublishContract
                },
                FinalizePhase::PublishContract => {
                    &&& next is Ok <==> reply is Done
                    &&& next is Ok ==> next->Ok_0.phase == FinalizePhase::AwaitProviderContract
                },
                FinalizePhase::AwaitProviderContract => {
                    &&& next is Ok <==> {
                        &&& reply is Record
                        &&& profile_reading(reply->Record_content) is Ok
                        &&& carries_terms(
                            profile_reading(reply->Record_content)->Ok_0,
                            run.contract,
                        )
                    }
                    &&& next is Ok ==> next->Ok_0.phase == FinalizePhase::CheckSignature
                },
                FinalizePhase::CheckSignature => {
                    &&& next is Ok <==> {
                        &&& reply is Done
                        &&& run.requester_digest is Some
                        &&& run.provider_digest is Some
                        &&& run.provider_digest->0 == run.requester_digest->0
                    }
                    &&& next is Ok ==> next->Ok_0.phase == FinalizePhase::FinalizeExits
                },
                FinalizePhase::FinalizeExits => {
                    let case_1 = reply is Done;
                    let case_2 = {
                        &&& reply is Texts
                        &&& reply->Texts_0.len() == 2
                        &&& reply->Texts_0[0] == reply->Texts_0[1]
                    };
                    &&& next is Ok <==> (case_1 || case_2)
                    &&& next is Ok && case_1 ==> next->Ok_0.phase == FinalizePhase::VerifySession
                    &&& next is Ok && case_2 ==> next->Ok_0.phase == FinalizePhase::FindCanonical
                },
                FinalizePhase::FindCanonical => {
                    &&& next is Ok <==> {
                        &&& reply is Truth
                        &&& reply->Truth_0 == true
                    }
                    &&& next is Ok ==> next->Ok_0.phase == FinalizePhase::VerifySession
                },
                FinalizePhase::VerifySession => {
                    &&& next is Ok <==> reply is Done
                    &&& next is Ok ==> next->Ok_0.phase == FinalizePhase::ApplyProbe
                },
                FinalizePhase::ApplyProbe => {
                    &&& next is Ok <==> reply is Done
                    &&& next is Ok ==> next->Ok_0.phase == FinalizePhase::Finished
                },
                FinalizePhase::Finished => next is Err,
            }
        }),
{
}

/// The reply that a trace of the signing of a contract holds for a phase.
pub open spec fn finalize_told(
    trace: Seq<(FinalizeRunView, ReplyView)>,
    phase: FinalizePhase,
) -> ReplyView {
    trace[choose|i: int| 0 <= i < trace.len() && (#[trigger] trace[i]).0.phase == phase].1
}

/// The values that a run of the signing of a contract holds, by the replies that gave them: each
/// stays as the reply to one phase gave it, or as the run started with it.
pub open spec fn finalize_holds(
    trace: Seq<(FinalizeRunView, ReplyView)>,
    run: FinalizeRunView,
) -> bool {
    let start = trace[0].0;
    let rfq_id = quoted_reading(
        finalize_told(trace, FinalizePhase::ReadRecords)->Records_0,
        start.kinds,
        "prepared funded session"@,
    )->Ok_0.0;
    let quote_id = quoted_reading(
        finalize_told(trace, FinalizePhase::ReadRecords)->Records_0,
        start.kinds,
        "prepared funded session"@,
    )->Ok_0.1;
    let requester_contract_id = finalize_told(trace, FinalizePhase::SignContract)->Record_id;
    let requester_digest = single_tag(finalize_told(trace, FinalizePhase::SignContract)->Record_tags, "x"@);
    let provider_contract_id = finalize_told(trace, FinalizePhase::AwaitProviderContract)->Record_id;
    let provider_digest = single_tag(finalize_told(trace, FinalizePhase::AwaitProviderContract)->Record_tags, "x"@);
    let contract_sha256 = requester_digest->0;
    &&& run.session_id == start.session_id
    &&& run.kinds == start.kinds
    &&& run.injection == start.injection
    &&& run.contract == start.contract
    &&& run.phase.rank() > FinalizePhase::ReadRecords.rank() ==> run.rfq_id == rfq_id
    &&& run.phase.rank() > FinalizePhase::ReadRecords.rank() ==> run.quote_id == quote_id
    &&& run.phase.rank() > FinalizePhase::SignContract.rank()
        ==> run.requester_contract_id == requester_contract_id
    &&& run.phase.rank() > FinalizePhase::SignContract.rank()
        ==> run.requester_digest == requester_digest
    &&& run.phase.rank() > FinalizePhase::AwaitProviderContract.rank()
        ==> run.provider_contract_id == provider_contract_id
    &&& run.phase.rank() > FinalizePhase::AwaitProviderContract.rank()
        ==> run.provider_digest == provider_digest
    &&& run.phase.rank() > FinalizePhase::CheckSignature.rank()
        ==> run.contract_sha256 == contract_sha256
}

/// No phase of the signing of a contract comes twice in a trace.
proof fn lemma_finalize_told_once(trace: Seq<(FinalizeRunView, ReplyView)>, place: int)
    requires
        is_finalize_trace(trace),
        0 <= place < trace.len(),
    ensures
        finalize_told(trace, trace[place].0.phase) == trace[place].1,
{
    let phase = trace[place].0.phase;
    let other = choose|i: int| 0 <= i < trace.len() && (#[trigger] trace[i]).0.phase == phase;
    assert(trace[place].0.phase == phase);
    if other != place {
        let (early, late) = if other < place {
            (other, place)
        } else {
            (place, other)
        };
        assert forall|run: FinalizeRunView, reply: ReplyView|
            (#[trigger] finalize_step(run, reply)) is Ok implies run.phase.rank() < finalize_step(
            run,
            reply,
        )->Ok_0.phase.rank() by {
            law_finalize_moves_forward(run, reply);
        }
        lemma_ranks_rise(
            trace,
            |run: FinalizeRunView, reply: ReplyView| finalize_step(run, reply),
            |run: FinalizeRunView| run.phase.rank(),
            early,
            late,
        );
    }
}

/// A reply keeps what the signing of a contract holds, and adds what it tells.
proof fn lemma_finalize_holds_on(
    trace: Seq<(FinalizeRunView, ReplyView)>,
    run: FinalizeRunView,
    reply: ReplyView,
)
    requires
        finalize_holds(trace, run),
        finalize_told(trace, run.phase) == reply,
        finalize_step(run, reply) is Ok,
    ensures
        finalize_holds(trace, finalize_step(run, reply)->Ok_0),
{
    let next = finalize_step(run, reply)->Ok_0;
    match run.phase {
        FinalizePhase::ReadRecords => assert(finalize_holds(trace, next)),
        FinalizePhase::SignContract => assert(finalize_holds(trace, next)),
        FinalizePhase::PublishContract => assert(finalize_holds(trace, next)),
        FinalizePhase::AwaitProviderContract => assert(finalize_holds(trace, next)),
        FinalizePhase::CheckSignature => assert(finalize_holds(trace, next)),
        FinalizePhase::FinalizeExits => assert(finalize_holds(trace, next)),
        FinalizePhase::FindCanonical => assert(finalize_holds(trace, next)),
        FinalizePhase::VerifySession => assert(finalize_holds(trace, next)),
        FinalizePhase::ApplyProbe => assert(finalize_holds(trace, next)),
        FinalizePhase::Finished => assert(finalize_holds(trace, next)),
    }
}

/// What the signing of a contract has been told, it keeps: at every place of a trace each value
/// that the run holds is the one that the reply to the phase that asks for it gave, or the one that
/// the run started with.
pub proof fn law_finalize_keeps_what_it_was_told(
    trace: Seq<(FinalizeRunView, ReplyView)>,
    last: int,
)
    requires
        is_finalize_trace(trace),
        0 <= last < trace.len(),
    ensures
        finalize_holds(trace, trace[last].0),
    decreases last,
{
    if last > 0 {
        let before = last - 1;
        law_finalize_keeps_what_it_was_told(trace, before);
        lemma_finalize_told_once(trace, before);
        assert(finalize_step(trace[before].0, trace[before].1) == Ok::<FinalizeRunView, Seq<char>>(
            trace[before + 1].0,
        ));
        lemma_finalize_holds_on(trace, trace[before].0, trace[before].1);
    }
}

/// What the signing of a contract asks for in each phase, in terms of the replies before it: the
/// values in a request are those that the replies to the named phases gave, or those that the run
/// started with.
pub proof fn law_finalize_asks_with_what_it_was_told(
    trace: Seq<(FinalizeRunView, ReplyView)>,
    last: int,
)
    requires
        is_finalize_trace(trace),
        0 <= last < trace.len(),
    ensures
        ({
            let start = trace[0].0;
            let rfq_id = quoted_reading(
                finalize_told(trace, FinalizePhase::ReadRecords)->Records_0,
                start.kinds,
                "prepared funded session"@,
            )->Ok_0.0;
            let quote_id = quoted_reading(
                finalize_told(trace, FinalizePhase::ReadRecords)->Records_0,
                start.kinds,
                "prepared funded session"@,
            )->Ok_0.1;
            let requester_contract_id = finalize_told(trace, FinalizePhase::SignContract)->Record_id;
            let requester_digest = single_tag(finalize_told(trace, FinalizePhase::SignContract)->Record_tags, "x"@);
            let provider_contract_id = finalize_told(trace, FinalizePhase::AwaitProviderContract)->Record_id;
            let contract_sha256 = requester_digest->0;
            let action = finalize_action(trace[last].0);
            match trace[last].0.phase {
                FinalizePhase::ReadRecords => action == ActionView::Perform(
                    Task::ReadRecords,
                    seq![],
                ),
                FinalizePhase::SignContract => action == ActionView::Perform(
                    Task::SignContract,
                    seq!["requester-contract:"@ + start.session_id, rfq_id, quote_id],
                ),
                FinalizePhase::PublishContract => action == ActionView::Perform(
                    Task::PublishContract,
                    seq![requester_contract_id],
                ),
                FinalizePhase::AwaitProviderContract => action == ActionView::Perform(
                    Task::AwaitProviderContract,
                    seq![],
                ),
                FinalizePhase::CheckSignature => action == ActionView::Perform(
                    Task::CheckSignature,
                    seq![provider_contract_id],
                ),
                FinalizePhase::FinalizeExits => action == ActionView::Perform(
                    Task::FinalizeExits,
                    seq![requester_contract_id, provider_contract_id, contract_sha256],
                ),
                FinalizePhase::FindCanonical => action == ActionView::Perform(
                    Task::FindCanonical,
                    seq![],
                ),
                FinalizePhase::VerifySession => action == ActionView::Perform(
                    Task::VerifySession,
                    seq![],
                ),
                FinalizePhase::ApplyProbe => action == ActionView::Perform(
                    Task::ApplyProbe,
                    seq![probe_label(probe_for(start.injection))],
                ),
                FinalizePhase::Finished => action == ActionView::Finish,
            }
        }),
{
    law_finalize_keeps_what_it_was_told(trace, last);
}

/// Whether every reply of a trace answers the action that it is told for.
pub open spec fn is_answered_finalize(
    trace: Seq<(FinalizeRunView, ReplyView)>,
    kinds: RecordKinds,
    provider: Seq<char>,
) -> bool {
    forall|i: int|
        0 <= i < trace.len() - 1 ==> answers(
            finalize_action((#[trigger] trace[i]).0),
            trace[i].1,
            kinds,
            provider,
        )
}

/// A session is ready only after the provider signed the same contract: they have sent a contract
/// of their own that carries its terms.
pub proof fn law_contract_is_countersigned_first(
    trace: Seq<(FinalizeRunView, ReplyView)>,
    kinds: RecordKinds,
    provider: Seq<char>,
    last: int,
) -> (place: int)
    requires
        is_finalize_trace(trace),
        is_answered_finalize(trace, kinds, provider),
        0 <= last < trace.len(),
        trace[last].0.phase.rank() > FinalizePhase::AwaitProviderContract.rank(),
    ensures
        0 <= place < last,
        countersigns(trace[place].1, kinds, provider),
        trace[place].1 matches ReplyView::Record { id, tags, content, .. } && {
            &&& profile_reading(content) is Ok
            &&& carries_terms(profile_reading(content)->Ok_0, trace[last].0.contract)
            &&& id == trace[last].0.provider_contract_id
            &&& single_tag(tags, "x"@) == trace[last].0.provider_digest
        },
    decreases last,
{
    let before = trace[last - 1].0;
    assert(finalize_step(before, trace[last - 1].1) == Ok::<FinalizeRunView, Seq<char>>(
        trace[last].0,
    ));
    if before.phase == FinalizePhase::AwaitProviderContract {
        assert(answers(finalize_action(before), trace[last - 1].1, kinds, provider));
        last - 1
    } else {
        law_contract_is_countersigned_first(trace, kinds, provider, last - 1)
    }
}

/// A session is ready only where the contracts that both sides have signed have one digest.
pub proof fn law_contract_digests_are_compared(trace: Seq<(FinalizeRunView, ReplyView)>, last: int)
    requires
        is_finalize_trace(trace),
        0 <= last < trace.len(),
        trace[last].0.phase.rank() > FinalizePhase::CheckSignature.rank(),
    ensures
        trace[last].0.requester_digest == Some(trace[last].0.contract_sha256),
        trace[last].0.provider_digest == trace[last].0.requester_digest,
    decreases last,
{
    let before = trace[last - 1].0;
    assert(finalize_step(before, trace[last - 1].1) == Ok::<FinalizeRunView, Seq<char>>(
        trace[last].0,
    ));
    if before.phase != FinalizePhase::CheckSignature {
        law_contract_digests_are_compared(trace, last - 1);
    }
}

/// The two legs of a chain swap are opposite: one is the source and the other the destination, whichever
/// way the swap goes. The requester leaves a source by a refund and a destination by a claim, and
/// broadcasts the lock of exactly the leg that is a source.
pub proof fn law_legs_of_a_chain_swap_are_opposite(direction: LiquidChainDirection)
    ensures
        bitcoin_leg_of(direction).0 != liquid_leg_of(direction).0,
        bitcoin_leg_of(direction).0 == "source"@ <==> direction is BitcoinToLiquid,
        bitcoin_leg_of(direction).0 == "source"@ <==> bitcoin_leg_of(direction).1 == "refund"@,
        bitcoin_leg_of(direction).0 == "destination"@ <==> bitcoin_leg_of(direction).1 == "claim"@,
        liquid_leg_of(direction).0 == "source"@ <==> liquid_leg_of(direction).2 == "refund"@,
        liquid_leg_of(direction).0 == "destination"@ <==> liquid_leg_of(direction).2 == "claim"@,
        liquid_leg_of(direction).0 == "source"@ <==> liquid_leg_of(direction).1
            == "requester_broadcast"@,
        liquid_leg_of(direction).0 == "destination"@ <==> liquid_leg_of(direction).1
            == "counterparty_lock"@,
        direction is BitcoinToLiquid ==> liquid_leg_of(direction) == journey_leg_of(
            LiquidJourney::Reverse,
        ),
        direction is LiquidToBitcoin ==> liquid_leg_of(direction) == journey_leg_of(
            LiquidJourney::Submarine,
        ),
{
    reveal_strlit("source");
    reveal_strlit("destination");
    reveal_strlit("refund");
    reveal_strlit("claim");
    reveal_strlit("requester_broadcast");
    reveal_strlit("counterparty_lock");
    assert("source"@.len() == 6);
    assert("destination"@.len() == 11);
    assert("refund"@.len() == 6);
    assert("claim"@.len() == 5);
    assert("requester_broadcast"@.len() == 19);
    assert("counterparty_lock"@.len() == 17);
    assert("source"@[0] == 's');
    assert("refund"@[0] == 'r');
}

/// A time that is some seconds later is exactly that much later, unless time ends before.
pub proof fn law_later_is_later(time: u64, seconds: u64)
    ensures
        later(time, seconds) >= time,
        time + seconds <= u64::MAX ==> later(time, seconds) == time + seconds,
        time + seconds > u64::MAX ==> later(time, seconds) == u64::MAX,
{
}

} // verus!
