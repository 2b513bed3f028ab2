use immortal_lab::authorize::{
    chain_bitcoin_before_fund_input, chain_bitcoin_verification_input, chain_timeout_ladder,
    check_authorized, lightning_readiness, liquid_invoice_verification,
    liquid_lightning_readiness, stale_quote_time, verify_before_fund_input, Authorized,
    FundingSite, NodeInfo, ReadinessRequest,
};
use immortal_lab::contract::{amount_after_fee, bitcoin_terms, reverse_refund_height};
use immortal_lab::control::FundedCheckpoint;
use immortal_lab::evidence::{
    cooperative_injection, cooperative_report, expects_provider, journey_evidence, journey_report,
    run_funded_smoke, with_external_control,
};
use immortal_lab::exit::{
    bind_effects, bind_exit_commitment, bind_requester_exit_packages, bind_requester_funding,
    bind_verifier_digest, confirmation_policy, finalize_exit_package, plan_requester_exit,
    presign_exit, requester_effect_preimage, requester_exit_shape, settles_jointly,
    upsert_effect_binding, upsert_exit_commitment,
};
use immortal_lab::fee::{
    check_recovery, check_secret_file, covering_output, lab_pricing, liquid_fee_inputs,
    liquid_fee_schedule, liquid_quote_priced_vbytes, liquid_submarine_invoice_amount_sat,
    preimage_binding_text, wallet_binding_text, LiquidSizes, LiquidSwap, SecretFile,
};
use immortal_lab::journey::{
    CooperativeAction, CooperativeJourney, DoomsdayCase, FundedJourney, HarnessInjection,
    LiquidChainDirection, LiquidJourney,
};
use immortal_lab::json::{Json, JsonObject};
use immortal_lab::lifecycle::{
    chain_leg_process_proof, chain_lifecycle_event_ids, liquid_lifecycle_event_ids, outpoint,
    status_outpoint, status_transaction_id,
};
use immortal_lab::machine::{Action, Reply, Task};
use immortal_lab::node::{
    answered_text, bitcoin_raw_transaction, chain_height, check_intended, check_liquid_broadcast,
    check_liquid_receipt, check_mined, check_mined_liquid, check_mining, check_receipt,
    check_refund_spend, check_retained_claim, check_wallet_claim, client_funding_output,
    confirmation_block, confirmation_height, has_propagated, has_propagated_liquid,
    has_second_node, is_known_already, liquid_raw_transaction, load_liquid_broadcast_artifact,
    signed_exit_reference, transaction_id, LiquidBroadcast, LiquidReply, Lookup, NodeReply,
};
use immortal_lab::order::{
    asks_zero_confirmation, chain_session_text, funded_chain_rfq_profile,
    funded_liquid_rfq_profile, funded_rfq_profile_with_terms, funded_session_text,
    offering_address, quoted_records, rfq_expiry, seconds_later, source_lock, RfqInvoice,
};
use immortal_lab::probe::{
    conflicting_content, fork_status, gap_status, judge_conflict, judge_duplicate, judge_fork,
    judge_gap, judge_leak, pre_fund_probe, Probe, Refusal,
};
use immortal_lab::record::{
    exact_tag_value, exactly_one_status_by_author_and_state, has_only_tag, has_tag, only_record,
    record_profile, Event, EventTag, RecordKinds,
};
use immortal_lab::relay::{
    acknowledgement, discovery_request, ends_history, is_funded_offering, message_event,
    private_event, relay_challenge, subscription_request,
};
use immortal_lab::restore::{
    check_authorization, check_prepared, check_restorable, restored_records,
    resume_authorized_journey, AuthorizedAction, Resume,
};
use immortal_lab::settlement::{claim_template, committed_outpoint, narrow_index, refund_template};
use immortal_lab::smoke::SmokeRun;
use immortal_lab::status::{
    base_state, checkpoint_details, find_provider_close, find_provider_state, is_provider_cancel,
    latest_requester_status, next_created_at_records, plan_cooperative_status,
    plan_doomsday_status, plan_requester_status, provider_said, StatusStep,
};
use immortal_lab::terminal::ParsedTransaction;
use immortal_lab::wire::parse_json_text;

const KINDS: RecordKinds = RecordKinds {
    rfq: 39_602,
    quote: 39_603,
    order: 39_604,
    contract: 39_605,
    status: 39_606,
    cancel: 39_607,
    close: 39_608,
};

const HASH: &str = "dddddddddddddddddddddddddddddddddddddddddddddddddddddddddddddddd";

fn refusal<T>(outcome: Result<T, String>) -> String {
    match outcome {
        Ok(_) => panic!("nothing was refused"),
        Err(message) => message,
    }
}

fn document(text: &str) -> Json {
    parse_json_text(text).expect("test document should parse")
}

fn id(byte: &str) -> String {
    byte.repeat(32)
}

fn tag(name: &str, value: &str) -> EventTag {
    EventTag {
        name: name.to_owned(),
        values: vec![value.to_owned()],
    }
}

fn record(id: &str, pubkey: &str, kind: u16, created_at: u64, tags: Vec<EventTag>, content: &str) -> Event {
    Event {
        id: id.to_owned(),
        pubkey: pubkey.to_owned(),
        created_at,
        kind,
        tags,
        content: content.to_owned(),
        sig: "00".repeat(64),
    }
}

fn status(id: &str, author: &str, sequence: &str, state: &str) -> Event {
    record(
        id,
        author,
        KINDS.status,
        5,
        vec![tag("seq", sequence)],
        &format!(r#"{{"mkt_swp":{{"swp_state":"{state}"}}}}"#),
    )
}

fn parsed(byte: u8) -> Result<ParsedTransaction, String> {
    Ok(ParsedTransaction {
        txid: Ok(vec![byte; 32]),
        inputs: vec![],
    })
}

fn contract() -> Json {
    document(&format!(
        r#"{{
            "miner_fee_budget":"1000",
            "payment_hash":"{HASH}",
            "clock_skew_seconds":"30",
            "timeout_ladder":{{
                "provider_refund_first":140,"destination_final":true,"destination_refund_time":1,
                "source_refund_time":2,"provider_claim_margin":3,"both_network_reorg_margins":4,
                "both_network_broadcast_margins":5
            }},
            "recovery":{{"exit_policy":{{"maximum_fee":"900"}}}},
            "effect_bindings":[],
            "exit_package_commitments":[],
            "legs":[
                {{"leg_id":"source","rail":"bitcoin","refund_lock_value":"150","confirmation_policy":{{"n":1}}}},
                {{"leg_id":"destination","rail":"liquid","refund_lock_value":"140"}}
            ],
            "verifier_inputs":[
                {{
                    "leg_id":"source","amount":"100000","script_pubkey":"5120","claim_script":"51",
                    "taproot_claim_control_block":"c0","refund_script":"52",
                    "taproot_refund_control_block":"c1","funding_transaction":"0200",
                    "output_index":1,"taproot_output_key":"ee","minimum_confirmations":"2",
                    "replacement_policy":"reject"
                }},
                {{
                    "leg_id":"lightning","invoice_network":"regtest",
                    "invoice_amount_msat":"98400000","invoice_minimum_final_cltv_delta":"40"
                }}
            ]
        }}"#
    ))
}

#[test]
fn the_terms_of_a_leg_are_read_together() {
    let terms = bitcoin_terms(&contract(), "source").expect("complete terms");
    assert_eq!((terms.amount_sat, terms.miner_fee_budget_sat), (100_000, 1_000));
    assert_eq!(terms.script_pubkey, vec![0x51, 0x20]);
    assert_eq!(terms.refund_lock_height, 150);
    assert_eq!(
        refusal(bitcoin_terms(&contract(), "other")),
        "funded contract has no Bitcoin verifier"
    );
    assert_eq!(reverse_refund_height(&contract()), Ok(140));
    assert_eq!(
        refusal(reverse_refund_height(&document("{}"))),
        "reverse contract has no provider refund height"
    );
    assert_eq!(amount_after_fee(100_000, 1_000), Some(99_000));
    assert_eq!(amount_after_fee(1_000, 1_000), None);
    assert_eq!(amount_after_fee(1, 2), None);
}

#[test]
fn a_claim_and_a_refund_spend_the_same_lock() {
    let funding = format!("fe{}", "01".repeat(31));
    let claim = claim_template(&contract(), "source", &funding, 3, &vec![0x6a], "consumed")
        .expect("a claim");
    let refund = refund_template(&contract(), "source", &funding, 3, &vec![0x6a], "consumed")
        .expect("a refund");
    assert_eq!(claim.previous_txid_wire, refund.previous_txid_wire);
    assert_eq!((claim.previous_txid_wire[0], claim.previous_txid_wire[31]), (0x01, 0xfe));
    assert_eq!((claim.destination_value_sat, refund.destination_value_sat), (99_000, 99_000));
    assert_eq!((claim.lock_time, refund.lock_time), (0, 150));
    assert_eq!((claim.taproot_script, refund.taproot_script), (vec![0x51], vec![0x52]));
    assert_eq!(
        (claim.transaction_version, claim.input_sequence, claim.maximum_weight),
        (2, 0xffff_fffe, 1_600)
    );
    let poor = document(&written_with(r#""miner_fee_budget":"100000""#));
    assert_eq!(
        refusal(claim_template(&poor, "source", &funding, 3, &vec![], "consumed")),
        "consumed"
    );
    assert_eq!(
        committed_outpoint(&contract(), "source", &parsed(0x11), "unbounded"),
        Ok((id("11"), 1))
    );
    assert_eq!(narrow_index(Some(u64::from(u32::MAX))), Some(u32::MAX));
    assert_eq!(narrow_index(Some(1 << 32)), None);
}

fn written_with(budget: &str) -> String {
    format!(
        r#"{{
            {budget},
            "legs":[{{"leg_id":"source","refund_lock_value":"150"}}],
            "verifier_inputs":[{{
                "leg_id":"source","amount":"100000","script_pubkey":"5120","claim_script":"51",
                "taproot_claim_control_block":"c0","refund_script":"52",
                "taproot_refund_control_block":"c1"
            }}]
        }}"#
    )
}

#[test]
fn an_exit_is_planned_for_its_path() {
    let refund = plan_requester_exit(&contract(), "source", "refund", &parsed(0x11))
        .expect("a refund");
    assert_eq!(refund.funding_transaction_id, id("11"));
    assert_eq!((refund.destination_value, refund.lock_time, refund.output_index), (99_100, 150, 1));
    assert_eq!(refund.taproot_script, "52");
    let claim = plan_requester_exit(&contract(), "source", "claim", &parsed(0x11)).expect("a claim");
    assert_eq!((claim.lock_time, claim.taproot_script.as_str()), (0, "51"));
    assert_eq!(
        refusal(plan_requester_exit(&contract(), "source", "other", &parsed(0x11))),
        "requester exit path is unsupported"
    );
    assert_eq!(
        refusal(plan_requester_exit(&contract(), "source", "claim", &Err("short".to_owned()))),
        "committed funding transaction is invalid: short"
    );
    assert!(
        confirmation_policy(&contract(), "source")
            .expect("a policy")
            .same(&document(r#"{"n":1}"#))
    );
    assert!(confirmation_policy(&contract(), "destination").is_err());
}

#[test]
fn effects_of_one_order_have_different_preimages() {
    let preimage = requester_effect_preimage("0a0b", "chain_fund", "source").expect("an order");
    let mut expected = b"openagents.mkt-swp.v1\0".to_vec();
    expected.extend([0x0a, 0x0b, 0]);
    expected.extend(b"chain_fund\0source");
    assert_eq!(preimage, expected);
    assert_ne!(
        requester_effect_preimage("0a0b", "chain_fund", "sourc"),
        Ok(preimage)
    );
    assert!(requester_effect_preimage("0A", "r", "l").is_err());
}

#[test]
fn an_effect_is_bound_once() {
    let mut bindings = vec![document(r#"{"role":"x","leg_id":"y"}"#)];
    upsert_effect_binding(&mut bindings, "chain_fund", "source");
    upsert_effect_binding(&mut bindings, "chain_fund", "source");
    assert_eq!(bindings.len(), 2);
    assert!(bindings[1].same(&document(r#"{"role":"chain_fund","leg_id":"source"}"#)));
    let mut commitments = vec![];
    for digest in ["one", "two"] {
        upsert_exit_commitment(&mut commitments, "requester", "source", "refund", "m", digest);
        upsert_exit_commitment(&mut commitments, "provider", "source", "claim", "m", digest);
    }
    assert_eq!(commitments.len(), 2);
    assert!(commitments.iter().all(|commitment| commitment.says("package_sha256", "two")));
}

#[test]
fn a_contract_is_bound_to_its_exits() {
    assert_eq!(
        requester_exit_shape("submarine"),
        Some(("source", "refund", "chain_fund", "source"))
    );
    assert_eq!(
        requester_exit_shape("reverse"),
        Some(("destination", "claim", "invoice_pay", "lightning"))
    );
    assert_eq!(requester_exit_shape("chain"), None);
    assert!(!settles_jointly(&contract(), "submarine"));
    assert!(settles_jointly(&document(r#"{"musig2_execution":true}"#), "submarine"));
    let effects = bind_effects(&contract(), "submarine", true).expect("bound effects");
    assert!(
        effects
            .get("effect_bindings")
            .and_then(|bindings| bindings.as_array())
            .is_some_and(|bindings| !bindings.is_empty())
    );
    assert_eq!(
        refusal(bind_effects(&contract(), "reverse", true)),
        "only the submarine CLTV refund can be pre-signed"
    );
    assert_eq!(
        refusal(bind_effects(&document("{}"), "submarine", false)),
        "funded contract has no mutable effect bindings"
    );
    let bound = bind_requester_exit_packages(&contract(), "submarine", "m", "one", Some("two"))
        .expect("bound exits");
    assert_eq!(
        bound
            .get("exit_package_commitments")
            .and_then(|commitments| commitments.as_array())
            .map(|commitments| commitments.len()),
        Some(2)
    );
    assert_eq!(
        refusal(bind_exit_commitment(&document("{}"), "r", "l", "p", "m", "d", "missing")),
        "missing"
    );
}

#[test]
fn a_lock_is_bound_to_its_leg_alone() {
    let (bound, verifier) = bind_requester_funding(&contract(), "0300", "digest").expect("a lock");
    assert_eq!(verifier.text_at("funding_transaction"), Some("0300"));
    let inputs = |contract: &Json, place: usize| {
        contract
            .get("verifier_inputs")
            .and_then(|inputs| inputs.as_array())
            .map(|inputs| inputs[place].copy())
            .expect("an input")
    };
    assert!(inputs(&bound, 0).same(&verifier));
    assert!(inputs(&bound, 1).same(&inputs(&contract(), 1)));
    let digested = bind_verifier_digest(&bound, "verifier digest").expect("a leg");
    assert!(
        digested
            .get("legs")
            .and_then(|legs| legs.as_array())
            .is_some_and(|legs| legs[0].says("verifier_digest", "verifier digest"))
    );
    assert_eq!(
        refusal(bind_requester_funding(&document(r#"{"verifier_inputs":[]}"#), "00", "d")),
        "submarine contract has no source verifier"
    );
}

#[test]
fn binding_an_exit_keeps_it() {
    let seed = JsonObject::new().with_text("path", "refund").with_text("contract_sha256", "old");
    let bound = finalize_exit_package(&seed, "one", "two", "digest");
    assert!(bound.same(&document(
        r#"{"path":"refund","swap_contract_ids":["one","two"],"contract_sha256":"digest"}"#
    )));
    let presigned = presign_exit(
        &document(r#"{"exit":{"mode":"wallet_sign","path":"refund"}}"#),
        "0300",
        "http://127.0.0.1:3002/api/tx",
    )
    .expect("an exit");
    let exit = presigned.get("exit").expect("an exit");
    assert!(exit.says("mode", "presigned") && exit.says("signed_transaction", "0300"));
    assert!(exit.get("signer_ref").expect("a member").is_null());
    assert_eq!(
        refusal(presign_exit(&document("{}"), "00", "u")),
        "doomsday exit package has no mutable exit"
    );
}

const SIZES: LiquidSizes = LiquidSizes {
    submarine_quote: 100,
    reverse_quote: 200,
    bitcoin_to_liquid_quote: 300,
    liquid_to_bitcoin_quote: 400,
    single_input_funding: 2_500,
    claim: 30,
    refund: 40,
};

#[test]
fn a_quote_on_liquid_is_priced_by_its_shape() {
    let pair = |first: &str, second: &str| {
        document(&format!(
            r#"{{"asset_pair":["{first}","{second}"],"miner_fee_budget":"5000"}}"#
        ))
    };
    let priced = |contract: &Json, swap| liquid_quote_priced_vbytes(contract, swap, SIZES);
    assert_eq!(priced(&pair("a", "b"), LiquidSwap::Submarine), Ok(100));
    assert_eq!(priced(&pair("a", "b"), LiquidSwap::Reverse), Ok(200));
    assert_eq!(priced(&pair("btc:chain", "x:liquid"), LiquidSwap::Chain), Ok(300));
    assert_eq!(priced(&pair("x:liquid", "btc:chain"), LiquidSwap::Chain), Ok(400));
    assert_eq!(
        refusal(priced(&pair("a", "b"), LiquidSwap::Chain)),
        "Liquid chain Contract does not contain one Liquid asset"
    );
    assert_eq!(
        refusal(priced(&document("{}"), LiquidSwap::Chain)),
        "Liquid chain Contract has no ordered asset pair"
    );
    assert_eq!(
        liquid_fee_inputs(&pair("a", "b"), LiquidSwap::Reverse, SIZES),
        Ok((200, 5_000))
    );
}

#[test]
fn liquid_fee_schedule_replays_every_fixture_shape_at_a_non_lab_rate() {
    let network = "bip122:0f9188f13cb7b2c9e5c72a6b65eeada4";
    let bitcoin = format!("swp:1:{network}:btc:chain");
    let lightning = format!("swp:1:{network}:btc:lightning");
    let liquid = format!(
        "swp:1:bip122:{}:elements:{}:liquid",
        "a".repeat(32),
        "1".repeat(64)
    );
    for (swap, pair, quote_budget_sat, funding_cap_sat, exit_path, exit_fee_sat) in [
        (LiquidSwap::Submarine, (&liquid, &lightning), 1_000, Some(25_000), "refund", 400),
        (LiquidSwap::Reverse, (&lightning, &liquid), 2_000, None, "claim", 300),
        (LiquidSwap::Chain, (&bitcoin, &liquid), 3_000, None, "claim", 300),
        (LiquidSwap::Chain, (&liquid, &bitcoin), 4_000, Some(25_000), "refund", 400),
    ] {
        let contract = document(&format!(
            r#"{{"asset_pair":["{}","{}"],"miner_fee_budget":"{quote_budget_sat}"}}"#,
            pair.0, pair.1
        ));
        let (vbytes, budget) =
            liquid_fee_inputs(&contract, swap, SIZES).expect("Liquid fee inputs");
        assert_eq!(budget, quote_budget_sat);
        let rate = Ok(budget / vbytes);
        let fees = liquid_fee_schedule(&contract, swap, SIZES, &rate).expect("Liquid fee schedule");
        assert_eq!(fees.sat_per_vbyte, 10);
        if let Some(cap) = funding_cap_sat {
            assert_eq!(fees.funding_fee_cap_sat, cap);
        }
        let exit_fee = match exit_path {
            "claim" => fees.claim_fee_sat,
            _ => fees.refund_fee_sat,
        };
        assert_eq!(exit_fee, exit_fee_sat);
    }
    assert_eq!(liquid_submarine_invoice_amount_sat(&Ok("98400".to_owned())), Ok(98_400));
}

#[test]
fn fees_follow_the_derived_rate() {
    let contract = document(r#"{"miner_fee_budget":"1000"}"#);
    let schedule = |rate: Result<u64, String>| {
        liquid_fee_schedule(&contract, LiquidSwap::Submarine, SIZES, &rate)
    };
    let fees = schedule(Ok(10)).expect("a schedule");
    assert_eq!(fees.sat_per_vbyte, 10);
    assert_eq!(
        (fees.funding_fee_cap_sat, fees.claim_fee_sat, fees.refund_fee_sat),
        (25_000, 300, 400)
    );
    assert_eq!(
        refusal(schedule(Ok(u64::MAX))),
        "Liquid single-input funding fee cap overflows"
    );
    assert_eq!(refusal(schedule(Err("no rate".to_owned()))), "no rate");
    assert_eq!(
        refusal(liquid_fee_schedule(&document("{}"), LiquidSwap::Submarine, SIZES, &Ok(10))),
        "Liquid contract has no miner fee budget"
    );
    assert_eq!(covering_output(&vec![9, 30, 100], 20, 10), Ok(1));
    assert!(covering_output(&vec![9, 29], 20, 10).is_err());
    assert_eq!(
        refusal(covering_output(&vec![], u64::MAX, 1)),
        "Liquid source capacity target overflows"
    );
}

#[test]
fn the_laboratory_prices_by_its_description() {
    let fixture = r#"{"lab_profile":{
        "tiny_quote_expiry_seconds":15,
        "pricing":{
            "source":"configured_fallback_only","sat_per_vbyte":1,"spread_bps":2,"min_swap_sat":3,
            "max_swap_sat":4,"lightning_routing_fee_ppm":5
        }
    }}"#;
    let pricing = lab_pricing(&document(fixture)).expect("complete pricing");
    assert_eq!(
        (pricing.sat_per_vbyte, pricing.spread_bps, pricing.quote_expiry_seconds),
        (1, 2, 15)
    );
    assert_eq!(
        refusal(lab_pricing(&document(&fixture.replace("spread_bps", "spread")))),
        "adversarial lab pricing has no spread_bps"
    );
    assert_eq!(
        refusal(lab_pricing(&document(&fixture.replace("fallback_only", "market")))),
        "adversarial fixture has no forced fallback pricing"
    );
    assert_eq!(liquid_submarine_invoice_amount_sat(&Ok("98400".to_owned())), Ok(98_400));
    assert_eq!(
        refusal(liquid_submarine_invoice_amount_sat(&Err("no".to_owned()))),
        "could not derive Liquid submarine lab Quote: no"
    );
}

#[test]
fn a_secret_is_kept_for_its_owner_only() {
    let file = |mode: u32, length: u64| SecretFile {
        is_symlink: false,
        is_file: true,
        length,
        mode,
    };
    assert_eq!(check_secret_file(&file(0o100_600, 32)), Ok(()));
    assert_eq!(
        refusal(check_secret_file(&file(0o100_644, 32))),
        "Liquid preimage recovery record permissions are not 0600"
    );
    assert!(check_secret_file(&file(0o100_600, 31)).is_err());
    assert_eq!(
        wallet_binding_text(2, true, 17),
        "openagents.immortal.lab-liquid-wallet-ref.v1\x002\0true\x0017"
    );
    assert_eq!(
        preimage_binding_text("chain", "/p"),
        "openagents.immortal.lab-liquid-preimage-ref.v1\0chain\0/p"
    );
    assert_eq!(check_recovery(true, false), Ok(()));
    assert_eq!(check_recovery(false, true), Ok(()));
    assert_eq!(
        refusal(check_recovery(false, false)),
        "Liquid claim has no persisted preimage recovery reference"
    );
    assert_eq!(
        refusal(check_recovery(true, true)),
        "Liquid refund unexpectedly has claim recovery references"
    );
}

#[test]
fn a_chain_leg_is_verified_by_its_terms() {
    let input = chain_bitcoin_verification_input(&contract(), "source").expect("a source");
    assert_eq!(input.raw_transaction, "0200");
    assert_eq!((input.output_index, input.expected_amount.as_str()), (1, "100000"));
    let ladder = chain_timeout_ladder(&contract()).expect("a ladder");
    assert!(ladder.destination_final);
    assert_eq!(
        (
            ladder.destination_refund_time,
            ladder.source_refund_time,
            ladder.provider_claim_margin,
            ladder.both_network_reorg_margins,
            ladder.both_network_broadcast_margins
        ),
        (1, 2, 3, 4, 5)
    );
    let fund = chain_bitcoin_before_fund_input(&contract(), "source", 77).expect("a lock");
    assert_eq!((fund.observed_at, fund.minimum_confirmations), (77, 2));
    assert_eq!(
        refusal(chain_timeout_ladder(&document("{}"))),
        "chain contract has no timeout ladder"
    );
    let invoice = liquid_invoice_verification(&contract(), "lnbcrt", 78).expect("an invoice");
    assert_eq!(invoice.required_minimum_final_cltv_delta, 40);
    assert_eq!(invoice.expected_network, "regtest");
}

#[test]
fn a_stale_quote_is_verified_after_it_expired() {
    let quote = |tags| vec![record("q", "provider", KINDS.quote, 1, tags, "{}")];
    assert_eq!(
        stale_quote_time(&contract(), &quote(vec![tag("expiration", "1000")]), KINDS),
        Ok(1_031)
    );
    assert_eq!(
        refusal(stale_quote_time(&contract(), &quote(vec![]), KINDS)),
        "stale-quote injection found no Quote expiration"
    );
    assert_eq!(
        refusal(stale_quote_time(&contract(), &quote(vec![tag("expiration", "soon")]), KINDS)),
        "stale-quote injection found an invalid expiration"
    );
    assert_eq!(
        refusal(stale_quote_time(
            &contract(),
            &quote(vec![tag("expiration", "18446744073709551615")]),
            KINDS
        )),
        "stale-quote injection deadline overflowed"
    );
    assert!(
        verify_before_fund_input(
            &document("{}"),
            &quote(vec![]),
            KINDS,
            Some(HarnessInjection::StaleQuote),
            5,
            "lnbcrt",
            None,
        )
        .is_err()
    );
}

#[test]
fn a_node_is_ready_while_it_can_hold_the_payment() {
    let info = |network: &str, block_height: u32| NodeInfo {
        network: network.to_owned(),
        block_height,
    };
    let request = |hold: bool| ReadinessRequest {
        network: "regtest".to_owned(),
        hold_invoice_required: hold,
        hold_expiry_height: 140,
        minimum_final_cltv_delta: 40,
    };
    assert_eq!(lightning_readiness(&info("regtest", 100), &request(true), false), Ok(Some(())));
    assert_eq!(lightning_readiness(&info("regtest", 99), &request(true), false), Ok(None));
    assert_eq!(
        refusal(lightning_readiness(&info("regtest", 99), &request(true), true)),
        "requester CLN cannot satisfy the bound hold-invoice timing: network=regtest, \
         expected_network=regtest, height=99, hold_expiry_height=140, \
         minimum_final_cltv_delta=40, hold_required=true"
    );
    assert!(lightning_readiness(&info("bitcoin", 100), &request(true), false).is_err());
    assert!(lightning_readiness(&info("regtest", 100), &request(false), false).is_err());
    assert!(lightning_readiness(&info("regtest", 140), &request(true), false).is_err());
    assert_eq!(
        refusal(lightning_readiness(&info("regtest", u32::MAX), &request(true), false)),
        "requester CLN expiry calculation overflowed"
    );
    assert_eq!(
        refusal(liquid_lightning_readiness(&info("other", 100), &request(true), false)),
        "requester CLN cannot satisfy Liquid hold-invoice timing"
    );
}

#[test]
fn only_what_was_expected_is_authorized() {
    let lock = Authorized::Bitcoin {
        leg_id: "source".to_owned(),
        raw_transaction: "0200".to_owned(),
    };
    let invoice = |hold: bool| Authorized::Invoice {
        leg_id: "lightning".to_owned(),
        invoice: "lnbcrt".to_owned(),
        hold_invoice_required: hold,
    };
    assert_eq!(check_authorized(FundingSite::Submarine, &lock, "0200"), Ok(()));
    assert_eq!(
        refusal(check_authorized(FundingSite::Submarine, &lock, "0201")),
        FundingSite::Submarine.refusal_text()
    );
    assert_eq!(check_authorized(FundingSite::Reverse, &invoice(true), "lnbcrt"), Ok(()));
    assert!(check_authorized(FundingSite::Reverse, &invoice(false), "lnbcrt").is_err());
    assert!(check_authorized(FundingSite::LiquidReverse, &Authorized::Other, "lnbcrt").is_err());
}

#[test]
fn a_transaction_is_broadcast_once() {
    let raw = "0200";
    assert_eq!(transaction_id(raw, &parsed(0x11)), Ok(id("11")));
    assert_eq!(check_intended(raw, &parsed(0x11), &id("11")), Ok(()));
    assert_eq!(
        refusal(check_intended(raw, &parsed(0x11), &id("12"))),
        "Bitcoin execution checkpoint binds another transaction"
    );
    let report = |hex: &str| {
        Lookup::Known(document(&format!(r#"{{"txid":"{}","hex":"{hex}"}}"#, id("11"))))
    };
    assert_eq!(is_known_already(&report(raw), &id("11"), raw), Ok(true));
    assert!(is_known_already(&report("0201"), &id("11"), raw).is_err());
    assert_eq!(is_known_already(&Lookup::Absent, &id("11"), raw), Ok(false));
    assert_eq!(
        refusal(is_known_already(&Lookup::Failed("down".to_owned()), &id("11"), raw)),
        "could not prove whether Bitcoin transaction already exists: down"
    );
    assert_eq!(check_receipt(&Ok(id("11")), &id("11")), Ok(id("11")));
    assert_eq!(
        refusal(check_receipt(&Ok(id("12")), &id("11"))),
        "bitcoind returned another Bitcoin transaction ID"
    );
    assert_eq!(
        refusal(check_receipt(&Err("full".to_owned()), &id("11"))),
        "could not broadcast Bitcoin transaction: full"
    );
}

#[test]
fn blocks_are_mined_within_bounds() {
    assert_eq!(check_mining("bitcoin", 1_000, false), Ok(()));
    assert_eq!(check_mining("liquid", 1, true), Ok(()));
    for (rail, count, here, message) in [
        ("bitcoin", 0, true, "smoke mining count is outside bounds"),
        ("bitcoin", 1_001, true, "smoke mining count is outside bounds"),
        ("liquid", 1, false, "chain leg has no local elementsd"),
        ("liquid", 0, true, "Liquid mining count is outside bounds"),
        ("liquid", 1 << 32, true, "Liquid block count exceeds u32"),
        ("lightning", 1, true, "chain leg uses an unsupported rail"),
    ] {
        assert_eq!(refusal(check_mining(rail, count, here)), message);
    }
    assert_eq!(check_mined(&document("[1,2]"), 2), Ok(()));
    assert!(check_mined(&document("[1]"), 2).is_err());
    assert_eq!(check_mined_liquid(2, 2), Ok(()));
    assert!(check_mined_liquid(1, 2).is_err());
    assert_eq!(chain_height(&document("7")), Ok(7));
    assert!(chain_height(&document("4294967296")).is_err());
    assert_eq!(
        confirmation_block(&document(r#"{"blockhash":"b"}"#)),
        Ok("b".to_owned())
    );
    assert!(confirmation_block(&document("{}")).is_err());
    assert_eq!(confirmation_height(&document(r#"{"height":9}"#)), Ok(9));
    assert!(confirmation_height(&document("{}")).is_err());
}

#[test]
fn a_settlement_reaches_both_nodes() {
    let found = |hex: &str| NodeReply::Found(document(&format!(r#""{hex}""#)));
    let propagated = |first: &NodeReply, second: &NodeReply, expired: bool| {
        has_propagated(first, second, &parsed(0x11), &id("11"), expired)
    };
    assert_eq!(propagated(&found("0200"), &found("0200"), false), Ok(true));
    assert_eq!(propagated(&found("0200"), &NodeReply::Missing, false), Ok(false));
    assert_eq!(
        refusal(propagated(&found("0200"), &NodeReply::Missing, true)),
        "settlement transaction did not propagate to both Bitcoin nodes before mining"
    );
    assert_eq!(
        refusal(propagated(&found("0200"), &found("0201"), false)),
        "Bitcoin nodes received different settlement transaction bytes"
    );
    assert_eq!(
        refusal(propagated(&NodeReply::Failed("down".to_owned()), &found("0200"), false)),
        "Bitcoin node 0 did not receive the settlement transaction: down"
    );
    assert_eq!(
        refusal(has_propagated(&found("0200"), &found("0200"), &parsed(0x12), &id("11"), false)),
        "propagated settlement transaction has another txid"
    );
    assert_eq!(has_second_node(0), Ok(false));
    assert_eq!(has_second_node(4), Ok(true));
    assert_eq!(
        refusal(has_second_node(3)),
        "adversarial Bitcoin B propagation configuration is partial"
    );
    assert_eq!(
        has_propagated_liquid(&LiquidReply::Found(Ok(vec![0x11; 32])), &id("11")),
        Ok(true)
    );
    assert_eq!(has_propagated_liquid(&LiquidReply::Missing, &id("11")), Ok(false));
    assert!(has_propagated_liquid(&LiquidReply::Expired, &id("11")).is_err());
    assert!(
        has_propagated_liquid(&LiquidReply::Found(Ok(vec![0x12; 32])), &id("11")).is_err()
    );
}

#[test]
fn a_refund_spends_exactly_its_lock() {
    let report = |vout: u32| {
        document(&format!(
            r#"{{"txid":"{}","hex":"0300","vin":[{{"txid":"{}","vout":{vout}}}]}}"#,
            id("22"),
            id("11")
        ))
    };
    let spend = |report: &Json, unspent: &str| {
        check_refund_spend(report, &document(unspent), &id("11"), 1, &id("22"), "0300")
    };
    assert_eq!(spend(&report(1), "null"), Ok(()));
    assert_eq!(
        refusal(spend(&report(2), "null")),
        "requester refund spends another funding outpoint"
    );
    assert_eq!(
        refusal(spend(&report(1), "{}")),
        "requester funding outpoint remains unspent on a Bitcoin node"
    );
}

#[test]
fn a_wallet_is_funded_by_one_output() {
    let report = |value: &str| {
        document(&format!(
            r#"{{"vout":[
                {{"n":0,"value":1,"scriptPubKey":{{"hex":"00"}}}},
                {{"n":1,"value":{value},"scriptPubKey":{{"hex":"5120"}}}}
            ]}}"#
        ))
    };
    assert_eq!(client_funding_output(&report("1.0"), "5120"), Ok(1));
    assert_eq!(
        refusal(client_funding_output(&report("0.5"), "5120")),
        "client wallet funding output has another amount"
    );
    assert_eq!(
        refusal(client_funding_output(&report("1"), "51")),
        "client wallet funding did not contain one derived output"
    );
    assert_eq!(answered_text(&document(r#""a""#), "missing"), Ok("a".to_owned()));
    assert_eq!(refusal(answered_text(&document("1"), "missing")), "missing");
    assert_eq!(
        bitcoin_raw_transaction(&document(r#""0200""#), &parsed(0x11), &id("11")),
        Ok("0200".to_owned())
    );
    assert_eq!(
        liquid_raw_transaction(&vec![2, 0], &Ok(vec![0x11; 32]), &id("11")),
        Ok("0200".to_owned())
    );
    assert!(liquid_raw_transaction(&vec![2, 0], &Ok(vec![0x12; 32]), &id("11")).is_err());
}

#[test]
fn a_liquid_exit_is_broadcast_as_it_was_signed() {
    assert_eq!(signed_exit_reference("chain"), "lab-private-signed-exit:chain");
    assert_eq!(
        load_liquid_broadcast_artifact("chain", "lab-private-signed-exit:chain", "0300"),
        Ok(vec![3, 0])
    );
    assert!(load_liquid_broadcast_artifact("chain", "other", "0300").is_err());
    let request = |digest: &str| LiquidBroadcast {
        rpc_method: "sendrawtransaction".to_owned(),
        network_id: "network".to_owned(),
        genesis_hash: "genesis".to_owned(),
        transaction_artifact_ref: "lab-private-signed-exit:chain".to_owned(),
        transaction_sha256: digest.to_owned(),
    };
    let check = |request: &LiquidBroadcast, network: &str| {
        check_liquid_broadcast(
            request,
            network,
            "network",
            "genesis",
            "chain",
            "0300",
            &vec![0x5a; 32],
            &Ok(vec![0x11; 32]),
        )
    };
    assert_eq!(check(&request(&id("5a")), "network"), Ok(id("11")));
    assert_eq!(
        refusal(check(&request(&id("5b")), "network")),
        "Liquid broadcast request differs from its transaction digest"
    );
    assert_eq!(
        refusal(check(&request(&id("5a")), "other")),
        "Liquid broadcast request differs from the local elementsd network"
    );
    assert_eq!(check_liquid_receipt("a", "a"), Ok(()));
    assert!(check_liquid_receipt("a", "b").is_err());
    assert_eq!(check_retained_claim(None, "00"), Ok(()));
    assert!(check_retained_claim(Some("01"), "00").is_err());
    assert_eq!(
        check_wallet_claim(Some("00"), "00", &id("11"), &id("11"), "00", &Ok(vec![0x11; 32])),
        Ok(())
    );
    assert_eq!(
        refusal(check_wallet_claim(
            None,
            "00",
            &id("11"),
            &id("12"),
            "00",
            &Ok(vec![0x11; 32])
        )),
        "recorded Liquid broadcast effect differs from elementsd"
    );
}

#[test]
fn tags_and_profiles_are_read_from_records() {
    let event = record(
        "e",
        "a",
        1,
        1,
        vec![tag("x", "1"), tag("y", "2"), tag("y", "3")],
        r#"{"mkt_swp":{"s":1}}"#,
    );
    assert_eq!(event.tag_values("y"), ["2", "3"]);
    assert_eq!(exact_tag_value(&event, "x"), Ok("1"));
    assert_eq!(
        refusal(exact_tag_value(&event, "y")),
        "event does not have exactly one y tag"
    );
    assert!(has_only_tag(&event, "x", "1") && !has_only_tag(&event, "y", "2"));
    assert!(has_tag(&event, "y", "3") && !has_tag(&event, "y", "4"));
    assert_eq!(
        record_profile(&event).expect("a profile").u64_at("s"),
        Some(1)
    );
    assert_eq!(
        refusal(record_profile(&record("e", "a", 1, 1, vec![], "{}"))),
        "record has no MKT-SWP profile"
    );
    let records = vec![event, record("f", "b", 1, 1, vec![], "{}")];
    assert!(only_record(&records, 1, None).is_none());
    assert_eq!(only_record(&records, 1, Some("b")).map(|found| found.id.as_str()), Some("f"));
}

#[test]
fn a_status_follows_the_one_before() {
    let records = vec![
        status("p", "provider", "0", "lock_terms_ready"),
        status("s", "requester", "4", "requester_funding_broadcast"),
    ];
    assert_eq!(next_created_at_records(&records, 3), 6);
    assert_eq!(next_created_at_records(&records, 9), 9);
    assert_eq!(next_created_at_records(&vec![], 9), 10);
    assert_eq!(next_created_at_records(&vec![], u64::MAX), u64::MAX);
    let latest = latest_requester_status(&records, KINDS, "requester").expect("a latest status");
    assert_eq!(latest, Some((4, "s".to_owned())));
    assert_eq!(latest_requester_status(&vec![], KINDS, "requester"), Ok(None));
    assert_eq!(
        refusal(latest_requester_status(
            &vec![status("s", "requester", "x", "refunded")],
            KINDS,
            "requester"
        )),
        "persisted requester Status sequence is invalid"
    );
    let plan = |latest: &Option<(u64, String)>, state: &str, extra: &JsonObject| {
        plan_requester_status(
            &records,
            KINDS,
            "requester",
            "provider",
            latest,
            "session",
            state,
            extra,
            20,
        )
    };
    match plan(&latest, "requester_verification_passed", &JsonObject::new()).expect("a status") {
        StatusStep::Publish(plan) => {
            assert_eq!((plan.sequence, plan.previous.as_deref()), (5, Some("s")));
            assert_eq!(plan.base_state, "awaiting_input");
            assert_eq!(plan.prerequisite.as_deref(), Some("p"));
            assert_eq!(plan.created_at, 20);
        }
        StatusStep::Existing(_) => panic!("nothing says so yet"),
    }
    assert!(matches!(
        plan(&latest, "requester_funding_broadcast", &JsonObject::new()),
        Ok(StatusStep::Existing(1))
    ));
    assert!(matches!(
        plan(&latest, "requester_funding_broadcast", &JsonObject::new().with_number("x", 1)),
        Ok(StatusStep::Publish(_))
    ));
    let highest = Some((u64::MAX, "s".to_owned()));
    assert!(plan(&highest, "refunded", &JsonObject::new()).is_err());
    assert_eq!(
        refusal(plan(&latest, "unheard_of", &JsonObject::new())),
        "requester state has no smoke base-state mapping"
    );
    assert_eq!(
        refusal(plan(&latest, "requester_claim_pending", &JsonObject::new())),
        "requester funding_final requires one exact provider prerequisite Status"
    );
    let first = plan_doomsday_status(&records, KINDS, "provider", &None, "session", "refunded", 1)
        .expect("a status");
    assert_eq!((first.sequence, first.previous), (0, None));
    let signing = plan_cooperative_status(
        &records,
        &latest,
        "session",
        CooperativeAction::PublicNonce,
        1,
    )
    .expect("a status");
    assert_eq!(signing.sequence, 5);
    assert_eq!(base_state("refund_prepared"), Ok("refund_pending"));
    assert!(base_state("other").is_err());
}

#[test]
fn the_provider_is_heard_by_author_and_state() {
    let mut close = record("c", "provider", KINDS.close, 1, vec![tag("outcome", "completed")], "{}");
    let records = vec![
        status("x", "other", "0", "accepted"),
        status("p", "provider", "0", "accepted"),
    ];
    assert_eq!(find_provider_state(&records, KINDS, "provider", "accepted"), Some(1));
    assert_eq!(find_provider_state(&records, KINDS, "provider", "completed"), None);
    assert!(provider_said(&records, KINDS, "provider", "accepted"));
    assert_eq!(
        exactly_one_status_by_author_and_state(&records, KINDS, "provider", "accepted")
            .expect("one status")
            .id,
        "p"
    );
    assert!(
        exactly_one_status_by_author_and_state(&records, KINDS, "provider", "refunded").is_err()
    );
    assert_eq!(find_provider_close(&vec![], KINDS, "provider", "completed"), None);
    close.kind = KINDS.close;
    assert_eq!(find_provider_close(&vec![close], KINDS, "provider", "completed"), Some(0));
    let cancel = record("k", "provider", KINDS.cancel, 1, vec![tag("action", "accepted")], "{}");
    assert!(is_provider_cancel(&cancel, KINDS, "provider", "accepted"));
    assert!(!is_provider_cancel(&cancel, KINDS, "provider", "effective"));
    let details = checkpoint_details(&document(r#"{"a":1}"#), "s", "o", "n", "d").expect("details");
    assert!(details.same(&document(
        r#"{"a":1,"session_id":"s","order_id":"o","snapshot":"n","deliveries":"d"}"#
    )));
    assert_eq!(
        refusal(checkpoint_details(&document("1"), "s", "o", "n", "d")),
        "funded checkpoint details must be an object"
    );
}

#[test]
fn a_lifecycle_names_each_record() {
    let records = || {
        vec![
            record(&id("01"), "requester", KINDS.rfq, 1, vec![], "{}"),
            record(&id("02"), "provider", KINDS.quote, 1, vec![], "{}"),
            record(&id("03"), "requester", KINDS.order, 1, vec![], "{}"),
            record(&id("04"), "requester", KINDS.contract, 1, vec![], "{}"),
            record(&id("05"), "provider", KINDS.contract, 1, vec![], "{}"),
            record(&id("06"), "requester", KINDS.status, 1, vec![], "{}"),
        ]
    };
    let liquid = liquid_lifecycle_event_ids(&records(), KINDS, &id("0e"), None)
        .expect("a complete lifecycle");
    assert!(liquid.as_object().is_some());
    assert_eq!(
        refusal(liquid_lifecycle_event_ids(&records(), KINDS, "offering", None)),
        "Liquid lifecycle Offering ID is not lowercase 32-byte hex"
    );
    assert_eq!(
        refusal(chain_lifecycle_event_ids(&records(), KINDS, "o", "provider", "c")),
        "chain lifecycle has no signed Status progression"
    );
    let mut longer = records();
    longer.push(record(&id("07"), "provider", KINDS.status, 1, vec![], "{}"));
    chain_lifecycle_event_ids(&longer, KINDS, "o", "provider", "c").expect("a complete lifecycle");
    longer.push(record(&id("08"), "provider", KINDS.quote, 1, vec![], "{}"));
    assert!(chain_lifecycle_event_ids(&longer, KINDS, "o", "provider", "c").is_err());
    assert_eq!(outpoint("ab", 7), "ab:7");
    let said = |members: &str| {
        record("s", "provider", KINDS.status, 1, vec![], &format!(r#"{{"mkt_swp":{{{members}}}}}"#))
    };
    let named = format!(r#""transaction_id":"{}","vout":2"#, id("11"));
    assert_eq!(status_outpoint(&said(&named)), Ok((id("11"), 2)));
    assert_eq!(status_transaction_id(&said(&named)), Ok(id("11")));
    assert_eq!(
        refusal(status_outpoint(&said(""))),
        "provider funding Status has no transaction ID"
    );
    assert!(
        chain_leg_process_proof("bitcoin", "f", 0, "00", "e", "01")
            .as_object()
            .is_some()
    );
}

#[test]
fn a_request_names_its_session_and_its_offering() {
    assert_ne!(
        funded_session_text("run", "submarine"),
        funded_session_text("run", "reverse")
    );
    assert_ne!(
        chain_session_text("run", LiquidChainDirection::BitcoinToLiquid),
        chain_session_text("run", LiquidChainDirection::LiquidToBitcoin)
    );
    assert_eq!(
        offering_address("provider"),
        "39601:provider:immortal-funded-btc-lightning"
    );
    assert_eq!(seconds_later(u64::MAX, 1), u64::MAX);
    assert_eq!(rfq_expiry(100), seconds_later(100, rfq_expiry(0)));
    assert!(asks_zero_confirmation(Some(HarnessInjection::ZeroConfDoubleSpend)));
    assert!(!asks_zero_confirmation(None));
    let quoted = vec![
        record("r", "requester", KINDS.rfq, 1, vec![], "{}"),
        record("q", "provider", KINDS.quote, 1, vec![], "{}"),
    ];
    assert_eq!(
        quoted_records(&quoted, KINDS, "session"),
        Ok(("r".to_owned(), "q".to_owned()))
    );
    assert_eq!(refusal(quoted_records(&vec![], KINDS, "session")), "session has no RFQ");
    assert_eq!(source_lock(&contract()), Ok((vec![0x51, 0x20], 100_000)));
}

const BITCOIN: &str = "swp:1:bip122:0f9188f13cb7b2c9e5c72a6b65eeada4:btc:chain";
const LIGHTNING: &str = "swp:1:bip122:0f9188f13cb7b2c9e5c72a6b65eeada4:btc:lightning";

fn asked(pair: [&str; 2], fee: &str, keys: &str, rest: &str) -> String {
    format!(
        r#"{{
            "allowed_script_modes":["taproot-musig2-script-exit"],
            "asset_pair":["{}","{}"],
            "confirmation_policy":{{
                "minimum_confirmations":"1","reorg_safety_blocks":"2",
                "zero_confirmation":"forbidden","rbf":"reject","replacement":"reject"
            }},
            "desired_completion_time":86401,
            "firm_quote_required":true,
            "input_amount":"100000",
            "maximum_total_fee":"{fee}",
            "payment_hash":"{HASH}",
            "requester_public_keys":[{keys}],
            {rest}
        }}"#,
        pair[0], pair[1]
    )
}

fn key(leg_id: &str, path: &str, byte: &str) -> String {
    format!(
        r#"{{"leg_id":"{leg_id}","path":"{path}","public_key":"{}"}}"#,
        id(byte)
    )
}

#[test]
fn a_request_asks_for_its_kind_of_swap() {
    let invoice = Some(RfqInvoice {
        invoice: "lnbcrt".to_owned(),
        sha256: id("5a"),
    });
    let submarine =
        funded_rfq_profile_with_terms("submarine", HASH, &invoice, &vec![2; 32], 1, 100_000, 4_000, false)
            .expect("a request");
    let constraints = asked(
        [BITCOIN, LIGHTNING],
        "4000",
        &key("source", "refund", "02"),
        &format!(r#""invoice_sha256":"{}","swap_type":"submarine""#, id("5a")),
    );
    assert!(submarine.same(&document(&format!(
        r#"{{"constraints":{constraints},"invoice":"lnbcrt"}}"#
    ))));
    let reverse =
        funded_rfq_profile_with_terms("reverse", HASH, &None, &vec![2; 32], 1, 100_000, 4_000, false)
            .expect("a request");
    let constraints = asked(
        [LIGHTNING, BITCOIN],
        "4000",
        &key("destination", "claim", "02"),
        r#""swap_type":"reverse""#,
    );
    assert!(reverse.same(&document(&format!(r#"{{"constraints":{constraints}}}"#))));
    assert_eq!(
        refusal(funded_rfq_profile_with_terms("other", HASH, &None, &vec![], 1, 1, 1, false)),
        "funded smoke requested an unsupported swap type"
    );
    let chain = funded_chain_rfq_profile(
        LiquidChainDirection::BitcoinToLiquid,
        "network",
        "asset",
        &vec![0xdd; 32],
        &vec![2; 32],
        &vec![3; 32],
        1,
    );
    let constraints = asked(
        [BITCOIN, "swp:1:network:elements:asset:liquid"],
        "5000",
        &format!("{},{}", key("destination", "claim", "03"), key("source", "refund", "02")),
        r#""invoice_sha256":null,"swap_type":"chain""#,
    );
    assert!(chain.same(&document(&format!(r#"{{"constraints":{constraints}}}"#))));
    let liquid = funded_liquid_rfq_profile(
        LiquidJourney::Submarine,
        "network",
        "asset",
        &vec![0xdd; 32],
        &invoice,
        &vec![2; 32],
        1,
    );
    let pair = liquid
        .get("constraints")
        .and_then(|constraints| constraints.get("asset_pair"))
        .expect("a pair of assets");
    assert!(pair.same(&document(&format!(
        r#"["swp:1:network:elements:asset:liquid","{LIGHTNING}"]"#
    ))));
}

#[test]
fn a_probe_counts_only_where_it_is_refused_as_expected() {
    let refused = |code: &str| Refusal {
        code: code.to_owned(),
        message: "why".to_owned(),
    };
    assert!(matches!(pre_fund_probe(None), Probe::Nothing));
    assert!(matches!(
        pre_fund_probe(Some(HarnessInjection::StatusFork)),
        Probe::StatusFork
    ));
    assert_eq!(judge_duplicate(&Ok(false)), Ok(()));
    assert_eq!(
        refusal(judge_duplicate(&Ok(true))),
        "duplicate injection created another logical record"
    );
    assert_eq!(
        refusal(judge_duplicate(&Err(refused("x")))),
        "duplicate injection was rejected: why"
    );
    assert_eq!(
        judge_conflict(&Err(refused("swp_idempotency_conflict"))),
        "injected conflicting message rejected before funding"
    );
    assert_eq!(judge_conflict(&Ok(true)), "conflicting signed bytes were accepted");
    assert_eq!(
        judge_leak(&Err(refused("other"))),
        "secret injection returned another refusal: why"
    );
    assert_eq!(
        judge_gap(&Ok(true), &Err(refused("swp_status_gap"))),
        "swp_status_gap rejected before external effect"
    );
    assert_eq!(
        judge_gap(&Ok(false), &Err(refused("swp_status_gap"))),
        "Status gap replayed another record"
    );
    assert_eq!(
        judge_fork(&Ok(true), &Ok(true), &Ok(())),
        "Status fork projection was contiguous"
    );
    assert_eq!(
        judge_fork(&Ok(true), &Ok(true), &Err(refused("swp_status_fork"))),
        "swp_status_fork rejected before external effect"
    );
    let gap = gap_status(&vec![], "session", 5);
    assert_eq!((gap.sequence, gap.created_at), (1, 6));
    assert_eq!(gap.previous.as_deref(), Some("missing-requester-status:session"));
    let first = fork_status(&vec![], "session", false, 5);
    let second = fork_status(&vec![], "session", true, 5);
    assert_eq!(first.sequence, second.sequence);
    assert_ne!(first.distinct, second.distinct);
    assert_eq!(
        conflicting_content(&record("o", "r", KINDS.order, 1, vec![], "{}")),
        "{} "
    );
}

/// Runs a smoke test; `answer` replies to its actions.
fn smoke(answer: &dyn Fn(&Action) -> Reply) -> (Vec<String>, Result<Option<Json>, String>) {
    let mut run = SmokeRun::new();
    let mut steps = Vec::new();
    let mut stored = None;
    loop {
        let action = run.action();
        let step = match &action {
            Action::Finish => return (steps, Ok(stored)),
            Action::CheckHealth => "health".to_owned(),
            Action::Store(label, evidence) => {
                stored = Some(evidence.copy());
                format!("store {label}")
            }
            Action::Perform(task, arguments) => format!("{task:?} {}", arguments.join(" ")),
            _ => panic!("a smoke test asks for nothing else"),
        };
        steps.push(step);
        if let Err(message) = run.advance(answer(&action)) {
            return (steps, Err(message));
        }
    }
}

fn smoke_world(action: &Action) -> Reply {
    match action {
        Action::Perform(Task::DiscoverProvider, _) => Reply::Texts(vec!["provider".to_owned()]),
        Action::Perform(Task::RunJourney, arguments) => Reply::Document(Some(document(&format!(
            r#"{{"journey":{{"of":"{}"}}}}"#,
            arguments[0]
        )))),
        _ => Reply::Done,
    }
}

#[test]
fn a_smoke_test_runs_its_journeys_in_order_and_stops_at_a_failure() {
    let (steps, stored) = smoke(&smoke_world);
    assert_eq!(
        steps,
        [
            "LoadLaboratory ",
            "health",
            "DiscoverProvider ",
            "RunJourney submarine",
            "RunJourney reverse",
            "RunJourney reverse_refund",
            "health",
            "store evidence",
        ]
    );
    assert!(stored.expect("evidence").expect("stored evidence").same(&document(
        r#"{
            "schema":"openagents.immortal.provider-funded-smoke-evidence.v1",
            "daemon":{"health_ready":true,"provider_pubkey":"provider"},
            "journeys":{
                "submarine":{"of":"submarine"},"reverse":{"of":"reverse"},
                "reverse_refund":{"of":"reverse_refund"}
            }
        }"#
    )));
    for (reply, message) in [
        (
            (|| Reply::Refused { code: String::new(), message: "down".to_owned() }) as fn() -> Reply,
            "down",
        ),
        (|| Reply::Document(Some(document("{}"))), "funded journey returned no evidence"),
        (|| Reply::Done, "journey received a reply to another action"),
    ] {
        let (steps, stored) = smoke(&|action| match action {
            Action::Perform(Task::RunJourney, arguments) if arguments[0] == "reverse" => reply(),
            _ => smoke_world(action),
        });
        assert_eq!(refusal(stored), message);
        assert_eq!(steps.last().map(String::as_str), Some("RunJourney reverse"));
    }
}

#[test]
fn a_report_gives_its_result_as_evidence() {
    let result = document(r#"{"result":"claimed"}"#);
    let report = |journey| journey_report(journey, "provider", false, &result);
    let submarine = report(FundedJourney::Submarine);
    assert!(journey_evidence(&submarine).expect("evidence").same(&result));
    assert_eq!(
        journey_report(FundedJourney::Submarine, "provider", true, &result).bool_at("resumed"),
        Some(true)
    );
    let controlled = with_external_control(
        &submarine,
        Some(HarnessInjection::RelayLoss),
        Some(&document("1")),
    )
    .expect("a proof");
    assert!(journey_evidence(&controlled).expect("evidence").same(&result));
    assert_eq!(controlled.u64_at("external_control"), Some(1));
    assert_eq!(
        refusal(with_external_control(&submarine, Some(HarnessInjection::RelayLoss), None)),
        "external adversarial injection has no retained proof"
    );
    assert!(
        with_external_control(&submarine, Some(HarnessInjection::StaleQuote), None)
            .expect("nothing is added")
            .same(&submarine)
    );
    let smoke = run_funded_smoke(
        "provider",
        &submarine,
        &report(FundedJourney::ReverseClaim),
        &report(FundedJourney::ReverseRefund),
    )
    .expect("three reports");
    assert!(smoke.same(&document(
        r#"{
            "schema":"openagents.immortal.provider-funded-smoke-evidence.v1",
            "daemon":{"health_ready":true,"provider_pubkey":"provider"},
            "journeys":{
                "submarine":{"result":"claimed"},"reverse":{"result":"claimed"},
                "reverse_refund":{"result":"claimed"}
            }
        }"#
    )));
    assert_eq!(
        refusal(run_funded_smoke("provider", &document("{}"), &submarine, &submarine)),
        "funded journey returned no evidence"
    );
    assert!(!expects_provider(FundedJourney::SubmarineRefund));
    assert!(
        cooperative_injection(CooperativeJourney::CrashCutRecovery)
            == Some(HarnessInjection::CooperativeCrashCut)
    );
    assert!(
        cooperative_report(CooperativeJourney::Complete, "provider", &result)
            .says("step", "cooperative")
    );
}

fn checkpoint(journey: &str, label: &str, details: &str) -> FundedCheckpoint {
    FundedCheckpoint {
        schema: "openagents.immortal.lab-checkpoint.v1".to_owned(),
        run_id: "run".to_owned(),
        journey: journey.to_owned(),
        label: label.to_owned(),
        safe_to_stop: true,
        updated_at: 1,
        details: document(details),
    }
}

#[test]
fn a_journey_goes_on_from_its_own_checkpoint() {
    let check = |checkpoint: FundedCheckpoint, run: &str| {
        check_restorable(FundedJourney::Submarine, &Some(checkpoint), run)
    };
    assert_eq!(check(checkpoint("submarine", "funding_authorized", "{}"), "run"), Ok(()));
    assert_eq!(
        refusal(check(checkpoint("submarine", "funding_authorized", "{}"), "other")),
        "funded snapshot checkpoint belongs to another run or journey"
    );
    assert_eq!(
        refusal(check(checkpoint("submarine", "quoted", "{}"), "run")),
        "funded journey submarine has unsupported persisted checkpoint quoted"
    );
    assert_eq!(
        refusal(check_restorable(FundedJourney::Submarine, &None, "run")),
        "funded snapshot exists without a checkpoint"
    );
    let lock = AuthorizedAction::BroadcastBitcoin {
        raw_transaction: "0200".to_owned(),
    };
    let resume = |journey, checkpoint: &FundedCheckpoint, action: &AuthorizedAction| {
        resume_authorized_journey(journey, checkpoint, &contract(), action)
    };
    let authorized = checkpoint("submarine", "funding_authorized", "{}");
    match resume(FundedJourney::Submarine, &authorized, &lock).expect("a journey") {
        Resume::Submarine { raw_transaction, payment_hash } => {
            assert_eq!((raw_transaction.as_str(), payment_hash.as_str()), ("0200", HASH));
        }
        _ => panic!("a submarine swap goes on"),
    }
    let ended = checkpoint("submarine", "completed", r#"{"result":7}"#);
    match resume(FundedJourney::Submarine, &ended, &AuthorizedAction::Other).expect("a result") {
        Resume::Ended(result) => assert_eq!(result.as_u64(), Some(7)),
        _ => panic!("the journey had ended"),
    }
    assert_eq!(
        refusal(resume(FundedJourney::ReverseClaim, &authorized, &lock)),
        "persisted funding action does not match the requested journey"
    );
    let case = DoomsdayCase::LiquidSubmarineProviderGone;
    assert_eq!(
        check_prepared(
            &Some(checkpoint(case.journey_name(), "doomsday_prepared", r#"{"offering_id":"o"}"#)),
            "run",
            case
        ),
        Ok(Some("o".to_owned()))
    );
    assert!(check_prepared(&Some(checkpoint("other", "doomsday_prepared", "{}")), "run", case).is_err());
}

#[test]
fn restored_records_give_their_order_and_contract() {
    let records = || {
        vec![
            record("o", "requester", KINDS.order, 1, vec![], "{}"),
            record("c", "requester", KINDS.contract, 1, vec![], r#"{"mkt_swp":{"contract":{"a":1}}}"#),
            status("s", "requester", "2", "refunded"),
        ]
    };
    let restored = restored_records(&records(), KINDS, "requester", "session").expect("a session");
    assert_eq!(restored.order_id, "o");
    assert!(restored.contract.same(&document(r#"{"a":1}"#)));
    assert_eq!(restored.requester_status, Some((2, "s".to_owned())));
    assert_eq!(
        refusal(restored_records(&vec![], KINDS, "requester", "session")),
        "session has no Order"
    );
    assert_eq!(check_authorization(&records(), "s", &records(), "s"), Ok(()));
    assert_eq!(
        refusal(check_authorization(&records(), "s", &vec![], "s")),
        "funding authorization belongs to another signed session view"
    );
}

#[test]
fn messages_of_a_relay_are_told_apart() {
    assert_eq!(
        relay_challenge(&document(r#"["AUTH","challenge"]"#)),
        Ok("challenge".to_owned())
    );
    assert_eq!(
        refusal(relay_challenge(&document(r#"["NOTICE","challenge"]"#))),
        "relay did not send NIP-42 challenge"
    );
    let text = r#"["EVENT","s", {"id":"a"} ]"#;
    let message = document(text);
    assert!(message_event(&message).is_some());
    assert_eq!(private_event(text, &message), Ok(Some(r#"{"id":"a"}"#)));
    assert_eq!(
        refusal(private_event(r#"["EVENT","s",1]"#, &document(r#"["EVENT","s",1]"#))),
        "funded subscription payload is not an event"
    );
    assert_eq!(private_event(r#"["EOSE","s"]"#, &document(r#"["EOSE","s"]"#)), Ok(None));
    assert!(ends_history(&document(r#"["EOSE","s"]"#), "s"));
    assert!(!ends_history(&document(r#"["EOSE","t"]"#), "s"));
    assert_eq!(
        acknowledgement(&document(r#"["OK","a",true,""]"#), "shown", "a"),
        Some(Ok(()))
    );
    assert_eq!(
        acknowledgement(&document(r#"["OK","a",false,"no"]"#), "shown", "a"),
        Some(Err("relay rejected event a: shown".to_owned()))
    );
    assert_eq!(acknowledgement(&document(r#"["OK","b",true,""]"#), "shown", "a"), None);
    let offering = |kind: u16| {
        record("f", "p", kind, 1, vec![tag("d", "immortal-funded-btc-lightning")], "{}")
    };
    assert!(is_funded_offering(&offering(39_601)) && !is_funded_offering(&offering(39_602)));
    assert!(discovery_request().same(&document(
        r##"["REQ","funded-provider-discovery",{"kinds":[39601],"#d":["immortal-funded-btc-lightning"],"limit":8}]"##
    )));
    assert!(subscription_request("me").same(&document(
        r##"["REQ","funded-requester",{"kinds":[1059],"#p":["me"],"limit":512}]"##
    )));
}
