use immortal_lab::amount::canonical_u64;
use immortal_lab::control::{FundedInjectionRequest, StepControl};
use immortal_lab::exit::{bind_liquid_exit_commitment, requester_exit_document, ExitDigests};
use immortal_lab::fee::{liquid_fund_request, plan_liquid_exit};
use immortal_lab::journey::HarnessInjection;
use immortal_lab::json::Json;
use immortal_lab::keyless::keyless_plan_summary;
use immortal_lab::probe::leaked_document;
use immortal_lab::record::Event;
use immortal_lab::settlement::{
    check_round, cooperative_template, SigningContext, UnsignedSettlement,
};
use immortal_lab::terminal::{
    bitcoin_terminal_binding, final_bitcoin_identity, final_bitcoin_report, local_final_liquid_transaction, local_terminal_rail_evidence, verify_local_bitcoin_terminal, verify_local_lightning_terminal, verify_local_liquid_terminal, BitcoinTerminalBinding, BitcoinTerminalView, LightningTerminalCheck, LiquidFinalReport, LiquidTerminalBinding, LiquidTerminalView, ParsedTransaction, RailObservationRequest, TxInput,
};
use immortal_lab::wire::parse_json_text;

fn refusal<T>(outcome: Result<T, String>) -> String {
    match outcome {
        Ok(_) => panic!("nothing was refused"),
        Err(message) => message,
    }
}

fn document(text: &str) -> Json {
    parse_json_text(text).expect("test document should parse")
}

fn id(byte: &str) -> String {
    byte.repeat(32)
}

fn spending(byte: u8, output: u32) -> Vec<TxInput> {
    vec![TxInput {
        previous_txid: vec![byte; 32],
        previous_output: output,
    }]
}

fn request(evidence_class: &str, reference: &str) -> RailObservationRequest {
    RailObservationRequest {
        leg_id: "source".to_owned(),
        rail: "bitcoin".to_owned(),
        evidence_class: evidence_class.to_owned(),
        rung: "settled".to_owned(),
        verifier_policy: "local".to_owned(),
        reference: reference.to_owned(),
        outcome: "completed".to_owned(),
    }
}

fn funded() -> Json {
    document(
        r#"{
            "verifier_inputs":[
                {"leg_id":"source","funding_transaction":"0200","output_index":1}
            ]
        }"#,
    )
}

fn parsed() -> Result<ParsedTransaction, String> {
    Ok(ParsedTransaction {
        txid: Ok(vec![0x11; 32]),
        inputs: vec![],
    })
}

#[test]
fn a_bitcoin_end_is_bound_to_the_funding_outpoint() {
    let outpoint = format!("{}:1", id("11"));
    let output = bitcoin_terminal_binding(
        &request("bitcoin_output", &outpoint),
        &outpoint,
        None,
        &funded(),
        &parsed(),
    )
    .expect("an output is its own end");
    assert!(!output.requires_spend);
    assert_eq!(output.terminal_transaction_id, id("11"));
    assert_eq!((output.funding_raw, output.funding_output_index), (vec![2, 0], 1));
    let spend = bitcoin_terminal_binding(
        &request("bitcoin_spend", &outpoint),
        &outpoint,
        Some("settled"),
        &funded(),
        &parsed(),
    )
    .expect("a spend ends with its settlement");
    assert!(spend.requires_spend);
    assert_eq!(spend.terminal_transaction_id, "settled");
    assert_eq!(
        refusal(bitcoin_terminal_binding(
            &request("bitcoin_spend", &outpoint),
            &outpoint,
            None,
            &funded(),
            &parsed(),
        )),
        "terminal Bitcoin spend has no local settlement transaction"
    );
    assert_eq!(
        refusal(bitcoin_terminal_binding(
            &request("bitcoin_output", "elsewhere"),
            &outpoint,
            None,
            &funded(),
            &parsed(),
        )),
        "provider Close Bitcoin reference differs from the locally bound settlement"
    );
    assert_eq!(
        refusal(bitcoin_terminal_binding(
            &request("bitcoin_output", &outpoint),
            &outpoint,
            None,
            &funded(),
            &Err("short".to_owned()),
        )),
        "contract funding transaction is invalid: short"
    );
}

#[test]
fn a_bitcoin_end_is_final_in_the_local_view() {
    let report = document(r#"{"txid":"t","confirmations":6,"hex":"0a0b"}"#);
    assert_eq!(final_bitcoin_report(&report, "t", 6), Ok(vec![0x0a, 0x0b]));
    assert_eq!(
        refusal(final_bitcoin_report(&report, "t", 7)),
        "terminal Bitcoin transaction is not final in the local node view"
    );
    assert_eq!(
        refusal(final_bitcoin_report(&report, "u", 6)),
        "terminal Bitcoin transaction is not final in the local node view"
    );
    assert_eq!(
        refusal(final_bitcoin_report(&document("[]"), "t", 6)),
        "terminal Bitcoin transaction response is not an object"
    );
    assert_eq!(
        refusal(final_bitcoin_report(&document(r#"{"txid":"t","confirmations":6}"#), "t", 6)),
        "terminal Bitcoin response has no raw transaction"
    );
    assert_eq!(final_bitcoin_identity(&parsed(), &id("11")), Ok(()));
    assert_eq!(
        refusal(final_bitcoin_identity(&parsed(), &id("12"))),
        "terminal Bitcoin transaction has another transaction ID"
    );
    assert_eq!(
        refusal(final_bitcoin_identity(&Err("short".to_owned()), &id("11"))),
        "terminal Bitcoin transaction is invalid: short"
    );
}

fn bitcoin_binding(requires_spend: bool) -> BitcoinTerminalBinding {
    BitcoinTerminalBinding {
        funding_raw: vec![2, 0],
        funding_transaction_id: id("11"),
        funding_output_index: 1,
        terminal_transaction_id: "end".to_owned(),
        requires_spend,
    }
}

#[test]
fn the_local_node_shows_how_a_bitcoin_leg_ended() {
    let view = |raw: Vec<u8>, output: u32, unspent: bool| BitcoinTerminalView {
        raw,
        inputs: spending(0x11, output),
        settlement_inputs: spending(0x11, output),
        unspent,
    };
    assert_eq!(
        verify_local_bitcoin_terminal(&bitcoin_binding(true), None, &view(vec![], 1, false), 6),
        Ok("bitcoind:end:6".to_owned())
    );
    assert_eq!(
        refusal(verify_local_bitcoin_terminal(
            &bitcoin_binding(true),
            None,
            &view(vec![], 2, false),
            6
        )),
        "terminal Bitcoin transaction does not spend the contract outpoint"
    );
    assert_eq!(
        refusal(verify_local_bitcoin_terminal(
            &bitcoin_binding(true),
            None,
            &view(vec![], 1, true),
            6
        )),
        "contract Bitcoin outpoint remains unspent in the local node view"
    );
    assert_eq!(
        verify_local_bitcoin_terminal(
            &bitcoin_binding(false),
            Some("claim"),
            &view(vec![2, 0], 1, false),
            6
        ),
        Ok("bitcoind:output:end:settlement:claim:6".to_owned())
    );
    assert_eq!(
        refusal(verify_local_bitcoin_terminal(
            &bitcoin_binding(false),
            Some("claim"),
            &view(vec![2, 1], 1, false),
            6
        )),
        "terminal Bitcoin output differs from the contracted funding bytes"
    );
    assert_eq!(
        refusal(verify_local_bitcoin_terminal(
            &bitcoin_binding(false),
            None,
            &view(vec![2, 0], 1, false),
            6
        )),
        "terminal Bitcoin output has no local destination settlement"
    );
    assert_eq!(
        refusal(verify_local_bitcoin_terminal(
            &bitcoin_binding(false),
            Some("claim"),
            &view(vec![2, 0], 0, false),
            6
        )),
        "terminal Bitcoin destination settlement does not spend the contract outpoint"
    );
}

fn liquid_binding(requires_spend: bool) -> LiquidTerminalBinding {
    LiquidTerminalBinding {
        funding_raw: vec![2, 0],
        funding_transaction_id: id("11"),
        funding_output_index: 1,
        terminal_transaction_id: "end".to_owned(),
        requires_spend,
    }
}

#[test]
fn the_local_node_shows_how_a_liquid_leg_ended() {
    let view = |raw: Vec<u8>, output: u32, spender: Option<&str>| LiquidTerminalView {
        raw,
        inputs: spending(0x11, output),
        settlement_inputs: spending(0x11, output),
        spender: spender.map(str::to_owned),
    };
    assert_eq!(
        verify_local_liquid_terminal(&liquid_binding(true), None, &view(vec![], 1, Some("end")), 2),
        Ok("elementsd:end:2".to_owned())
    );
    assert_eq!(
        refusal(verify_local_liquid_terminal(
            &liquid_binding(true),
            None,
            &view(vec![], 0, Some("end")),
            2
        )),
        "terminal Liquid transaction does not spend the contract outpoint"
    );
    assert_eq!(
        refusal(verify_local_liquid_terminal(
            &liquid_binding(true),
            None,
            &view(vec![], 1, None),
            2
        )),
        "local elementsd reports another Liquid funding spender"
    );
    assert_eq!(
        verify_local_liquid_terminal(
            &liquid_binding(false),
            Some("claim"),
            &view(vec![2, 0], 1, Some("claim")),
            2
        ),
        Ok("elementsd:output:end:settlement:claim:2".to_owned())
    );
    assert_eq!(
        refusal(verify_local_liquid_terminal(
            &liquid_binding(false),
            Some("claim"),
            &view(vec![2, 0], 1, Some("other")),
            2
        )),
        "local elementsd reports another Liquid destination spender"
    );
    assert_eq!(
        refusal(verify_local_liquid_terminal(
            &liquid_binding(false),
            Some("claim"),
            &view(vec![], 1, Some("claim")),
            2
        )),
        "terminal Liquid output differs from the contracted funding bytes"
    );
    assert_eq!(
        refusal(verify_local_liquid_terminal(
            &liquid_binding(false),
            None,
            &view(vec![2, 0], 1, Some("claim")),
            2
        )),
        "terminal Liquid output has no local destination settlement"
    );
    assert_eq!(
        refusal(verify_local_liquid_terminal(
            &liquid_binding(false),
            Some("claim"),
            &view(vec![2, 0], 2, Some("claim")),
            2
        )),
        "terminal Liquid destination settlement does not spend the contract outpoint"
    );

    let report = |confirmations: u64, named: Result<Vec<u8>, String>, block: Option<&str>| {
        LiquidFinalReport {
            confirmations,
            transaction_id: named,
            block_hash: block.map(str::to_owned),
        }
    };
    assert_eq!(
        local_final_liquid_transaction(&report(2, Ok(vec![0x11; 32]), Some("b")), &id("11"), 2),
        Ok("b".to_owned())
    );
    assert_eq!(
        refusal(local_final_liquid_transaction(
            &report(1, Ok(vec![0x11; 32]), Some("b")),
            &id("11"),
            2
        )),
        "terminal Liquid transaction is not final in the local node view"
    );
    assert_eq!(
        refusal(local_final_liquid_transaction(
            &report(2, Ok(vec![0x12; 32]), Some("b")),
            &id("11"),
            2
        )),
        "terminal Liquid transaction has another transaction ID"
    );
    assert_eq!(
        refusal(local_final_liquid_transaction(
            &report(2, Err("short".to_owned()), Some("b")),
            &id("11"),
            2
        )),
        "terminal Liquid transaction is invalid: short"
    );
    assert_eq!(
        refusal(local_final_liquid_transaction(
            &report(2, Ok(vec![0x11; 32]), None),
            &id("11"),
            2
        )),
        "terminal Liquid transaction has no final block hash"
    );
}

#[test]
fn the_lightning_node_shows_how_a_payment_ended() {
    let incoming = Some(LightningTerminalCheck::IncomingInvoice {
        payment_hash: "hash".to_owned(),
    });
    let outgoing = Some(LightningTerminalCheck::OutgoingPayment {
        invoice: "lnbcrt".to_owned(),
        payment_hash: "hash".to_owned(),
        expected_status: "complete".to_owned(),
    });
    let paid = document(r#"{"invoices":[{"payment_hash":"hash","status":"paid"}]}"#);
    let complete = document(r#"{"pays":[{"payment_hash":"hash","status":"complete"}]}"#);
    let bound = request("lightning_payment", "hash");
    assert_eq!(
        verify_local_lightning_terminal(&bound, "hash", &incoming, &paid),
        Ok("cln:incoming:hash:paid".to_owned())
    );
    assert_eq!(
        verify_local_lightning_terminal(&bound, "hash", &outgoing, &complete),
        Ok("cln:outgoing:hash:complete".to_owned())
    );
    assert_eq!(
        refusal(verify_local_lightning_terminal(&bound, "hash", &outgoing, &paid)),
        "peer CLN does not report the bound terminal Lightning state"
    );
    assert_eq!(
        refusal(verify_local_lightning_terminal(&bound, "other", &incoming, &paid)),
        "provider Close Lightning reference differs from the bound payment"
    );
    assert_eq!(
        refusal(verify_local_lightning_terminal(&bound, "hash", &None, &paid)),
        "terminal Lightning evidence has no local observation"
    );
}

#[test]
fn local_evidence_keeps_the_producer_of_the_close() {
    let close = Event {
        id: "close".to_owned(),
        pubkey: "provider".to_owned(),
        created_at: 1,
        kind: 1,
        tags: vec![],
        content: "{}".to_owned(),
        sig: String::new(),
    };
    let assemble = |text: &str| {
        local_terminal_rail_evidence(
            &close,
            document(text).as_object().expect("an object"),
            "reference",
            "digest",
            "local_full_node",
            "bitcoind:end:6",
        )
    };
    let whole = assemble(r#"{"producer_pubkey":"provider","verifier_pubkey":null,"observed_at":7}"#)
        .expect("complete evidence");
    assert_eq!((whole.observed_at, whole.verifier_pubkey), (7, None));
    assert_eq!(whole.producer_pubkey, "provider");
    assert_eq!(whole.external_identifier, "bitcoind:end:6");
    assert_eq!(
        refusal(assemble(r#"{"producer_pubkey":"x","verifier_pubkey":null,"observed_at":7}"#)),
        "provider Close evidence names another producer"
    );
    assert_eq!(
        refusal(assemble(r#"{"producer_pubkey":"provider","observed_at":7}"#)),
        "provider Close evidence has an invalid verifier key"
    );
    assert_eq!(
        refusal(assemble(r#"{"producer_pubkey":"provider","verifier_pubkey":"v"}"#)),
        "provider Close evidence has no observation time"
    );
}

fn context() -> SigningContext {
    SigningContext {
        unsigned_transaction: "0a0b".to_owned(),
        input_index: 0,
        prevouts: vec![("100000".to_owned(), "5120".to_owned())],
        participant_keys: vec!["02".repeat(33), "03".repeat(33)],
        aggregate_key: id("aa"),
        signature_hash: id("bb"),
        sha256: Ok(id("cc")),
        latest_safe_height: "140".to_owned(),
    }
}

fn unsigned() -> UnsignedSettlement {
    UnsignedSettlement {
        version: 2,
        lock_time: 0,
        inputs: vec![([0x11; 32], 1, 0xffff_fffd)],
        outputs: vec![(99_000, vec![0x6a])],
    }
}

#[test]
fn a_joint_signature_is_begun_as_the_provider_described_it() {
    let root = id("dd");
    let contract = document(&format!(
        r#"{{"verifier_inputs":[{{"leg_id":"source","taproot_merkle_root":"{root}"}}]}}"#
    ));
    let package = document(
        r#"{
            "exit":{"fee_policy":{"maximum_fee":"900"}},
            "verification":{"taproot_script":"52","taproot_control_block":"c1"}
        }"#,
    );
    let template = cooperative_template(&contract, Some(&package), &context(), &Ok(unsigned()))
        .expect("a described signature");
    let settlement = &template.settlement;
    assert_eq!(settlement.previous_txid_wire, [0x11; 32]);
    assert_eq!((settlement.previous_output, settlement.input_sequence), (1, 0xffff_fffd));
    assert_eq!((settlement.prevout_value_sat, settlement.destination_value_sat), (100_000, 99_000));
    assert_eq!(settlement.maximum_fee_rate_sat_per_vbyte, 10_000);
    assert_eq!((settlement.maximum_weight, settlement.dust_relay_fee_sat_per_kilobyte), (1_600, 3_000));
    assert_eq!((template.first_key[0], template.second_key[0]), (0x02, 0x03));
    assert_eq!(template.taproot_merkle_root, vec![0xdd; 32]);
    assert_eq!(template.transcript_digest, vec![0xcc; 32]);
    assert_eq!((settlement.maximum_fee_sat, template.latest_safe_height), (900, 140));

    let mut two_inputs = unsigned();
    two_inputs.inputs.push(([0x12; 32], 0, 0));
    assert_eq!(
        refusal(cooperative_template(&contract, Some(&package), &context(), &Ok(two_inputs))),
        "cooperative transaction is not the pinned one-input one-output shape"
    );
    let mut no_output = unsigned();
    no_output.outputs.clear();
    assert_eq!(
        refusal(cooperative_template(&contract, Some(&package), &context(), &Ok(no_output))),
        "cooperative transaction has no output"
    );
    let mut no_input = unsigned();
    no_input.inputs.clear();
    assert_eq!(
        refusal(cooperative_template(&contract, Some(&package), &context(), &Ok(no_input))),
        "cooperative transaction has no input"
    );
    assert_eq!(
        refusal(cooperative_template(&contract, None, &context(), &Ok(unsigned()))),
        "cooperative requester exit package is absent"
    );
    assert_eq!(
        refusal(cooperative_template(
            &contract,
            Some(&package),
            &context(),
            &Err("short".to_owned())
        )),
        "cooperative unsigned transaction is invalid: short"
    );
    let mut one_key = context();
    one_key.participant_keys.pop();
    assert_eq!(
        refusal(cooperative_template(&contract, Some(&package), &one_key, &Ok(unsigned()))),
        "cooperative context does not contain two participant keys"
    );
    let mut no_prevout = context();
    no_prevout.prevouts.clear();
    assert_eq!(
        refusal(cooperative_template(&contract, Some(&package), &no_prevout, &Ok(unsigned()))),
        "cooperative context has no prevout"
    );
    let mut undigested = context();
    undigested.sha256 = Err("no digest".to_owned());
    assert_eq!(
        refusal(cooperative_template(&contract, Some(&package), &undigested, &Ok(unsigned()))),
        "cooperative context digest failed: no digest"
    );
    let mut unsafe_height = context();
    unsafe_height.latest_safe_height = "4294967296".to_owned();
    assert_eq!(
        refusal(cooperative_template(&contract, Some(&package), &unsafe_height, &Ok(unsigned()))),
        "cooperative latest safe height is invalid"
    );
}

#[test]
fn a_round_is_the_one_that_was_described() {
    let aggregate = vec![0xaa; 32];
    let hash = vec![0xbb; 32];
    assert_eq!(check_round(&context(), &aggregate, &hash, &Ok(vec![0x0a, 0x0b])), Ok(()));
    let differs = "requester cooperative round differs from provider context";
    assert_eq!(
        refusal(check_round(&context(), &hash, &hash, &Ok(vec![0x0a, 0x0b]))),
        differs
    );
    assert_eq!(
        refusal(check_round(&context(), &aggregate, &aggregate, &Ok(vec![0x0a, 0x0b]))),
        differs
    );
    assert_eq!(refusal(check_round(&context(), &aggregate, &hash, &Ok(vec![0x0a]))), differs);
    assert_eq!(
        refusal(check_round(&context(), &aggregate, &hash, &Err("no round".to_owned()))),
        "requester cooperative transaction failed: no round"
    );
}

#[test]
fn an_exit_names_what_it_spends_and_what_it_is_verified_by() {
    let contract = document(
        r#"{
            "payment_hash":"ff",
            "recovery":{"exit_policy":{
                "maximum_fee":"900","earliest_broadcast_height":"150",
                "latest_safe_broadcast_height":"190","target_blocks":2,"bump_mode":"none"
            }},
            "legs":[{
                "leg_id":"source","network_id":"net","asset_id":"btc","refund_lock_value":"150",
                "confirmation_policy":{"minimum":1}
            }],
            "verifier_inputs":[{
                "leg_id":"source","funding_transaction":"0200","output_index":1,
                "refund_script":"52","taproot_refund_control_block":"c1",
                "funding_transaction_sha256":"f5","amount":"100000",
                "script_pubkey":"5120","swap_tree_sha256":"7e","taproot_tree":{"leaves":2}
            }]
        }"#,
    );
    let parsed: Result<ParsedTransaction, String> = Ok(ParsedTransaction {
        txid: Ok(vec![0x11; 32]),
        inputs: vec![],
    });
    let digests = ExitDigests {
        template_sha256: "t5".to_owned(),
        confirmation_policy_sha256: "c5".to_owned(),
        verifier_sha256: "v5".to_owned(),
        effect_id: "effect".to_owned(),
    };
    let order = id("0f");
    let write = |contract: &Json| {
        requester_exit_document(
            contract,
            "profile",
            &document("1"),
            &order,
            "quote",
            "source",
            "refund",
            &vec![0x6a],
            &parsed,
            &digests,
        )
    };
    let exit = write(&contract).expect("a complete contract");
    assert_eq!(exit.text_at("schema"), Some("openagents.mkt-swp.exit.v1"));
    assert_eq!(exit.text_at("contract_sha256"), Some("03".repeat(32).as_str()));
    assert_eq!(exit.text_at("effect_id"), Some("effect"));
    let funding = exit.get("funding").expect("the funding");
    assert_eq!(funding.text_at("transaction_id"), Some(id("11").as_str()));
    assert_eq!(funding.text_at("confirmation_policy_sha256"), Some("c5"));
    assert_eq!(funding.u64_at("output_index"), Some(1));
    let way = exit.get("exit").expect("the way out");
    assert_eq!(way.text_at("signer_ref"), Some("funded-smoke-wallet:source:refund"));
    assert_eq!(way.text_at("destination_script_pubkey"), Some("6a"));
    assert_eq!(way.u64_at("lock_time"), Some(150));
    assert_eq!(way.text_at("latest_safe_broadcast_height"), Some("190"));
    assert!(way.get("fee_policy").expect("a fee policy").same(&document(
        r#"{"target_blocks":2,"maximum_fee":"900","bump_mode":"none"}"#
    )));
    let verification = exit.get("verification").expect("the verification");
    assert!(
        verification
            .get("taproot_tree")
            .expect("a tree")
            .same(&document(r#"{"leaves":2}"#))
    );
    assert_eq!(
        refusal(write(&document(r#"{"verifier_inputs":[{"leg_id":"source"}]}"#))),
        "funded contract has no source leg"
    );
    assert_eq!(
        refusal(write(&document(
            r#"{"verifier_inputs":[{
                "leg_id":"source","funding_transaction":"0200","output_index":1,"amount":"100000"
            }],"legs":[{"leg_id":"source"}]}"#
        ))),
        "funded contract has no exit policy"
    );
}

#[test]
fn a_liquid_exit_is_committed_by_how_it_is_signed() {
    let contract = document(r#"{"exit_package_commitments":[]}"#);
    for (presigned, mode) in [(true, "presigned"), (false, "wallet_sign")] {
        let bound = bind_liquid_exit_commitment(&contract, "source", "refund", presigned, "p5")
            .expect("a bound exit");
        let commitments = bound
            .get("exit_package_commitments")
            .and_then(|commitments| commitments.as_array())
            .expect("commitments");
        assert_eq!(commitments.len(), 1);
        assert_eq!(commitments[0].text_at("package_mode"), Some(mode));
        assert_eq!(commitments[0].text_at("leg_id"), Some("source"));
    }
    assert_eq!(
        refusal(bind_liquid_exit_commitment(&document("{}"), "source", "refund", true, "p5")),
        "chain contract has no mutable exit commitments"
    );
}

fn liquid_contract() -> Json {
    document(
        r#"{
            "asset_pair":["lbtc","btc"],
            "legs":[
                {"leg_id":"source","refund_lock_value":"150","asset_id":"lbtc"},
                {"leg_id":"destination","asset_id":"btc"}
            ],
            "verifier_inputs":[
                {
                    "leg_id":"source","funding_transaction":"0200","output_index":1,
                    "amount":"100000","script_pubkey":"5120","refund_script":"52",
                    "taproot_refund_control_block":"c1","claim_script":"51",
                    "taproot_claim_control_block":"c0","funding_transaction_sha256":"f5",
                    "taproot_internal_key":"1k","taproot_merkle_root":"3r",
                    "minimum_confirmations":"2","replacement_policy":"reject"
                },
                {
                    "leg_id":"destination","funding_transaction":"0201","output_index":0,
                    "amount":"98400","script_pubkey":"5121","claim_script":"51",
                    "taproot_claim_control_block":"c0"
                }
            ]
        }"#,
    )
}

#[test]
fn a_source_is_left_by_its_refund_and_a_destination_by_its_claim() {
    let source = plan_liquid_exit(&liquid_contract(), "source").expect("a refund");
    assert!(source.leaves_by_refund);
    assert_eq!((source.script, source.control_block), (vec![0x52], vec![0xc1]));
    assert_eq!((source.timelock, source.amount_sat, source.output_index), (150, 100_000, 1));
    let destination = plan_liquid_exit(&liquid_contract(), "destination").expect("a claim");
    assert!(!destination.leaves_by_refund);
    assert_eq!((destination.script, destination.timelock), (vec![0x51], 0));
    assert_eq!(
        refusal(plan_liquid_exit(&document("[]"), "source")),
        "chain contract is not an object"
    );
    assert_eq!(
        refusal(plan_liquid_exit(&liquid_contract(), "other")),
        "funded contract has no other verifier"
    );
}

#[test]
fn a_liquid_lock_is_funded_by_its_terms() {
    let request = liquid_fund_request(&liquid_contract(), "source").expect("a request");
    assert_eq!((request.input_asset_id.as_str(), request.output_asset_id.as_str()), ("lbtc", "btc"));
    assert_eq!((request.amount.as_str(), request.script_pubkey.as_str()), ("100000", "5120"));
    assert_eq!(request.minimum_confirmations, 2);
    assert_eq!(
        refusal(liquid_fund_request(&liquid_contract(), "destination")),
        "contract member funding_transaction_sha256 is missing"
    );
}

#[test]
fn a_wallet_crash_is_resumed_at_its_own_checkpoint_only() {
    let control = |at: Option<&str>, name: &str| {
        StepControl::load_with_injection(
            None,
            "run".to_owned(),
            None,
            None,
            at.map(str::to_owned),
            Some(name),
        )
        .expect("controls")
    };
    let asked = |run: &str, checkpoint: &str| FundedInjectionRequest {
        schema: "openagents.immortal.lab-injection.v1".to_owned(),
        run_id: run.to_owned(),
        journey: "reverse".to_owned(),
        checkpoint: checkpoint.to_owned(),
        injection: "wallet_crash".to_owned(),
        requested_at: 7,
    };
    let at = "reverse:funding_effect_recorded";
    let crashing = control(Some(at), "wallet_crash");
    assert_eq!(
        crashing.resume_interrupted_wallet_injection(Some(&asked("run", at))),
        Ok(Some(at.to_owned()))
    );
    assert_eq!(crashing.resume_interrupted_wallet_injection(None), Ok(None));
    let differs = "wallet crash recovery request differs from the selected case";
    assert_eq!(
        refusal(crashing.resume_interrupted_wallet_injection(Some(&asked("other", at)))),
        differs
    );
    assert_eq!(
        refusal(
            crashing.resume_interrupted_wallet_injection(Some(&asked("run", "reverse:completed")))
        ),
        differs
    );
    assert_eq!(
        control(Some(at), "relay_loss")
            .resume_interrupted_wallet_injection(Some(&asked("run", at))),
        Ok(None)
    );
}

#[test]
fn a_plan_without_keys_says_what_it_is_for() {
    assert!(keyless_plan_summary("effect", "txid").same(&document(
        r#"{
            "schema":"openagents.immortal.doomsday-keyless-request.v1",
            "case_id":"doomsday-keyless-esplora-broadcast","effect_id":"effect",
            "transaction_id":"txid","planner_authorized":true,"signed_before_contract":true,
            "broadcast":false
        }"#
    )));
    assert_eq!(leaked_document().text_at("preimage"), Some("0".repeat(64).as_str()));
}

#[test]
fn an_amount_has_one_text() {
    assert_eq!(canonical_u64("98400"), Ok(98_400));
    for other in ["098400", "+98400", " 98400", "98400.", "98_400", "98400 "] {
        assert_eq!(refusal(canonical_u64(other)), "amount is not canonical decimal");
    }
}
