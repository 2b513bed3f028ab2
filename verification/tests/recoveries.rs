use immortal_lab::boltz::{adapter_key_index, approval_contract_ids, BoltzRun};
use immortal_lab::doomsday::{
    DoomsdayHoldRun, DoomsdayLiquidHoldRun, DoomsdayLiquidLockRun, DoomsdayLockRun,
};
use immortal_lab::journey::{
    DoomsdayCase, HarnessInjection, LiquidChainDirection, LiquidJourney,
};
use immortal_lab::json::Json;
use immortal_lab::machine::{Action, LiquidExit, Reply};
use immortal_lab::order::{ChainOrderRun, FinalizeRun, LiquidOrderRun, OrderRun, QuoteRun};
use immortal_lab::planner::{ChainStanding, LightningStanding, Plan};
use immortal_lab::record::{Event, EventTag, RecordKinds};
use immortal_lab::recovery::{
    source_funding, KeylessRecoveryRun, LiquidClaimRecoveryRun, LiquidRefundRecoveryRun,
    RefundRecoveryRun, ReverseRecoveryRun,
};
use immortal_lab::topology::{
    active_reservation, check_uncontrolled, double_reservation, funded_topology_candidate,
    CancelRun, QuoteStanding, TopologyCandidate, TopologyRun,
};
use immortal_lab::wire::parse_json_text;

const KINDS: RecordKinds = RecordKinds {
    rfq: 39_602,
    quote: 39_603,
    order: 39_604,
    contract: 39_605,
    status: 39_606,
    cancel: 39_607,
    close: 39_608,
};

fn refusal<T>(outcome: Result<T, String>) -> String {
    match outcome {
        Ok(_) => panic!("nothing was refused"),
        Err(message) => message,
    }
}

fn document(text: &str) -> Json {
    parse_json_text(text).expect("test document should parse")
}

fn id(byte: &str) -> String {
    byte.repeat(32)
}

fn texts(values: &[&str]) -> Reply {
    Reply::Texts(values.iter().map(|value| (*value).to_owned()).collect())
}

fn record(id: &str, pubkey: &str, kind: u16, content: &str) -> Event {
    Event {
        id: id.to_owned(),
        pubkey: pubkey.to_owned(),
        created_at: 1,
        kind,
        tags: Vec::new(),
        content: content.to_owned(),
        sig: "00".repeat(64),
    }
}

fn status(id: &str, members: &str) -> Event {
    record(id, "provider", KINDS.status, &format!(r#"{{"mkt_swp":{{{members}}}}}"#))
}

fn told(action: &Action) -> String {
    match action {
        Action::AwaitState(state) => format!("await {state}"),
        Action::AwaitDirectState(state) => format!("await directly {state}"),
        Action::Say(state, _) => format!("say {state}"),
        Action::SayDirect(state, _) => format!("say directly {state}"),
        Action::Keep(label, _) => format!("keep {label}"),
        Action::Pause(label, _) => format!("pause {label}"),
        Action::Store(label, _) => format!("store {label}"),
        Action::Mine(rail, count, _) => format!("mine {rail} {count}"),
        Action::AwaitTransaction(rail, _, _) => format!("await transaction {rail}"),
        Action::ReadTransaction(rail, _, _) => format!("read transaction {rail}"),
        Action::CheckHealth => "check health".to_owned(),
        Action::LoadControllerProof => "load proof".to_owned(),
        Action::AwaitClose(check) => format!("await close {}", check.outcome),
        Action::Plan(_) => "plan".to_owned(),
        Action::Perform(task, _) => format!("{task:?}"),
        Action::Finish => "finish".to_owned(),
    }
}

fn usual(action: &Action) -> Reply {
    match action {
        Action::AwaitState(state) => {
            Reply::Record(status(&id("51"), &format!(r#""swp_state":"{state}""#)))
        }
        Action::Say(_, _) | Action::SayDirect(_, _) => Reply::Record(status(&id("51"), "")),
        Action::AwaitClose(_) => Reply::Record(record(&id("c1"), "provider", KINDS.close, "{}")),
        Action::AwaitDirectState(state) => {
            Reply::Direct(status(&id("52"), &format!(r#""swp_state":"{state}""#)), 2)
        }
        Action::ReadTransaction(_, _, _) => texts(&["00ff"]),
        _ => Reply::Done,
    }
}

/// Drives a journey to its end; `answer` replies to what the usual replies do not fit.
fn drive<M>(
    run: &mut M,
    action: fn(&M) -> Action,
    advance: fn(&mut M, Reply) -> Result<(), String>,
    answer: &dyn Fn(&str, &Action) -> Option<Reply>,
) -> Result<Vec<String>, String> {
    let mut steps = Vec::new();
    loop {
        let next = action(run);
        if let Action::Finish = next {
            return Ok(steps);
        }
        let step = told(&next);
        let reply = answer(&step, &next).unwrap_or_else(|| usual(&next));
        advance(run, reply).map_err(|message| format!("{step}: {message}"))?;
        steps.push(step);
        assert!(steps.len() < 100, "a journey ends");
    }
}

fn before(steps: &[String], first: &str, second: &str) -> bool {
    let place = |wanted: &str| {
        steps
            .iter()
            .position(|step| step == wanted)
            .unwrap_or_else(|| panic!("{wanted} is a step"))
    };
    place(first) < place(second)
}

const LOCK: &str = "aaaaaaaaaaaaaaaaaaaaaaaaaaaaaaaaaaaaaaaaaaaaaaaaaaaaaaaaaaaaaaaa";
const EXIT: &str = "bbbbbbbbbbbbbbbbbbbbbbbbbbbbbbbbbbbbbbbbbbbbbbbbbbbbbbbbbbbbbbbb";
const HASH: &str = "dddddddddddddddddddddddddddddddddddddddddddddddddddddddddddddddd";

fn contract() -> Json {
    let verifier = |leg_id: &str| {
        format!(
            r#"{{
                "leg_id":"{leg_id}","amount":"100000","script_pubkey":"5120","claim_script":"51",
                "taproot_claim_control_block":"c0","refund_script":"52",
                "taproot_refund_control_block":"c1","funding_transaction":"0200","output_index":1
            }}"#
        )
    };
    document(&format!(
        r#"{{
            "miner_fee_budget":"1000",
            "payment_hash":"{HASH}",
            "effect_bindings":[],
            "exit_package_commitments":[],
            "legs":[
                {{"leg_id":"source","rail":"bitcoin","refund_lock_value":"150","refund_public_key":"02"}},
                {{"leg_id":"destination","rail":"bitcoin","refund_lock_value":"140"}}
            ],
            "verifier_inputs":[{},{}]
        }}"#,
        verifier("source"),
        verifier("destination"),
    ))
}

fn session() -> Reply {
    Reply::Session {
        order_id: id("0f"),
        contract: contract(),
    }
}

fn funding() -> Reply {
    Reply::Funding {
        receipt: LOCK.to_owned(),
        id: LOCK.to_owned(),
        output_index: 0,
        hex: "0200".to_owned(),
    }
}

fn known(transaction_id: &str, hex: &str) -> Reply {
    Reply::Document(Some(document(&format!(
        r#"{{"txid":"{transaction_id}","hex":"{hex}"}}"#
    ))))
}

fn removal() -> Reply {
    Reply::Removal {
        deleted: document(&format!(r#"{{"payment_hash":"{HASH}","status":"unpaid"}}"#)),
        remaining: document(r#"{"invoices":[]}"#),
    }
}

fn wallet_claim() -> LiquidExit {
    LiquidExit {
        mode: "wallet".to_owned(),
        path: "claim".to_owned(),
        timelock: 0,
        signing_handle: Some("signer".to_owned()),
        preimage_recovery: Some("preimage".to_owned()),
        funding_id: LOCK.to_owned(),
        funding_output: 1,
    }
}

fn presigned_refund() -> LiquidExit {
    LiquidExit {
        mode: "presigned".to_owned(),
        path: "refund".to_owned(),
        timelock: 150,
        signing_handle: None,
        preimage_recovery: None,
        funding_id: LOCK.to_owned(),
        funding_output: 1,
    }
}

fn session_records() -> Vec<Event> {
    vec![
        record(&id("01"), "requester", KINDS.rfq, "{}"),
        record(&id("02"), "provider", KINDS.quote, "{}"),
        record(&id("03"), "requester", KINDS.order, "{}"),
        record(&id("04"), "requester", KINDS.contract, "{}"),
        record(&id("05"), "provider", KINDS.contract, "{}"),
        record(&id("06"), "provider", KINDS.status, "{}"),
    ]
}

fn usual_world(step: &str, action: &Action) -> Option<Reply> {
    match (step, action) {
        ("CreateInvoice", _) => Some(texts(&[HASH, "lnbcrt1"])),
        ("StoreSecret" | "LoadSecret", _) => Some(texts(&[HASH])),
        ("PrepareOrder" | "FinalizeNegotiation", _) => Some(session()),
        ("TakeFunding", _) => Some(funding()),
        ("DiscoverOffering", _) => Some(Reply::Record(record(&id("0e"), "provider", 39_601, "{}"))),
        ("await hold_invoice_ready", _) => {
            Some(Reply::Record(status("s", r#""invoice":"lnbcrt2""#)))
        }
        ("await provider_funding_broadcast", _) => Some(Reply::Record(status(
            "s",
            &format!(r#""transaction_id":"{LOCK}","output_index":1"#),
        ))),
        ("await directly provider_funding_broadcast", _) => Some(Reply::Direct(
            status("s", &format!(r#""transaction_id":"{LOCK}","output_index":1"#)),
            3,
        )),
        ("AwaitPaymentAttempt", _) => Some(texts(&["pending"])),
        ("AwaitPaymentEnd", _) => Some(texts(&["complete"])),
        ("BroadcastFunding", _) => Some(texts(&[LOCK])),
        ("DeriveFundingId", _) => Some(texts(&[LOCK])),
        ("ReadConfirmationHeight", _) => Some(Reply::Number(101)),
        ("FinalizeInvoice", _) => Some(removal()),
        ("RequireKnownTransaction", Action::Perform(_, arguments)) => {
            Some(known(&arguments[1], &arguments[2]))
        }
        ("ListInvoices", _) => Some(Reply::Document(Some(document(r#"{"invoices":[]}"#)))),
        ("ReadFundingInvoice", _) => Some(texts(&["lnbcrt2"])),
        ("AwaitDirectClose", _) => Some(Reply::Number(2)),
        ("ReadUnspent", _) => Some(Reply::Truth(false)),
        ("ReadSpender", _) => Some(texts(&[EXIT])),
        ("BuildClaim", Action::Perform(_, arguments)) => {
            assert_eq!(arguments[2], "99000");
            Some(texts(&["0300", EXIT]))
        }
        ("ExecuteLiquidClaim", _) => Some(texts(&[EXIT, "0300"])),
        ("BroadcastLiquidExit", _) => Some(texts(&[EXIT, EXIT])),
        ("SignExit", _) => Some(texts(&["effect", "0300"])),
        ("ReadRecords", _) => Some(Reply::Records(session_records())),
        _ => None,
    }
}

#[test]
fn a_lock_is_signed_out_of_beforehand() {
    let new = || DoomsdayLockRun::new(DoomsdayCase::SubmarineProviderGone, "provider");
    let world = |step: &str, action: &Action| match step {
        "AuthorizeFunding" => Some(Reply::Package {
            mode: "presigned".to_owned(),
            document: document(r#"{"exit":{"signer_ref":null}}"#),
        }),
        _ => usual_world(step, action),
    };
    let mut run = new();
    let steps = drive(&mut run, DoomsdayLockRun::action, DoomsdayLockRun::advance, &world)
        .expect("a prepared case");
    assert!(before(&steps, "AuthorizeFunding", "BroadcastBitcoin"));
    assert_eq!(steps.last().map(String::as_str), Some("keep doomsday_prepared"));
    run.prepared().expect("an end").expect("a prepared case");
    for (package, message) in [
        (
            Reply::Package {
                mode: "wallet_sign".to_owned(),
                document: document("{}"),
            },
            "doomsday refund was not pre-signed before Contracts",
        ),
        (Reply::Done, "doomsday session has no requester refund package"),
    ] {
        let mut run = new();
        while told(&run.action()) != "AuthorizeFunding" {
            let next = run.action();
            let reply = world(&told(&next), &next).unwrap_or_else(|| usual(&next));
            run.advance(reply).expect("a step");
        }
        assert_eq!(refusal(run.advance(package)), message);
    }
}

#[test]
fn a_liquid_lock_is_signed_out_of_beforehand() {
    let new = || {
        DoomsdayLiquidLockRun::new(DoomsdayCase::LiquidSubmarineProviderGone, "provider", 90_000)
    };
    let order = |exit: fn() -> LiquidExit, journey: &'static str| {
        move |step: &str, action: &Action| match step {
            "PrepareOrder" => Some(Reply::LiquidOrder {
                journey: journey.to_owned(),
                exit: exit(),
            }),
            _ => usual_world(step, action),
        }
    };
    let mut run = new();
    let steps = drive(
        &mut run,
        DoomsdayLiquidLockRun::action,
        DoomsdayLiquidLockRun::advance,
        &order(presigned_refund, "liquid_submarine"),
    )
    .expect("a prepared case");
    assert!(before(&steps, "PrepareOrder", "BroadcastFunding"));
    assert!(before(&steps, "AuthorizeFunding", "BroadcastFunding"));
    assert!(run.prepared().expect("an end").as_object().is_some());
    assert_eq!(
        refusal(drive(
            &mut new(),
            DoomsdayLiquidLockRun::action,
            DoomsdayLiquidLockRun::advance,
            &order(wallet_claim, "liquid_submarine")
        )),
        "PrepareOrder: Liquid doomsday refund is not an exact pre-signed package"
    );
    assert_eq!(
        refusal(drive(
            &mut new(),
            DoomsdayLiquidLockRun::action,
            DoomsdayLiquidLockRun::advance,
            &order(presigned_refund, "liquid_reverse")
        )),
        "PrepareOrder: Liquid doomsday preparation used another journey"
    );
    let mut other =
        DoomsdayLiquidLockRun::new(DoomsdayCase::LiquidSubmarineProviderGone, "other", 90_000);
    assert_eq!(
        refusal(other.advance(Reply::Record(record("x", "provider", 39_601, "{}")))),
        "Liquid submarine doomsday discovered another provider"
    );
}

#[test]
fn liquid_doomsday_checkpoint_retains_only_an_external_recovery_reference() {
    let world = |step: &str, action: &Action| match step {
        "PrepareOrder" => Some(Reply::LiquidOrder {
            journey: "liquid_reverse".to_owned(),
            exit: wallet_claim(),
        }),
        _ => usual_world(step, action),
    };
    let mut run =
        DoomsdayLiquidHoldRun::new(DoomsdayCase::LiquidReverseCoordinatorGone, "provider", 2);
    let mut kept = Vec::new();
    loop {
        let action = run.action();
        if let Action::Finish = action {
            break;
        }
        if let Action::Keep(_, details) = &action {
            kept.push(details.copy());
        }
        let step = told(&action);
        let reply = world(&step, &action).unwrap_or_else(|| usual(&action));
        run.advance(reply).expect("a prepared case");
    }
    kept.push(run.prepared().expect("an end"));
    for document in &kept {
        assert_eq!(
            document.bool_at("external_recovery_reference_bound_before_contract"),
            Some(true)
        );
        assert!(document.get("preimage_persisted_before_contract").is_none());
    }
    assert_eq!(kept.len(), 2);
}

#[test]
fn a_held_payment_keeps_its_secret() {
    let world = |step: &str, action: &Action| match step {
        "AuthorizeFunding" => Some(Reply::Package {
            mode: "wallet_sign".to_owned(),
            document: document("{}"),
        }),
        _ => usual_world(step, action),
    };
    let mut run = DoomsdayHoldRun::new(DoomsdayCase::ReverseCoordinatorGone, "provider");
    let steps = drive(&mut run, DoomsdayHoldRun::action, DoomsdayHoldRun::advance, &world)
        .expect("a prepared case");
    assert!(before(&steps, "StoreSecret", "StartPayment"));
    assert!(before(&steps, "AuthorizeFunding", "StartPayment"));
    assert!(run.prepared().expect("an end").as_object().is_some());
    let changed = |step: &str, action: &Action| match step {
        "AuthorizeFunding" => Some(Reply::Package {
            mode: "presigned".to_owned(),
            document: document("{}"),
        }),
        _ => usual_world(step, action),
    };
    let mut run = DoomsdayHoldRun::new(DoomsdayCase::ReverseCoordinatorGone, "provider");
    assert_eq!(
        refusal(drive(&mut run, DoomsdayHoldRun::action, DoomsdayHoldRun::advance, &changed)),
        "AuthorizeFunding: doomsday reverse claim changed from wallet_sign"
    );
}

#[test]
fn a_held_liquid_payment_waits_for_its_lock() {
    let new = || {
        DoomsdayLiquidHoldRun::new(DoomsdayCase::LiquidReverseCoordinatorGone, "provider", 2)
    };
    let world = |step: &str, action: &Action| match step {
        "PrepareOrder" => Some(Reply::LiquidOrder {
            journey: "liquid_reverse".to_owned(),
            exit: wallet_claim(),
        }),
        _ => usual_world(step, action),
    };
    let mut run = new();
    let steps = drive(
        &mut run,
        DoomsdayLiquidHoldRun::action,
        DoomsdayLiquidHoldRun::advance,
        &world,
    )
    .expect("a prepared case");
    assert!(before(&steps, "StoreSecret", "StartPayment"));
    assert!(before(&steps, "await funding_final", "keep doomsday_prepared"));
    let shared = |step: &str, action: &Action| match step {
        "PrepareOrder" => Some(Reply::LiquidOrder {
            journey: "liquid_reverse".to_owned(),
            exit: LiquidExit {
                preimage_recovery: Some("signer".to_owned()),
                ..wallet_claim()
            },
        }),
        _ => usual_world(step, action),
    };
    assert_eq!(
        refusal(drive(
            &mut new(),
            DoomsdayLiquidHoldRun::action,
            DoomsdayLiquidHoldRun::advance,
            &shared
        )),
        "PrepareOrder: Liquid reverse doomsday claim has no distinct recovery references"
    );
}

fn refund_world(step: &str, action: &Action) -> Option<Reply> {
    match (step, action) {
        ("ReadHeight", Action::Perform(_, arguments)) => {
            Some(Reply::Number(if arguments[0].ends_with("before-timeout") { 120 } else { 150 }))
        }
        (_, Action::Plan(standing)) => {
            assert_eq!(standing.lightning_state, Some(LightningStanding::UnpaidFinal));
            assert_eq!(standing.chain_state, None);
            assert!(!standing.needs_refund_height && !standing.counterparty_available);
            Some(Reply::Planned(Ok(if standing.current_height == 150 {
                Plan::BroadcastPresigned("effect".to_owned())
            } else {
                Plan::WaitForTimeout
            })))
        }
        ("BuildKeylessRequest", _) => Some(texts(&["0300", EXIT])),
        _ => usual_world(step, action),
    }
}

#[test]
fn a_presigned_refund_is_broadcast_at_its_timeout() {
    let new = || {
        RefundRecoveryRun::new(
            DoomsdayCase::SubmarineProviderGone,
            3,
            &contract(),
            "provider",
            &id("0f"),
            &document(r#"{"audit":true}"#),
        )
    };
    let mut run = new();
    let steps = drive(&mut run, RefundRecoveryRun::action, RefundRecoveryRun::advance, &refund_world)
        .expect("a recovered lock");
    assert!(before(&steps, "mine bitcoin 30", "BroadcastBitcoin"));
    assert!(before(&steps, "FinalizeInvoice", "BroadcastBitcoin"));
    assert!(before(&steps, "plan", "BroadcastBitcoin"));
    let recovered = run.recovered().expect("an end");
    assert_eq!(recovered.text_at("outcome"), Some("refunded"));
    assert_eq!(recovered.u64_at("refund_lock_height"), Some(150));
    assert_eq!(recovered.text_at("refund_transaction_id"), Some(EXIT));
    for (wanted, reply, message) in [
        (
            "plan",
            (|| Reply::Planned(Ok(Plan::BroadcastPresigned("effect".to_owned())))) as fn() -> Reply,
            "doomsday planner authorized an early refund broadcast",
        ),
        (
            "plan",
            || Reply::Planned(Err("no view".to_owned())),
            "doomsday planner rejected local observations: no view",
        ),
        (
            "ReadHeight",
            || Reply::Number(149),
            "doomsday recovery did not reach the committed refund height",
        ),
        (
            "BuildKeylessRequest",
            || Reply::Done,
            "doomsday planner selected an unbound exit package",
        ),
    ] {
        let world = |step: &str, action: &Action| {
            if step == wanted { Some(reply()) } else { refund_world(step, action) }
        };
        assert_eq!(
            refusal(drive(&mut new(), RefundRecoveryRun::action, RefundRecoveryRun::advance, &world)),
            format!("{wanted}: {message}")
        );
    }
    assert_eq!(source_funding(&contract(), "unbounded"), Ok(("0200".to_owned(), 1)));
    assert!(source_funding(&document("{}"), "unbounded").is_err());
}

#[test]
fn a_keyless_refund_is_recorded_after_its_timeout() {
    let new = || {
        KeylessRecoveryRun::new(
            DoomsdayCase::KeylessEsploraBroadcast,
            3,
            &contract(),
            "provider",
            &id("0f"),
            &document("{}"),
            "effect",
            "0300",
            EXIT,
        )
    };
    let mut run = new();
    let steps = drive(&mut run, KeylessRecoveryRun::action, KeylessRecoveryRun::advance, &refund_world)
        .expect("a recovered lock");
    assert!(before(&steps, "ReadHeight", "RecordEsploraEffect"));
    assert_eq!(run.recovered().expect("an end").text_at("outcome"), Some("refunded"));
    let early = |step: &str, action: &Action| match step {
        "ReadHeight" => Some(Reply::Number(149)),
        _ => refund_world(step, action),
    };
    assert_eq!(
        refusal(drive(&mut new(), KeylessRecoveryRun::action, KeylessRecoveryRun::advance, &early)),
        "ReadHeight: keyless broadcaster accepted a refund before timeout"
    );
}

#[test]
fn a_reverse_claim_is_recovered_over_the_direct_channel() {
    let new = || {
        ReverseRecoveryRun::new(
            DoomsdayCase::ReverseCoordinatorGone,
            3,
            &contract(),
            "provider",
            &id("0f"),
            &document("{}"),
        )
    };
    let world = |step: &str, action: &Action| match (step, action) {
        ("ReadHeight", _) => Some(Reply::Number(120)),
        (_, Action::Plan(standing)) => {
            assert_eq!(standing.current_height, 120);
            assert_eq!(standing.source_funding_confirmation_height, None);
            assert_eq!(standing.lightning_state, Some(LightningStanding::Pending));
            assert_eq!(standing.chain_state, Some(ChainStanding::DestinationClaimable));
            assert!(standing.counterparty_available);
            Some(Reply::Planned(Ok(Plan::RequestWalletClaim("effect".to_owned()))))
        }
        _ => usual_world(step, action),
    };
    let mut run = new();
    let steps = drive(&mut run, ReverseRecoveryRun::action, ReverseRecoveryRun::advance, &world)
        .expect("a recovered claim");
    assert!(before(&steps, "await directly funding_final", "BroadcastBitcoin"));
    assert!(before(&steps, "ObserveHeldPayment", "plan"));
    assert!(before(&steps, "plan", "SignExit"));
    assert!(before(&steps, "RecordSignedExit", "BroadcastBitcoin"));
    assert!(before(&steps, "await close completed", "RemoveSecret"));
    assert!(run.recovered().expect("an end").as_object().is_some());
    for (plan, message) in [
        (
            (|| Ok(Plan::WaitForTimeout)) as fn() -> Result<Plan, String>,
            "doomsday reverse planner did not authorize the claim",
        ),
        (
            || Err("no view".to_owned()),
            "doomsday reverse planner rejected local rails: no view",
        ),
    ] {
        let other = |step: &str, action: &Action| match action {
            Action::Plan(_) => Some(Reply::Planned(plan())),
            _ => world(step, action),
        };
        let mut refused = new();
        assert_eq!(
            refusal(drive(
                &mut refused,
                ReverseRecoveryRun::action,
                ReverseRecoveryRun::advance,
                &other
            )),
            format!("plan: {message}")
        );
        assert!(refused.recovered().is_none());
    }
    let unheld = |step: &str, action: &Action| match step {
        "AwaitPaymentAttempt" => Some(texts(&["complete"])),
        _ => world(step, action),
    };
    assert_eq!(
        refusal(drive(&mut new(), ReverseRecoveryRun::action, ReverseRecoveryRun::advance, &unheld)),
        "AwaitPaymentAttempt: doomsday reverse payment was not held before claim"
    );
    let unspent = |step: &str, action: &Action| match step {
        "ReadUnspent" => Some(Reply::Truth(true)),
        _ => world(step, action),
    };
    assert_eq!(
        refusal(drive(&mut new(), ReverseRecoveryRun::action, ReverseRecoveryRun::advance, &unspent)),
        "ReadUnspent: doomsday reverse funding outpoint remains unspent"
    );
}

#[test]
fn a_liquid_refund_matures_before_it_is_broadcast() {
    let new = || {
        LiquidRefundRecoveryRun::new(
            DoomsdayCase::LiquidSubmarineProviderGone,
            3,
            &contract(),
            Some(id("0e")),
            KINDS,
        )
    };
    let world = |height: u64, exit: fn() -> LiquidExit| {
        move |step: &str, action: &Action| match step {
            "RestoreLiquidRequest" => Some(Reply::LiquidRequest {
                swap_type: "submarine".to_owned(),
                purpose: "requester_broadcast".to_owned(),
                exit: exit(),
            }),
            "ReadHeight" => Some(Reply::Number(height)),
            _ => usual_world(step, action),
        }
    };
    let run_at = |height: u64| {
        let mut run = new();
        let steps = drive(
            &mut run,
            LiquidRefundRecoveryRun::action,
            LiquidRefundRecoveryRun::advance,
            &world(height, presigned_refund),
        )
        .expect("a recovered lock");
        assert!(run.recovered().expect("an end").as_object().is_some());
        steps
    };
    assert!(before(&run_at(147), "mine liquid 3", "BroadcastLiquidExit"));
    assert_eq!(
        run_at(150)
            .iter()
            .filter(|step| step.starts_with("mine liquid"))
            .count(),
        1
    );
    assert_eq!(
        refusal(drive(
            &mut new(),
            LiquidRefundRecoveryRun::action,
            LiquidRefundRecoveryRun::advance,
            &world(150, wallet_claim)
        )),
        "RestoreLiquidRequest: restored Liquid submarine refund has another shape"
    );
}

#[test]
fn a_liquid_claim_is_recovered_while_its_payment_is_held() {
    let new = || {
        LiquidClaimRecoveryRun::new(
            DoomsdayCase::LiquidReverseCoordinatorGone,
            3,
            &contract(),
            Some(id("0e")),
            KINDS,
        )
    };
    let world = |step: &str, action: &Action| match step {
        "RestoreLiquidRequest" => Some(Reply::LiquidRequest {
            swap_type: "reverse".to_owned(),
            purpose: "counterparty_lock".to_owned(),
            exit: wallet_claim(),
        }),
        _ => usual_world(step, action),
    };
    let mut run = new();
    let steps = drive(
        &mut run,
        LiquidClaimRecoveryRun::action,
        LiquidClaimRecoveryRun::advance,
        &world,
    )
    .expect("a recovered claim");
    assert!(before(&steps, "AwaitPaymentAttempt", "ExecuteLiquidClaim"));
    assert!(before(&steps, "VerifyRestored", "ExecuteLiquidClaim"));
    assert!(before(&steps, "await close completed", "RemoveSecret"));
    assert!(run.recovered().expect("an end").as_object().is_some());
    let other = |step: &str, action: &Action| match step {
        "ReadSpender" => Some(texts(&[LOCK])),
        _ => world(step, action),
    };
    assert_eq!(
        refusal(drive(
            &mut new(),
            LiquidClaimRecoveryRun::action,
            LiquidClaimRecoveryRun::advance,
            &other
        )),
        "ReadSpender: Liquid reverse funding outpoint has another terminal spend"
    );
}

#[test]
fn an_adapter_is_held_to_what_it_prepared() {
    let finalize = format!(
        r#"{{
            "schema":"openagents.immortal.boltz-adapter-finalize.v1","client":"go",
            "session_id":"session","finalize_path":"FINALIZE","raw_transaction_hex":"0200",
            "funding_transaction_sha256":"{}","output_index":1
        }}"#,
        id("5a")
    );
    let role = |id: &str, role: &str| {
        record(
            id,
            role,
            KINDS.contract,
            &format!(r#"{{"mkt_swp":{{"signer_role":"{role}"}}}}"#),
        )
    };
    let ids = approval_contract_ids(
        &vec![role("r", "requester"), role("p", "provider")],
        KINDS.contract,
    );
    assert_eq!(ids, Ok(("r".to_owned(), "p".to_owned())));
    let world = |step: &str, action: &Action| match (step, action) {
        ("FinalizeNegotiation", _) => Some(Reply::Session {
            order_id: id("0f"),
            contract: document(&format!(
                r#"{{"exit_package_commitments":[{{
                    "participant_role":"requester","leg_id":"source","path":"refund",
                    "package_mode":"wallet_sign","package_sha256":"{}"
                }}]}}"#,
                id("5b")
            )),
        }),
        ("ReadSession", _) => Some(texts(&["session"])),
        ("AwaitControl", Action::Perform(_, arguments)) => {
            Some(Reply::Document(Some(if arguments[0] == "broadcast" {
                document(&format!(
                    r#"{{
                        "schema":"openagents.immortal.boltz-adapter-broadcast.v1","client":"go",
                        "session_id":"session","transaction_id":"{LOCK}"
                    }}"#
                ))
            } else {
                document(&finalize.replace("FINALIZE", "/v2/swap/submarine/session/finalize"))
            })))
        }
        ("HashFunding", _) => Some(texts(&[&id("5a")])),
        ("AuthorizeFunding", _) => Some(texts(&[&id("5c")])),
        ("ReadRecords", _) => Some(Reply::Records(vec![
            role("r", "requester"),
            role("p", "provider"),
        ])),
        _ => usual_world(step, action),
    };
    let mut run = BoltzRun::new("go", KINDS);
    let steps = drive(&mut run, BoltzRun::action, BoltzRun::advance, &world).expect("a funded session");
    assert!(before(&steps, "AuthorizeFunding", "store approval"));
    assert!(before(&steps, "HashFunding", "FinalizeNegotiation"));
    assert!(before(&steps, "RequireKnownTransaction", "RecordFundingEffect"));
    assert_eq!(run.prepared().text_at("raw_transaction_hex"), Some("0200"));
    assert_eq!(run.approval().text_at("client"), Some("go"));
    assert!(run.complete().as_object().is_some());
    let changed = |step: &str, action: &Action| match step {
        "HashFunding" => Some(texts(&[&id("5d")])),
        _ => world(step, action),
    };
    let mut run = BoltzRun::new("go", KINDS);
    assert_eq!(
        refusal(drive(&mut run, BoltzRun::action, BoltzRun::advance, &changed)),
        "HashFunding: Boltz adapter finalization request changed the prepared funding"
    );
    assert_eq!(adapter_key_index("go"), Ok(20));
    assert_eq!(adapter_key_index("web"), Ok(21));
    assert_eq!(
        refusal(adapter_key_index("other")),
        "IMMORTAL_LAB_BOLTZ_ADAPTER_CLIENT must be go or web"
    );
}

fn candidate(provider: &str, output: u64, fee: u64, quote: &str) -> TopologyCandidate {
    TopologyCandidate {
        relay_url: "ws://relay".to_owned(),
        provider_pubkey: provider.to_owned(),
        session_id: "session".to_owned(),
        rfq_id: "rfq".to_owned(),
        quote_id: quote.to_owned(),
        reservation_class: "hard".to_owned(),
        swap_type: "submarine".to_owned(),
        input_asset_id: "in".to_owned(),
        output_asset_id: "out".to_owned(),
        amount_equation: "equation".to_owned(),
        rounding: "floor".to_owned(),
        input_amount: "100000".to_owned(),
        output_text: output.to_string(),
        fee_text: fee.to_string(),
        output_amount: output,
        maximum_total_fee: fee,
        effective_acceptance_deadline: 9,
    }
}

#[test]
fn the_better_quote_is_preferred() {
    let quotes = [
        candidate("b", 98_400, 1_600, "q"),
        candidate("a", 98_300, 1_500, "q"),
        candidate("a", 98_300, 1_600, "q"),
        candidate("b", 98_300, 1_600, "p"),
        candidate("b", 98_300, 1_600, "q"),
    ];
    for (i, left) in quotes.iter().enumerate() {
        for (j, right) in quotes.iter().enumerate() {
            assert_eq!(left.is_preferred_to(right), i < j);
        }
    }
    assert!(quotes[0].is_comparable(&quotes[1]));
    let mut other = candidate("a", 1, 1, "q");
    other.rounding = "ceil".to_owned();
    assert!(!quotes[0].is_comparable(&other));
    assert_eq!(quotes[0].ranked(1).u64_at("rank"), Some(1));
}

#[test]
fn a_candidate_is_a_fresh_verified_hard_quote() {
    let standing = |verified: bool, authorized: bool, class: &str, deadline: u64| QuoteStanding {
        quote_verified: verified,
        funding_authorized: authorized,
        quote_class: class.to_owned(),
        reservation_class: "hard".to_owned(),
        effective_acceptance_deadline: deadline,
    };
    assert_eq!(
        funded_topology_candidate(&standing(true, false, "firm", 10), "98400", "1600", 10),
        Ok((98_400, 1_600))
    );
    for wrong in [
        standing(false, false, "firm", 10),
        standing(true, true, "firm", 10),
        standing(true, false, "indicative", 10),
        standing(true, false, "firm", 9),
    ] {
        assert_eq!(
            refusal(funded_topology_candidate(&wrong, "98400", "1600", 10)),
            "funded topology candidate is not a fresh verified hard Quote"
        );
    }
    assert!(
        funded_topology_candidate(&standing(true, false, "firm", 10), "098400", "1600", 10).is_err()
    );
    assert_eq!(check_uncontrolled(0), Ok(()));
    assert!(check_uncontrolled(1).is_err());
}

#[test]
fn the_other_provider_is_cancelled_before_the_selected_is_funded() {
    let world = |step: &str, action: &Action| match (step, action) {
        ("DiscoverProviders", _) => Some(texts(&["a", "b"])),
        ("Quote", Action::Perform(_, arguments)) => {
            Some(Reply::Quoted(if arguments[0] == "topology_a" {
                candidate("a", 98_300, 1_600, "q")
            } else {
                candidate("b", 98_400, 1_600, "r")
            }))
        }
        ("CancelSession", Action::Perform(_, arguments)) => {
            assert_eq!(arguments[0], "topology_a");
            Some(Reply::Document(Some(document(r#"{"cancelled":true}"#))))
        }
        ("FundSession", Action::Perform(_, arguments)) => {
            assert_eq!(arguments[0], "topology_b");
            Some(Reply::Document(Some(document(r#"{"funded":true}"#))))
        }
        _ => usual_world(step, action),
    };
    let mut run = TopologyRun::new("wallet");
    let steps = drive(&mut run, TopologyRun::action, TopologyRun::advance, &world)
        .expect("a selected provider");
    assert!(before(&steps, "CancelSession", "FundSession"));
    let result = run.result().expect("two candidates");
    assert_eq!(
        result
            .get("selection")
            .and_then(|selection| selection.text_at("selected_provider_pubkey")),
        Some("b")
    );
    let same = |step: &str, action: &Action| match step {
        "DiscoverProviders" => Some(texts(&["a", "a"])),
        _ => world(step, action),
    };
    assert_eq!(
        refusal(drive(
            &mut TopologyRun::new("wallet"),
            TopologyRun::action,
            TopologyRun::advance,
            &same
        )),
        "DiscoverProviders: funded topology did not discover two distinct providers"
    );
    assert!(TopologyRun::new("wallet").result().is_none());
}

#[test]
fn a_cancelled_session_releases_its_reservation_unspent() {
    let close = |spent: u64| {
        format!(
            r#"{{"mkt_swp":{{
                "external_spend_effects":{spent},
                "loss_accounting":{{"input_committed":"0","reservation_released":"98400"}}
            }}}}"#
        )
    };
    let world = |spent: u64| {
        move |step: &str, _: &Action| match step {
            "PublishCancel" | "AwaitCancel" => {
                Some(Reply::Record(record(&id("71"), "provider", KINDS.cancel, "{}")))
            }
            "AwaitCancelledClose" => Some(Reply::Record(record(
                &id("72"),
                "provider",
                KINDS.close,
                &close(spent),
            ))),
            _ => None,
        }
    };
    let new = || CancelRun::new("provider", "session", &id("0f"), "98400");
    let mut run = new();
    let steps = drive(&mut run, CancelRun::action, CancelRun::advance, &world(0))
        .expect("a cancelled session");
    assert_eq!(steps, ["PublishCancel", "AwaitCancel", "AwaitCancel", "AwaitCancelledClose"]);
    assert_eq!(run.result().expect("an end").text_at("outcome"), Some("cancelled"));
    assert_eq!(run.result().expect("an end").text_at("reservation_released"), Some("98400"));
    assert_eq!(
        refusal(drive(&mut new(), CancelRun::action, CancelRun::advance, &world(1))),
        "AwaitCancelledClose: unselected provider Close has invalid no-spend release accounting"
    );
}

#[test]
fn a_second_reservation_is_refused() {
    let quote = |class: &str| {
        let mut quote = record(
            &id("02"),
            "provider",
            KINDS.quote,
            r#"{"mkt_swp":{"reservation_terms":{
                "reservation_id":"r","capacity_bucket_id":"lightning-outbound",
                "reserved_amount":"986790","handler_committed_capacity":"1986789"
            }}}"#,
        );
        quote.tags.push(EventTag {
            name: "reservation".to_owned(),
            values: vec![class.to_owned()],
        });
        quote
    };
    let rfq = || record(&id("01"), "requester", KINDS.rfq, "{}");
    let reservation = active_reservation(&vec![rfq(), quote("hard")], KINDS).expect("a reservation");
    assert_eq!(reservation.reservation_id, "r");
    assert_eq!(reservation.capacity_bucket_id, "lightning-outbound");
    let proven = double_reservation("provider", &reservation, "one", "two", &id("09"));
    assert_eq!(
        proven
            .get("refused")
            .and_then(|refused| refused.text_at("expected_code")),
        Some("swp_reservation_overallocated")
    );
    assert_eq!(
        refusal(active_reservation(&vec![rfq(), quote("soft")], KINDS)),
        "double-reservation active Quote is not hard"
    );
    assert_eq!(
        refusal(active_reservation(&vec![rfq()], KINDS)),
        "double-reservation active session has no Quote"
    );
}

fn order_world(step: &str, action: &Action) -> Option<Reply> {
    match (step, action) {
        ("SignRfq" | "SignOrder", _) => Some(Reply::Record(record(&id("0f"), "requester", 1, "{}"))),
        ("AwaitQuote", _) => Some(Reply::Records(vec![record(
            &id("02"),
            "provider",
            KINDS.quote,
            "{}",
        )])),
        ("DraftContract", _) => Some(Reply::Document(Some(contract()))),
        ("DigestVerifier", _) => Some(texts(&[&id("5e")])),
        ("HashFunding", _) => Some(texts(&[&id("5a")])),
        ("BuildLiquidExit", _) => Some(texts(&["presigned", &id("5b")])),
        _ => usual_world(step, action),
    }
}

#[test]
fn a_quote_answers_a_published_request() {
    let mut run = QuoteRun::new("session", KINDS, &document("{}"));
    let steps = drive(&mut run, QuoteRun::action, QuoteRun::advance, &order_world).expect("a quote");
    assert_eq!(
        steps,
        ["OpenSubscription", "SignRfq", "PublishRfq", "AwaitQuote", "CheckSignature"]
    );
    let other = |step: &str, action: &Action| match step {
        "AwaitQuote" => Some(Reply::Records(vec![])),
        _ => order_world(step, action),
    };
    let mut run = QuoteRun::new("session", KINDS, &document("{}"));
    assert!(drive(&mut run, QuoteRun::action, QuoteRun::advance, &other).is_err());
}

#[test]
fn an_order_is_signed_before_its_contract_is_drafted() {
    let world = |step: &str, action: &Action| match step {
        "BuildFunding" => Some(texts(&["0200", &id("5a")])),
        "BuildExit" => Some(texts(&["wallet_sign", &id("5b")])),
        _ => order_world(step, action),
    };
    let mut run = OrderRun::new("submarine", true, false, "session", KINDS);
    let steps = drive(&mut run, OrderRun::action, OrderRun::advance, &world).expect("an order");
    assert_eq!(
        steps,
        [
            "ReadRecords",
            "SignOrder",
            "PublishOrder",
            "DraftContract",
            "BuildFunding",
            "DigestVerifier",
            "BuildExit",
        ]
    );
    let mut run = OrderRun::new("reverse", false, false, "session", KINDS);
    drive(&mut run, OrderRun::action, OrderRun::advance, &world).expect("an order");
    for (swap_type, funds, presign, message) in [
        ("chain", true, false, "PublishOrder: funded smoke requester swap type is unsupported"),
        (
            "reverse",
            true,
            false,
            "DraftContract: funded smoke requester funding input has the wrong shape",
        ),
        (
            "reverse",
            false,
            true,
            "DraftContract: only the submarine CLTV refund can be pre-signed",
        ),
    ] {
        let mut run = OrderRun::new(swap_type, funds, presign, "session", KINDS);
        assert_eq!(
            refusal(drive(&mut run, OrderRun::action, OrderRun::advance, &world)),
            message
        );
    }
}

#[test]
fn a_chain_order_commits_both_exits() {
    let world = |step: &str, action: &Action| match step {
        "BuildFunding" => Some(funding()),
        "BuildExit" => Some(texts(&[&id("5c")])),
        _ => order_world(step, action),
    };
    for direction in [
        LiquidChainDirection::BitcoinToLiquid,
        LiquidChainDirection::LiquidToBitcoin,
    ] {
        let mut run = ChainOrderRun::new(direction, "session", KINDS);
        let steps = drive(&mut run, ChainOrderRun::action, ChainOrderRun::advance, &world)
            .expect("an order");
        assert!(before(&steps, "BuildFunding", "HashFunding"));
        assert!(before(&steps, "BuildLiquidExit", "BuildExit"));
    }
}

#[test]
fn a_liquid_order_commits_its_exit() {
    let world = |step: &str, action: &Action| match step {
        "BuildFunding" => Some(funding()),
        _ => order_world(step, action),
    };
    for (journey, funds) in [(LiquidJourney::Submarine, true), (LiquidJourney::Reverse, false)] {
        let mut run = LiquidOrderRun::new(journey, "session", KINDS);
        let steps = drive(&mut run, LiquidOrderRun::action, LiquidOrderRun::advance, &world)
            .expect("an order");
        assert_eq!(steps.iter().any(|step| step == "BuildFunding"), funds);
        assert_eq!(steps.last().map(String::as_str), Some("BuildLiquidExit"));
    }
}

fn signed_contract(id: &str, author: &str, digest: &str, terms: &str) -> Event {
    let mut signed = record(
        id,
        author,
        KINDS.contract,
        &format!(r#"{{"mkt_swp":{{"contract":{terms}}}}}"#),
    );
    signed.tags.push(EventTag {
        name: "x".to_owned(),
        values: vec![digest.to_owned()],
    });
    signed
}

#[test]
fn both_sides_sign_the_same_contract() {
    let world = |digest: &'static str, terms: &'static str| {
        move |step: &str, action: &Action| match step {
            "SignContract" => Some(Reply::Record(signed_contract(
                &id("04"),
                "requester",
                "digest",
                r#"{"a":1}"#,
            ))),
            "AwaitProviderContract" => Some(Reply::Record(signed_contract(
                &id("05"),
                "provider",
                digest,
                terms,
            ))),
            _ => usual_world(step, action),
        }
    };
    let new = |injection| FinalizeRun::new("session", KINDS, injection, &document(r#"{"a":1}"#));
    let mut run = new(None);
    let steps = drive(
        &mut run,
        FinalizeRun::action,
        FinalizeRun::advance,
        &world("digest", r#"{"a":1}"#),
    )
    .expect("a signed contract");
    assert!(before(&steps, "AwaitProviderContract", "VerifySession"));
    assert!(before(&steps, "CheckSignature", "FinalizeExits"));
    assert_eq!(
        refusal(drive(
            &mut new(None),
            FinalizeRun::action,
            FinalizeRun::advance,
            &world("digest", r#"{"a":2}"#)
        )),
        "AwaitProviderContract: provider countersigned different funded contract terms"
    );
    assert_eq!(
        refusal(drive(
            &mut new(None),
            FinalizeRun::action,
            FinalizeRun::advance,
            &world("other", r#"{"a":1}"#)
        )),
        "CheckSignature: provider contract digest differs from requester contract digest"
    );
    let probing = |step: &str, action: &Action| match (step, action) {
        ("ApplyProbe", Action::Perform(_, arguments)) => {
            assert_eq!(arguments[0], "secret_leak");
            Some(Reply::Refused {
                code: "".to_owned(),
                message: "leak refused".to_owned(),
            })
        }
        _ => world("digest", r#"{"a":1}"#)(step, action),
    };
    assert_eq!(
        refusal(drive(
            &mut new(Some(HarnessInjection::SecretLeak)),
            FinalizeRun::action,
            FinalizeRun::advance,
            &probing
        )),
        "ApplyProbe: leak refused"
    );
}
