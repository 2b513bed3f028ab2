use immortal_lab::answer::is_answer;
use immortal_lab::chain::{process_replaced, selected_provider, ChainRun};
use immortal_lab::conflict::{check_unpaid, conflict_input, RbfConflictRun, ZeroConfRun};
use immortal_lab::contract::TxOutput;
use immortal_lab::control::FundedCheckpoint;
use immortal_lab::cooperative::{CooperativeClaimRun, CooperativeRun};
use immortal_lab::journey::{
    CooperativeAction, CooperativeJourney, FundedJourney, HarnessInjection, LiquidChainDirection,
};
use immortal_lab::json::Json;
use immortal_lab::liquid::{LiquidReverseRun, LiquidSubmarineRun};
use immortal_lab::machine::{Action, CloseCheck, Reply, SettlementShape, SpentInput, Task};
use immortal_lab::planner::{ChainStanding, LightningStanding, Plan};
use immortal_lab::record::{Event, EventTag, RecordKinds};
use immortal_lab::reverse::{
    resume_reverse, ReverseClaimRun, ReverseRefundRun, ReverseResume, ReverseRun,
};
use immortal_lab::submarine::{SubmarineRefundRun, SubmarineRun};
use immortal_lab::terminal::TxInput;
use immortal_lab::wire::parse_json_text;

const KINDS: RecordKinds = RecordKinds {
    rfq: 39_602,
    quote: 39_603,
    order: 39_604,
    contract: 39_605,
    status: 39_606,
    cancel: 39_607,
    close: 39_608,
};

fn refusal<T>(outcome: Result<T, String>) -> String {
    match outcome {
        Ok(_) => panic!("nothing was refused"),
        Err(message) => message,
    }
}

fn document(text: &str) -> Json {
    parse_json_text(text).expect("test document should parse")
}

fn id(byte: &str) -> String {
    byte.repeat(32)
}

fn texts(values: &[&str]) -> Reply {
    Reply::Texts(values.iter().map(|value| (*value).to_owned()).collect())
}

fn record(id: &str, pubkey: &str, kind: u16, content: &str) -> Event {
    Event {
        id: id.to_owned(),
        pubkey: pubkey.to_owned(),
        created_at: 1,
        kind,
        tags: Vec::new(),
        content: content.to_owned(),
        sig: "00".repeat(64),
    }
}

fn status(id: &str, members: &str) -> Event {
    record(id, "provider", KINDS.status, &format!(r#"{{"mkt_swp":{{{members}}}}}"#))
}

fn told(action: &Action) -> String {
    match action {
        Action::AwaitState(state) => format!("await {state}"),
        Action::AwaitDirectState(state) => format!("await directly {state}"),
        Action::Say(state, _) => format!("say {state}"),
        Action::SayDirect(state, _) => format!("say directly {state}"),
        Action::Keep(label, _) => format!("keep {label}"),
        Action::Pause(label, _) => format!("pause {label}"),
        Action::Store(label, _) => format!("store {label}"),
        Action::Mine(rail, count, _) => format!("mine {rail} {count}"),
        Action::AwaitTransaction(rail, _, _) => format!("await transaction {rail}"),
        Action::ReadTransaction(rail, _, _) => format!("read transaction {rail}"),
        Action::CheckHealth => "check health".to_owned(),
        Action::LoadControllerProof => "load proof".to_owned(),
        Action::AwaitClose(check) => format!("await close {}", check.outcome),
        Action::Plan(_) => "plan".to_owned(),
        Action::Perform(task, _) => format!("{task:?}"),
        Action::Finish => "finish".to_owned(),
    }
}

fn usual(action: &Action) -> Reply {
    match action {
        Action::AwaitState(state) => {
            Reply::Record(status(&id("51"), &format!(r#""swp_state":"{state}""#)))
        }
        Action::Say(_, _) | Action::SayDirect(_, _) => Reply::Record(status(&id("51"), "")),
        Action::AwaitClose(_) => Reply::Record(record(&id("c1"), "provider", KINDS.close, "{}")),
        Action::AwaitDirectState(state) => {
            Reply::Direct(status(&id("52"), &format!(r#""swp_state":"{state}""#)), 2)
        }
        Action::ReadTransaction(_, _, _) => texts(&["00ff"]),
        _ => Reply::Done,
    }
}

/// Drives a journey to its end; `answer` replies to what the usual replies do not fit.
fn drive<M>(
    run: &mut M,
    action: fn(&M) -> Action,
    advance: fn(&mut M, Reply) -> Result<(), String>,
    answer: &dyn Fn(&str, &Action) -> Option<Reply>,
) -> Result<Vec<String>, String> {
    let mut steps = Vec::new();
    loop {
        let next = action(run);
        if let Action::Finish = next {
            return Ok(steps);
        }
        let step = told(&next);
        let reply = answer(&step, &next).unwrap_or_else(|| usual(&next));
        advance(run, reply).map_err(|message| format!("{step}: {message}"))?;
        steps.push(step);
        assert!(steps.len() < 100, "a journey ends");
    }
}

fn before(steps: &[String], first: &str, second: &str) -> bool {
    let place = |wanted: &str| {
        steps
            .iter()
            .position(|step| step == wanted)
            .unwrap_or_else(|| panic!("{wanted} is a step"))
    };
    place(first) < place(second)
}

const LOCK: &str = "aaaaaaaaaaaaaaaaaaaaaaaaaaaaaaaaaaaaaaaaaaaaaaaaaaaaaaaaaaaaaaaa";
const EXIT: &str = "bbbbbbbbbbbbbbbbbbbbbbbbbbbbbbbbbbbbbbbbbbbbbbbbbbbbbbbbbbbbbbbb";
const HASH: &str = "dddddddddddddddddddddddddddddddddddddddddddddddddddddddddddddddd";

fn contract() -> Json {
    let leg = |leg_id: &str, rail: &str| {
        format!(r#"{{"leg_id":"{leg_id}","rail":"{rail}","refund_lock_value":"150"}}"#)
    };
    let verifier = |leg_id: &str| {
        format!(
            r#"{{
                "leg_id":"{leg_id}","amount":"100000","script_pubkey":"5120","claim_script":"51",
                "taproot_claim_control_block":"c0","refund_script":"52",
                "taproot_refund_control_block":"c1","funding_transaction":"0200","output_index":1
            }}"#
        )
    };
    document(&format!(
        r#"{{
            "miner_fee_budget":"1000",
            "payment_hash":"{HASH}",
            "timeout_ladder":{{"provider_refund_first":140}},
            "legs":[{},{}],
            "verifier_inputs":[{},{}]
        }}"#,
        leg("source", "bitcoin"),
        leg("destination", "liquid"),
        verifier("source"),
        verifier("destination"),
    ))
}

fn session() -> Reply {
    Reply::Session {
        order_id: id("0f"),
        contract: contract(),
    }
}

fn funding() -> Reply {
    Reply::Funding {
        receipt: LOCK.to_owned(),
        id: LOCK.to_owned(),
        output_index: 0,
        hex: "0200".to_owned(),
    }
}

fn settlement(transaction_id: &str) -> Reply {
    Reply::Record(status(
        &id("53"),
        &format!(r#""transaction_id":"{transaction_id}""#),
    ))
}

fn outpoint(transaction_id: &str, index: u32) -> Reply {
    Reply::Record(status(
        &id("54"),
        &format!(r#""transaction_id":"{transaction_id}","output_index":{index}"#),
    ))
}

fn known(transaction_id: &str, hex: &str) -> Reply {
    Reply::Document(Some(document(&format!(
        r#"{{"txid":"{transaction_id}","hex":"{hex}"}}"#
    ))))
}

fn submarine_world(step: &str, _: &Action) -> Option<Reply> {
    match step {
        "CreateInvoice" => Some(texts(&[HASH, "lnbcrt1"])),
        "PrepareOrder" => Some(session()),
        "TakeFunding" => Some(funding()),
        "await provider_claim_pending" => Some(settlement(EXIT)),
        _ => None,
    }
}

#[test]
fn a_submarine_swap_goes_its_way() {
    let mut run = SubmarineRun::new(6, None);
    let steps = drive(&mut run, SubmarineRun::action, SubmarineRun::advance, &submarine_world)
        .expect("a completed swap");
    assert_eq!(
        steps,
        [
            "CreateInvoice",
            "PrepareOrder",
            "await accepted",
            "await lock_terms_ready",
            "TakeFunding",
            "AuthorizeFunding",
            "KeepAuthorization",
            "say requester_verification_passed",
            "keep funding_execution_ready",
            "BroadcastBitcoin",
            "RecordFundingEffect",
            "say requester_funding_broadcast",
            "mine bitcoin 1",
            "await funding_observed",
            "await funding_final",
            "await lightning_payment_pending",
            "await lightning_paid",
            "await provider_claim_pending",
            "await transaction bitcoin",
            "mine bitcoin 6",
            "await provider_claimed",
            "await completed",
            "await close completed",
            "keep completed",
        ]
    );
    assert!(run.result().expect("an end").same(&document(&format!(
        r#"{{
            "order_id":"{}","lockup_txid":"{LOCK}","lockup_vout":0,"claim_txid":"{EXIT}",
            "payment_hash":"{HASH}","result":"claimed"
        }}"#,
        id("0f")
    ))));
}

#[test]
fn a_reorganized_chain_is_brought_about_at_its_checkpoint() {
    for (injection, pause) in [
        (HarnessInjection::FundingReorg, "pause funding_reorg_control"),
        (HarnessInjection::ClaimReorg, "pause claim_reorg_control"),
    ] {
        let mut run = SubmarineRun::new(1, Some(injection));
        let steps = drive(&mut run, SubmarineRun::action, SubmarineRun::advance, &submarine_world)
            .expect("a completed swap");
        assert!(steps.iter().any(|step| step == pause));
    }
}

#[test]
fn a_conflict_leaves_the_swap_before_its_lock() {
    let mut run = SubmarineRun::new(1, Some(HarnessInjection::RbfConflict));
    let steps = drive(&mut run, SubmarineRun::action, SubmarineRun::advance, &submarine_world)
        .expect("a diverted swap");
    assert_eq!(steps.last().map(String::as_str), Some("KeepAuthorization"));
}

#[test]
fn a_submarine_swap_is_refused_for_its_reasons() {
    let mut run = SubmarineRun::new(1, None);
    let unfunded = |step: &str, action: &Action| match step {
        "TakeFunding" => Some(Reply::Done),
        _ => submarine_world(step, action),
    };
    assert_eq!(
        refusal(drive(&mut run, SubmarineRun::action, SubmarineRun::advance, &unfunded)),
        "TakeFunding: submarine session has no contract-bound funding transaction"
    );
    let mut run = SubmarineRun::new(1, None);
    assert!(run.advance(Reply::Done).is_err());
    assert!(run.advance(texts(&["one"])).is_err());
    let mut run = SubmarineRun::new(1, None);
    let nameless = |step: &str, action: &Action| match step {
        "await provider_claim_pending" => None,
        _ => submarine_world(step, action),
    };
    assert_eq!(
        refusal(drive(&mut run, SubmarineRun::action, SubmarineRun::advance, &nameless)),
        "await provider_claim_pending: provider settlement Status has no transaction ID"
    );
}

fn checkpoint(label: &str, details: &str) -> FundedCheckpoint {
    FundedCheckpoint {
        schema: "openagents.immortal.lab-checkpoint.v1".to_owned(),
        run_id: "run".to_owned(),
        journey: "submarine".to_owned(),
        label: label.to_owned(),
        safe_to_stop: true,
        updated_at: 1,
        details: document(details),
    }
}

#[test]
fn a_restarted_submarine_swap_broadcasts_its_lock_at_most_once() {
    let bound = format!(r#"{{"external_identifier":"{LOCK}"}}"#);
    let resume = |label: &str, details: &str| {
        SubmarineRun::resume(
            &checkpoint(label, details),
            2,
            None,
            &id("0f"),
            &contract(),
            "0200",
            HASH,
        )
    };
    let world = |step: &str, action: &Action| match step {
        "DeriveFundingId" => Some(texts(&[LOCK])),
        "RequireKnownTransaction" => Some(known(LOCK, "0200")),
        _ => submarine_world(step, action),
    };
    let broadcasts = |label: &str, details: &str| {
        let mut run = resume(label, details).expect("a restartable checkpoint");
        drive(&mut run, SubmarineRun::action, SubmarineRun::advance, &world)
            .expect("a completed swap")
            .iter()
            .filter(|step| step.as_str() == "BroadcastBitcoin")
            .count()
    };
    assert_eq!(broadcasts("funding_authorized", "{}"), 1);
    assert_eq!(broadcasts("funding_execution_ready", &bound), 1);
    assert_eq!(broadcasts("funding_effect_recorded", &bound), 0);
    assert_eq!(
        refusal(resume("completed", &bound)),
        "submarine checkpoint cannot resume execution"
    );
    assert_eq!(
        refusal(resume("funding_effect_recorded", "{}")),
        "funded checkpoint has no external identifier"
    );
    let mut run = resume("funding_execution_ready", &bound).expect("a checkpoint");
    assert_eq!(
        refusal(run.advance(texts(&[EXIT]))),
        "persisted funding checkpoint binds another transaction"
    );
    let mut run = resume("funding_effect_recorded", &bound).expect("a checkpoint");
    assert_eq!(
        refusal(run.advance(known(LOCK, "0201"))),
        "bitcoind transaction bytes differ from the persisted execution"
    );
    let mut run = resume("funding_effect_recorded", &bound).expect("a checkpoint");
    assert_eq!(
        refusal(run.advance(known(EXIT, "0200"))),
        "bitcoind returned another recorded transaction"
    );
}

fn refund_world(step: &str, action: &Action) -> Option<Reply> {
    match (step, action) {
        ("ReadConfirmationHeight", _) => Some(Reply::Number(101)),
        ("FinalizeInvoice", _) => Some(Reply::Removal {
            deleted: document(&format!(r#"{{"payment_hash":"{HASH}","status":"unpaid"}}"#)),
            remaining: document(r#"{"invoices":[]}"#),
        }),
        ("ReadHeight", Action::Perform(_, arguments)) => {
            Some(Reply::Number(if arguments[0] == "refund-timeout" { 150 } else { 120 }))
        }
        (_, Action::Plan(standing)) => {
            assert_eq!(standing.source_funding_confirmation_height, Some(101));
            assert_eq!(standing.lightning_state, Some(LightningStanding::UnpaidFinal));
            assert_eq!(standing.chain_state, None);
            assert!(standing.needs_refund_height && !standing.counterparty_available);
            Some(Reply::Planned(Ok(if standing.current_height == 150 {
                Plan::RequestWalletRefund("effect".to_owned())
            } else {
                Plan::WaitForTimeout
            })))
        }
        ("BuildRefund", Action::Perform(_, arguments)) => {
            assert_eq!(arguments[..], [LOCK.to_owned(), "99000".to_owned()]);
            Some(texts(&["0300", EXIT]))
        }
        ("SignExit", _) => Some(texts(&["effect", "0300"])),
        ("ReadRecords", _) => Some(Reply::Records(vec![])),
        _ => submarine_world(step, action),
    }
}

#[test]
fn a_requester_takes_the_lock_back_at_its_timeout() {
    let new = |injection| SubmarineRefundRun::new("provider", 3, injection, KINDS);
    let mut run = new(Some(HarnessInjection::ProviderNoncooperative));
    let steps = drive(
        &mut run,
        SubmarineRefundRun::action,
        SubmarineRefundRun::advance,
        &refund_world,
    )
    .expect("a refunded swap");
    assert!(before(&steps, "AuthorizeFunding", "BroadcastBitcoin"));
    assert!(before(&steps, "FinalizeInvoice", "SignExit"));
    assert!(before(&steps, "mine bitcoin 30", "SignExit"));
    assert!(before(&steps, "SignExit", "RecordSignedExit"));
    assert!(before(&steps, "RecordSignedExit", "VerifyOnBothNodes"));
    assert_eq!(steps.last().map(String::as_str), Some("keep refunded"));
    assert!(run.result().expect("an end").same(&document(&format!(
        r#"{{
            "order_id":"{}","lockup_txid":"{LOCK}","lockup_vout":0,"payment_hash":"{HASH}",
            "funding_confirmation_height":101,"refund_lock_height":150,"refund_txid":"{EXIT}",
            "exit_package_mode":"wallet_sign","client_recovery_action":"request_wallet_refund",
            "both_bitcoind_nodes_agree":true,"provider_claim_effects":0,
            "lightning_state":"unpaid_final","result":"refunded"
        }}"#,
        id("0f")
    ))));
    assert_eq!(
        refusal(drive(
            &mut new(None),
            SubmarineRefundRun::action,
            SubmarineRefundRun::advance,
            &refund_world
        )),
        "RecordFundingEffect: submarine refund requires the selected provider stop proof"
    );
    for (wanted, reply, message) in [
        (
            "ReadConfirmationHeight",
            (|| Reply::Number(150)) as fn() -> Reply,
            "submarine refund lockup confirmed after its CLTV deadline",
        ),
        (
            "ReadConfirmationHeight",
            || Reply::Number(1 << 32),
            "funding confirmation height exceeds u32",
        ),
        (
            "ReadHeight",
            || Reply::Number(151),
            "scripted mining did not stop at the exact CLTV refund height",
        ),
        (
            "plan",
            || Reply::Planned(Ok(Plan::RequestWalletRefund("effect".to_owned()))),
            "client recovery did not wait for the committed refund timeout",
        ),
        (
            "plan",
            || Reply::Planned(Err("no view".to_owned())),
            "client engine rejected submarine refund recovery view: no view",
        ),
        (
            "SignExit",
            || texts(&["effect", "0301"]),
            "client engine signed another requester refund transaction",
        ),
        (
            "SignExit",
            || Reply::Done,
            "requester refund signing unexpectedly reused another effect",
        ),
        (
            "ReadRecords",
            || Reply::Records(vec![status("s", r#""swp_state":"provider_claimed""#)]),
            "noncooperative provider produced a settlement effect",
        ),
    ] {
        let world = |step: &str, action: &Action| {
            if step == wanted { Some(reply()) } else { refund_world(step, action) }
        };
        let outcome = drive(
            &mut new(Some(HarnessInjection::ProviderNoncooperative)),
            SubmarineRefundRun::action,
            SubmarineRefundRun::advance,
            &world,
        );
        assert_eq!(refusal(outcome), format!("{wanted}: {message}"));
    }
}

fn reverse_world(step: &str, action: &Action) -> Option<Reply> {
    match (step, action) {
        ("StoreSecret", _) => Some(texts(&[HASH])),
        ("PrepareOrder", _) => Some(session()),
        ("await hold_invoice_ready", _) => {
            Some(Reply::Record(status("s", r#""invoice":"lnbcrt2""#)))
        }
        ("await provider_funding_broadcast", _) => Some(outpoint(LOCK, 1)),
        ("ReadHeight", _) => Some(Reply::Number(120)),
        (_, Action::Plan(standing)) => {
            assert_eq!(standing.current_height, 120);
            assert_eq!(standing.source_funding_confirmation_height, None);
            assert_eq!(standing.lightning_state, Some(LightningStanding::Pending));
            assert!(!standing.needs_refund_height && !standing.counterparty_available);
            Some(Reply::Planned(Ok(match standing.chain_state {
                Some(ChainStanding::DestinationClaimable) => {
                    Plan::RequestWalletClaim("effect".to_owned())
                }
                _ => Plan::WaitForCounterparty,
            })))
        }
        ("BuildClaim", Action::Perform(_, arguments)) => {
            assert_eq!(arguments[..], [LOCK.to_owned(), "1".to_owned(), "99000".to_owned()]);
            Some(texts(&["0300", EXIT]))
        }
        ("SignExit", _) => Some(texts(&["effect", "0300"])),
        ("ReadRecords", _) => Some(Reply::Records(vec![status(
            "s",
            &format!(
                r#""swp_state":"provider_funding_broadcast","transaction_id":"{LOCK}","output_index":1"#
            ),
        )])),
        ("JoinPayment", _) => Some(texts(&["complete", HASH])),
        ("LoadSignedExit", _) => Some(texts(&["0300", EXIT])),
        ("RequireKnownTransaction", _) => Some(known(EXIT, "0300")),
        _ => None,
    }
}

fn planned(journey: FundedJourney) -> ReverseRun {
    let mut run = ReverseRun::new(journey, "provider", 4, None, KINDS);
    let steps = drive(&mut run, ReverseRun::action, ReverseRun::advance, &reverse_world)
        .expect("a planned swap");
    assert!(before(&steps, "AuthorizeFunding", "StartPayment"));
    assert!(before(&steps, "keep funding_execution_ready", "StartPayment"));
    assert!(before(&steps, "await funding_final", "plan"));
    run
}

#[test]
fn the_plan_at_the_timeout_of_a_refund_is_the_refund() {
    let other = |step: &str, action: &Action| match action {
        Action::Plan(standing) if standing.current_height == 150 => {
            Some(Reply::Planned(Ok(Plan::WaitForTimeout)))
        }
        _ => refund_world(step, action),
    };
    let mut run = SubmarineRefundRun::new(
        "provider",
        3,
        Some(HarnessInjection::ProviderNoncooperative),
        KINDS,
    );
    assert_eq!(
        refusal(drive(&mut run, SubmarineRefundRun::action, SubmarineRefundRun::advance, &other)),
        "plan: client recovery did not authorize the requester wallet refund"
    );
    assert!(run.result().is_none());
}

#[test]
fn a_reverse_plan_fits_its_journey() {
    for (journey, plan, message) in [
        (
            FundedJourney::ReverseRefund,
            (|| Ok(Plan::RequestWalletClaim("effect".to_owned()))) as fn() -> Result<Plan, String>,
            "client engine did not select counterparty wait before reverse refund",
        ),
        (
            FundedJourney::ReverseRefund,
            || Ok(Plan::Other),
            "client engine did not select counterparty wait before reverse refund",
        ),
        (
            FundedJourney::ReverseClaim,
            || Err("no view".to_owned()),
            "client engine rejected reverse recovery view: no view",
        ),
    ] {
        let world = |step: &str, action: &Action| match action {
            Action::Plan(_) => Some(Reply::Planned(plan())),
            _ => reverse_world(step, action),
        };
        let mut run = ReverseRun::new(journey, "provider", 4, None, KINDS);
        assert_eq!(
            refusal(drive(&mut run, ReverseRun::action, ReverseRun::advance, &world)),
            format!("plan: {message}")
        );
    }
    let waits = |step: &str, action: &Action| match action {
        Action::Plan(_) => Some(Reply::Planned(Ok(Plan::WaitForTimeout))),
        _ => reverse_world(step, action),
    };
    let mut run = ReverseRun::new(FundedJourney::ReverseClaim, "provider", 4, None, KINDS);
    drive(&mut run, ReverseRun::action, ReverseRun::advance, &waits).expect("a planned swap");
    let mut claim = run.claim();
    assert_eq!(
        refusal(drive(
            &mut claim,
            ReverseClaimRun::action,
            ReverseClaimRun::advance,
            &reverse_world
        )),
        "BuildClaim: client engine did not authorize the reverse wallet claim"
    );
    assert!(claim.result().is_none());
}

#[test]
fn a_reverse_swap_is_claimed_as_planned() {
    let mut run = planned(FundedJourney::ReverseClaim).claim();
    let steps = drive(&mut run, ReverseClaimRun::action, ReverseClaimRun::advance, &reverse_world)
        .expect("a claimed swap");
    assert_eq!(
        steps,
        [
            "say requester_claim_pending",
            "BuildClaim",
            "SignExit",
            "StoreSignedExit",
            "RecordSignedExit",
            "keep claim_broadcast_ready",
            "BroadcastBitcoin",
            "keep claim_broadcast_recorded",
            "ReadRecords",
            "say requester_claimed",
            "mine bitcoin 4",
            "await lightning_settlement_pending",
            "await lightning_paid",
            "await completed",
            "JoinPayment",
            "await close completed",
            "RemoveSecret",
            "keep completed",
        ]
    );
    assert!(run.result().expect("an end").same(&document(&format!(
        r#"{{
            "order_id":"{}","lockup_txid":"{LOCK}","lockup_vout":1,"claim_txid":"{EXIT}",
            "payment_hash":"{HASH}","result":"claimed"
        }}"#,
        id("0f")
    ))));
}

#[test]
fn a_reverse_swap_is_refunded_to_the_provider() {
    let world = |step: &str, action: &Action| match step {
        "await provider_refund_pending" => Some(settlement(EXIT)),
        "JoinPayment" => Some(Reply::Truth(false)),
        _ => reverse_world(step, action),
    };
    let mut run = planned(FundedJourney::ReverseRefund).refund();
    let steps = drive(&mut run, ReverseRefundRun::action, ReverseRefundRun::advance, &world)
        .expect("a refunded swap");
    assert!(before(&steps, "mine bitcoin 20", "await provider_refund_prepared"));
    assert!(before(&steps, "JoinPayment", "keep refunded"));
    assert!(run.result().expect("an end").same(&document(&format!(
        r#"{{
            "order_id":"{}","lockup_txid":"{LOCK}","lockup_vout":1,"refund_txid":"{EXIT}",
            "payment_hash":"{HASH}","result":"refunded","lightning_payment_succeeded":false
        }}"#,
        id("0f")
    ))));
    let released = |step: &str, action: &Action| match step {
        "JoinPayment" => Some(Reply::Truth(true)),
        _ => world(step, action),
    };
    let mut run = planned(FundedJourney::ReverseRefund).refund();
    assert_eq!(
        refusal(drive(&mut run, ReverseRefundRun::action, ReverseRefundRun::advance, &released)),
        "JoinPayment: noncooperative reverse payment released a preimage"
    );
}

#[test]
fn the_wrong_key_never_leads_anywhere() {
    for (reply, message) in [
        (
            Reply::Refused {
                code: "".to_owned(),
                message: "settlement script does not bind the selected wallet key".to_owned(),
            },
            "wrong claim key rejected before external effect",
        ),
        (
            Reply::Refused {
                code: "".to_owned(),
                message: "down".to_owned(),
            },
            "wrong claim key returned another refusal: down",
        ),
        (texts(&["00"]), "wrong claim key produced a signed transaction"),
    ] {
        let mut run = ReverseRun::new(
            FundedJourney::ReverseClaim,
            "provider",
            1,
            Some(HarnessInjection::WrongClaimKey),
            KINDS,
        );
        run.advance(texts(&[HASH])).expect("a stored secret");
        run.advance(session()).expect("an order");
        assert_eq!(told(&run.action()), "TryWrongKey");
        assert_eq!(refusal(run.advance(reply)), message);
    }
}

#[test]
fn a_restarted_reverse_claim_is_broadcast_at_most_once() {
    let bound = format!(r#"{{"external_identifier":"{EXIT}"}}"#);
    for (label, broadcasts) in [("claim_broadcast_ready", 1), ("claim_broadcast_recorded", 0)] {
        let resumed = resume_reverse(
            &checkpoint(label, &bound),
            FundedJourney::ReverseClaim,
            HASH,
        )
        .expect("a restartable checkpoint");
        let mut run = match resumed {
            ReverseResume::Claim(claim_txid, broadcast_claim) => ReverseClaimRun::resume(
                &claim_txid,
                broadcast_claim,
                4,
                "provider",
                KINDS,
                &id("0f"),
                HASH,
                "lnbcrt2",
            ),
            _ => panic!("a claim is gone on with"),
        };
        let steps = drive(&mut run, ReverseClaimRun::action, ReverseClaimRun::advance, &reverse_world)
            .expect("a claimed swap");
        let count = steps
            .iter()
            .filter(|step| step.as_str() == "BroadcastBitcoin")
            .count();
        assert_eq!(count, broadcasts, "{label}");
    }
}

fn chain_world(step: &str, _: &Action) -> Option<Reply> {
    match step {
        "ReadLiquidNetwork" => Some(texts(&["network", "asset"])),
        "DiscoverOffering" => Some(Reply::Record(record(&id("0e"), "provider", 39_601, "{}"))),
        "PrepareOrder" => Some(Reply::Document(Some(contract()))),
        "ParseDestinationTemplate" => Some(Reply::Outputs(Ok(vec![
            TxOutput { value_sat: 1, script_pubkey: vec![] },
            TxOutput { value_sat: 100_000, script_pubkey: vec![0x51, 0x20] },
        ]))),
        "BroadcastFunding" => Some(funding()),
        "await provider_destination_broadcast" => Some(outpoint(&id("22"), 1)),
        "load proof" => Some(Reply::Document(Some(document(
            r#"{"evidence":{"transition":"process_replaced_and_ready"}}"#,
        )))),
        "ClaimLiquidDestination" => Some(texts(&[EXIT, "0300"])),
        "await provider_source_claim_pending" => Some(settlement(&id("33"))),
        _ => None,
    }
}

fn session_records() -> Vec<Event> {
    vec![
        record(&id("01"), "requester", KINDS.rfq, "{}"),
        record(&id("02"), "provider", KINDS.quote, "{}"),
        record(&id("03"), "requester", KINDS.order, "{}"),
        record(&id("04"), "requester", KINDS.contract, "{}"),
        record(&id("05"), "provider", KINDS.contract, "{}"),
        record(&id("06"), "requester", KINDS.status, "{}"),
        record(&id("07"), "provider", KINDS.status, "{}"),
    ]
}

#[test]
fn a_chain_swap_goes_from_bitcoin_to_liquid() {
    let mut run = ChainRun::new(LiquidChainDirection::BitcoinToLiquid, 2, "network", "asset");
    let steps = drive(&mut run, ChainRun::action, ChainRun::advance, &chain_world)
        .expect("a completed swap");
    assert!(before(&steps, "AuthorizeFunding", "BroadcastFunding"));
    assert!(before(&steps, "PreflightLiquidDestination", "AuthorizeFunding"));
    assert!(before(&steps, "VerifyChainSource", "say requester_source_verified"));
    assert!(before(&steps, "await destination_lock_terms_ready", "ParseDestinationTemplate"));
    assert!(before(&steps, "await destination_lock_terms_ready", "PreflightLiquidDestination"));
    assert!(before(&steps, "AuthorizeFunding", "say requester_destination_verified"));
    assert!(before(&steps, "AuthorizeFunding", "ClaimLiquidDestination"));
    assert!(before(&steps, "await destination_funding_final", "ClaimLiquidDestination"));
    assert!(before(&steps, "load proof", "ClaimLiquidDestination"));
    assert!(before(&steps, "ClaimLiquidDestination", "RemoveSecret"));
    assert!(before(&steps, "await close completed", "read transaction liquid"));
    assert!(before(&steps, "read transaction liquid", "read transaction bitcoin"));
    assert_eq!(
        refusal(run.process_proof(1, &session_records(), KINDS).expect("an end")),
        "provider restart created a duplicate destination Status"
    );
    let mut records = session_records();
    records.push(status("s", r#""swp_state":"provider_destination_broadcast""#));
    let proven = run
        .process_proof(1, &records, KINDS)
        .expect("an end")
        .expect("a complete lifecycle");
    assert!(proven.as_object().is_some());
    assert_eq!((selected_provider(0), selected_provider(1)), ("provider-a", "provider-b"));
    assert!(process_replaced(&document(
        r#"{"evidence":{"transition":"process_replaced_and_ready"}}"#
    )));
    assert!(!process_replaced(&document(r#"{"evidence":{}}"#)));
}

#[test]
fn liquid_claim_requires_retained_pre_fund_authorization() {
    let mut run = ChainRun::new(LiquidChainDirection::BitcoinToLiquid, 2, "network", "asset");
    let steps = drive(&mut run, ChainRun::action, ChainRun::advance, &chain_world)
        .expect("a completed swap");
    let authorization = "AuthorizeFunding";
    assert!(before(&steps, authorization, "ClaimLiquidDestination"));
    let last = |wanted: &str| steps.iter().rposition(|step| step == wanted);
    assert!(last("ClaimLiquidDestination") < last("mine liquid 2"));
    for (first, second) in [
        ("VerifyChainSource", "say requester_source_verified"),
        ("await destination_lock_terms_ready", "PreflightLiquidDestination"),
        (authorization, "say requester_destination_verified"),
    ] {
        assert!(before(&steps, first, second), "{first} comes before {second}");
    }
}

#[test]
fn only_a_word_of_the_provider_answers_a_wait() {
    let word = |pubkey: &str, kind: u16, state: &str| {
        record(&id("51"), pubkey, kind, &format!(r#"{{"mkt_swp":{{"swp_state":"{state}"}}}}"#))
    };
    let answers = |action: &Action, reply: Reply| is_answer(action, &reply, KINDS, "provider");
    let wait = Action::AwaitState("funding_final");
    let direct = Action::AwaitDirectState("funding_final");
    let exact = || word("provider", KINDS.status, "funding_final");
    assert!(answers(&wait, Reply::Record(exact())));
    assert!(answers(&direct, Reply::Direct(exact(), 0)));
    assert!(!answers(&wait, Reply::Direct(exact(), 0)));
    assert!(!answers(&direct, Reply::Record(exact())));
    for other in [
        word("requester", KINDS.status, "funding_final"),
        word("provider", KINDS.close, "funding_final"),
        word("provider", KINDS.status, "funding_observed"),
    ] {
        assert!(!answers(&wait, Reply::Record(other)));
    }
    let close = Action::AwaitClose(CloseCheck {
        outcome: "completed",
        bitcoin: None,
        liquid: None,
        lightning: None,
    });
    let tagged = |kind: u16, name: &str, value: &str| {
        let mut event = record(&id("c1"), "provider", kind, "{}");
        event.tags.push(EventTag {
            name: name.to_owned(),
            values: vec![value.to_owned()],
        });
        Reply::Record(event)
    };
    assert!(answers(&close, tagged(KINDS.close, "outcome", "completed")));
    assert!(!answers(&close, tagged(KINDS.close, "outcome", "refunded")));
    assert!(!answers(&close, tagged(KINDS.status, "outcome", "completed")));
    let cancel = Action::Perform(Task::AwaitCancel, vec!["accepted".to_owned()]);
    assert!(answers(&cancel, tagged(KINDS.cancel, "action", "accepted")));
    assert!(!answers(&cancel, tagged(KINDS.cancel, "action", "effective")));
    let ended = Action::Perform(Task::AwaitCancelledClose, vec!["cancelled".to_owned()]);
    assert!(answers(&ended, tagged(KINDS.close, "outcome", "cancelled")));
    assert!(!answers(&ended, Reply::Done));
    let contract = Action::Perform(Task::AwaitProviderContract, vec![]);
    assert!(answers(&contract, Reply::Record(record(&id("c2"), "provider", KINDS.contract, "{}"))));
    for other in [
        record(&id("c2"), "requester", KINDS.contract, "{}"),
        record(&id("c2"), "provider", KINDS.status, "{}"),
    ] {
        assert!(!answers(&contract, Reply::Record(other)));
    }
    let step = Action::Perform(Task::AwaitCooperative, vec!["public_nonce".to_owned()]);
    assert!(answers(&step, signing(CooperativeAction::PublicNonce, None, vec![])));
    assert!(!answers(&step, signing(CooperativeAction::NonceCommitment, None, vec![])));
    assert!(!is_answer(
        &step,
        &signing(CooperativeAction::PublicNonce, None, vec![]),
        KINDS,
        "another"
    ));
    assert!(answers(&Action::CheckHealth, Reply::Done));
}

#[test]
fn a_chain_swap_is_refused_for_its_reasons() {
    let run = || ChainRun::new(LiquidChainDirection::BitcoinToLiquid, 2, "network", "asset");
    let mut other = run();
    assert!(other.advance(texts(&["network", "other"])).is_err());
    for (wanted, reply, message) in [
        (
            "ParseDestinationTemplate",
            (|| Reply::Outputs(Ok(vec![]))) as fn() -> Reply,
            "",
        ),
        (
            "BroadcastFunding",
            || Reply::Funding {
                receipt: EXIT.to_owned(),
                id: LOCK.to_owned(),
                output_index: 0,
                hex: "0200".to_owned(),
            },
            "elementsd broadcast another Liquid source transaction",
        ),
        (
            "load proof",
            || Reply::Document(None),
            "chain provider restart has no controller acknowledgement",
        ),
    ] {
        let world = |step: &str, action: &Action| {
            if step == wanted { Some(reply()) } else { chain_world(step, action) }
        };
        let told = refusal(drive(&mut run(), ChainRun::action, ChainRun::advance, &world));
        assert!(told.starts_with(&format!("{wanted}: {message}")), "{told}");
    }
    let mut back = ChainRun::new(LiquidChainDirection::LiquidToBitcoin, 2, "network", "asset");
    assert_eq!(
        refusal(drive(&mut back, ChainRun::action, ChainRun::advance, &chain_world)),
        "ParseDestinationTemplate: chain destination rail differs from its ordered asset pair"
    );
}

fn liquid_world(step: &str, action: &Action) -> Option<Reply> {
    match step {
        "ReadLiquidNetwork" | "DiscoverOffering" | "load proof" => chain_world(step, action),
        "CreateInvoice" => Some(texts(&[HASH, "lnbcrt1"])),
        "StoreSecret" => Some(texts(&[HASH])),
        "BroadcastFunding" => Some(texts(&[LOCK])),
        "await provider_claim_pending" => Some(settlement(EXIT)),
        "await hold_invoice_ready" => Some(Reply::Record(status("s", r#""invoice":"lnbcrt2""#))),
        "await provider_funding_broadcast" => Some(outpoint(LOCK, 0)),
        "CheckInvoicePaid" => Some(Reply::Document(Some(document(&format!(
            r#"{{"invoices":[{{"payment_hash":"{HASH}","status":"paid"}}]}}"#
        ))))),
        "ObserveTemplate" => Some(funding()),
        "ExecuteLiquidClaim" => Some(texts(&[EXIT, "0300"])),
        "JoinPayment" => Some(texts(&["complete", HASH])),
        "AwaitPaymentEnd" => Some(texts(&["complete"])),
        _ => None,
    }
}

#[test]
fn a_liquid_submarine_swap_ends_paid() {
    let world = |step: &str, action: &Action| match step {
        "PrepareOrder" => Some(funding()),
        _ => liquid_world(step, action),
    };
    let mut run = LiquidSubmarineRun::new(2, "network", "asset", 90_000);
    let steps = drive(&mut run, LiquidSubmarineRun::action, LiquidSubmarineRun::advance, &world)
        .expect("a completed swap");
    assert!(before(&steps, "AuthorizeFunding", "BroadcastFunding"));
    assert!(before(&steps, "load proof", "await completed"));
    assert!(steps.iter().any(|step| step == "CheckInvoicePaid"));
    run.process_proof(0, &session_records(), KINDS)
        .expect("an end")
        .expect("a complete lifecycle");
    let unpaid = |step: &str, action: &Action| match step {
        "CheckInvoicePaid" => Some(Reply::Document(Some(document(r#"{"invoices":[]}"#)))),
        _ => world(step, action),
    };
    let mut run = LiquidSubmarineRun::new(2, "network", "asset", 90_000);
    assert!(
        refusal(drive(&mut run, LiquidSubmarineRun::action, LiquidSubmarineRun::advance, &unpaid))
            .starts_with("CheckInvoicePaid: ")
    );
}

#[test]
fn a_liquid_reverse_swap_is_claimed_once_final() {
    let mut run = LiquidReverseRun::new(2, "network", "asset");
    let steps = drive(&mut run, LiquidReverseRun::action, LiquidReverseRun::advance, &liquid_world)
        .expect("a completed swap");
    assert!(before(&steps, "AuthorizeFunding", "ExecuteLiquidClaim"));
    assert!(before(&steps, "await funding_final", "ExecuteLiquidClaim"));
    assert!(before(&steps, "load proof", "ExecuteLiquidClaim"));
    assert!(before(&steps, "ExecuteLiquidClaim", "RemoveSecret"));
    run.process_proof(1, &session_records(), KINDS)
        .expect("an end")
        .expect("a complete lifecycle");
    let pending = |step: &str, action: &Action| match step {
        "AwaitPaymentEnd" => Some(texts(&["pending"])),
        _ => liquid_world(step, action),
    };
    let mut run = LiquidReverseRun::new(2, "network", "asset");
    assert!(
        refusal(drive(&mut run, LiquidReverseRun::action, LiquidReverseRun::advance, &pending))
            .starts_with("AwaitPaymentEnd: ")
    );
}

#[test]
fn a_conflict_is_refused_by_the_node_and_by_the_client() {
    let spends = |byte: u8| {
        Ok(vec![TxInput {
            previous_txid: vec![byte; 32],
            previous_output: 3,
        }])
    };
    assert_eq!(
        conflict_input(&spends(0x44), &spends(0x44)),
        Ok((id("44"), 3))
    );
    assert!(conflict_input(&spends(0x44), &spends(0x45)).is_err());
    let world = |step: &str, action: &Action| match (step, action) {
        ("BuildConflict", _) => Some(texts(&[EXIT, "0300"])),
        ("ParseInputs", _) => Some(Reply::SpentInputs {
            committed: spends(0x44),
            conflicting: spends(0x44),
        }),
        ("BroadcastCompetitor", Action::Perform(_, arguments)) => {
            Some(if arguments[0] == "rbf-committed-rejected" {
                Reply::Refused {
                    code: "-26".to_owned(),
                    message: "txn-mempool-conflict".to_owned(),
                }
            } else {
                texts(&[EXIT])
            })
        }
        ("ReadMempool", _) => Some(Reply::Document(Some(document(&format!(r#"["{EXIT}"]"#))))),
        ("ObserveConflict", _) => Some(Reply::Refused {
            code: "swp_rbf_policy_violation".to_owned(),
            message: "conflict".to_owned(),
        }),
        _ => None,
    };
    let new = || RbfConflictRun::new(&id("0f"), HASH, LOCK, "0200");
    let mut run = new();
    let steps = drive(&mut run, RbfConflictRun::action, RbfConflictRun::advance, &world)
        .expect("a proved conflict");
    assert!(before(&steps, "ReadMempool", "ObserveConflict"));
    assert!(run.result().expect("an end").as_object().is_some());
    let accepted = |step: &str, action: &Action| match step {
        "ObserveConflict" => Some(Reply::Done),
        _ => world(step, action),
    };
    assert_eq!(
        refusal(drive(&mut new(), RbfConflictRun::action, RbfConflictRun::advance, &accepted)),
        "ObserveConflict: replacement-reject policy accepted a real conflict"
    );
    let absent = |step: &str, action: &Action| match step {
        "ReadMempool" => Some(Reply::Document(Some(document("[]")))),
        _ => world(step, action),
    };
    assert_eq!(
        refusal(drive(&mut new(), RbfConflictRun::action, RbfConflictRun::advance, &absent)),
        "ReadMempool: same-input conflict is absent from the real regtest mempool"
    );
}

fn failed(message: &str) -> Reply {
    Reply::Refused {
        code: String::new(),
        message: message.to_owned(),
    }
}

#[test]
fn work_that_fails_is_told_with_its_reason() {
    let conflict = |step: &str, _: &Action| match step {
        "BuildConflict" => Some(texts(&[EXIT, "0300"])),
        "ParseInputs" => {
            let spends = || {
                Ok(vec![TxInput {
                    previous_txid: vec![0x44; 32],
                    previous_output: 3,
                }])
            };
            Some(Reply::SpentInputs {
                committed: spends(),
                conflicting: spends(),
            })
        }
        "BroadcastCompetitor" => Some(failed("node down")),
        _ => None,
    };
    let mut run = RbfConflictRun::new(&id("0f"), HASH, LOCK, "0200");
    assert_eq!(
        refusal(drive(&mut run, RbfConflictRun::action, RbfConflictRun::advance, &conflict)),
        "BroadcastCompetitor: could not broadcast same-input conflict: node down"
    );
    let competitor = |step: &str, action: &Action| match step {
        "BroadcastCompetitor" => Some(failed("node down")),
        _ => zero_conf_world(step, action),
    };
    let injection = HarnessInjection::ZeroConfDoubleSpend;
    let mut run = ZeroConfRun::new("provider", KINDS, injection, &id("0f"), HASH, LOCK, "0200");
    assert_eq!(
        refusal(drive(&mut run, ZeroConfRun::action, ZeroConfRun::advance, &competitor)),
        "BroadcastCompetitor: could not broadcast zero-conf competitor: node down"
    );
    let unsettled = |step: &str, action: &Action| match step {
        "JoinPayment" => Some(failed("no route")),
        _ => liquid_world(step, action),
    };
    let mut run = LiquidReverseRun::new(2, "network", "asset");
    assert_eq!(
        refusal(drive(&mut run, LiquidReverseRun::action, LiquidReverseRun::advance, &unsettled)),
        "JoinPayment: Liquid reverse payment did not settle: no route"
    );
}

#[test]
fn an_invoice_of_a_withdrawn_acceptance_is_unpaid() {
    let listing = |status: &str| {
        document(&format!(
            r#"{{"invoices":[{{"payment_hash":"{HASH}","status":"{status}"}}]}}"#
        ))
    };
    assert_eq!(check_unpaid(&listing("unpaid"), HASH), Ok(()));
    assert!(check_unpaid(&listing("paid"), HASH).is_err());
    assert!(check_unpaid(&document(r#"{"invoices":[]}"#), HASH).is_err());
}

fn decision(members: &str) -> Reply {
    Reply::Record(status(
        &id("55"),
        &format!(r#""zero_confirmation_acceptance":{{{members}}}"#),
    ))
}

fn zero_conf_world(step: &str, _: &Action) -> Option<Reply> {
    match step {
        "await funding_zero_conf_accepted" => Some(decision(&format!(
            r#""decision":"accepted","transaction_id":"{LOCK}","view":"provider_local_bitcoind""#
        ))),
        "BroadcastCompetitor" => Some(texts(&[EXIT, EXIT])),
        "ReadParent" => Some(Reply::Document(Some(document(&format!(
            r#"{{"blockhash":"{}"}}"#,
            id("77")
        ))))),
        "ReadRecords" => Some(Reply::Records(vec![])),
        "ListInvoices" => Some(Reply::Document(Some(document(&format!(
            r#"{{"invoices":[{{"payment_hash":"{HASH}","status":"unpaid"}}]}}"#
        ))))),
        _ => None,
    }
}

fn withdrawn(injection: HarnessInjection, reply: &str) -> Result<ZeroConfRun, String> {
    let world = |step: &str, action: &Action| match step {
        "await funding_confirmation_required" => Some(decision(reply)),
        _ => zero_conf_world(step, action),
    };
    let mut run = ZeroConfRun::new("provider", KINDS, injection, &id("0f"), HASH, LOCK, "0200");
    let steps = drive(&mut run, ZeroConfRun::action, ZeroConfRun::advance, &world)?;
    assert!(before(&steps, "ListInvoices", "keep zero_conf_downgraded"));
    Ok(run)
}

#[test]
fn an_acceptance_is_withdrawn_for_the_reason_of_its_fault() {
    for (injection, reason) in [
        (HarnessInjection::ZeroConfRbfReplacement, "replacement"),
        (HarnessInjection::ZeroConfDoubleSpend, "conflict"),
    ] {
        let run = withdrawn(
            injection,
            &format!(
                r#""decision":"confirmation_required","reason":"{reason}","transaction_id":"{LOCK}",
                   "replacement_transaction_id":"{EXIT}""#
            ),
        )
        .expect("a withdrawn acceptance");
        assert_eq!(run.result().expect("an end").text_at("reason"), Some(reason));
        assert_eq!(run.result().expect("an end").text_at("attack_reference"), Some(EXIT));
    }
    let evicted = withdrawn(
        HarnessInjection::ZeroConfAncestorEviction,
        &format!(
            r#""decision":"confirmation_required","reason":"ancestor_unconfirmed","transaction_id":"{LOCK}""#
        ),
    )
    .expect("a withdrawn acceptance");
    assert_eq!(evicted.result().expect("an end").text_at("attack_reference"), Some(id("77").as_str()));
}

#[test]
fn a_withdrawal_that_names_something_else_is_shown() {
    assert_eq!(
        refusal(withdrawn(
            HarnessInjection::ZeroConfDoubleSpend,
            r#""decision":"accepted\n","transaction_id":"other""#
        )),
        "await funding_confirmation_required: zero-conf downgrade binding mismatch: \
         decision=Some(\"accepted\\n\") reason=None transaction_matches=false"
    );
}

fn signing(action: CooperativeAction, value: Option<String>, values: Vec<String>) -> Reply {
    Reply::Signing {
        id: id("56"),
        pubkey: "provider".to_owned(),
        action,
        value,
        values,
    }
}

fn cooperative_world(step: &str, action: &Action) -> Option<Reply> {
    match (step, action) {
        ("PrepareOrder", _) => Some(Reply::Session {
            order_id: id("0f"),
            contract: document(
                r#"{"musig2_execution":true,"verifier_inputs":[
                    {"leg_id":"source","claim_script":"51","taproot_claim_control_block":"c0"}
                ]}"#,
            ),
        }),
        ("CountExits", _) => Some(Reply::Number(2)),
        ("ReadHeight", _) => Some(Reply::Number(100)),
        ("AwaitCooperative", Action::Perform(_, arguments)) => Some(match arguments[0].as_str() {
            "nonce_commitment" => signing(CooperativeAction::NonceCommitment, Some(id("61")), vec![]),
            "public_nonce" => signing(CooperativeAction::PublicNonce, Some("62".repeat(66)), vec![]),
            "partial_signature" => signing(CooperativeAction::PartialSignature, Some(id("63")), vec![]),
            "final_signature" => signing(CooperativeAction::FinalSignature, None, vec![id("60"), id("63")]),
            _ => signing(CooperativeAction::Aborted, None, vec![]),
        }),
        ("RegisterCommitment", Action::Perform(_, arguments)) => {
            assert_eq!(arguments[..], [id("61"), "100".to_owned()]);
            None
        }
        ("SayCooperative", _) => Some(Reply::Record(status(&id("57"), ""))),
        ("RevealNonce", _) => Some(texts(&[&"64".repeat(66)])),
        ("ReadTranscript", _) => Some(Reply::Transcript {
            provider: vec![
                CooperativeAction::NonceCommitment,
                CooperativeAction::PublicNonce,
                CooperativeAction::Aborted,
            ],
            requester: vec![CooperativeAction::NonceCommitment, CooperativeAction::Aborted],
        }),
        _ => submarine_world(step, action),
    }
}

fn settled(witness: Vec<Vec<u8>>, size: u64) -> Reply {
    let node = || document(&format!(r#"{{"txid":"{EXIT}","hex":"0300","confirmations":3}}"#));
    Reply::Settlement {
        primary: node(),
        secondary: node(),
        parsed: Ok(SettlementShape {
            inputs: vec![SpentInput {
                previous_txid: vec![0xaa; 32],
                previous_output: 0,
                witness,
            }],
            output_count: 1,
            virtual_size: Ok(size),
        }),
    }
}

fn signed(journey: CooperativeJourney) -> (CooperativeClaimRun, Vec<String>) {
    let mut run = CooperativeRun::new(journey);
    let steps = drive(&mut run, CooperativeRun::action, CooperativeRun::advance, &cooperative_world)
        .expect("a round of signing");
    assert!(before(&steps, "AuthorizeFunding", "BroadcastBitcoin"));
    assert!(before(&steps, "await lightning_paid", "BeginSigningRound"));
    (run.claim(3), steps)
}

#[test]
fn a_jointly_signed_swap_settles_by_its_key() {
    let (mut claim, steps) = signed(CooperativeJourney::Complete);
    assert!(matches!(claim.action(), Action::AwaitState("provider_claim_pending")));
    assert!(before(&steps, "SayCooperative", "RevealNonce"));
    assert!(steps.iter().any(|step| step == "SignCooperatively"));
    let world = |step: &str, action: &Action| match step {
        "InspectSettlement" => Some(settled(vec![vec![7; 64]], 111)),
        _ => cooperative_world(step, action),
    };
    drive(&mut claim, CooperativeClaimRun::action, CooperativeClaimRun::advance, &world)
        .expect("a completed swap");
    assert_eq!(claim.result().expect("an end").text_at("claim_txid"), Some(EXIT));
    let (mut claim, _) = signed(CooperativeJourney::Complete);
    let larger = |step: &str, action: &Action| match step {
        "InspectSettlement" => Some(settled(vec![vec![7; 64]], 112)),
        _ => cooperative_world(step, action),
    };
    assert_eq!(
        refusal(drive(
            &mut claim,
            CooperativeClaimRun::action,
            CooperativeClaimRun::advance,
            &larger
        )),
        "InspectSettlement: cooperative key-path witness differs from the 111-vB fixture"
    );
}

#[test]
fn a_signature_that_is_given_up_settles_by_the_script() {
    let (mut claim, steps) = signed(CooperativeJourney::AbortAfterProviderNonce);
    assert!(matches!(claim.action(), Action::Perform(Task::ReadTranscript, _)));
    assert!(!steps.iter().any(|step| step == "RevealNonce" || step == "SignCooperatively"));
    let world = |step: &str, action: &Action| match step {
        "InspectSettlement" => {
            Some(settled(vec![vec![1; 64], vec![2; 32], vec![0x51], vec![0xc0]], 155))
        }
        _ => cooperative_world(step, action),
    };
    drive(&mut claim, CooperativeClaimRun::action, CooperativeClaimRun::advance, &world)
        .expect("a completed swap");
    let (mut claim, steps) = signed(CooperativeJourney::CrashCutRecovery);
    assert!(before(&steps, "keep provider_public_nonce_persisted", "AbortRound"));
    assert_eq!(
        refusal(drive(
            &mut claim,
            CooperativeClaimRun::action,
            CooperativeClaimRun::advance,
            &world
        )),
        "ReadTranscript: cooperative fallback transcript has another terminal shape"
    );
}
