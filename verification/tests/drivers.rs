use immortal_lab::control::{FundedCheckpoint, FundedInjectionRequest};
use immortal_lab::driver::{
    diversion, ContentionRun, Diversion, FundedPhase, FundedRun, JointRun,
};
use immortal_lab::journey::{CooperativeJourney, FundedJourney, HarnessInjection};
use immortal_lab::json::Json;
use immortal_lab::kept::{
    checkpoint_document, injection_document, read_checkpoint, read_injection,
};
use immortal_lab::machine::{Action, Reply, Task};
use immortal_lab::record::{Event, EventTag, RecordKinds};
use immortal_lab::submarine::{SubmarinePhase, SubmarineRun};
use immortal_lab::wire::parse_json_text;

const KINDS: RecordKinds = RecordKinds {
    rfq: 1,
    quote: 2,
    order: 3,
    contract: 4,
    status: 5,
    cancel: 6,
    close: 7,
};

fn document(text: &str) -> Json {
    parse_json_text(text).expect("a document")
}

/// What an action is called, with its arguments.
fn name(action: &Action) -> String {
    match action {
        Action::CheckHealth => "health".to_owned(),
        Action::Perform(task, arguments) => format!("{task:?} {}", arguments.join(" ")),
        _ => "another".to_owned(),
    }
}

/// Runs a driver to its end, or to the reply that it refuses.
fn drive<R>(
    run: &mut R,
    action: fn(&R) -> Action,
    advance: fn(&mut R, Reply) -> Result<(), String>,
    world: &dyn Fn(&Action) -> Reply,
) -> (Vec<String>, Result<(), String>) {
    let mut steps = Vec::new();
    loop {
        let next = action(run);
        if let Action::Finish = next {
            return (steps, Ok(()));
        }
        steps.push(name(&next));
        if let Err(message) = advance(run, world(&next)) {
            return (steps, Err(message));
        }
    }
}

fn funded_world(restored: bool) -> impl Fn(&Action) -> Reply {
    move |action: &Action| match action {
        Action::Perform(Task::DiscoverProvider, _) => Reply::Texts(vec!["provider".to_owned()]),
        Action::Perform(Task::RestoreSession, _) => Reply::Truth(restored),
        Action::Perform(Task::ResumeJourney, _) => {
            Reply::Document(Some(document(r#"{"of":"the rest"}"#)))
        }
        Action::Perform(Task::RunJourney, arguments) => {
            Reply::Document(Some(document(&format!(r#"{{"of":"{}"}}"#, arguments[0]))))
        }
        _ => Reply::Done,
    }
}

fn funded(journey: FundedJourney, restored: bool) -> (Vec<String>, Json) {
    let mut run = FundedRun::new(journey);
    let world = funded_world(restored);
    let (steps, end) = drive(&mut run, FundedRun::action, FundedRun::advance, &world);
    assert_eq!(end, Ok(()));
    (steps, run.report().expect("a report"))
}

#[test]
fn a_funded_journey_is_run_from_its_start() {
    let (steps, report) = funded(FundedJourney::Submarine, false);
    assert_eq!(
        steps,
        [
            "health",
            "DiscoverProvider ",
            "RestoreSession submarine",
            "FundWallet ",
            "RunJourney submarine",
            "health",
        ]
    );
    assert!(report.same(&document(
        r#"{"step":"submarine","provider_pubkey":"provider","journey":{"of":"submarine"}}"#
    )));
    let (steps, _) = funded(FundedJourney::ReverseClaim, false);
    assert_eq!(
        steps,
        ["health", "DiscoverProvider ", "RestoreSession reverse", "RunJourney reverse", "health"]
    );
}

#[test]
fn a_funded_journey_goes_on_where_an_earlier_process_has_begun_it() {
    let (steps, report) = funded(FundedJourney::Submarine, true);
    assert_eq!(
        steps,
        [
            "health",
            "DiscoverProvider ",
            "RestoreSession submarine",
            "ResumeJourney submarine",
            "health",
        ]
    );
    assert!(report.same(&document(
        r#"{
            "step":"submarine","provider_pubkey":"provider","resumed":true,
            "journey":{"of":"the rest"}
        }"#
    )));
}

#[test]
fn a_submarine_refund_is_never_resumed_and_outlives_its_provider() {
    let (steps, report) = funded(FundedJourney::SubmarineRefund, true);
    assert_eq!(
        steps,
        ["health", "DiscoverProvider ", "FundWallet ", "RunJourney submarine_refund"]
    );
    assert_eq!(report.bool_at("resumed"), None);
}

#[test]
fn a_funded_journey_reports_nothing_before_the_provider_is_found_healthy() {
    let mut run = FundedRun::new(FundedJourney::ReverseClaim);
    let world = funded_world(false);
    while run.phase != FundedPhase::CheckHealthAgain {
        assert!(run.report().is_none());
        let action = run.action();
        run.advance(world(&action)).expect("the next phase");
    }
    assert!(run.report().is_none());
    assert_eq!(
        run.advance(Reply::Truth(false)),
        Err("journey received a reply to another action".to_owned())
    );
    assert!(run.report().is_none());
    run.advance(Reply::Done).expect("a healthy provider");
    assert!(run.report().is_some());
}

#[test]
fn a_jointly_signed_journey_is_reported_after_its_health_check() {
    let mut run = JointRun::new(CooperativeJourney::Complete);
    let world = funded_world(false);
    let (steps, end) = drive(&mut run, JointRun::action, JointRun::advance, &world);
    assert_eq!(end, Ok(()));
    assert_eq!(
        steps,
        ["health", "DiscoverProvider ", "FundWallet ", "RunJourney cooperative", "health"]
    );
    assert!(run.report().expect("a report").same(&document(
        r#"{"step":"cooperative","provider_pubkey":"provider","journey":{"of":"cooperative"}}"#
    )));
    assert!(JointRun::new(CooperativeJourney::Complete).report().is_none());
}

fn record(id: &str, kind: u16, content: &str, reservation: Option<&str>) -> Event {
    let tags = reservation.map(|class| EventTag {
        name: "reservation".to_owned(),
        values: vec![class.to_owned()],
    });
    Event {
        id: id.repeat(32),
        pubkey: "provider".to_owned(),
        created_at: 1,
        kind,
        tags: tags.into_iter().collect(),
        content: content.to_owned(),
        sig: String::new(),
    }
}

fn contention_world(class: &'static str) -> impl Fn(&Action) -> Reply {
    move |action: &Action| match action {
        Action::Perform(Task::DiscoverProvider, _) => Reply::Texts(vec!["provider".to_owned()]),
        Action::Perform(Task::CreateInvoice, arguments) => Reply::Texts(vec![
            format!("hash of {}", arguments[0]),
            format!("invoice of {}", arguments[0]),
        ]),
        Action::Perform(Task::QuoteReservation, _) => Reply::Texts(vec!["one".to_owned()]),
        Action::Perform(Task::RequestReservation, _) => {
            Reply::Texts(vec!["two".to_owned(), "09".repeat(32)])
        }
        Action::Perform(Task::ReadRecords, _) => Reply::Records(vec![
            record("01", KINDS.rfq, "{}", None),
            record(
                "02",
                KINDS.quote,
                r#"{"mkt_swp":{"reservation_terms":{
                    "reservation_id":"r","capacity_bucket_id":"lightning-outbound",
                    "reserved_amount":"986790","handler_committed_capacity":"1986789"
                }}}"#,
                Some(class),
            ),
        ]),
        _ => Reply::Done,
    }
}

#[test]
fn two_sessions_contend_for_one_reservation() {
    let mut run = ContentionRun::new(KINDS);
    let world = contention_world("hard");
    let (steps, end) = drive(&mut run, ContentionRun::action, ContentionRun::advance, &world);
    assert_eq!(end, Ok(()));
    assert_eq!(
        steps,
        [
            "health",
            "DiscoverProvider ",
            "CreateInvoice immortal-double-reservation-active 986790 \
             Immortal adversarial active reservation 86400",
            "CreateInvoice immortal-double-reservation-refused 986790 \
             Immortal adversarial refused reservation 86400",
            "QuoteReservation double_reservation_active hash of immortal-double-reservation-active \
             invoice of immortal-double-reservation-active 1000000 50000",
            "ReadRecords ",
            "RequestReservation double_reservation_refused \
             hash of immortal-double-reservation-refused \
             invoice of immortal-double-reservation-refused 1000000 50000",
            "Wait 750",
            "health",
        ]
    );
    let proof = run.result().expect("a proof");
    let active = proof.get("active").expect("the active session");
    let refused = proof.get("refused").expect("the refused session");
    assert_eq!(active.text_at("session_id"), Some("one"));
    assert_eq!(active.text_at("reservation_id"), Some("r"));
    assert_eq!(active.text_at("quote_id").map(str::to_owned), Some("02".repeat(32)));
    assert_eq!(refused.text_at("session_id"), Some("two"));
    assert_eq!(refused.text_at("rfq_id").map(str::to_owned), Some("09".repeat(32)));
}

#[test]
fn a_second_session_asks_only_after_a_hard_reservation() {
    let mut run = ContentionRun::new(KINDS);
    let world = contention_world("soft");
    let (steps, end) = drive(&mut run, ContentionRun::action, ContentionRun::advance, &world);
    assert_eq!(end, Err("double-reservation active Quote is not hard".to_owned()));
    assert_eq!(steps.last().map(String::as_str), Some("ReadRecords "));
    assert!(run.result().is_none());
}

#[test]
fn a_fault_diverts_a_submarine_swap_into_its_proof() {
    let diverted = |injection| {
        let mut run = SubmarineRun::new(2, injection);
        run.phase = SubmarinePhase::Diverted;
        run.order_id = "order".to_owned();
        run.lockup_txid = "lock".to_owned();
        run.funding_hex = "raw".to_owned();
        run.payment_hash = "hash".to_owned();
        run
    };
    match diversion(&diverted(Some(HarnessInjection::RbfConflict)), "provider", KINDS) {
        Some(Diversion::Replacement(next)) => {
            assert_eq!((next.order_id.as_str(), next.payment_hash.as_str()), ("order", "hash"));
            assert_eq!((next.committed_txid.as_str(), next.committed_hex.as_str()), ("lock", "raw"));
        }
        _ => panic!("a replacement"),
    }
    match diversion(&diverted(Some(HarnessInjection::ZeroConfDoubleSpend)), "provider", KINDS) {
        Some(Diversion::ZeroConf(next)) => {
            assert_eq!(next.injection, HarnessInjection::ZeroConfDoubleSpend);
            assert_eq!((next.provider_pubkey.as_str(), next.funding_hex.as_str()), ("provider", "raw"));
        }
        _ => panic!("a lock that is accepted before it confirms"),
    }
    let mut finished = diverted(Some(HarnessInjection::RbfConflict));
    finished.phase = SubmarinePhase::Finished;
    assert!(diversion(&finished, "provider", KINDS).is_none());
    assert!(diversion(&diverted(Some(HarnessInjection::StaleQuote)), "provider", KINDS).is_none());
}

#[test]
fn a_checkpoint_reads_back_as_it_was_written_down() {
    let kept = checkpoint_document(&FundedCheckpoint {
        schema: "s".to_owned(),
        run_id: "r".to_owned(),
        journey: "submarine".to_owned(),
        label: "completed".to_owned(),
        safe_to_stop: true,
        updated_at: 7,
        details: document(r#"{"result":"claimed"}"#),
    });
    assert!(kept.same(&document(
        r#"{
            "schema":"s","run_id":"r","journey":"submarine","label":"completed",
            "safe_to_stop":true,"updated_at":7,"details":{"result":"claimed"}
        }"#
    )));
    let read = read_checkpoint(&kept).expect("a checkpoint");
    assert_eq!((read.label.as_str(), read.safe_to_stop, read.updated_at), ("completed", true, 7));
    assert!(checkpoint_document(&read).same(&kept));
    for (text, missing) in [
        ("{}", "schema"),
        (r#"{"schema":"s","run_id":"r","journey":"j"}"#, "label"),
        (r#"{"schema":"s","run_id":"r","journey":"j","label":"l"}"#, "safe_to_stop"),
        (
            r#"{"schema":"s","run_id":"r","journey":"j","label":"l","safe_to_stop":true}"#,
            "updated_at",
        ),
        (
            r#"{
                "schema":"s","run_id":"r","journey":"j","label":"l","safe_to_stop":true,
                "updated_at":7
            }"#,
            "details",
        ),
    ] {
        assert_eq!(
            read_checkpoint(&document(text)).err(),
            Some(format!("a file of this run has no {missing}"))
        );
    }
}

#[test]
fn a_request_for_a_fault_reads_back_as_it_was_written_down() {
    let kept = injection_document(&FundedInjectionRequest {
        schema: "s".to_owned(),
        run_id: "r".to_owned(),
        journey: "submarine".to_owned(),
        checkpoint: "submarine:completed".to_owned(),
        injection: "relay_loss".to_owned(),
        requested_at: 9,
    });
    let read = read_injection(&kept).expect("a request");
    assert_eq!((read.injection.as_str(), read.requested_at), ("relay_loss", 9));
    assert!(injection_document(&read).same(&kept));
    assert_eq!(
        read_injection(&document(r#"{"schema":"s","run_id":"r","journey":"j"}"#)).err(),
        Some("a file of this run has no checkpoint".to_owned())
    );
}
