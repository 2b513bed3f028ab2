use immortal_lab::contract::{bounded_u32_member, contract_leg_ids};
use immortal_lab::control::{validate_injection_acknowledgement, CheckpointOutcome, StepControl};
use immortal_lab::environment::exact_topology_health_urls;
use immortal_lab::hex::{decode_hex, lower_hex};
use immortal_lab::http::EsploraBroadcastRequest;
use immortal_lab::journey::{DoomsdayCase, FundedJourney, HarnessInjection};
use immortal_lab::json::{Json, JsonObject};
use immortal_lab::keyless::{
    check_keyless_result, keyless_request_document, keyless_result, load_doomsday_keyless_request,
    read_kept_request,
    reject_keyless_process_credentials, validate_doomsday_keyless_http_request,
    DOOMSDAY_KEYLESS_MAX_BYTES,
};
use immortal_lab::payment::{
    finalize_invoice_unpaid, observe_payment, parse_payment_result, payment_entries,
    payment_was_tried, wait_for_lightning_payment_status,
};
use immortal_lab::record::{Event, RecordKinds};
use immortal_lab::relay::{
    check_restored_delivery, relay_array_element_raw, restore_funded_deliveries, DeliveryRestore,
    Rebuilt,
};
use immortal_lab::restore::{
    load_doomsday_controller_audit, restartable_checkpoint,
    validate_doomsday_keyless_process_audit,
};
use immortal_lab::status::{
    requester_status_provider_prerequisite, requester_status_provider_prerequisite_event,
};
use immortal_lab::terminal::{
    exact_close_evidence_reference, liquid_terminal_artifact_and_view, liquid_terminal_binding,
    require_exact_liquid_terminal_metadata, terminal_claims, DerivedLiquidTerminalEvidence,
    LiquidTerminalBinding, ParsedTransaction, RailObservationRequest, TerminalArtifact,
};
use immortal_lab::topology::validate_funded_topology_fixture;
use immortal_lab::wire::{json_text, parse_json_text};

const KINDS: RecordKinds = RecordKinds {
    rfq: 39_602,
    quote: 39_603,
    order: 39_604,
    contract: 39_605,
    status: 39_606,
    cancel: 39_607,
    close: 39_608,
};

fn refusal<T>(outcome: Result<T, String>) -> String {
    match outcome {
        Ok(_) => panic!("nothing was refused"),
        Err(message) => message,
    }
}

fn document(text: &str) -> Json {
    parse_json_text(text).expect("test document should parse")
}

fn written(document: &Json) -> String {
    json_text(document).expect("test document should be written")
}

fn terminal_observation_request(
    leg_id: &str,
    rail: &str,
    evidence_class: &str,
    reference: &str,
    verifier_policy: &str,
) -> RailObservationRequest {
    RailObservationRequest {
        leg_id: leg_id.to_owned(),
        outcome: "completed".to_owned(),
        rail: rail.to_owned(),
        evidence_class: evidence_class.to_owned(),
        reference: reference.to_owned(),
        rung: "settled".to_owned(),
        verifier_policy: verifier_policy.to_owned(),
    }
}

#[test]
fn liquid_terminal_binding_requires_exact_output_and_spend_identity() {
    let raw = "0200000000";
    let wire = vec![0x12; 32];
    let funding_transaction_id = lower_hex(&wire);
    let outpoint = format!("{funding_transaction_id}:0");
    let contract = document(&format!(
        r#"{{"verifier_inputs":[{{"leg_id":"destination","funding_transaction":"{raw}","output_index":0}}]}}"#
    ));
    let output = terminal_observation_request(
        "destination",
        "liquid",
        "liquid_output",
        &outpoint,
        "mkt-swp-liquid-v1",
    );
    let output_binding = liquid_terminal_binding(
        &output,
        &outpoint,
        Some(&"44".repeat(32)),
        &contract,
        &Ok(wire.clone()),
    )
    .expect("exact Liquid output binding");
    assert!(!output_binding.requires_spend);
    assert_eq!(
        output_binding.terminal_transaction_id,
        funding_transaction_id
    );

    let spend = terminal_observation_request(
        "destination",
        "liquid",
        "liquid_spend",
        &outpoint,
        "mkt-swp-liquid-v1",
    );
    let settlement = "55".repeat(32);
    let spend_binding = liquid_terminal_binding(
        &spend,
        &outpoint,
        Some(&settlement),
        &contract,
        &Ok(wire.clone()),
    )
    .expect("exact Liquid spend binding");
    assert!(spend_binding.requires_spend);
    assert_eq!(spend_binding.terminal_transaction_id, settlement);
    assert!(liquid_terminal_binding(&spend, &outpoint, None, &contract, &Ok(wire.clone())).is_err());
    assert!(
        liquid_terminal_binding(
            &spend,
            &format!("{}:1", "66".repeat(32)),
            None,
            &contract,
            &Ok(wire)
        )
        .is_err()
    );
}

#[test]
fn liquid_terminal_metadata_is_locally_derived_and_rejects_close_mutation() {
    let raw = decode_hex("0200000000").expect("Liquid transaction hex");
    let funding_transaction_id = "12".repeat(32);
    let settlement_transaction_id = "55".repeat(32);
    let spend_binding = LiquidTerminalBinding {
        funding_raw: raw.clone(),
        funding_transaction_id: funding_transaction_id.clone(),
        funding_output_index: 0,
        terminal_transaction_id: settlement_transaction_id.clone(),
        requires_spend: true,
    };
    let outpoint = format!("{funding_transaction_id}:0");
    let mut spend_request = terminal_observation_request(
        "chain",
        "liquid",
        "liquid_spend",
        &outpoint,
        "mkt-swp-liquid-v1",
    );
    let (submarine_artifact, submarine_view) = liquid_terminal_artifact_and_view(
        &spend_request,
        &spend_binding,
        &"66".repeat(32),
        &document(r#"{"swap_type":"submarine"}"#),
    )
    .expect("submarine Liquid evidence is derived");
    let expected_submarine_artifact =
        document(&format!(r#"{{"claim_txid":"{settlement_transaction_id}"}}"#));
    match submarine_artifact {
        TerminalArtifact::Document(artifact) => assert!(artifact.same(&expected_submarine_artifact)),
        TerminalArtifact::RawTransaction => panic!("submarine artifact is a document"),
    }
    assert_eq!(
        submarine_view,
        "provider Liquid claim reached reorg-safe finality"
    );

    let payment_hash = "77".repeat(32);
    let (reverse_artifact, reverse_view) = liquid_terminal_artifact_and_view(
        &spend_request,
        &spend_binding,
        &"66".repeat(32),
        &document(&format!(
            r#"{{"swap_type":"reverse","payment_hash":"{payment_hash}"}}"#
        )),
    )
    .expect("reverse Liquid evidence is derived");
    match reverse_artifact {
        TerminalArtifact::Document(artifact) => assert!(artifact.same(&document(&format!(
            r#"{{"claim_txid":"{settlement_transaction_id}","payment_hash":"{payment_hash}","state":"settled"}}"#
        )))),
        TerminalArtifact::RawTransaction => panic!("reverse artifact is a document"),
    }
    assert_eq!(
        reverse_view,
        "requester Liquid claim verified before hold settlement"
    );

    spend_request.leg_id = "source".to_owned();
    let (chain_artifact, chain_view) = liquid_terminal_artifact_and_view(
        &spend_request,
        &spend_binding,
        &"66".repeat(32),
        &document(r#"{"swap_type":"chain"}"#),
    )
    .expect("chain Liquid evidence is derived");
    match chain_artifact {
        TerminalArtifact::Document(artifact) => assert!(artifact.same(&expected_submarine_artifact)),
        TerminalArtifact::RawTransaction => panic!("chain artifact is a document"),
    }
    assert_eq!(
        chain_view,
        "provider source claim reached reorg-safe finality"
    );

    let output_binding = LiquidTerminalBinding {
        funding_raw: raw,
        funding_transaction_id,
        funding_output_index: 0,
        terminal_transaction_id: "88".repeat(32),
        requires_spend: false,
    };
    let output_request = terminal_observation_request(
        "destination",
        "liquid",
        "liquid_output",
        &outpoint,
        "mkt-swp-liquid-v1",
    );
    let block_hash = "99".repeat(32);
    let (output_artifact, output_view) = liquid_terminal_artifact_and_view(
        &output_request,
        &output_binding,
        &block_hash,
        &document(r#"{"swap_type":"chain"}"#),
    )
    .expect("Liquid output evidence is derived");
    assert!(matches!(output_artifact, TerminalArtifact::RawTransaction));
    assert_eq!(output_view, block_hash);

    let derived = DerivedLiquidTerminalEvidence {
        artifact_sha256: "bb".repeat(32),
        view: reverse_view,
        external_identifier: "elementsd:test".to_owned(),
    };
    let mut close_evidence = JsonObject::new()
        .with_text("artifact_sha256", &derived.artifact_sha256)
        .with_text("view", &derived.view);
    require_exact_liquid_terminal_metadata(&close_evidence, &derived)
        .expect("exact locally derived Liquid metadata");
    close_evidence.insert("artifact_sha256", Json::text(&"aa".repeat(32)));
    assert!(require_exact_liquid_terminal_metadata(&close_evidence, &derived).is_err());
    close_evidence.insert("artifact_sha256", Json::text(&derived.artifact_sha256));
    close_evidence.insert("view", Json::text("provider supplied another view"));
    assert!(require_exact_liquid_terminal_metadata(&close_evidence, &derived).is_err());
}

fn reference(class: &str, rail: &str, reference: &str, policy: &str, view: &str, digest: &str) -> Json {
    document(&format!(
        r#"{{
            "artifact_sha256":"{digest}",
            "class":"{class}",
            "observed_at":1,
            "producer_pubkey":"{producer}",
            "rail":"{rail}",
            "reference":"{reference}",
            "rung":"settled",
            "verifier_policy":"{policy}",
            "verifier_pubkey":null,
            "view":"{view}"
        }}"#,
        producer = "77".repeat(32),
    ))
}

fn close(references: Vec<Json>) -> Event {
    let content = JsonObject::new().with(
        "mkt_swp",
        Json::object(JsonObject::new().with(
            "loss_accounting",
            Json::object(JsonObject::new().with("evidence_refs", Json::array(references))),
        )),
    );
    Event {
        id: "99".repeat(32),
        pubkey: "77".repeat(32),
        created_at: 1,
        kind: KINDS.close,
        tags: Vec::new(),
        content: written(&Json::object(content)),
        sig: "aa".repeat(64),
    }
}

#[test]
fn terminal_close_requires_one_reference_for_each_contract_leg() {
    let outpoint = format!("{}:0", "44".repeat(32));
    let payment_hash = "55".repeat(32);
    let bitcoin_reference = reference(
        "bitcoin_spend",
        "bitcoin",
        &outpoint,
        "mkt-swp-bitcoin-v1",
        "local bitcoind",
        &"33".repeat(32),
    );
    let liquid_reference = reference(
        "liquid_spend",
        "liquid",
        &outpoint,
        "mkt-swp-liquid-v1",
        "local elementsd",
        &"66".repeat(32),
    );
    let lightning_reference = reference(
        "lightning_payment",
        "lightning",
        &payment_hash,
        "mkt-swp-lightning-v1",
        "requester CLN",
        &"88".repeat(32),
    );
    let liquid_request = terminal_observation_request(
        "destination",
        "liquid",
        "liquid_spend",
        &outpoint,
        "mkt-swp-liquid-v1",
    );
    let lightning_request = terminal_observation_request(
        "lightning",
        "lightning",
        "lightning_payment",
        &payment_hash,
        "mkt-swp-lightning-v1",
    );
    let bitcoin_request = terminal_observation_request(
        "destination",
        "bitcoin",
        "bitcoin_spend",
        &outpoint,
        "mkt-swp-bitcoin-v1",
    );
    let exact = close(vec![liquid_reference.copy(), lightning_reference.copy()]);
    exact_close_evidence_reference(&exact, &liquid_request)
        .expect("one exact Liquid reference");
    exact_close_evidence_reference(&exact, &lightning_request)
        .expect("one exact Lightning reference");
    exact_close_evidence_reference(&close(vec![bitcoin_reference]), &bitcoin_request)
        .expect("one exact Bitcoin spend reference");
    let legacy_refund = reference(
        "refund",
        "bitcoin",
        &outpoint,
        "mkt-swp-bitcoin-v1",
        "local bitcoind",
        &"33".repeat(32),
    );
    assert!(
        exact_close_evidence_reference(&close(vec![legacy_refund]), &bitcoin_request).is_err()
    );
    assert!(
        exact_close_evidence_reference(
            &close(vec![liquid_reference.copy(), liquid_reference]),
            &liquid_request
        )
        .is_err()
    );
    assert!(
        exact_close_evidence_reference(&close(vec![lightning_reference]), &liquid_request)
            .is_err()
    );

    let contract = document(r#"{"legs":[{"leg_id":"source"},{"leg_id":"destination"}]}"#);
    assert_eq!(
        contract_leg_ids(&contract).expect("two exact contract legs"),
        vec!["source", "destination"]
    );
    let duplicate = document(r#"{"legs":[{"leg_id":"source"},{"leg_id":"source"}]}"#);
    assert!(contract_leg_ids(&duplicate).is_err());
}

#[test]
fn doomsday_and_normal_requester_publishers_share_exact_claim_prerequisite() {
    let status = |id: &str, state: &str| Event {
        id: id.to_owned(),
        pubkey: "provider".to_owned(),
        created_at: 1,
        kind: KINDS.status,
        tags: Vec::new(),
        content: format!(r#"{{"mkt_swp":{{"swp_state":"{state}"}}}}"#),
        sig: "00".repeat(64),
    };
    assert_eq!(
        requester_status_provider_prerequisite("requester_claim_pending"),
        Some("funding_final")
    );
    assert_eq!(
        requester_status_provider_prerequisite_event(
            &vec![status("funding-final", "funding_final")],
            KINDS,
            "provider",
            "requester_claim_pending"
        )
        .expect("exact provider prerequisite")
        .map(|event| event.id.as_str()),
        Some("funding-final")
    );
    assert!(
        requester_status_provider_prerequisite_event(
            &vec![],
            KINDS,
            "provider",
            "requester_claim_pending"
        )
        .is_err()
    );
    assert!(
        requester_status_provider_prerequisite_event(
            &vec![
                status("funding-final", "funding_final"),
                status("duplicate", "funding_final")
            ],
            KINDS,
            "provider",
            "requester_claim_pending"
        )
        .is_err()
    );
    assert!(matches!(
        requester_status_provider_prerequisite_event(
            &vec![status("funding-final", "funding_final")],
            KINDS,
            "provider",
            "requester_claimed"
        ),
        Ok(None)
    ));
}

#[test]
fn relay_event_extraction_retains_exact_outer_bytes() {
    let message = r#"[ "EVENT" , "subscription,{id}" , { "id" : "aa", "content" : "},[" } ]"#;
    assert_eq!(
        relay_array_element_raw(message, 2),
        Some(r#"{ "id" : "aa", "content" : "},[" }"#)
    );
    assert_eq!(relay_array_element_raw(message, 3), None);
}

#[test]
fn an_element_of_a_message_is_found_by_its_place() {
    let message = " [1, \"a\\\"]\" ,{\"b\":[2]},true]";
    assert_eq!(relay_array_element_raw(message, 0), Some("1"));
    assert_eq!(relay_array_element_raw(message, 1), Some("\"a\\\"]\""));
    assert_eq!(relay_array_element_raw(message, 2), Some("{\"b\":[2]}"));
    assert_eq!(relay_array_element_raw(message, 3), Some("true"));
    assert_eq!(relay_array_element_raw("{\"a\":1}", 0), None);
    assert_eq!(relay_array_element_raw("[", 0), None);
}

fn record(id: &str, content: &str) -> Event {
    Event {
        id: id.to_owned(),
        pubkey: "sender".to_owned(),
        created_at: 100,
        kind: KINDS.rfq,
        tags: Vec::new(),
        content: content.to_owned(),
        sig: "00".repeat(64),
    }
}

fn delivery(id: &str, sender: &str, wrap: &str, first: u64) -> Json {
    document(&format!(
        r#"{{
            "event_id":"{id}",
            "observed_at":103,
            "provenance":"gift_wrap",
            "sender_pubkey":"{sender}",
            "wrap_event_id":"{wrap}",
            "raw_signed_event":[{first},34]
        }}"#
    ))
}

fn restored(entries: &Json, truth: &Json, records: &Vec<Event>) -> Result<(), String> {
    let kept = truth.as_array().map(Vec::as_slice).unwrap_or_default();
    let rebuilt: Vec<Result<Rebuilt, String>> = entries
        .as_array()
        .into_iter()
        .flatten()
        .zip(kept)
        .map(|(entry, kept)| {
            let id = entry.text_at("event_id").unwrap_or_default();
            Ok(Rebuilt::GiftWrap {
                record: record(id, "{}"),
                document: Ok(kept.copy()),
            })
        })
        .collect();
    restore_funded_deliveries(entries, records, &rebuilt)
}

#[test]
fn funded_delivery_restore_requires_exact_archived_receipt_bytes() {
    let sender = "aa".repeat(32);
    let wrap = "bb".repeat(32);
    let first = delivery("33", &sender, &wrap, 123);
    let second = delivery("34", &sender, &"cc".repeat(32), 123);
    let one = vec![record("33", "{}")];
    let archive = Json::array(vec![first.copy()]);
    restored(&archive, &archive, &one).expect("exact archive should restore");
    for mutated in [
        delivery("33", &"ff".repeat(32), &wrap, 123),
        delivery("33", &sender, &"ff".repeat(32), 123),
        delivery("33", &sender, &wrap, 122),
    ] {
        assert_eq!(
            refusal(restored(&Json::array(vec![mutated]), &archive, &one)),
            "funded delivery archive differs from its reconstructed signed receipt"
        );
    }

    let records = vec![record("33", "{}"), record("34", "{}")];
    let exact_archive = Json::array(vec![first.copy(), second]);
    restored(&exact_archive, &exact_archive, &records).expect("exact event-ID set should restore");
    assert_eq!(
        refusal(restored(&archive, &exact_archive, &records)),
        "funded delivery archive does not cover every signed record"
    );
    let duplicated = Json::array(vec![first.copy(), first]);
    assert_eq!(
        refusal(restored(&duplicated, &duplicated, &records)),
        "funded delivery archive contains a duplicate event ID"
    );
}

#[test]
fn an_archive_is_refused_for_each_of_its_reasons() {
    let records = vec![record("33", "{}")];
    for (archive, message) in [
        ("{}", "funded delivery archive is not an array"),
        ("[{}]", "funded delivery archive has no event ID"),
        (r#"[{"event_id":"44"}]"#, "funded delivery archive refers outside the session"),
        (r#"[{"event_id":"33"}]"#, "funded delivery archive has no observation time"),
        (
            r#"[{"event_id":"33","observed_at":1}]"#,
            "funded delivery archive has no provenance",
        ),
    ] {
        let archive = document(archive);
        assert_eq!(refusal(restored(&archive, &archive, &records)), message);
    }
    let twice = vec![record("33", "{}"), record("33", "{}")];
    assert_eq!(
        refusal(DeliveryRestore::open(&document("[1,2]"), &twice)),
        "funded signed-record set contains a duplicate event ID"
    );
    let entry = document("{}");
    let rewritten = || Ok(document("{}"));
    let wrapped = |record: Event| Rebuilt::GiftWrap { record, document: rewritten() };
    let signed = |id: &str| Rebuilt::LocallySigned { id: id.to_owned(), document: rewritten() };
    let check = |rebuilt: Rebuilt| check_restored_delivery(&rebuilt, &records[0], &entry);
    assert_eq!(check(signed("33")), Ok(()));
    assert_eq!(check(wrapped(record("33", "{}"))), Ok(()));
    assert_eq!(
        refusal(check(wrapped(record("33", "[]")))),
        "gift-wrap delivery restored another signed record"
    );
    assert_eq!(
        refusal(check(signed("44"))),
        "local delivery restored another signed record"
    );
    assert_eq!(
        refusal(check(Rebuilt::Direct)),
        "funded relay archive cannot contain direct provenance"
    );
    assert_eq!(
        refusal(check(Rebuilt::LocallySigned {
            id: "33".to_owned(),
            document: Err("restored funded delivery cannot be encoded: no".to_owned()),
        })),
        "restored funded delivery cannot be encoded: no"
    );
    let whole = document(r#"[{"event_id":"33","observed_at":1,"provenance":"locally_signed"}]"#);
    assert_eq!(
        refusal(restore_funded_deliveries(
            &whole,
            &records,
            &vec![Err("local delivery restore failed: no".to_owned())]
        )),
        "local delivery restore failed: no"
    );
    let empty = DeliveryRestore { archive_ids: vec![] };
    assert_eq!(
        refusal(empty.close(&records)),
        "funded delivery archive event IDs differ from the session"
    );
}

#[test]
fn checkpoint_fixture_names_exactly_the_implemented_restart_surface() {
    let early = [
        "funding_authorized",
        "funding_execution_ready",
        "funding_effect_recorded",
    ];
    for (journey, late) in [
        (FundedJourney::Submarine, vec!["completed"]),
        (
            FundedJourney::ReverseClaim,
            vec!["claim_broadcast_ready", "claim_broadcast_recorded", "completed"],
        ),
        (FundedJourney::ReverseRefund, vec!["refunded"]),
    ] {
        for label in early.into_iter().chain(late) {
            assert!(restartable_checkpoint(journey, label), "{label}");
        }
        assert!(!restartable_checkpoint(journey, ""));
    }
    assert!(!restartable_checkpoint(
        FundedJourney::Submarine,
        "claim_broadcast_ready"
    ));
    assert!(!restartable_checkpoint(
        FundedJourney::ReverseRefund,
        "claim_broadcast_recorded"
    ));
    assert!(!restartable_checkpoint(
        FundedJourney::SubmarineRefund,
        "funding_authorized"
    ));
}

#[test]
fn matrix_fixture_selects_every_checkpoint_and_injection() {
    let checkpoints = [
        (
            FundedJourney::Submarine,
            vec!["funding_authorized", "funding_execution_ready", "funding_effect_recorded", "completed"],
        ),
        (
            FundedJourney::ReverseClaim,
            vec![
                "funding_authorized",
                "funding_execution_ready",
                "funding_effect_recorded",
                "claim_broadcast_ready",
                "claim_broadcast_recorded",
                "completed",
            ],
        ),
        (
            FundedJourney::ReverseRefund,
            vec!["funding_authorized", "funding_execution_ready", "funding_effect_recorded", "refunded"],
        ),
    ];
    let mut restartable = Vec::new();
    for (journey, labels) in checkpoints {
        for label in labels {
            assert!(restartable_checkpoint(journey, label), "{label}");
            restartable.push(format!("{}:{label}", journey.name()));
        }
    }
    assert!(restartable.iter().all(|checkpoint| checkpoint.len() <= 128));
    let default_restart = "submarine:funding_execution_ready".to_owned();
    assert!(restartable.contains(&default_restart));
    let matrix = [
        ("stale_quote", ""),
        ("duplicate_message", ""),
        ("conflicting_message", ""),
        ("secret_leak", ""),
        ("relay_loss", "submarine:funding_execution_ready"),
        ("provider_crash", "reverse:funding_effect_recorded"),
    ];
    for (name, inject_at) in matrix {
        let injection = HarnessInjection::parse(name).expect("a bounded injection");
        assert_eq!(injection.name(), name);
        if injection.requires_external_control() {
            assert!(restartable.iter().any(|candidate| candidate == inject_at), "{name}");
        }
    }
    for name in ["relay_loss", "provider_crash"] {
        assert!(
            HarnessInjection::parse(name)
                .expect("a bounded injection")
                .requires_external_control()
        );
    }
    assert!(HarnessInjection::parse("power_loss").is_err());
}

#[test]
fn funded_topology_fixture_matches_the_executable_contract() {
    let fixture = r#"{
        "schema":"openagents.immortal.lab-funded-topology.v1",
        "topology":{
            "relay_count":2,
            "provider_database_count":2,
            "shared_bitcoind_namespace":true,
            "issue_18_requires_separate_bitcoind_namespaces":true
        },
        "selection":{"ordering":["output_amount_desc","maximum_total_fee_asc","provider_pubkey_asc","quote_id_asc"]},
        "unselected":{"reservation_release_cause":"terminal_close"}
    }"#;
    validate_funded_topology_fixture(&document(fixture))
        .expect("funded topology fixture should match the executable contract");
    for (part, other) in [
        ("topology.v1", "topology.v2"),
        (r#""relay_count":2"#, r#""relay_count":3"#),
        (r#"database_count":2"#, r#"database_count":1"#),
        (r#"bitcoind_namespace":true"#, r#"bitcoind_namespace":false"#),
        (r#"bitcoind_namespaces":true"#, r#"bitcoind_namespaces":null"#),
        ("quote_id_asc", "quote_id_desc"),
        ("terminal_close", "cancel"),
    ] {
        assert_eq!(
            refusal(validate_funded_topology_fixture(&document(&fixture.replace(part, other)))),
            "funded topology fixture differs from the executable contract",
            "{part}"
        );
    }
    assert_eq!(
        exact_topology_health_urls("http://127.0.0.1:9091/healthz,http://127.0.0.1:9092/healthz"),
        Ok((
            "http://127.0.0.1:9091/healthz".to_owned(),
            "http://127.0.0.1:9092/healthz".to_owned()
        ))
    );
    assert!(exact_topology_health_urls("http://127.0.0.1:9091/healthz").is_err());
    assert!(
        exact_topology_health_urls("http://127.0.0.1:9091/healthz,http://127.0.0.1:9091/healthz")
            .is_err()
    );
}

#[test]
fn external_injection_acknowledgement_is_exact_and_custody_free() {
    let valid = r#"{
        "schema":"openagents.immortal.lab-injection-ack.v1",
        "run_id":"run-1",
        "checkpoint":"reverse:funding_effect_recorded",
        "injection":"provider_crash",
        "restored":true,
        "evidence":{
            "target":"provider-a",
            "before_pid":101,
            "after_pid":202,
            "transition":"process_replaced_and_ready"
        }
    }"#;
    let crashed = |bytes: &str, custody: Option<&str>| {
        validate_injection_acknowledgement(
            bytes.as_bytes(),
            custody,
            "run-1",
            "reverse:funding_effect_recorded",
            HarnessInjection::ProviderCrash,
        )
    };
    crashed(valid, None).expect("exact acknowledgement should pass");
    let secret = r#"{
        "schema":"openagents.immortal.lab-injection-ack.v1",
        "run_id":"run-1",
        "checkpoint":"reverse:funding_effect_recorded",
        "injection":"provider_crash",
        "restored":true,
        "preimage":"00"
    }"#;
    assert!(crashed(secret, None).is_err());
    assert!(crashed(valid, Some("custody member preimage")).is_err());
    let same_pid = valid.replace("202", "101");
    assert!(crashed(&same_pid, None).is_err());

    let provider_stopped = r#"{
        "schema":"openagents.immortal.lab-injection-ack.v1",
        "run_id":"run-2",
        "checkpoint":"submarine_refund:funding_effect_recorded",
        "injection":"provider_noncooperative",
        "restored":false,
        "evidence":{
            "target":"provider-a",
            "before_pid":303,
            "transition":"process_stopped"
        }
    }"#;
    let stopped = |bytes: &str| {
        validate_injection_acknowledgement(
            bytes.as_bytes(),
            None,
            "run-2",
            "submarine_refund:funding_effect_recorded",
            HarnessInjection::ProviderNoncooperative,
        )
    };
    stopped(provider_stopped).expect("permanently stopped provider acknowledgement should pass");
    assert!(stopped(&provider_stopped.replace("false", "true")).is_err());

    let chain_recovery = format!(
        r#"{{
        "schema":"openagents.immortal.lab-injection-ack.v1",
        "run_id":"run-2",
        "checkpoint":"submarine:claim_reorg_control",
        "injection":"claim_reorg",
        "restored":true,
        "evidence":{{
            "target":"provider-a",
            "transaction_id":"{}",
            "orphaned_block_hash":"{}",
            "competing_tip_hash":"{}",
            "reconfirmed_block_hash":"{}",
            "transition":"claim_watch_reorged_and_reconfirmed",
            "wait_state":"claim_watch_confirmed",
            "recovery_state":"claim_watch_reorg_then_reconfirmed"
        }}
    }}"#,
        "11".repeat(32),
        "22".repeat(32),
        "33".repeat(32),
        "44".repeat(32),
    );
    let reorged = |bytes: &str| {
        validate_injection_acknowledgement(
            bytes.as_bytes(),
            None,
            "run-2",
            "submarine:claim_reorg_control",
            HarnessInjection::ClaimReorg,
        )
    };
    reorged(&chain_recovery).expect("exact chain recovery acknowledgement should pass");
    let wrong_transition = chain_recovery.replace(
        "claim_watch_reorged_and_reconfirmed",
        "funding_reorg_waited_and_resumed",
    );
    assert!(reorged(&wrong_transition).is_err());
}

#[test]
fn an_acknowledgement_is_bounded_and_for_external_faults_only() {
    let judge = |bytes: &[u8], injection: HarnessInjection| {
        validate_injection_acknowledgement(bytes, None, "run", "a:b", injection)
    };
    for bytes in [vec![], vec![b' '; 4_097]] {
        assert_eq!(
            refusal(judge(&bytes, HarnessInjection::RelayLoss)),
            "injection continuation is empty or unbounded"
        );
    }
    assert!(
        refusal(judge(b"{", HarnessInjection::RelayLoss))
            .starts_with("injection continuation is invalid JSON: ")
    );
    let internal = br#"{
        "schema":"openagents.immortal.lab-injection-ack.v1",
        "run_id":"run",
        "checkpoint":"a:b",
        "injection":"stale_quote",
        "restored":true,
        "evidence":{}
    }"#;
    assert!(judge(internal, HarnessInjection::StaleQuote).is_err());
}

#[test]
fn controls_are_read_together() {
    let load = |timeout: Option<&str>, stop: Option<&str>, at: Option<&str>, name: Option<&str>| {
        StepControl::load_with_injection(
            None,
            "run".to_owned(),
            timeout,
            stop.map(str::to_owned),
            at.map(str::to_owned),
            name,
        )
    };
    let control = load(Some("60"), None, Some("reverse:funding_effect_recorded"), Some("relay_loss"))
        .expect("an external fault at a checkpoint");
    assert!(control.injection == Some(HarnessInjection::RelayLoss));
    assert_eq!(control.injection_timeout_seconds, 60);
    assert_eq!(
        refusal(load(None, None, None, Some("relay_loss"))),
        "external process injections require IMMORTAL_LAB_INJECT_AT"
    );
    assert_eq!(
        refusal(load(None, None, None, Some("other"))),
        "IMMORTAL_LAB_INJECTION is unsupported"
    );
    assert!(load(Some("zero"), None, None, None).is_err());
    assert_eq!(
        refusal(StepControl::load_with_injection(
            Some(HarnessInjection::StaleQuote),
            "run".to_owned(),
            None,
            Some("a:b".to_owned()),
            None,
            None,
        )),
        "adversarial case injection conflicts with funded harness controls"
    );

    let (kept, outcome) = control.checkpoint(
        "reverse",
        "funding_effect_recorded",
        true,
        document(r#"{"a":1}"#),
        77,
    );
    assert_eq!(kept.schema, "openagents.immortal.lab-checkpoint.v1");
    assert_eq!((kept.journey.as_str(), kept.label.as_str()), ("reverse", "funding_effect_recorded"));
    assert!(kept.safe_to_stop && kept.updated_at == 77);
    match outcome {
        CheckpointOutcome::Pause(injection, request) => {
            assert!(injection == HarnessInjection::RelayLoss);
            assert_eq!(request.schema, "openagents.immortal.lab-injection.v1");
            assert_eq!(request.checkpoint, "reverse:funding_effect_recorded");
            assert_eq!(request.injection, "relay_loss");
            assert_eq!(request.requested_at, 77);
        }
        _ => panic!("the fault is brought about at its checkpoint"),
    }
    let (_, outcome) = control.checkpoint("reverse", "completed", true, Json::null(), 78);
    assert!(matches!(outcome, CheckpointOutcome::Proceed));
    let stopping = load(None, Some("reverse:completed"), None, None).expect("a controlled stop");
    let (_, outcome) = stopping.checkpoint("reverse", "completed", true, Json::null(), 78);
    assert!(matches!(outcome, CheckpointOutcome::Refuse(_)));
}

#[test]
fn prior_lightning_attempts_are_counted_by_exact_payment_hash() {
    let response = document(&format!(
        r#"{{"pays":[
            {{"payment_hash":"{}","status":"pending"}},
            {{"payment_hash":"{}","status":"failed"}}
        ]}}"#,
        "11".repeat(32),
        "22".repeat(32)
    ));
    assert_eq!(payment_entries(&response, &"11".repeat(32)), Ok((2, 1)));
    assert_eq!(payment_entries(&response, &"33".repeat(32)), Ok((2, 0)));
}

#[test]
fn recorded_payment_result_rejects_amount_inversion() {
    let response = document(&format!(
        r#"{{
            "payment_hash":"{}",
            "status":"complete",
            "amount_msat":"1000msat",
            "amount_sent_msat":"999msat"
        }}"#,
        "11".repeat(32)
    ));
    assert!(parse_payment_result(&response, &Ok(1_000), &Ok(999)).is_err());
}

#[test]
fn a_payment_is_made_at_most_once() {
    let hash = "11".repeat(32);
    let none = document(r#"{"pays":[]}"#);
    let one = document(&format!(
        r#"{{"pays":[{{"payment_hash":"{hash}","status":"failed"}}]}}"#
    ));
    assert_eq!(payment_was_tried(&none, &hash), Ok(false));
    assert_eq!(payment_was_tried(&one, &hash), Ok(true));
    assert!(payment_was_tried(&document("{}"), &hash).is_err());
    let complete = document(&format!(
        r#"{{"pays":[{{
            "payment_hash":"{hash}","status":"complete","amount_msat":5,"amount_sent_msat":6
        }}]}}"#
    ));
    assert_eq!(observe_payment(&complete, &hash), Ok(true));
    let seen = wait_for_lightning_payment_status(&complete, &hash, &Ok(5), &Ok(6), true)
        .expect("a complete payment")
        .expect("a payment is listed");
    assert_eq!((seen.status.as_str(), seen.amount_msat, seen.amount_sent_msat), ("complete", 5, 6));
    assert!(matches!(
        wait_for_lightning_payment_status(&none, &hash, &Ok(5), &Ok(6), true),
        Ok(None)
    ));
    assert!(
        wait_for_lightning_payment_status(
            &complete,
            &hash,
            &Err("no amount".to_owned()),
            &Ok(6),
            true
        )
        .is_err()
    );
}

#[test]
fn an_invoice_is_removed_unpaid() {
    let hash = "11".repeat(32);
    let deleted = document(&format!(r#"{{"payment_hash":"{hash}","status":"unpaid"}}"#));
    let paid = document(&format!(r#"{{"payment_hash":"{hash}","status":"paid"}}"#));
    let gone = document(r#"{"invoices":[]}"#);
    assert_eq!(finalize_invoice_unpaid(&deleted, &gone, &hash), Ok(()));
    assert!(finalize_invoice_unpaid(&paid, &gone, &hash).is_err());
    let listed = document(&format!(r#"{{"invoices":[{{"payment_hash":"{hash}"}}]}}"#));
    assert!(finalize_invoice_unpaid(&deleted, &listed, &hash).is_err());
}

const AUDIT: &str = r#"{
    "separate_container":true,
    "application_environment_names":[
        "IMMORTAL_LAB_KEYLESS_REQUEST_FILE",
        "IMMORTAL_LAB_KEYLESS_RESULT_FILE"
    ],
    "mount_targets":["/keyless"],
    "observed_environment_count":3,
    "observed_mount_count":1,
    "environment_allowlist_exact":true,
    "mount_allowlist_exact":true,
    "rail_access":false,
    "runtime_environment_scan_passed":true,
    "exact_presigned_request_only":true
}"#;

#[test]
fn keyless_controller_audit_is_exact_and_custody_scanner_safe() {
    validate_doomsday_keyless_process_audit(
        Some(&document(AUDIT)),
        DoomsdayCase::KeylessEsploraBroadcast,
    )
    .expect("exact keyless process audit should pass");
    let rail_access = document(&AUDIT.replace(r#""rail_access":false"#, r#""rail_access":true"#));
    assert!(
        validate_doomsday_keyless_process_audit(
            Some(&rail_access),
            DoomsdayCase::KeylessEsploraBroadcast,
        )
        .is_err()
    );
    let unknown = document(&AUDIT.replace(
        r#""separate_container":true"#,
        r#""separate_container":true,"unknown":true"#,
    ));
    assert!(
        validate_doomsday_keyless_process_audit(
            Some(&unknown),
            DoomsdayCase::KeylessEsploraBroadcast,
        )
        .is_err()
    );
}

#[test]
fn only_the_keyless_case_shows_a_process_without_keys() {
    let other = DoomsdayCase::SubmarineProviderGone;
    assert_eq!(
        validate_doomsday_keyless_process_audit(Some(&Json::null()), other),
        Ok(())
    );
    assert_eq!(
        refusal(validate_doomsday_keyless_process_audit(None, other)),
        "non-keyless doomsday case contains a keyless process audit"
    );
    assert!(validate_doomsday_keyless_process_audit(Some(&document(AUDIT)), other).is_err());
    assert!(
        validate_doomsday_keyless_process_audit(None, DoomsdayCase::KeylessEsploraBroadcast)
            .is_err()
    );
    assert!(
        load_doomsday_controller_audit(&document("{}"), Some("seed"), other).is_err()
    );
}

#[test]
fn keyless_request_is_closed_bounded_and_txid_bound() {
    let raw = format!(
        "02000000000101{}0000000000feffffff0110270000000000000151{}00000000",
        "01".repeat(32),
        format!("0140{}", "02".repeat(64)),
    );
    let wire = vec![0x5a; 32];
    let parsed = || {
        Ok(ParsedTransaction {
            txid: Ok(wire.clone()),
            inputs: vec![],
        })
    };
    let transaction_id = lower_hex(&wire);
    let request = |url: &str, body: String| EsploraBroadcastRequest {
        effect_id: "11".repeat(32),
        method: "POST".to_owned(),
        url: url.to_owned(),
        content_type: "text/plain".to_owned(),
        body,
    };
    let exact = request("http://127.0.0.1:3002/api/tx", raw.clone());
    validate_doomsday_keyless_http_request(&exact, &transaction_id, &parsed())
        .expect("exact keyless request should pass");

    let mut wrong_id = transaction_id.clone();
    wrong_id.replace_range(..2, "00");
    assert!(validate_doomsday_keyless_http_request(&exact, &wrong_id, &parsed()).is_err());
    let oversized = request(
        "http://127.0.0.1:3002/api/tx",
        "00".repeat(DOOMSDAY_KEYLESS_MAX_BYTES + 1),
    );
    assert!(validate_doomsday_keyless_http_request(&oversized, &transaction_id, &parsed()).is_err());
    let wrong_path = request("http://127.0.0.1:3002/other/tx", raw);
    assert!(validate_doomsday_keyless_http_request(&wrong_path, &transaction_id, &parsed()).is_err());
    assert_eq!(
        refusal(validate_doomsday_keyless_http_request(
            &exact,
            &transaction_id,
            &Err("short".to_owned())
        )),
        "keyless request body is not a transaction: short"
    );
}

#[test]
fn keyless_file_rejects_duplicate_unknown_and_custody_members() {
    let schema = "openagents.immortal.doomsday-keyless-request.v1";
    let id = "11".repeat(32);
    let load = |text: &str, unique: Result<Json, String>, custody: Option<&str>| {
        let request = EsploraBroadcastRequest {
            effect_id: "11".repeat(32),
            method: "POST".to_owned(),
            url: "http://127.0.0.1:3002/api/tx".to_owned(),
            content_type: "text/plain".to_owned(),
            body: "00".to_owned(),
        };
        let parsed = Ok(ParsedTransaction {
            txid: Ok(vec![0x11; 32]),
            inputs: vec![],
        });
        load_doomsday_keyless_request(
            "request.json",
            text.as_bytes(),
            &unique,
            custody,
            Ok(request),
            &parsed,
        )
    };
    let plain = |text: &str| load(text, parse_json_text(text), None);
    let duplicate = format!(
        r#"{{"schema":"{schema}","schema":"{schema}","transaction_id":"{id}","request":{{}}}}"#
    );
    assert_eq!(
        refusal(load(&duplicate, Err("repeated member".to_owned()), None)),
        "repeated member"
    );
    for (extra, custody) in [(r#""unknown":true"#, None), (r#""wallet_seed":"00""#, Some("seed"))] {
        let text = format!(
            r#"{{"schema":"{schema}","transaction_id":"{id}","request":{{}},{extra}}}"#
        );
        assert!(load(&text, parse_json_text(&text), custody).is_err());
        assert_eq!(
            refusal(plain(&text)),
            "keyless request has unknown or missing members"
        );
    }
    let exact = format!(r#"{{"schema":"{schema}","transaction_id":"{id}","request":{{}}}}"#);
    let (request, loaded) = plain(&exact).expect("an exact file");
    assert_eq!((request.body.as_str(), loaded), ("00", id));
    assert_eq!(refusal(plain("")), "request.json is empty or exceeds its bound");
    let padded = |length: usize| format!("{exact}{}", " ".repeat(length - exact.len()));
    plain(&padded(65_536)).expect("a file at its bound");
    assert_eq!(
        refusal(plain(&padded(65_537))),
        "request.json is empty or exceeds its bound"
    );
    assert_eq!(
        refusal(load_doomsday_keyless_request(
            "request.json",
            &[0xff],
            &parse_json_text("{}"),
            None,
            Err("no".to_owned()),
            &Err("no".to_owned())
        )),
        "request.json is not UTF-8"
    );
    assert_eq!(
        refusal(load_doomsday_keyless_request(
            "request.json",
            exact.as_bytes(),
            &parse_json_text(&exact),
            None,
            Err("missing field".to_owned()),
            &Err("no".to_owned())
        )),
        "keyless HTTP request is invalid: missing field"
    );
    let other = format!(
        r#"{{"schema":"{schema}","transaction_id":"{}","request":{{}}}}"#,
        "22".repeat(32)
    );
    assert_eq!(
        refusal(plain(&other)),
        "keyless request transaction ID is non-canonical"
    );
}

#[test]
fn a_kept_request_is_read_back() {
    let id = "11".repeat(32);
    let kept = keyless_request_document(&id, document(r#"{"body":"00"}"#));
    let (loaded, request) = read_kept_request(&kept, None).expect("a kept request");
    assert_eq!(loaded, id);
    assert!(request.same(&document(r#"{"body":"00"}"#)));
    assert_eq!(
        refusal(read_kept_request(&kept, Some("wallet_seed"))),
        "keyless request contains custody material: wallet_seed"
    );
}

#[test]
fn keyless_acceptance_is_not_terminal_evidence() {
    let result = keyless_result(
        &"11".repeat(32),
        &"22".repeat(32),
        &"22".repeat(32),
        &"33".repeat(32),
    )
    .expect("an accepted broadcast");
    assert!(result.same(&document(&format!(
        r#"{{
            "schema":"openagents.immortal.doomsday-keyless-result.v1",
            "effect_id":"{}",
            "transaction_id":"{}",
            "request_sha256":"{}",
            "broadcast_accepted":true
        }}"#,
        "11".repeat(32),
        "22".repeat(32),
        "33".repeat(32)
    ))));
    let object = result.as_object().expect("result should be an object");
    assert!(!object.contains_key("passed"));
    assert!(!object.contains_key("outcome"));
    assert!(!object.contains_key("terminal"));
}

#[test]
fn a_keyless_result_answers_its_own_request_only() {
    let (effect, id, digest) = ("11".repeat(32), "22".repeat(32), "33".repeat(32));
    let result = keyless_result(&effect, &id, &id, &digest).expect("an accepted broadcast");
    assert_eq!(check_keyless_result(&result, &effect, &id, &digest), Ok(()));
    assert!(check_keyless_result(&result, &effect, &id, &effect).is_err());
    assert_eq!(
        refusal(keyless_result(&effect, &id, &effect, &digest)),
        "Esplora response returned another transaction ID"
    );
}

#[test]
fn a_keyless_process_has_no_credentials() {
    let clean = vec![Some("PATH".to_owned()), Some("IMMORTAL_LAB_KEYLESS_REQUEST_FILE".to_owned())];
    assert_eq!(reject_keyless_process_credentials(&clean), Ok(()));
    for name in ["WALLET_FILE", "RPC_PASSWORD", "MACAROON", "X_CLAIM_KEY_Y", "SEED"] {
        assert!(
            reject_keyless_process_credentials(&vec![Some(name.to_owned())]).is_err(),
            "{name}"
        );
    }
}

#[test]
fn an_output_index_is_a_bounded_number() {
    let members = document(r#"{"a":7,"b":"7","c":4294967296,"d":4294967295}"#);
    let members = members.as_object().expect("an object");
    assert_eq!(bounded_u32_member(members, "a"), Ok(7));
    assert_eq!(bounded_u32_member(members, "d"), Ok(u32::MAX));
    for name in ["b", "c", "e"] {
        assert!(bounded_u32_member(members, name).is_err(), "{name}");
    }
}

#[test]
fn evidence_of_a_leg_names_its_digest_and_its_view() {
    let evidence = reference("bitcoin_spend", "bitcoin", "x:0", "p", "node", &"33".repeat(32));
    let members = evidence.as_object().expect("an object");
    let claims = terminal_claims("bitcoin", members).expect("complete evidence");
    assert_eq!(claims.reference, "x:0");
    assert_eq!(
        claims.artifact_and_view,
        Some(("33".repeat(32), "node".to_owned()))
    );
    let claims = terminal_claims("liquid", members).expect("complete evidence");
    assert_eq!(claims.artifact_and_view, None);
    assert!(terminal_claims("bitcoin", &JsonObject::new()).is_err());
}

#[test]
fn test_bounded_numeric_output_index() {
    let members = |text: &str| document(text).as_object().expect("an object").copy();
    let numeric = members(r#"{"output_index":7}"#);
    let string = members(r#"{"output_index":"7"}"#);
    let overflow = members(r#"{"output_index":4294967296}"#);
    assert_eq!(bounded_u32_member(&numeric, "output_index"), Ok(7));
    assert!(bounded_u32_member(&string, "output_index").is_err());
    assert!(bounded_u32_member(&overflow, "output_index").is_err());
}
