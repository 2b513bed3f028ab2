use immortal_lab::contract::chain_terminal_settlement_ids;
use immortal_lab::journey::{
    liquid_doomsday_journey_name, CooperativeAction, CooperativeJourney, DoomsdayCase,
    FundedJourney, HarnessInjection, LiquidChainDirection, LiquidJourney,
};
use immortal_lab::status::requester_status_provider_prerequisite;
use immortal_lab::wire::parse_json_text;

const CASES: [DoomsdayCase; 5] = [
    DoomsdayCase::SubmarineProviderGone,
    DoomsdayCase::ReverseCoordinatorGone,
    DoomsdayCase::KeylessEsploraBroadcast,
    DoomsdayCase::LiquidSubmarineProviderGone,
    DoomsdayCase::LiquidReverseCoordinatorGone,
];

const INJECTIONS: [(HarnessInjection, &str, bool); 18] = [
    (HarnessInjection::StaleQuote, "stale_quote", false),
    (HarnessInjection::DuplicateMessage, "duplicate_message", false),
    (HarnessInjection::ConflictingMessage, "conflicting_message", false),
    (HarnessInjection::SecretLeak, "secret_leak", false),
    (HarnessInjection::RelayLoss, "relay_loss", true),
    (HarnessInjection::ProviderCrash, "provider_crash", true),
    (HarnessInjection::WalletCrash, "wallet_crash", true),
    (HarnessInjection::ProviderNoncooperative, "provider_noncooperative", true),
    (HarnessInjection::FundingReorg, "funding_reorg", true),
    (HarnessInjection::ClaimReorg, "claim_reorg", true),
    (HarnessInjection::RbfConflict, "rbf_conflict", false),
    (HarnessInjection::ZeroConfRbfReplacement, "zero_conf_rbf_replacement", false),
    (HarnessInjection::ZeroConfDoubleSpend, "zero_conf_double_spend", false),
    (HarnessInjection::ZeroConfAncestorEviction, "zero_conf_ancestor_eviction", false),
    (HarnessInjection::StatusGap, "status_gap", false),
    (HarnessInjection::StatusFork, "status_fork", false),
    (HarnessInjection::WrongClaimKey, "wrong_claim_key", false),
    (HarnessInjection::CooperativeCrashCut, "cooperative_crash_cut", true),
];

#[test]
fn chain_terminal_settlements_cover_both_rail_orientations() {
    let source_claim = "11".repeat(32);
    let destination_claim = "22".repeat(32);
    let (bitcoin, liquid) =
        chain_terminal_settlement_ids("bitcoin", "liquid", &source_claim, &destination_claim)
            .expect("BTC to Liquid settlements");
    assert_eq!(
        (bitcoin, liquid),
        (source_claim.as_str(), destination_claim.as_str())
    );

    let (bitcoin, liquid) =
        chain_terminal_settlement_ids("liquid", "bitcoin", &source_claim, &destination_claim)
            .expect("Liquid to BTC settlements");
    assert_eq!(
        (bitcoin, liquid),
        (destination_claim.as_str(), source_claim.as_str())
    );
    assert!(!bitcoin.is_empty() && !liquid.is_empty());
    assert!(
        chain_terminal_settlement_ids("liquid", "liquid", &source_claim, &destination_claim)
            .is_err()
    );
}

#[test]
fn liquid_doomsday_state_uses_case_specific_journey_keys() {
    assert_eq!(
        liquid_doomsday_journey_name(DoomsdayCase::LiquidSubmarineProviderGone, "liquid_submarine"),
        Ok("liquid_submarine_provider_gone")
    );
    assert_eq!(
        liquid_doomsday_journey_name(DoomsdayCase::LiquidReverseCoordinatorGone, "liquid_reverse"),
        Ok("liquid_reverse_coordinator_gone")
    );
    assert!(
        liquid_doomsday_journey_name(DoomsdayCase::LiquidSubmarineProviderGone, "liquid_reverse")
            .is_err()
    );
    assert!(
        liquid_doomsday_journey_name(DoomsdayCase::SubmarineProviderGone, "liquid_submarine")
            .is_err()
    );
    for case in [
        DoomsdayCase::LiquidSubmarineProviderGone,
        DoomsdayCase::LiquidReverseCoordinatorGone,
    ] {
        assert!(case.journey_name().len() <= 32);
    }
}

#[test]
fn requester_statuses_enumerate_every_provider_causal_prerequisite() {
    let expected = [
        ("requester_verification_passed", "lock_terms_ready"),
        ("requester_invoice_verified", "hold_invoice_ready"),
        ("requester_lock_verified", "provider_lock_terms_ready"),
        ("requester_claim_pending", "funding_final"),
        ("requester_source_verified", "source_lock_terms_ready"),
        (
            "requester_destination_verified",
            "destination_lock_terms_ready",
        ),
        ("requester_source_broadcast", "source_funding_required"),
        (
            "requester_destination_claim_pending",
            "destination_funding_final",
        ),
        (
            "requester_source_refund_pending",
            "provider_destination_refunded",
        ),
    ];
    for (requester_state, provider_state) in expected {
        assert_eq!(
            requester_status_provider_prerequisite(requester_state),
            Some(provider_state)
        );
    }
    for independent in [
        "lightning_payment_pending",
        "requester_funding_broadcast",
        "requester_claimed",
        "requester_destination_claimed",
        "refund_prepared",
        "refund_pending",
        "refunded",
    ] {
        assert_eq!(requester_status_provider_prerequisite(independent), None);
    }
}

#[test]
fn injection_fixture_names_all_bounded_controls() {
    let fixture = parse_json_text(
        r#"{"injections":[
            {"name":"stale_quote"},
            {"name":"duplicate_message"},
            {"name":"conflicting_message"},
            {"name":"secret_leak"},
            {
                "name":"relay_loss",
                "wallet_recovery":"reauthenticate_reader_and_publisher_then_resubscribe_without_history_discard"
            },
            {
                "name":"provider_crash",
                "wallet_recovery":"retain_authenticated_relay_sockets",
                "provider_recovery":"restore_durable_reservation_release_before_ingesting_provider_close"
            }
        ]}"#,
    )
    .expect("checkpoint fixture should parse");
    let injections = fixture
        .get("injections")
        .and_then(|injections| injections.as_array())
        .expect("checkpoint fixture should name injections");
    let names = injections
        .iter()
        .map(|injection| {
            injection
                .text_at("name")
                .expect("injection name should be text")
        })
        .collect::<Vec<_>>();
    assert_eq!(
        names,
        [
            "stale_quote",
            "duplicate_message",
            "conflicting_message",
            "secret_leak",
            "relay_loss",
            "provider_crash"
        ]
    );
    for name in names {
        assert_eq!(
            HarnessInjection::parse(name)
                .expect("fixture injection should be implemented")
                .name(),
            name
        );
    }
    assert_eq!(
        injections[4].text_at("wallet_recovery"),
        Some("reauthenticate_reader_and_publisher_then_resubscribe_without_history_discard")
    );
    assert_eq!(
        injections[5].text_at("wallet_recovery"),
        Some("retain_authenticated_relay_sockets")
    );
    assert_eq!(
        injections[5].text_at("provider_recovery"),
        Some("restore_durable_reservation_release_before_ingesting_provider_close")
    );
}

#[test]
fn every_injection_is_read_back_from_its_name() {
    for (injection, name, external) in INJECTIONS {
        assert_eq!(injection.name(), name);
        assert!(HarnessInjection::parse(name) == Ok(injection));
        assert_eq!(injection.requires_external_control(), external);
    }
    for unknown in ["", "Stale_Quote", "stale_quote ", "relay"] {
        assert_eq!(
            HarnessInjection::parse(unknown).err().as_deref(),
            Some("IMMORTAL_LAB_INJECTION is unsupported")
        );
    }
}

#[test]
fn every_case_is_read_back_from_its_identifier() {
    for case in CASES {
        assert!(DoomsdayCase::parse(case.case_id()) == Ok(case));
    }
    assert_eq!(
        DoomsdayCase::KeylessEsploraBroadcast.case_id(),
        "doomsday-keyless-esplora-broadcast"
    );
    assert_eq!(
        DoomsdayCase::parse("doomsday").err().as_deref(),
        Some("selected case is not a doomsday scenario")
    );
}

#[test]
fn no_two_cases_share_their_state_or_their_invoice() {
    for (i, left) in CASES.into_iter().enumerate() {
        for right in CASES.into_iter().skip(i + 1) {
            assert_ne!(left.journey_name(), right.journey_name());
            assert_ne!(left.invoice_label(), right.invoice_label());
            assert_ne!(left.case_id(), right.case_id());
        }
    }
    assert_eq!(
        DoomsdayCase::ReverseCoordinatorGone.journey_name(),
        "doomsday_reverse_coord_gone"
    );
    assert_eq!(
        DoomsdayCase::LiquidReverseCoordinatorGone.invoice_label(),
        "immortal-doomsday-liquid-reverse"
    );
}

#[test]
fn liquid_names_are_refused_for_their_reasons() {
    assert_eq!(
        liquid_doomsday_journey_name(DoomsdayCase::KeylessEsploraBroadcast, "liquid_submarine"),
        Err("selected doomsday case is not a Liquid scenario".to_owned())
    );
    assert_eq!(
        liquid_doomsday_journey_name(DoomsdayCase::LiquidReverseCoordinatorGone, "reverse"),
        Err("Liquid doomsday preparation used another journey".to_owned())
    );
}

#[test]
fn journeys_have_the_names_that_their_state_is_kept_under() {
    assert_eq!(FundedJourney::Submarine.name(), "submarine");
    assert_eq!(FundedJourney::SubmarineRefund.name(), "submarine_refund");
    assert_eq!(FundedJourney::ReverseClaim.name(), "reverse");
    assert_eq!(FundedJourney::ReverseRefund.name(), "reverse_refund");
    assert_eq!(LiquidJourney::Submarine.name(), "liquid_submarine");
    assert_eq!(LiquidJourney::Reverse.name(), "liquid_reverse");
    assert_eq!(LiquidJourney::Submarine.swap_type(), "submarine");
    assert_eq!(LiquidJourney::Reverse.swap_type(), "reverse");
    assert_eq!(CooperativeJourney::Complete.name(), "cooperative");
    assert_eq!(CooperativeJourney::AbortAfterProviderNonce.name(), "cooperative_abort");
    assert_eq!(CooperativeJourney::CrashCutRecovery.name(), "cooperative_crash_cut");
}

#[test]
fn a_chain_swap_leaves_one_rail_for_the_other() {
    let forth = LiquidChainDirection::BitcoinToLiquid;
    let back = LiquidChainDirection::LiquidToBitcoin;
    assert_eq!((forth.name(), back.name()), ("btc-to-lbtc", "lbtc-to-btc"));
    assert_eq!((forth.source_rail(), forth.destination_rail()), ("bitcoin", "liquid"));
    assert_eq!((back.source_rail(), back.destination_rail()), ("liquid", "bitcoin"));
}

#[test]
fn the_steps_of_a_joint_signature_have_their_names() {
    let names = [
        (CooperativeAction::NonceCommitment, "nonce_commitment"),
        (CooperativeAction::PublicNonce, "public_nonce"),
        (CooperativeAction::PartialSignature, "partial_signature"),
        (CooperativeAction::FinalSignature, "final_signature"),
        (CooperativeAction::Aborted, "aborted"),
    ];
    for (action, name) in names {
        assert_eq!(action.name(), name);
    }
}
