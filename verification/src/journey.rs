//! The journeys, cases and injections that the laboratory knows, with their names.

use vstd::prelude::*;
use crate::text::same_text;

verus! {

/// A funded journey over Bitcoin and Lightning.
#[derive(Clone, Copy, Debug, PartialEq, Eq, Structural)]
pub enum FundedJourney {
    Submarine,
    SubmarineRefund,
    ReverseClaim,
    ReverseRefund,
}

impl FundedJourney {
    /// The name of the journey.
    pub open spec fn label(self) -> Seq<char> {
        match self {
            FundedJourney::Submarine => "submarine"@,
            FundedJourney::SubmarineRefund => "submarine_refund"@,
            FundedJourney::ReverseClaim => "reverse"@,
            FundedJourney::ReverseRefund => "reverse_refund"@,
        }
    }

    /// The name of the journey.
    pub fn name(self) -> (text: &'static str)
        ensures
            text@ == self.label(),
    {
        match self {
            FundedJourney::Submarine => "submarine",
            FundedJourney::SubmarineRefund => "submarine_refund",
            FundedJourney::ReverseClaim => "reverse",
            FundedJourney::ReverseRefund => "reverse_refund",
        }
    }
}

/// The direction of a chain swap between Bitcoin and Liquid.
#[derive(Clone, Copy, Debug, PartialEq, Eq, Structural)]
pub enum LiquidChainDirection {
    BitcoinToLiquid,
    LiquidToBitcoin,
}

impl LiquidChainDirection {
    /// The name of the direction.
    pub open spec fn label(self) -> Seq<char> {
        match self {
            LiquidChainDirection::BitcoinToLiquid => "btc-to-lbtc"@,
            LiquidChainDirection::LiquidToBitcoin => "lbtc-to-btc"@,
        }
    }

    /// The name of the direction.
    pub fn name(self) -> (text: &'static str)
        ensures
            text@ == self.label(),
    {
        match self {
            LiquidChainDirection::BitcoinToLiquid => "btc-to-lbtc",
            LiquidChainDirection::LiquidToBitcoin => "lbtc-to-btc",
        }
    }

    /// The rail that the requester pays on.
    pub open spec fn source_label(self) -> Seq<char> {
        match self {
            LiquidChainDirection::BitcoinToLiquid => "bitcoin"@,
            LiquidChainDirection::LiquidToBitcoin => "liquid"@,
        }
    }

    /// The rail that the requester pays on.
    pub fn source_rail(self) -> (text: &'static str)
        ensures
            text@ == self.source_label(),
    {
        match self {
            LiquidChainDirection::BitcoinToLiquid => "bitcoin",
            LiquidChainDirection::LiquidToBitcoin => "liquid",
        }
    }

    /// The rail that the requester is paid on.
    pub open spec fn destination_label(self) -> Seq<char> {
        match self {
            LiquidChainDirection::BitcoinToLiquid => "liquid"@,
            LiquidChainDirection::LiquidToBitcoin => "bitcoin"@,
        }
    }

    /// The rail that the requester is paid on.
    pub fn destination_rail(self) -> (text: &'static str)
        ensures
            text@ == self.destination_label(),
    {
        match self {
            LiquidChainDirection::BitcoinToLiquid => "liquid",
            LiquidChainDirection::LiquidToBitcoin => "bitcoin",
        }
    }
}

/// A journey over Liquid and Lightning.
#[derive(Clone, Copy, Debug, PartialEq, Eq, Structural)]
pub enum LiquidJourney {
    Submarine,
    Reverse,
}

impl LiquidJourney {
    /// The name of the journey.
    pub open spec fn label(self) -> Seq<char> {
        match self {
            LiquidJourney::Submarine => "liquid_submarine"@,
            LiquidJourney::Reverse => "liquid_reverse"@,
        }
    }

    /// The name of the journey.
    pub fn name(self) -> (text: &'static str)
        ensures
            text@ == self.label(),
    {
        match self {
            LiquidJourney::Submarine => "liquid_submarine",
            LiquidJourney::Reverse => "liquid_reverse",
        }
    }

    /// The kind of swap that the journey makes.
    pub open spec fn swap_label(self) -> Seq<char> {
        match self {
            LiquidJourney::Submarine => "submarine"@,
            LiquidJourney::Reverse => "reverse"@,
        }
    }

    /// The kind of swap that the journey makes.
    pub fn swap_type(self) -> (text: &'static str)
        ensures
            text@ == self.swap_label(),
    {
        match self {
            LiquidJourney::Submarine => "submarine",
            LiquidJourney::Reverse => "reverse",
        }
    }
}

/// A journey that settles by a joint signature.
#[derive(Clone, Copy, Debug, PartialEq, Eq, Structural)]
pub enum CooperativeJourney {
    Complete,
    AbortAfterProviderNonce,
    CrashCutRecovery,
}

impl CooperativeJourney {
    /// The name of the journey.
    pub open spec fn label(self) -> Seq<char> {
        match self {
            CooperativeJourney::Complete => "cooperative"@,
            CooperativeJourney::AbortAfterProviderNonce => "cooperative_abort"@,
            CooperativeJourney::CrashCutRecovery => "cooperative_crash_cut"@,
        }
    }

    /// The name of the journey.
    pub fn name(self) -> (text: &'static str)
        ensures
            text@ == self.label(),
    {
        match self {
            CooperativeJourney::Complete => "cooperative",
            CooperativeJourney::AbortAfterProviderNonce => "cooperative_abort",
            CooperativeJourney::CrashCutRecovery => "cooperative_crash_cut",
        }
    }
}

/// A step of a joint signature.
#[derive(Clone, Copy, Debug, PartialEq, Eq, Structural)]
pub enum CooperativeAction {
    NonceCommitment,
    PublicNonce,
    PartialSignature,
    FinalSignature,
    Aborted,
}

impl CooperativeAction {
    /// The name of the step.
    pub open spec fn label(self) -> Seq<char> {
        match self {
            CooperativeAction::NonceCommitment => "nonce_commitment"@,
            CooperativeAction::PublicNonce => "public_nonce"@,
            CooperativeAction::PartialSignature => "partial_signature"@,
            CooperativeAction::FinalSignature => "final_signature"@,
            CooperativeAction::Aborted => "aborted"@,
        }
    }

    /// The name of the step.
    pub fn name(self) -> (text: &'static str)
        ensures
            text@ == self.label(),
    {
        match self {
            CooperativeAction::NonceCommitment => "nonce_commitment",
            CooperativeAction::PublicNonce => "public_nonce",
            CooperativeAction::PartialSignature => "partial_signature",
            CooperativeAction::FinalSignature => "final_signature",
            CooperativeAction::Aborted => "aborted",
        }
    }
}

/// A scenario in which one side of a swap is gone for good.
#[derive(Clone, Copy, Debug, PartialEq, Eq, Structural)]
pub enum DoomsdayCase {
    SubmarineProviderGone,
    ReverseCoordinatorGone,
    KeylessEsploraBroadcast,
    LiquidSubmarineProviderGone,
    LiquidReverseCoordinatorGone,
}

impl DoomsdayCase {
    /// The case of an identifier.
    pub fn parse(value: &str) -> (parsed: Result<DoomsdayCase, String>)
        ensures
            match parsed {
                Ok(case) => value@ == case.id(),
                Err(message) => {
                    &&& message@ == "selected case is not a doomsday scenario"@
                    &&& forall|case: DoomsdayCase| value@ != #[trigger] case.id()
                },
            },
    {
        if same_text(value, "doomsday-submarine-provider-gone") {
            return Ok(DoomsdayCase::SubmarineProviderGone);
        }
        if same_text(value, "doomsday-reverse-coordinator-gone") {
            return Ok(DoomsdayCase::ReverseCoordinatorGone);
        }
        if same_text(value, "doomsday-keyless-esplora-broadcast") {
            return Ok(DoomsdayCase::KeylessEsploraBroadcast);
        }
        if same_text(value, "doomsday-liquid-submarine-provider-gone") {
            return Ok(DoomsdayCase::LiquidSubmarineProviderGone);
        }
        if same_text(value, "doomsday-liquid-reverse-coordinator-gone") {
            return Ok(DoomsdayCase::LiquidReverseCoordinatorGone);
        }
        Err("selected case is not a doomsday scenario".to_owned())
    }

    /// The name under which the state of the case is kept.
    pub open spec fn journey_label(self) -> Seq<char> {
        match self {
            DoomsdayCase::SubmarineProviderGone => "doomsday_submarine_provider_gone"@,
            DoomsdayCase::ReverseCoordinatorGone => "doomsday_reverse_coord_gone"@,
            DoomsdayCase::KeylessEsploraBroadcast => "doomsday_keyless_esplora_exit"@,
            DoomsdayCase::LiquidSubmarineProviderGone => "liquid_submarine_provider_gone"@,
            DoomsdayCase::LiquidReverseCoordinatorGone => "liquid_reverse_coordinator_gone"@,
        }
    }

    /// The name under which the state of the case is kept.
    pub fn journey_name(self) -> (text: &'static str)
        ensures
            text@ == self.journey_label(),
    {
        match self {
            DoomsdayCase::SubmarineProviderGone => "doomsday_submarine_provider_gone",
            DoomsdayCase::ReverseCoordinatorGone => "doomsday_reverse_coord_gone",
            DoomsdayCase::KeylessEsploraBroadcast => "doomsday_keyless_esplora_exit",
            DoomsdayCase::LiquidSubmarineProviderGone => "liquid_submarine_provider_gone",
            DoomsdayCase::LiquidReverseCoordinatorGone => "liquid_reverse_coordinator_gone",
        }
    }

    /// The label of the invoice of the case.
    pub open spec fn invoice_text(self) -> Seq<char> {
        match self {
            DoomsdayCase::SubmarineProviderGone => "immortal-doomsday-submarine"@,
            DoomsdayCase::ReverseCoordinatorGone => "immortal-doomsday-reverse"@,
            DoomsdayCase::KeylessEsploraBroadcast => "immortal-doomsday-keyless"@,
            DoomsdayCase::LiquidSubmarineProviderGone => "immortal-doomsday-liquid-submarine"@,
            DoomsdayCase::LiquidReverseCoordinatorGone => "immortal-doomsday-liquid-reverse"@,
        }
    }

    /// The label of the invoice of the case.
    pub fn invoice_label(self) -> (text: &'static str)
        ensures
            text@ == self.invoice_text(),
    {
        match self {
            DoomsdayCase::SubmarineProviderGone => "immortal-doomsday-submarine",
            DoomsdayCase::ReverseCoordinatorGone => "immortal-doomsday-reverse",
            DoomsdayCase::KeylessEsploraBroadcast => "immortal-doomsday-keyless",
            DoomsdayCase::LiquidSubmarineProviderGone => "immortal-doomsday-liquid-submarine",
            DoomsdayCase::LiquidReverseCoordinatorGone => "immortal-doomsday-liquid-reverse",
        }
    }

    /// The identifier of the case.
    pub open spec fn id(self) -> Seq<char> {
        match self {
            DoomsdayCase::SubmarineProviderGone => "doomsday-submarine-provider-gone"@,
            DoomsdayCase::ReverseCoordinatorGone => "doomsday-reverse-coordinator-gone"@,
            DoomsdayCase::KeylessEsploraBroadcast => "doomsday-keyless-esplora-broadcast"@,
            DoomsdayCase::LiquidSubmarineProviderGone => "doomsday-liquid-submarine-provider-gone"@,
            DoomsdayCase::LiquidReverseCoordinatorGone => "doomsday-liquid-reverse-coordinator-gone"@,
        }
    }

    /// The identifier of the case.
    pub fn case_id(self) -> (text: &'static str)
        ensures
            text@ == self.id(),
    {
        match self {
            DoomsdayCase::SubmarineProviderGone => "doomsday-submarine-provider-gone",
            DoomsdayCase::ReverseCoordinatorGone => "doomsday-reverse-coordinator-gone",
            DoomsdayCase::KeylessEsploraBroadcast => "doomsday-keyless-esplora-broadcast",
            DoomsdayCase::LiquidSubmarineProviderGone => "doomsday-liquid-submarine-provider-gone",
            DoomsdayCase::LiquidReverseCoordinatorGone => "doomsday-liquid-reverse-coordinator-gone",
        }
    }

    /// The journey that a Liquid case is prepared from.
    pub open spec fn prepared_journey(self) -> Option<Seq<char>> {
        match self {
            DoomsdayCase::LiquidSubmarineProviderGone => Some("liquid_submarine"@),
            DoomsdayCase::LiquidReverseCoordinatorGone => Some("liquid_reverse"@),
            _ => None,
        }
    }
}

/// The journey name of a Liquid case, as long as it was prepared from its own journey.
pub fn liquid_doomsday_journey_name(case: DoomsdayCase, prepared_journey_name: &str) -> (name: Result<
    &'static str,
    String,
>)
    ensures
        match name {
            Ok(name) => case.prepared_journey() == Some(prepared_journey_name@) && name@
                == case.journey_label(),
            Err(message) => message@ == (if case.prepared_journey() is None {
                "selected doomsday case is not a Liquid scenario"@
            } else {
                "Liquid doomsday preparation used another journey"@
            }) && case.prepared_journey() != Some(prepared_journey_name@),
        },
{
    let expected: &'static str = match case {
        DoomsdayCase::LiquidSubmarineProviderGone => "liquid_submarine",
        DoomsdayCase::LiquidReverseCoordinatorGone => "liquid_reverse",
        _ => {
            return Err("selected doomsday case is not a Liquid scenario".to_owned());
        },
    };
    if !same_text(prepared_journey_name, expected) {
        return Err("Liquid doomsday preparation used another journey".to_owned());
    }
    Ok(case.journey_name())
}

/// A fault that the harness injects into a journey.
#[derive(Clone, Copy, Debug, PartialEq, Eq, Structural)]
pub enum HarnessInjection {
    StaleQuote,
    DuplicateMessage,
    ConflictingMessage,
    SecretLeak,
    RelayLoss,
    ProviderCrash,
    WalletCrash,
    ProviderNoncooperative,
    FundingReorg,
    ClaimReorg,
    RbfConflict,
    ZeroConfRbfReplacement,
    ZeroConfDoubleSpend,
    ZeroConfAncestorEviction,
    StatusGap,
    StatusFork,
    WrongClaimKey,
    CooperativeCrashCut,
}

impl HarnessInjection {
    /// The injection of a name.
    pub fn parse(value: &str) -> (parsed: Result<HarnessInjection, String>)
        ensures
            match parsed {
                Ok(injection) => value@ == injection.label(),
                Err(message) => {
                    &&& message@ == "IMMORTAL_LAB_INJECTION is unsupported"@
                    &&& forall|injection: HarnessInjection| value@ != #[trigger] injection.label()
                },
            },
    {
        if same_text(value, "stale_quote") {
            return Ok(HarnessInjection::StaleQuote);
        }
        if same_text(value, "duplicate_message") {
            return Ok(HarnessInjection::DuplicateMessage);
        }
        if same_text(value, "conflicting_message") {
            return Ok(HarnessInjection::ConflictingMessage);
        }
        if same_text(value, "secret_leak") {
            return Ok(HarnessInjection::SecretLeak);
        }
        if same_text(value, "relay_loss") {
            return Ok(HarnessInjection::RelayLoss);
        }
        if same_text(value, "provider_crash") {
            return Ok(HarnessInjection::ProviderCrash);
        }
        if same_text(value, "wallet_crash") {
            return Ok(HarnessInjection::WalletCrash);
        }
        if same_text(value, "provider_noncooperative") {
            return Ok(HarnessInjection::ProviderNoncooperative);
        }
        if same_text(value, "funding_reorg") {
            return Ok(HarnessInjection::FundingReorg);
        }
        if same_text(value, "claim_reorg") {
            return Ok(HarnessInjection::ClaimReorg);
        }
        if same_text(value, "rbf_conflict") {
            return Ok(HarnessInjection::RbfConflict);
        }
        if same_text(value, "zero_conf_rbf_replacement") {
            return Ok(HarnessInjection::ZeroConfRbfReplacement);
        }
        if same_text(value, "zero_conf_double_spend") {
            return Ok(HarnessInjection::ZeroConfDoubleSpend);
        }
        if same_text(value, "zero_conf_ancestor_eviction") {
            return Ok(HarnessInjection::ZeroConfAncestorEviction);
        }
        if same_text(value, "status_gap") {
            return Ok(HarnessInjection::StatusGap);
        }
        if same_text(value, "status_fork") {
            return Ok(HarnessInjection::StatusFork);
        }
        if same_text(value, "wrong_claim_key") {
            return Ok(HarnessInjection::WrongClaimKey);
        }
        if same_text(value, "cooperative_crash_cut") {
            return Ok(HarnessInjection::CooperativeCrashCut);
        }
        Err("IMMORTAL_LAB_INJECTION is unsupported".to_owned())
    }

    /// The name of the injection.
    pub open spec fn label(self) -> Seq<char> {
        match self {
            HarnessInjection::StaleQuote => "stale_quote"@,
            HarnessInjection::DuplicateMessage => "duplicate_message"@,
            HarnessInjection::ConflictingMessage => "conflicting_message"@,
            HarnessInjection::SecretLeak => "secret_leak"@,
            HarnessInjection::RelayLoss => "relay_loss"@,
            HarnessInjection::ProviderCrash => "provider_crash"@,
            HarnessInjection::WalletCrash => "wallet_crash"@,
            HarnessInjection::ProviderNoncooperative => "provider_noncooperative"@,
            HarnessInjection::FundingReorg => "funding_reorg"@,
            HarnessInjection::ClaimReorg => "claim_reorg"@,
            HarnessInjection::RbfConflict => "rbf_conflict"@,
            HarnessInjection::ZeroConfRbfReplacement => "zero_conf_rbf_replacement"@,
            HarnessInjection::ZeroConfDoubleSpend => "zero_conf_double_spend"@,
            HarnessInjection::ZeroConfAncestorEviction => "zero_conf_ancestor_eviction"@,
            HarnessInjection::StatusGap => "status_gap"@,
            HarnessInjection::StatusFork => "status_fork"@,
            HarnessInjection::WrongClaimKey => "wrong_claim_key"@,
            HarnessInjection::CooperativeCrashCut => "cooperative_crash_cut"@,
        }
    }

    /// The name of the injection.
    pub fn name(self) -> (text: &'static str)
        ensures
            text@ == self.label(),
    {
        match self {
            HarnessInjection::StaleQuote => "stale_quote",
            HarnessInjection::DuplicateMessage => "duplicate_message",
            HarnessInjection::ConflictingMessage => "conflicting_message",
            HarnessInjection::SecretLeak => "secret_leak",
            HarnessInjection::RelayLoss => "relay_loss",
            HarnessInjection::ProviderCrash => "provider_crash",
            HarnessInjection::WalletCrash => "wallet_crash",
            HarnessInjection::ProviderNoncooperative => "provider_noncooperative",
            HarnessInjection::FundingReorg => "funding_reorg",
            HarnessInjection::ClaimReorg => "claim_reorg",
            HarnessInjection::RbfConflict => "rbf_conflict",
            HarnessInjection::ZeroConfRbfReplacement => "zero_conf_rbf_replacement",
            HarnessInjection::ZeroConfDoubleSpend => "zero_conf_double_spend",
            HarnessInjection::ZeroConfAncestorEviction => "zero_conf_ancestor_eviction",
            HarnessInjection::StatusGap => "status_gap",
            HarnessInjection::StatusFork => "status_fork",
            HarnessInjection::WrongClaimKey => "wrong_claim_key",
            HarnessInjection::CooperativeCrashCut => "cooperative_crash_cut",
        }
    }

    /// Whether someone outside the harness brings the fault about.
    pub open spec fn is_external(self) -> bool {
        ||| self is RelayLoss
        ||| self is ProviderCrash
        ||| self is WalletCrash
        ||| self is ProviderNoncooperative
        ||| self is FundingReorg
        ||| self is ClaimReorg
        ||| self is CooperativeCrashCut
    }

    /// Whether someone outside the harness brings the fault about.
    pub fn requires_external_control(self) -> (external: bool)
        ensures
            external == self.is_external(),
    {
        match self {
            HarnessInjection::RelayLoss
            | HarnessInjection::ProviderCrash
            | HarnessInjection::WalletCrash
            | HarnessInjection::ProviderNoncooperative
            | HarnessInjection::FundingReorg
            | HarnessInjection::ClaimReorg
            | HarnessInjection::CooperativeCrashCut => true,
            _ => false,
        }
    }
}

/// Two injections with the same name are the same, so a name read back gives its injection.
pub proof fn law_injection_names_differ(first: HarnessInjection, second: HarnessInjection)
    requires
        first.label() == second.label(),
    ensures
        first == second,
{
    reveal_strlit("stale_quote");
    reveal_strlit("duplicate_message");
    reveal_strlit("conflicting_message");
    reveal_strlit("secret_leak");
    reveal_strlit("relay_loss");
    reveal_strlit("provider_crash");
    reveal_strlit("wallet_crash");
    reveal_strlit("provider_noncooperative");
    reveal_strlit("funding_reorg");
    reveal_strlit("claim_reorg");
    reveal_strlit("rbf_conflict");
    reveal_strlit("zero_conf_rbf_replacement");
    reveal_strlit("zero_conf_double_spend");
    reveal_strlit("zero_conf_ancestor_eviction");
    reveal_strlit("status_gap");
    reveal_strlit("status_fork");
    reveal_strlit("wrong_claim_key");
    reveal_strlit("cooperative_crash_cut");
    let a = first.label();
    let b = second.label();
    match first {
        HarnessInjection::StaleQuote => { assert(a.len() == 11 && a[3] == 'l'); },
        HarnessInjection::DuplicateMessage => { assert(a.len() == 17 && a[3] == 'l'); },
        HarnessInjection::ConflictingMessage => { assert(a.len() == 19 && a[3] == 'f'); },
        HarnessInjection::SecretLeak => { assert(a.len() == 11 && a[3] == 'r'); },
        HarnessInjection::RelayLoss => { assert(a.len() == 10 && a[3] == 'a'); },
        HarnessInjection::ProviderCrash => { assert(a.len() == 14 && a[3] == 'v'); },
        HarnessInjection::WalletCrash => { assert(a.len() == 12 && a[3] == 'l'); },
        HarnessInjection::ProviderNoncooperative => { assert(a.len() == 23 && a[3] == 'v'); },
        HarnessInjection::FundingReorg => { assert(a.len() == 13 && a[3] == 'd'); },
        HarnessInjection::ClaimReorg => { assert(a.len() == 11 && a[3] == 'i'); },
        HarnessInjection::RbfConflict => { assert(a.len() == 12 && a[3] == '_'); },
        HarnessInjection::ZeroConfRbfReplacement => { assert(a.len() == 25 && a[3] == 'o'); },
        HarnessInjection::ZeroConfDoubleSpend => { assert(a.len() == 22 && a[3] == 'o'); },
        HarnessInjection::ZeroConfAncestorEviction => { assert(a.len() == 27 && a[3] == 'o'); },
        HarnessInjection::StatusGap => { assert(a.len() == 10 && a[3] == 't'); },
        HarnessInjection::StatusFork => { assert(a.len() == 11 && a[3] == 't'); },
        HarnessInjection::WrongClaimKey => { assert(a.len() == 15 && a[3] == 'n'); },
        HarnessInjection::CooperativeCrashCut => { assert(a.len() == 21 && a[3] == 'p'); },
    }
    match second {
        HarnessInjection::StaleQuote => { assert(b.len() == 11 && b[3] == 'l'); },
        HarnessInjection::DuplicateMessage => { assert(b.len() == 17 && b[3] == 'l'); },
        HarnessInjection::ConflictingMessage => { assert(b.len() == 19 && b[3] == 'f'); },
        HarnessInjection::SecretLeak => { assert(b.len() == 11 && b[3] == 'r'); },
        HarnessInjection::RelayLoss => { assert(b.len() == 10 && b[3] == 'a'); },
        HarnessInjection::ProviderCrash => { assert(b.len() == 14 && b[3] == 'v'); },
        HarnessInjection::WalletCrash => { assert(b.len() == 12 && b[3] == 'l'); },
        HarnessInjection::ProviderNoncooperative => { assert(b.len() == 23 && b[3] == 'v'); },
        HarnessInjection::FundingReorg => { assert(b.len() == 13 && b[3] == 'd'); },
        HarnessInjection::ClaimReorg => { assert(b.len() == 11 && b[3] == 'i'); },
        HarnessInjection::RbfConflict => { assert(b.len() == 12 && b[3] == '_'); },
        HarnessInjection::ZeroConfRbfReplacement => { assert(b.len() == 25 && b[3] == 'o'); },
        HarnessInjection::ZeroConfDoubleSpend => { assert(b.len() == 22 && b[3] == 'o'); },
        HarnessInjection::ZeroConfAncestorEviction => { assert(b.len() == 27 && b[3] == 'o'); },
        HarnessInjection::StatusGap => { assert(b.len() == 10 && b[3] == 't'); },
        HarnessInjection::StatusFork => { assert(b.len() == 11 && b[3] == 't'); },
        HarnessInjection::WrongClaimKey => { assert(b.len() == 15 && b[3] == 'n'); },
        HarnessInjection::CooperativeCrashCut => { assert(b.len() == 21 && b[3] == 'p'); },
    }
}

/// Two cases with the same identifier are the same, so an identifier read back gives its case.
pub proof fn law_case_ids_differ(first: DoomsdayCase, second: DoomsdayCase)
    requires
        first.id() == second.id(),
    ensures
        first == second,
{
    reveal_strlit("doomsday-submarine-provider-gone");
    reveal_strlit("doomsday-reverse-coordinator-gone");
    reveal_strlit("doomsday-keyless-esplora-broadcast");
    reveal_strlit("doomsday-liquid-submarine-provider-gone");
    reveal_strlit("doomsday-liquid-reverse-coordinator-gone");
    let a = first.id();
    let b = second.id();
    match first {
        DoomsdayCase::SubmarineProviderGone => { assert(a.len() == 32); },
        DoomsdayCase::ReverseCoordinatorGone => { assert(a.len() == 33); },
        DoomsdayCase::KeylessEsploraBroadcast => { assert(a.len() == 34); },
        DoomsdayCase::LiquidSubmarineProviderGone => { assert(a.len() == 39); },
        DoomsdayCase::LiquidReverseCoordinatorGone => { assert(a.len() == 40); },
    }
    match second {
        DoomsdayCase::SubmarineProviderGone => { assert(b.len() == 32); },
        DoomsdayCase::ReverseCoordinatorGone => { assert(b.len() == 33); },
        DoomsdayCase::KeylessEsploraBroadcast => { assert(b.len() == 34); },
        DoomsdayCase::LiquidSubmarineProviderGone => { assert(b.len() == 39); },
        DoomsdayCase::LiquidReverseCoordinatorGone => { assert(b.len() == 40); },
    }
}

/// The state of one case is never kept under the name of another.
pub proof fn law_case_journeys_differ(first: DoomsdayCase, second: DoomsdayCase)
    requires
        first.journey_label() == second.journey_label(),
    ensures
        first == second,
{
    reveal_strlit("doomsday_submarine_provider_gone");
    reveal_strlit("doomsday_reverse_coord_gone");
    reveal_strlit("doomsday_keyless_esplora_exit");
    reveal_strlit("liquid_submarine_provider_gone");
    reveal_strlit("liquid_reverse_coordinator_gone");
    let a = first.journey_label();
    let b = second.journey_label();
    match first {
        DoomsdayCase::SubmarineProviderGone => { assert(a.len() == 32); },
        DoomsdayCase::ReverseCoordinatorGone => { assert(a.len() == 27); },
        DoomsdayCase::KeylessEsploraBroadcast => { assert(a.len() == 29); },
        DoomsdayCase::LiquidSubmarineProviderGone => { assert(a.len() == 30); },
        DoomsdayCase::LiquidReverseCoordinatorGone => { assert(a.len() == 31); },
    }
    match second {
        DoomsdayCase::SubmarineProviderGone => { assert(b.len() == 32); },
        DoomsdayCase::ReverseCoordinatorGone => { assert(b.len() == 27); },
        DoomsdayCase::KeylessEsploraBroadcast => { assert(b.len() == 29); },
        DoomsdayCase::LiquidSubmarineProviderGone => { assert(b.len() == 30); },
        DoomsdayCase::LiquidReverseCoordinatorGone => { assert(b.len() == 31); },
    }
}

/// Two funded journeys with the same name are the same.
pub proof fn law_funded_journeys_differ(first: FundedJourney, second: FundedJourney)
    requires
        first.label() == second.label(),
    ensures
        first == second,
{
    reveal_strlit("submarine");
    reveal_strlit("submarine_refund");
    reveal_strlit("reverse");
    reveal_strlit("reverse_refund");
    let a = first.label();
    let b = second.label();
    match first {
        FundedJourney::Submarine => { assert(a.len() == 9); },
        FundedJourney::SubmarineRefund => { assert(a.len() == 16); },
        FundedJourney::ReverseClaim => { assert(a.len() == 7); },
        FundedJourney::ReverseRefund => { assert(a.len() == 14); },
    }
    match second {
        FundedJourney::Submarine => { assert(b.len() == 9); },
        FundedJourney::SubmarineRefund => { assert(b.len() == 16); },
        FundedJourney::ReverseClaim => { assert(b.len() == 7); },
        FundedJourney::ReverseRefund => { assert(b.len() == 14); },
    }
}

/// Two cooperative journeys with the same name are the same.
pub proof fn law_cooperative_journeys_differ(first: CooperativeJourney, second: CooperativeJourney)
    requires
        first.label() == second.label(),
    ensures
        first == second,
{
    reveal_strlit("cooperative");
    reveal_strlit("cooperative_abort");
    reveal_strlit("cooperative_crash_cut");
    let a = first.label();
    let b = second.label();
    match first {
        CooperativeJourney::Complete => { assert(a.len() == 11); },
        CooperativeJourney::AbortAfterProviderNonce => { assert(a.len() == 17); },
        CooperativeJourney::CrashCutRecovery => { assert(a.len() == 21); },
    }
    match second {
        CooperativeJourney::Complete => { assert(b.len() == 11); },
        CooperativeJourney::AbortAfterProviderNonce => { assert(b.len() == 17); },
        CooperativeJourney::CrashCutRecovery => { assert(b.len() == 21); },
    }
}

/// Two Liquid journeys with the same name are the same.
pub proof fn law_liquid_journeys_differ(first: LiquidJourney, second: LiquidJourney)
    requires
        first.label() == second.label(),
    ensures
        first == second,
{
    reveal_strlit("liquid_submarine");
    reveal_strlit("liquid_reverse");
    let a = first.label();
    let b = second.label();
    match first {
        LiquidJourney::Submarine => { assert(a.len() == 16); },
        LiquidJourney::Reverse => { assert(a.len() == 14); },
    }
    match second {
        LiquidJourney::Submarine => { assert(b.len() == 16); },
        LiquidJourney::Reverse => { assert(b.len() == 14); },
    }
}

/// Two directions with the same name are the same.
pub proof fn law_directions_differ(first: LiquidChainDirection, second: LiquidChainDirection)
    requires
        first.label() == second.label(),
    ensures
        first == second,
{
    reveal_strlit("btc-to-lbtc");
    reveal_strlit("lbtc-to-btc");
    let a = first.label();
    let b = second.label();
    match first {
        LiquidChainDirection::BitcoinToLiquid => { assert(a.len() == 11 && a[0] == 'b'); },
        LiquidChainDirection::LiquidToBitcoin => { assert(a.len() == 11 && a[0] == 'l'); },
    }
    match second {
        LiquidChainDirection::BitcoinToLiquid => { assert(b.len() == 11 && b[0] == 'b'); },
        LiquidChainDirection::LiquidToBitcoin => { assert(b.len() == 11 && b[0] == 'l'); },
    }
}

/// A direction pays on one rail and is paid on the other, the other direction the other way round, and
/// the one that is named from Bitcoin pays there.
pub proof fn law_directions_change_rails(direction: LiquidChainDirection, other: LiquidChainDirection)
    requires
        direction != other,
    ensures
        direction.source_label() != direction.destination_label(),
        direction.source_label() == other.destination_label(),
        direction.destination_label() == other.source_label(),
        direction.source_label() == "bitcoin"@ <==> direction is BitcoinToLiquid,
        direction.source_label() == "liquid"@ <==> direction is LiquidToBitcoin,
        direction is BitcoinToLiquid ==> direction.label() == "btc-to-"@ + "lbtc"@,
        direction is LiquidToBitcoin ==> direction.label() == "lbtc-to-"@ + "btc"@,
{
    reveal_strlit("bitcoin");
    reveal_strlit("liquid");
    assert("bitcoin"@.len() == 7);
    assert("liquid"@.len() == 6);
    reveal_strlit("btc-to-lbtc");
    reveal_strlit("lbtc-to-btc");
    reveal_strlit("btc-to-");
    reveal_strlit("lbtc-to-");
    reveal_strlit("lbtc");
    reveal_strlit("btc");
    assert("btc-to-lbtc"@ =~= "btc-to-"@ + "lbtc"@);
    assert("lbtc-to-btc"@ =~= "lbtc-to-"@ + "btc"@);
}

/// A Liquid journey is named after the kind of swap that it makes.
pub proof fn law_liquid_journey_is_named_after_its_swap(journey: LiquidJourney)
    ensures
        journey.label() == "liquid_"@ + journey.swap_label(),
        journey.swap_label() == "submarine"@ <==> journey is Submarine,
        journey.swap_label() == "reverse"@ <==> journey is Reverse,
{
    reveal_strlit("submarine");
    reveal_strlit("reverse");
    assert("submarine"@.len() == 9);
    assert("reverse"@.len() == 7);
    reveal_strlit("liquid_");
    reveal_strlit("liquid_submarine");
    reveal_strlit("liquid_reverse");
    assert("liquid_submarine"@ =~= "liquid_"@ + "submarine"@);
    assert("liquid_reverse"@ =~= "liquid_"@ + "reverse"@);
}

/// A refund is named after the swap that it takes back, and a swap between Bitcoin and Lightning has the
/// name of its kind.
pub proof fn law_refund_is_named_after_its_swap()
    ensures
        FundedJourney::Submarine.label() == LiquidJourney::Submarine.swap_label(),
        FundedJourney::ReverseClaim.label() == LiquidJourney::Reverse.swap_label(),
        FundedJourney::SubmarineRefund.label() == FundedJourney::Submarine.label() + "_refund"@,
        FundedJourney::ReverseRefund.label() == FundedJourney::ReverseClaim.label() + "_refund"@,
{
    reveal_strlit("submarine");
    reveal_strlit("reverse");
    reveal_strlit("_refund");
    reveal_strlit("submarine_refund");
    reveal_strlit("reverse_refund");
    assert("submarine_refund"@ =~= "submarine"@ + "_refund"@);
    assert("reverse_refund"@ =~= "reverse"@ + "_refund"@);
}

/// A case over Liquid is prepared from the Liquid journey of its own kind, and no other case from one;
/// its invoice says both.
pub proof fn law_liquid_case_is_prepared_from_its_journey(case: DoomsdayCase)
    ensures
        case is LiquidSubmarineProviderGone ==> case.prepared_journey() == Some(
            LiquidJourney::Submarine.label(),
        ),
        case is LiquidReverseCoordinatorGone ==> case.prepared_journey() == Some(
            LiquidJourney::Reverse.label(),
        ),
        case.prepared_journey() is Some <==> case is LiquidSubmarineProviderGone || case
            is LiquidReverseCoordinatorGone,
        DoomsdayCase::LiquidSubmarineProviderGone.invoice_text() == "immortal-doomsday-liquid-"@
            + LiquidJourney::Submarine.swap_label(),
        DoomsdayCase::LiquidReverseCoordinatorGone.invoice_text() == "immortal-doomsday-liquid-"@
            + LiquidJourney::Reverse.swap_label(),
        DoomsdayCase::SubmarineProviderGone.invoice_text() == "immortal-doomsday-"@
            + LiquidJourney::Submarine.swap_label(),
        DoomsdayCase::ReverseCoordinatorGone.invoice_text() == "immortal-doomsday-"@
            + LiquidJourney::Reverse.swap_label(),
{
    reveal_strlit("submarine");
    reveal_strlit("reverse");
    reveal_strlit("immortal-doomsday-");
    reveal_strlit("immortal-doomsday-liquid-");
    reveal_strlit("immortal-doomsday-submarine");
    reveal_strlit("immortal-doomsday-reverse");
    reveal_strlit("immortal-doomsday-liquid-submarine");
    reveal_strlit("immortal-doomsday-liquid-reverse");
    assert("immortal-doomsday-liquid-submarine"@ =~= "immortal-doomsday-liquid-"@ + "submarine"@);
    assert("immortal-doomsday-liquid-reverse"@ =~= "immortal-doomsday-liquid-"@ + "reverse"@);
    assert("immortal-doomsday-submarine"@ =~= "immortal-doomsday-"@ + "submarine"@);
    assert("immortal-doomsday-reverse"@ =~= "immortal-doomsday-"@ + "reverse"@);
}

} // verus!
