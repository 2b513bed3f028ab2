//! A swap between Bitcoin and Liquid.

use vstd::prelude::*;
use crate::answer::{answers, closes, says};
use crate::contract::{
    chain_rail_reading, chain_terminal_settlement_ids, contract_leg_rail_name, destination_reading,
    settlement_ids, validate_chain_destination_template,
};
use crate::control::{counted, said, told_json};
use crate::journey::LiquidChainDirection;
use crate::json::{
    Json, JsonObject, JsonView, member, name_views, no_members, number_doc, step, text_doc, text_of,
    texts_doc,
};
use crate::lifecycle::{
    chain_leg_process_proof, chain_lifecycle_reading, chain_lifecycle_event_ids, leg_proof_doc,
    outpoint_reading, status_outpoint, status_transaction_id, transaction_reading,
};
use crate::machine::{
    Action, ActionView, CloseCheck, CloseCheckView, Reply, ReplyView, Task, effect_details,
    effect_doc, lemma_milestone, lemma_ranks_rise, perform, perform_with, perform_with_three,
    wrong_reply, wrong_reply_text,
};
use crate::record::{Event, RecordKinds, count_in_state, in_state, profile_reading};
use crate::text::{decimal, decimal_text, same_text};

verus! {

/// The phases of a chain swap, in their order.
#[derive(Clone, Copy, Debug, PartialEq, Eq, Structural)]
pub enum ChainPhase {
    CheckNetwork,
    CheckHealth,
    DiscoverOffering,
    StoreSecret,
    PrepareOrder,
    AwaitAccepted,
    AwaitSourceTerms,
    VerifySource,
    SaySourceVerified,
    AwaitDestinationTerms,
    CheckDestinationTemplate,
    PreflightDestination,
    AuthorizeFunding,
    SayDestinationVerified,
    AwaitFundingRequired,
    FundSource,
    RecordSource,
    SaySourceBroadcast,
    MineSource,
    AwaitSourceObserved,
    AwaitSourceFinal,
    AwaitDestinationBroadcast,
    KeepDestination,
    CheckHealthAgain,
    LoadRestartProof,
    AwaitReplay,
    AwaitDestinationPropagated,
    MineDestination,
    AwaitDestinationObserved,
    AwaitDestinationFinal,
    SayClaimPending,
    ClaimDestination,
    KeepClaim,
    RemoveSecret,
    SayClaimed,
    MineClaim,
    AwaitSourceClaim,
    AwaitSourceClaimPropagated,
    MineSourceClaim,
    AwaitSourceClaimed,
    AwaitCompleted,
    AwaitClose,
    ReadDestination,
    ReadSourceClaim,
    Finished,
}

impl ChainPhase {
    /// The place of the phase in their order.
    pub open spec fn rank(self) -> int {
        match self {
            ChainPhase::CheckNetwork => 0,
            ChainPhase::CheckHealth => 1,
            ChainPhase::DiscoverOffering => 2,
            ChainPhase::StoreSecret => 3,
            ChainPhase::PrepareOrder => 4,
            ChainPhase::AwaitAccepted => 5,
            ChainPhase::AwaitSourceTerms => 6,
            ChainPhase::VerifySource => 7,
            ChainPhase::SaySourceVerified => 8,
            ChainPhase::AwaitDestinationTerms => 9,
            ChainPhase::CheckDestinationTemplate => 10,
            ChainPhase::PreflightDestination => 11,
            ChainPhase::AuthorizeFunding => 12,
            ChainPhase::SayDestinationVerified => 13,
            ChainPhase::AwaitFundingRequired => 14,
            ChainPhase::FundSource => 15,
            ChainPhase::RecordSource => 16,
            ChainPhase::SaySourceBroadcast => 17,
            ChainPhase::MineSource => 18,
            ChainPhase::AwaitSourceObserved => 19,
            ChainPhase::AwaitSourceFinal => 20,
            ChainPhase::AwaitDestinationBroadcast => 21,
            ChainPhase::KeepDestination => 22,
            ChainPhase::CheckHealthAgain => 23,
            ChainPhase::LoadRestartProof => 24,
            ChainPhase::AwaitReplay => 25,
            ChainPhase::AwaitDestinationPropagated => 26,
            ChainPhase::MineDestination => 27,
            ChainPhase::AwaitDestinationObserved => 28,
            ChainPhase::AwaitDestinationFinal => 29,
            ChainPhase::SayClaimPending => 30,
            ChainPhase::ClaimDestination => 31,
            ChainPhase::KeepClaim => 32,
            ChainPhase::RemoveSecret => 33,
            ChainPhase::SayClaimed => 34,
            ChainPhase::MineClaim => 35,
            ChainPhase::AwaitSourceClaim => 36,
            ChainPhase::AwaitSourceClaimPropagated => 37,
            ChainPhase::MineSourceClaim => 38,
            ChainPhase::AwaitSourceClaimed => 39,
            ChainPhase::AwaitCompleted => 40,
            ChainPhase::AwaitClose => 41,
            ChainPhase::ReadDestination => 42,
            ChainPhase::ReadSourceClaim => 43,
            ChainPhase::Finished => 44,
        }
    }
}

/// A swap between Bitcoin and Liquid, with a provider restart in its middle.
pub struct ChainRun {
    pub phase: ChainPhase,
    pub direction: LiquidChainDirection,
    pub confirmations: u64,
    pub network_id: String,
    pub pegged_asset: String,
    pub offering_id: String,
    pub provider_pubkey: String,
    pub contract: Json,
    pub source_id: String,
    pub source_output: u32,
    pub source_hex: String,
    pub source_rail: String,
    pub destination_rail: String,
    pub destination_status: String,
    pub destination_id: String,
    pub destination_output: u32,
    pub destination_hex: String,
    pub restart_proof: Json,
    pub destination_claim_id: String,
    pub destination_claim_hex: String,
    pub source_claim_id: String,
    pub source_claim_hex: String,
    pub bitcoin_settlement: String,
    pub liquid_settlement: String,
    pub close_id: String,
}

/// A swap between Bitcoin and Liquid, with a provider restart in its middle.
#[verifier::ext_equal]
pub struct ChainRunView {
    pub phase: ChainPhase,
    pub direction: LiquidChainDirection,
    pub confirmations: u64,
    pub network_id: Seq<char>,
    pub pegged_asset: Seq<char>,
    pub offering_id: Seq<char>,
    pub provider_pubkey: Seq<char>,
    pub contract: JsonView,
    pub source_id: Seq<char>,
    pub source_output: u32,
    pub source_hex: Seq<char>,
    pub source_rail: Seq<char>,
    pub destination_rail: Seq<char>,
    pub destination_status: Seq<char>,
    pub destination_id: Seq<char>,
    pub destination_output: u32,
    pub destination_hex: Seq<char>,
    pub restart_proof: JsonView,
    pub destination_claim_id: Seq<char>,
    pub destination_claim_hex: Seq<char>,
    pub source_claim_id: Seq<char>,
    pub source_claim_hex: Seq<char>,
    pub bitcoin_settlement: Seq<char>,
    pub liquid_settlement: Seq<char>,
    pub close_id: Seq<char>,
}

impl View for ChainRun {
    type V = ChainRunView;

    open spec fn view(&self) -> ChainRunView {
        ChainRunView {
            phase: self.phase,
            direction: self.direction,
            confirmations: self.confirmations,
            network_id: self.network_id@,
            pegged_asset: self.pegged_asset@,
            offering_id: self.offering_id@,
            provider_pubkey: self.provider_pubkey@,
            contract: self.contract@,
            source_id: self.source_id@,
            source_output: self.source_output,
            source_hex: self.source_hex@,
            source_rail: self.source_rail@,
            destination_rail: self.destination_rail@,
            destination_status: self.destination_status@,
            destination_id: self.destination_id@,
            destination_output: self.destination_output,
            destination_hex: self.destination_hex@,
            restart_proof: self.restart_proof@,
            destination_claim_id: self.destination_claim_id@,
            destination_claim_hex: self.destination_claim_hex@,
            source_claim_id: self.source_claim_id@,
            source_claim_hex: self.source_claim_hex@,
            bitcoin_settlement: self.bitcoin_settlement@,
            liquid_settlement: self.liquid_settlement@,
            close_id: self.close_id@,
        }
    }
}

/// What a chain swap asks for next.
pub open spec fn chain_action(run: ChainRunView) -> ActionView {
    match run.phase {
        ChainPhase::CheckNetwork => ActionView::Perform(Task::ReadLiquidNetwork, seq![]),
        ChainPhase::CheckHealth => ActionView::CheckHealth,
        ChainPhase::DiscoverOffering => ActionView::Perform(Task::DiscoverOffering, seq![]),
        ChainPhase::StoreSecret => ActionView::Perform(Task::StoreSecret, seq!["chain"@]),
        ChainPhase::PrepareOrder => ActionView::Perform(Task::PrepareOrder, seq![]),
        ChainPhase::AwaitAccepted => ActionView::AwaitState("accepted"@),
        ChainPhase::AwaitSourceTerms => ActionView::AwaitState("source_lock_terms_ready"@),
        ChainPhase::VerifySource => ActionView::Perform(Task::VerifyChainSource, seq![]),
        ChainPhase::SaySourceVerified => ActionView::Say(
            "requester_source_verified"@,
            no_members(),
        ),
        ChainPhase::AwaitDestinationTerms => ActionView::AwaitState(
            "destination_lock_terms_ready"@,
        ),
        ChainPhase::CheckDestinationTemplate => ActionView::Perform(
            Task::ParseDestinationTemplate,
            seq![],
        ),
        ChainPhase::PreflightDestination => ActionView::Perform(
            Task::PreflightLiquidDestination,
            seq![],
        ),
        ChainPhase::AuthorizeFunding => ActionView::Perform(Task::AuthorizeFunding, seq![]),
        ChainPhase::SayDestinationVerified => ActionView::Say(
            "requester_destination_verified"@,
            no_members(),
        ),
        ChainPhase::AwaitFundingRequired => ActionView::AwaitState("source_funding_required"@),
        ChainPhase::FundSource => ActionView::Perform(
            Task::BroadcastFunding,
            seq![run.direction.source_label()],
        ),
        ChainPhase::RecordSource => ActionView::Perform(
            Task::RecordFundingEffect,
            seq![run.source_id, run.source_hex, "hex-bytes"@],
        ),
        ChainPhase::SaySourceBroadcast => ActionView::Say(
            "requester_source_broadcast"@,
            no_members().insert("transaction_id"@, text_doc(run.source_id)).insert(
                "output_index"@,
                number_doc(run.source_output as u64),
            ),
        ),
        ChainPhase::MineSource => ActionView::Mine(
            run.source_rail,
            run.confirmations,
            "chain-source-finality"@,
        ),
        ChainPhase::AwaitSourceObserved => ActionView::AwaitState("source_funding_observed"@),
        ChainPhase::AwaitSourceFinal => ActionView::AwaitState("source_funding_final"@),
        ChainPhase::AwaitDestinationBroadcast => ActionView::AwaitState(
            "provider_destination_broadcast"@,
        ),
        ChainPhase::KeepDestination => ActionView::Keep(
            "provider_funding_effect_recorded"@,
            effect_doc(run.destination_id),
        ),
        ChainPhase::CheckHealthAgain => ActionView::CheckHealth,
        ChainPhase::LoadRestartProof => ActionView::LoadControllerProof,
        ChainPhase::AwaitReplay => ActionView::AwaitState("provider_destination_broadcast"@),
        ChainPhase::AwaitDestinationPropagated => ActionView::AwaitTransaction(
            run.destination_rail,
            run.destination_id,
            "chain-destination-funding"@,
        ),
        ChainPhase::MineDestination => ActionView::Mine(
            run.destination_rail,
            run.confirmations,
            "chain-destination-finality"@,
        ),
        ChainPhase::AwaitDestinationObserved => ActionView::AwaitState(
            "destination_funding_observed"@,
        ),
        ChainPhase::AwaitDestinationFinal => ActionView::AwaitState("destination_funding_final"@),
        ChainPhase::SayClaimPending => ActionView::Say(
            "requester_destination_claim_pending"@,
            no_members(),
        ),
        ChainPhase::ClaimDestination => if run.direction is BitcoinToLiquid {
            ActionView::Perform(
                Task::ClaimLiquidDestination,
                seq!["destination"@, "chain"@, "chain-liquid-destination-claim"@],
            )
        } else {
            ActionView::Perform(
                Task::ClaimBitcoinDestination,
                seq![
                    run.destination_id,
                    decimal(run.destination_output as nat),
                    "chain-bitcoin-destination-claim"@,
                ],
            )
        },
        ChainPhase::KeepClaim => ActionView::Keep(
            "liquid_claim_broadcast_recorded"@,
            effect_doc(run.destination_claim_id),
        ),
        ChainPhase::RemoveSecret => ActionView::Perform(Task::RemoveSecret, seq!["chain"@]),
        ChainPhase::SayClaimed => ActionView::Say(
            "requester_destination_claimed"@,
            no_members().insert("transaction_id"@, text_doc(run.destination_claim_id)),
        ),
        ChainPhase::MineClaim => ActionView::Mine(
            run.destination_rail,
            run.confirmations,
            "chain-destination-claim-propagation"@,
        ),
        ChainPhase::AwaitSourceClaim => ActionView::AwaitState("provider_source_claim_pending"@),
        ChainPhase::AwaitSourceClaimPropagated => ActionView::AwaitTransaction(
            run.source_rail,
            run.source_claim_id,
            "chain-source-claim"@,
        ),
        ChainPhase::MineSourceClaim => ActionView::Mine(
            run.source_rail,
            run.confirmations,
            "chain-source-claim-finality"@,
        ),
        ChainPhase::AwaitSourceClaimed => ActionView::AwaitState("provider_source_claimed"@),
        ChainPhase::AwaitCompleted => ActionView::AwaitState("completed"@),
        ChainPhase::AwaitClose => ActionView::AwaitClose(
            CloseCheckView {
                outcome: "completed"@,
                bitcoin: Some(run.bitcoin_settlement),
                liquid: Some(run.liquid_settlement),
                lightning: None,
            },
        ),
        ChainPhase::ReadDestination => ActionView::ReadTransaction(
            run.destination_rail,
            run.destination_id,
            "chain-destination-funding-proof"@,
        ),
        ChainPhase::ReadSourceClaim => ActionView::ReadTransaction(
            run.source_rail,
            run.source_claim_id,
            "chain-source-claim-proof"@,
        ),
        ChainPhase::Finished => ActionView::Finish,
    }
}

/// Where a reply takes a chain swap.
pub open spec fn chain_step(run: ChainRunView, reply: ReplyView) -> Result<
    ChainRunView,
    Seq<char>,
> {
    match (run.phase, reply) {
        (ChainPhase::CheckNetwork, ReplyView::Texts(texts)) => {
            if texts.len() != 2 {
                Err(wrong_reply())
            } else if texts[0] != run.network_id || texts[1] != run.pegged_asset {
                Err("requester elementsd differs from the configured Liquid network"@)
            } else {
                Ok(ChainRunView { phase: ChainPhase::CheckHealth, ..run })
            }
        },
        (ChainPhase::CheckHealth, ReplyView::Done) => Ok(
            ChainRunView { phase: ChainPhase::DiscoverOffering, ..run },
        ),
        (ChainPhase::DiscoverOffering, ReplyView::Record { id, pubkey, tags, content, .. }) => Ok(
            ChainRunView {
                phase: ChainPhase::StoreSecret,
                offering_id: id,
                provider_pubkey: pubkey,
                ..run
            },
        ),
        (ChainPhase::StoreSecret, ReplyView::Done) => Ok(
            ChainRunView { phase: ChainPhase::PrepareOrder, ..run },
        ),
        (ChainPhase::PrepareOrder, ReplyView::Document(Some(document))) => Ok(
            ChainRunView { phase: ChainPhase::AwaitAccepted, contract: document, ..run },
        ),
        (ChainPhase::AwaitAccepted, ReplyView::Record { .. }) => Ok(
            ChainRunView { phase: ChainPhase::AwaitSourceTerms, ..run },
        ),
        (ChainPhase::AwaitSourceTerms, ReplyView::Record { .. }) => Ok(
            ChainRunView { phase: ChainPhase::VerifySource, ..run },
        ),
        (ChainPhase::VerifySource, ReplyView::Done) => Ok(
            ChainRunView { phase: ChainPhase::SaySourceVerified, ..run },
        ),
        (ChainPhase::SaySourceVerified, ReplyView::Record { .. }) => Ok(
            ChainRunView { phase: ChainPhase::AwaitDestinationTerms, ..run },
        ),
        (ChainPhase::AwaitDestinationTerms, ReplyView::Record { .. }) => Ok(
            ChainRunView { phase: ChainPhase::CheckDestinationTemplate, ..run },
        ),
        (ChainPhase::CheckDestinationTemplate, ReplyView::Outputs(outputs)) => match destination_reading(
            run.contract,
            run.direction,
            outputs,
        ) {
            Err(message) => Err(message),
            Ok(checked) => {
                if run.direction is BitcoinToLiquid {
                    Ok(ChainRunView { phase: ChainPhase::PreflightDestination, ..run })
                } else {
                    Ok(ChainRunView { phase: ChainPhase::AuthorizeFunding, ..run })
                }
            },
        },
        (ChainPhase::PreflightDestination, ReplyView::Done) => Ok(
            ChainRunView { phase: ChainPhase::AuthorizeFunding, ..run },
        ),
        (ChainPhase::AuthorizeFunding, ReplyView::Done) => Ok(
            ChainRunView { phase: ChainPhase::SayDestinationVerified, ..run },
        ),
        (ChainPhase::SayDestinationVerified, ReplyView::Record { .. }) => Ok(
            ChainRunView { phase: ChainPhase::AwaitFundingRequired, ..run },
        ),
        (ChainPhase::AwaitFundingRequired, ReplyView::Record { .. }) => Ok(
            ChainRunView { phase: ChainPhase::FundSource, ..run },
        ),
        (ChainPhase::FundSource, ReplyView::Funding { receipt, id, output_index, hex }) => {
            if receipt != id {
                Err("elementsd broadcast another Liquid source transaction"@)
            } else {
                Ok(
                    ChainRunView {
                        phase: ChainPhase::RecordSource,
                        source_id: id,
                        source_output: output_index,
                        source_hex: hex,
                        ..run
                    },
                )
            }
        },
        (ChainPhase::RecordSource, ReplyView::Done) => Ok(
            ChainRunView { phase: ChainPhase::SaySourceBroadcast, ..run },
        ),
        (ChainPhase::SaySourceBroadcast, ReplyView::Record { id, pubkey, tags, content, .. }) => match chain_rail_reading(
            run.contract,
            "source"@,
        ) {
            Err(message) => Err(message),
            Ok(source) => match chain_rail_reading(run.contract, "destination"@) {
                Err(message) => Err(message),
                Ok(destination) => Ok(
                    ChainRunView {
                        phase: ChainPhase::MineSource,
                        source_rail: source,
                        destination_rail: destination,
                        ..run
                    },
                ),
            },
        },
        (ChainPhase::MineSource, ReplyView::Done) => Ok(
            ChainRunView { phase: ChainPhase::AwaitSourceObserved, ..run },
        ),
        (ChainPhase::AwaitSourceObserved, ReplyView::Record { .. }) => Ok(
            ChainRunView { phase: ChainPhase::AwaitSourceFinal, ..run },
        ),
        (ChainPhase::AwaitSourceFinal, ReplyView::Record { .. }) => Ok(
            ChainRunView { phase: ChainPhase::AwaitDestinationBroadcast, ..run },
        ),
        (ChainPhase::AwaitDestinationBroadcast, ReplyView::Record { id, pubkey, tags, content, .. }) => match outpoint_reading(
            content,
        ) {
            Err(message) => Err(message),
            Ok(found) => Ok(
                ChainRunView {
                    phase: ChainPhase::KeepDestination,
                    destination_id: found.0,
                    destination_output: found.1,
                    destination_status: id,
                    ..run
                },
            ),
        },
        (ChainPhase::KeepDestination, ReplyView::Done) => Ok(
            ChainRunView { phase: ChainPhase::CheckHealthAgain, ..run },
        ),
        (ChainPhase::CheckHealthAgain, ReplyView::Done) => Ok(
            ChainRunView { phase: ChainPhase::LoadRestartProof, ..run },
        ),
        (ChainPhase::LoadRestartProof, ReplyView::Document(Some(document))) => Ok(
            ChainRunView { phase: ChainPhase::AwaitReplay, restart_proof: document, ..run },
        ),
        (ChainPhase::LoadRestartProof, ReplyView::Document(None)) => Err(
            "chain provider restart has no controller acknowledgement"@,
        ),
        (ChainPhase::AwaitReplay, ReplyView::Record { id, pubkey, tags, content, .. }) => {
            if id != run.destination_status {
                Err("provider restart replayed another destination effect"@)
            } else {
                match outpoint_reading(content) {
                    Err(message) => Err(message),
                    Ok(found) => {
                        if found != (run.destination_id, run.destination_output) {
                            Err("provider restart replayed another destination effect"@)
                        } else {
                            Ok(
                                ChainRunView {
                                    phase: ChainPhase::AwaitDestinationPropagated,
                                    ..run
                                },
                            )
                        }
                    },
                }
            }
        },
        (ChainPhase::AwaitDestinationPropagated, ReplyView::Done) => Ok(
            ChainRunView { phase: ChainPhase::MineDestination, ..run },
        ),
        (ChainPhase::MineDestination, ReplyView::Done) => Ok(
            ChainRunView { phase: ChainPhase::AwaitDestinationObserved, ..run },
        ),
        (ChainPhase::AwaitDestinationObserved, ReplyView::Record { .. }) => Ok(
            ChainRunView { phase: ChainPhase::AwaitDestinationFinal, ..run },
        ),
        (ChainPhase::AwaitDestinationFinal, ReplyView::Record { .. }) => Ok(
            ChainRunView { phase: ChainPhase::SayClaimPending, ..run },
        ),
        (ChainPhase::SayClaimPending, ReplyView::Record { .. }) => Ok(
            ChainRunView { phase: ChainPhase::ClaimDestination, ..run },
        ),
        (ChainPhase::ClaimDestination, ReplyView::Texts(texts)) => {
            if texts.len() != 2 {
                Err(wrong_reply())
            } else if run.direction is BitcoinToLiquid {
                Ok(
                    ChainRunView {
                        phase: ChainPhase::KeepClaim,
                        destination_claim_id: texts[0],
                        destination_claim_hex: texts[1],
                        ..run
                    },
                )
            } else {
                Ok(
                    ChainRunView {
                        phase: ChainPhase::RemoveSecret,
                        destination_claim_id: texts[0],
                        destination_claim_hex: texts[1],
                        ..run
                    },
                )
            }
        },
        (ChainPhase::KeepClaim, ReplyView::Done) => Ok(
            ChainRunView { phase: ChainPhase::RemoveSecret, ..run },
        ),
        (ChainPhase::RemoveSecret, ReplyView::Done) => Ok(
            ChainRunView { phase: ChainPhase::SayClaimed, ..run },
        ),
        (ChainPhase::SayClaimed, ReplyView::Record { .. }) => Ok(
            ChainRunView { phase: ChainPhase::MineClaim, ..run },
        ),
        (ChainPhase::MineClaim, ReplyView::Done) => Ok(
            ChainRunView { phase: ChainPhase::AwaitSourceClaim, ..run },
        ),
        (ChainPhase::AwaitSourceClaim, ReplyView::Record { id, pubkey, tags, content, .. }) => match transaction_reading(
            content,
        ) {
            Err(message) => Err(message),
            Ok(found) => Ok(
                ChainRunView {
                    phase: ChainPhase::AwaitSourceClaimPropagated,
                    source_claim_id: found,
                    ..run
                },
            ),
        },
        (ChainPhase::AwaitSourceClaimPropagated, ReplyView::Done) => Ok(
            ChainRunView { phase: ChainPhase::MineSourceClaim, ..run },
        ),
        (ChainPhase::MineSourceClaim, ReplyView::Done) => Ok(
            ChainRunView { phase: ChainPhase::AwaitSourceClaimed, ..run },
        ),
        (ChainPhase::AwaitSourceClaimed, ReplyView::Record { .. }) => Ok(
            ChainRunView { phase: ChainPhase::AwaitCompleted, ..run },
        ),
        (ChainPhase::AwaitCompleted, ReplyView::Record { id, pubkey, tags, content, .. }) => match settlement_ids(
            run.source_rail,
            run.destination_rail,
            run.source_claim_id,
            run.destination_claim_id,
        ) {
            Err(message) => Err(message),
            Ok(settled) => Ok(
                ChainRunView {
                    phase: ChainPhase::AwaitClose,
                    bitcoin_settlement: settled.0,
                    liquid_settlement: settled.1,
                    ..run
                },
            ),
        },
        (ChainPhase::AwaitClose, ReplyView::Record { id, pubkey, tags, content, .. }) => Ok(
            ChainRunView { phase: ChainPhase::ReadDestination, close_id: id, ..run },
        ),
        (ChainPhase::ReadDestination, ReplyView::Texts(texts)) => {
            if texts.len() != 1 {
                Err(wrong_reply())
            } else {
                Ok(
                    ChainRunView {
                        phase: ChainPhase::ReadSourceClaim,
                        destination_hex: texts[0],
                        ..run
                    },
                )
            }
        },
        (ChainPhase::ReadSourceClaim, ReplyView::Texts(texts)) => {
            if texts.len() != 1 {
                Err(wrong_reply())
            } else {
                Ok(ChainRunView { phase: ChainPhase::Finished, source_claim_hex: texts[0], ..run })
            }
        },
        _ => Err(wrong_reply()),
    }
}

impl ChainRun {
    /// A chain swap before its first action.
    pub fn new(
        direction: LiquidChainDirection,
        confirmations: u64,
        network_id: &str,
        pegged_asset: &str,
    ) -> (run: ChainRun)
        ensures
            run@.phase == ChainPhase::CheckNetwork,
            run@.direction == direction,
            run@.confirmations == confirmations,
            run@.network_id == network_id@,
            run@.pegged_asset == pegged_asset@,
            run@.offering_id == Seq::<char>::empty(),
            run@.provider_pubkey == Seq::<char>::empty(),
            run@.contract == JsonView::Null,
            run@.source_id == Seq::<char>::empty(),
            run@.source_output == 0,
            run@.source_hex == Seq::<char>::empty(),
            run@.source_rail == Seq::<char>::empty(),
            run@.destination_rail == Seq::<char>::empty(),
            run@.destination_status == Seq::<char>::empty(),
            run@.destination_id == Seq::<char>::empty(),
            run@.destination_output == 0,
            run@.destination_hex == Seq::<char>::empty(),
            run@.restart_proof == JsonView::Null,
            run@.destination_claim_id == Seq::<char>::empty(),
            run@.destination_claim_hex == Seq::<char>::empty(),
            run@.source_claim_id == Seq::<char>::empty(),
            run@.source_claim_hex == Seq::<char>::empty(),
            run@.bitcoin_settlement == Seq::<char>::empty(),
            run@.liquid_settlement == Seq::<char>::empty(),
            run@.close_id == Seq::<char>::empty(),
    {
        ChainRun {
            phase: ChainPhase::CheckNetwork,
            direction,
            confirmations,
            network_id: network_id.to_owned(),
            pegged_asset: pegged_asset.to_owned(),
            offering_id: String::new(),
            provider_pubkey: String::new(),
            contract: Json::null(),
            source_id: String::new(),
            source_output: 0,
            source_hex: String::new(),
            source_rail: String::new(),
            destination_rail: String::new(),
            destination_status: String::new(),
            destination_id: String::new(),
            destination_output: 0,
            destination_hex: String::new(),
            restart_proof: Json::null(),
            destination_claim_id: String::new(),
            destination_claim_hex: String::new(),
            source_claim_id: String::new(),
            source_claim_hex: String::new(),
            bitcoin_settlement: String::new(),
            liquid_settlement: String::new(),
            close_id: String::new(),
        }
    }

    /// What the journey asks for next.
    pub fn action(&self) -> (action: Action)
        ensures
            action@ == chain_action(self@),
    {
        match self.phase {
            ChainPhase::CheckNetwork => perform(Task::ReadLiquidNetwork),
            ChainPhase::CheckHealth => Action::CheckHealth,
            ChainPhase::DiscoverOffering => perform(Task::DiscoverOffering),
            ChainPhase::StoreSecret => perform_with(Task::StoreSecret, "chain"),
            ChainPhase::PrepareOrder => perform(Task::PrepareOrder),
            ChainPhase::AwaitAccepted => Action::AwaitState("accepted"),
            ChainPhase::AwaitSourceTerms => Action::AwaitState("source_lock_terms_ready"),
            ChainPhase::VerifySource => perform(Task::VerifyChainSource),
            ChainPhase::SaySourceVerified => Action::Say(
                "requester_source_verified",
                JsonObject::new(),
            ),
            ChainPhase::AwaitDestinationTerms => Action::AwaitState("destination_lock_terms_ready"),
            ChainPhase::CheckDestinationTemplate => perform(Task::ParseDestinationTemplate),
            ChainPhase::PreflightDestination => perform(Task::PreflightLiquidDestination),
            ChainPhase::AuthorizeFunding => perform(Task::AuthorizeFunding),
            ChainPhase::SayDestinationVerified => Action::Say(
                "requester_destination_verified",
                JsonObject::new(),
            ),
            ChainPhase::AwaitFundingRequired => Action::AwaitState("source_funding_required"),
            ChainPhase::FundSource => perform_with(
                Task::BroadcastFunding,
                self.direction.source_rail(),
            ),
            ChainPhase::RecordSource => perform_with_three(
                Task::RecordFundingEffect,
                self.source_id.as_str(),
                self.source_hex.as_str(),
                "hex-bytes",
            ),
            ChainPhase::SaySourceBroadcast => Action::Say(
                "requester_source_broadcast",
                JsonObject::new().with_text("transaction_id", self.source_id.as_str()).with_number(
                    "output_index",
                    self.source_output as u64,
                ),
            ),
            ChainPhase::MineSource => Action::Mine(
                self.source_rail.clone(),
                self.confirmations,
                "chain-source-finality",
            ),
            ChainPhase::AwaitSourceObserved => Action::AwaitState("source_funding_observed"),
            ChainPhase::AwaitSourceFinal => Action::AwaitState("source_funding_final"),
            ChainPhase::AwaitDestinationBroadcast => Action::AwaitState(
                "provider_destination_broadcast",
            ),
            ChainPhase::KeepDestination => Action::Keep(
                "provider_funding_effect_recorded",
                effect_details(self.destination_id.as_str()),
            ),
            ChainPhase::CheckHealthAgain => Action::CheckHealth,
            ChainPhase::LoadRestartProof => Action::LoadControllerProof,
            ChainPhase::AwaitReplay => Action::AwaitState("provider_destination_broadcast"),
            ChainPhase::AwaitDestinationPropagated => Action::AwaitTransaction(
                self.destination_rail.clone(),
                self.destination_id.clone(),
                "chain-destination-funding",
            ),
            ChainPhase::MineDestination => Action::Mine(
                self.destination_rail.clone(),
                self.confirmations,
                "chain-destination-finality",
            ),
            ChainPhase::AwaitDestinationObserved => Action::AwaitState(
                "destination_funding_observed",
            ),
            ChainPhase::AwaitDestinationFinal => Action::AwaitState("destination_funding_final"),
            ChainPhase::SayClaimPending => Action::Say(
                "requester_destination_claim_pending",
                JsonObject::new(),
            ),
            ChainPhase::ClaimDestination => if self.is_bitcoin_to_liquid() {
                perform_with_three(
                    Task::ClaimLiquidDestination,
                    "destination",
                    "chain",
                    "chain-liquid-destination-claim",
                )
            } else {
                perform_with_three(
                    Task::ClaimBitcoinDestination,
                    self.destination_id.as_str(),
                    decimal_text(self.destination_output as u64).as_str(),
                    "chain-bitcoin-destination-claim",
                )
            },
            ChainPhase::KeepClaim => Action::Keep(
                "liquid_claim_broadcast_recorded",
                effect_details(self.destination_claim_id.as_str()),
            ),
            ChainPhase::RemoveSecret => perform_with(Task::RemoveSecret, "chain"),
            ChainPhase::SayClaimed => Action::Say(
                "requester_destination_claimed",
                JsonObject::new().with_text("transaction_id", self.destination_claim_id.as_str()),
            ),
            ChainPhase::MineClaim => Action::Mine(
                self.destination_rail.clone(),
                self.confirmations,
                "chain-destination-claim-propagation",
            ),
            ChainPhase::AwaitSourceClaim => Action::AwaitState("provider_source_claim_pending"),
            ChainPhase::AwaitSourceClaimPropagated => Action::AwaitTransaction(
                self.source_rail.clone(),
                self.source_claim_id.clone(),
                "chain-source-claim",
            ),
            ChainPhase::MineSourceClaim => Action::Mine(
                self.source_rail.clone(),
                self.confirmations,
                "chain-source-claim-finality",
            ),
            ChainPhase::AwaitSourceClaimed => Action::AwaitState("provider_source_claimed"),
            ChainPhase::AwaitCompleted => Action::AwaitState("completed"),
            ChainPhase::AwaitClose => Action::AwaitClose(
                CloseCheck {
                    outcome: "completed",
                    bitcoin: Some(self.bitcoin_settlement.clone()),
                    liquid: Some(self.liquid_settlement.clone()),
                    lightning: None,
                },
            ),
            ChainPhase::ReadDestination => Action::ReadTransaction(
                self.destination_rail.clone(),
                self.destination_id.clone(),
                "chain-destination-funding-proof",
            ),
            ChainPhase::ReadSourceClaim => Action::ReadTransaction(
                self.source_rail.clone(),
                self.source_claim_id.clone(),
                "chain-source-claim-proof",
            ),
            ChainPhase::Finished => Action::Finish,
        }
    }

    /// Takes a reply: the journey goes on to its next phase, or ends with a message.
    #[verifier::rlimit(60)]
    pub fn advance(&mut self, reply: Reply) -> (moved: Result<(), String>)
        ensures
            match moved {
                Ok(_) => chain_step(old(self)@, reply@) == Ok::<ChainRunView, Seq<char>>(
                    final(self)@,
                ),
                Err(message) => {
                    &&& chain_step(old(self)@, reply@) == Err::<ChainRunView, Seq<char>>(message@)
                    &&& final(self)@ == old(self)@
                },
            },
    {
        match (self.phase, reply) {
            (ChainPhase::CheckNetwork, Reply::Texts(texts)) => {
                if texts.len() != 2 {
                    return Err(wrong_reply_text());
                }
                if !same_text(texts[0].as_str(), self.network_id.as_str())
                    || !same_text(texts[1].as_str(), self.pegged_asset.as_str())
                {
                    return Err(
                        "requester elementsd differs from the configured Liquid network".to_owned(),
                    );
                }
                self.phase = ChainPhase::CheckHealth;
                Ok(())
            },
            (ChainPhase::CheckHealth, Reply::Done) => {
                self.phase = ChainPhase::DiscoverOffering;
                Ok(())
            },
            (ChainPhase::DiscoverOffering, Reply::Record(event)) => {
                self.offering_id = event.id;
                self.provider_pubkey = event.pubkey;
                self.phase = ChainPhase::StoreSecret;
                Ok(())
            },
            (ChainPhase::StoreSecret, Reply::Done) => {
                self.phase = ChainPhase::PrepareOrder;
                Ok(())
            },
            (ChainPhase::PrepareOrder, Reply::Document(Some(document))) => {
                self.contract = document;
                self.phase = ChainPhase::AwaitAccepted;
                Ok(())
            },
            (ChainPhase::AwaitAccepted, Reply::Record(_)) => {
                self.phase = ChainPhase::AwaitSourceTerms;
                Ok(())
            },
            (ChainPhase::AwaitSourceTerms, Reply::Record(_)) => {
                self.phase = ChainPhase::VerifySource;
                Ok(())
            },
            (ChainPhase::VerifySource, Reply::Done) => {
                self.phase = ChainPhase::SaySourceVerified;
                Ok(())
            },
            (ChainPhase::SaySourceVerified, Reply::Record(_)) => {
                self.phase = ChainPhase::AwaitDestinationTerms;
                Ok(())
            },
            (ChainPhase::AwaitDestinationTerms, Reply::Record(_)) => {
                self.phase = ChainPhase::CheckDestinationTemplate;
                Ok(())
            },
            (ChainPhase::CheckDestinationTemplate, Reply::Outputs(outputs)) => {
                let checked: () = validate_chain_destination_template(
                    &self.contract,
                    self.direction,
                    &outputs,
                )?;
                self.phase = if self.is_bitcoin_to_liquid() {
                    ChainPhase::PreflightDestination
                } else {
                    ChainPhase::AuthorizeFunding
                };
                Ok(())
            },
            (ChainPhase::PreflightDestination, Reply::Done) => {
                self.phase = ChainPhase::AuthorizeFunding;
                Ok(())
            },
            (ChainPhase::AuthorizeFunding, Reply::Done) => {
                self.phase = ChainPhase::SayDestinationVerified;
                Ok(())
            },
            (ChainPhase::SayDestinationVerified, Reply::Record(_)) => {
                self.phase = ChainPhase::AwaitFundingRequired;
                Ok(())
            },
            (ChainPhase::AwaitFundingRequired, Reply::Record(_)) => {
                self.phase = ChainPhase::FundSource;
                Ok(())
            },
            (ChainPhase::FundSource, Reply::Funding { receipt, id, output_index, hex }) => {
                if !same_text(receipt.as_str(), id.as_str()) {
                    return Err("elementsd broadcast another Liquid source transaction".to_owned());
                }
                self.source_id = id;
                self.source_output = output_index;
                self.source_hex = hex;
                self.phase = ChainPhase::RecordSource;
                Ok(())
            },
            (ChainPhase::RecordSource, Reply::Done) => {
                self.phase = ChainPhase::SaySourceBroadcast;
                Ok(())
            },
            (ChainPhase::SaySourceBroadcast, Reply::Record(event)) => {
                let source: String = contract_leg_rail_name(&self.contract, "source")?.to_owned();
                let destination: String = contract_leg_rail_name(
                    &self.contract,
                    "destination",
                )?.to_owned();
                self.source_rail = source;
                self.destination_rail = destination;
                self.phase = ChainPhase::MineSource;
                Ok(())
            },
            (ChainPhase::MineSource, Reply::Done) => {
                self.phase = ChainPhase::AwaitSourceObserved;
                Ok(())
            },
            (ChainPhase::AwaitSourceObserved, Reply::Record(_)) => {
                self.phase = ChainPhase::AwaitSourceFinal;
                Ok(())
            },
            (ChainPhase::AwaitSourceFinal, Reply::Record(_)) => {
                self.phase = ChainPhase::AwaitDestinationBroadcast;
                Ok(())
            },
            (ChainPhase::AwaitDestinationBroadcast, Reply::Record(event)) => {
                let found: (String, u32) = status_outpoint(&event)?;
                self.destination_id = found.0;
                self.destination_output = found.1;
                self.destination_status = event.id;
                self.phase = ChainPhase::KeepDestination;
                Ok(())
            },
            (ChainPhase::KeepDestination, Reply::Done) => {
                self.phase = ChainPhase::CheckHealthAgain;
                Ok(())
            },
            (ChainPhase::CheckHealthAgain, Reply::Done) => {
                self.phase = ChainPhase::LoadRestartProof;
                Ok(())
            },
            (ChainPhase::LoadRestartProof, Reply::Document(Some(document))) => {
                self.restart_proof = document;
                self.phase = ChainPhase::AwaitReplay;
                Ok(())
            },
            (ChainPhase::LoadRestartProof, Reply::Document(None)) => {
                Err("chain provider restart has no controller acknowledgement".to_owned())
            },
            (ChainPhase::AwaitReplay, Reply::Record(event)) => {
                if !same_text(event.id.as_str(), self.destination_status.as_str()) {
                    return Err("provider restart replayed another destination effect".to_owned());
                }
                let found: (String, u32) = status_outpoint(&event)?;
                if !same_text(found.0.as_str(), self.destination_id.as_str())
                    || found.1 != self.destination_output
                {
                    return Err("provider restart replayed another destination effect".to_owned());
                }
                self.phase = ChainPhase::AwaitDestinationPropagated;
                Ok(())
            },
            (ChainPhase::AwaitDestinationPropagated, Reply::Done) => {
                self.phase = ChainPhase::MineDestination;
                Ok(())
            },
            (ChainPhase::MineDestination, Reply::Done) => {
                self.phase = ChainPhase::AwaitDestinationObserved;
                Ok(())
            },
            (ChainPhase::AwaitDestinationObserved, Reply::Record(_)) => {
                self.phase = ChainPhase::AwaitDestinationFinal;
                Ok(())
            },
            (ChainPhase::AwaitDestinationFinal, Reply::Record(_)) => {
                self.phase = ChainPhase::SayClaimPending;
                Ok(())
            },
            (ChainPhase::SayClaimPending, Reply::Record(_)) => {
                self.phase = ChainPhase::ClaimDestination;
                Ok(())
            },
            (ChainPhase::ClaimDestination, Reply::Texts(texts)) => {
                if texts.len() != 2 {
                    return Err(wrong_reply_text());
                }
                self.destination_claim_id = texts[0].clone();
                self.destination_claim_hex = texts[1].clone();
                self.phase = if self.is_bitcoin_to_liquid() {
                    ChainPhase::KeepClaim
                } else {
                    ChainPhase::RemoveSecret
                };
                Ok(())
            },
            (ChainPhase::KeepClaim, Reply::Done) => {
                self.phase = ChainPhase::RemoveSecret;
                Ok(())
            },
            (ChainPhase::RemoveSecret, Reply::Done) => {
                self.phase = ChainPhase::SayClaimed;
                Ok(())
            },
            (ChainPhase::SayClaimed, Reply::Record(_)) => {
                self.phase = ChainPhase::MineClaim;
                Ok(())
            },
            (ChainPhase::MineClaim, Reply::Done) => {
                self.phase = ChainPhase::AwaitSourceClaim;
                Ok(())
            },
            (ChainPhase::AwaitSourceClaim, Reply::Record(event)) => {
                let found: String = status_transaction_id(&event)?;
                self.source_claim_id = found;
                self.phase = ChainPhase::AwaitSourceClaimPropagated;
                Ok(())
            },
            (ChainPhase::AwaitSourceClaimPropagated, Reply::Done) => {
                self.phase = ChainPhase::MineSourceClaim;
                Ok(())
            },
            (ChainPhase::MineSourceClaim, Reply::Done) => {
                self.phase = ChainPhase::AwaitSourceClaimed;
                Ok(())
            },
            (ChainPhase::AwaitSourceClaimed, Reply::Record(_)) => {
                self.phase = ChainPhase::AwaitCompleted;
                Ok(())
            },
            (ChainPhase::AwaitCompleted, Reply::Record(event)) => {
                let settled: (String, String) = self.settlements()?;
                self.bitcoin_settlement = settled.0;
                self.liquid_settlement = settled.1;
                self.phase = ChainPhase::AwaitClose;
                Ok(())
            },
            (ChainPhase::AwaitClose, Reply::Record(event)) => {
                self.close_id = event.id;
                self.phase = ChainPhase::ReadDestination;
                Ok(())
            },
            (ChainPhase::ReadDestination, Reply::Texts(texts)) => {
                if texts.len() != 1 {
                    return Err(wrong_reply_text());
                }
                self.destination_hex = texts[0].clone();
                self.phase = ChainPhase::ReadSourceClaim;
                Ok(())
            },
            (ChainPhase::ReadSourceClaim, Reply::Texts(texts)) => {
                if texts.len() != 1 {
                    return Err(wrong_reply_text());
                }
                self.source_claim_hex = texts[0].clone();
                self.phase = ChainPhase::Finished;
                Ok(())
            },
            _ => Err(wrong_reply_text()),
        }
    }
}

/// Whether each entry of a trace leads to the one after it, from the first phase on.
pub open spec fn is_chain_trace(trace: Seq<(ChainRunView, ReplyView)>) -> bool {
    &&& trace.len() > 0
    &&& trace[0].0.phase == ChainPhase::CheckNetwork
    &&& forall|i: int|
        0 <= i < trace.len() - 1 ==> chain_step((#[trigger] trace[i]).0, trace[i].1) == Ok::<
            ChainRunView,
            Seq<char>,
        >(trace[i + 1].0)
}

/// Each reply takes a chain swap forward, never back and never in place.
pub proof fn law_chain_moves_forward(run: ChainRunView, reply: ReplyView)
    requires
        chain_step(run, reply) is Ok,
    ensures
        run.phase.rank() < chain_step(run, reply)->Ok_0.phase.rank(),
{
}

/// Which replies take a chain swap on, and to which phase: in each phase exactly the replies that
/// pass every check of that phase, and no others.
pub proof fn law_chain_goes_on_only_when_answered(run: ChainRunView, reply: ReplyView)
    ensures
        ({
            let next = chain_step(run, reply);
            match run.phase {
                ChainPhase::CheckNetwork => {
                    &&& next is Ok <==> {
                        &&& reply is Texts
                        &&& reply->Texts_0.len() == 2
                        &&& reply->Texts_0[0] == run.network_id
                        &&& reply->Texts_0[1] == run.pegged_asset
                    }
                    &&& next is Ok ==> next->Ok_0.phase == ChainPhase::CheckHealth
                },
                ChainPhase::CheckHealth => {
                    &&& next is Ok <==> reply is Done
                    &&& next is Ok ==> next->Ok_0.phase == ChainPhase::DiscoverOffering
                },
                ChainPhase::DiscoverOffering => {
                    &&& next is Ok <==> reply is Record
                    &&& next is Ok ==> next->Ok_0.phase == ChainPhase::StoreSecret
                },
                ChainPhase::StoreSecret => {
                    &&& next is Ok <==> reply is Done
                    &&& next is Ok ==> next->Ok_0.phase == ChainPhase::PrepareOrder
                },
                ChainPhase::PrepareOrder => {
                    &&& next is Ok <==> {
                        &&& reply is Document
                        &&& reply->Document_0 is Some
                    }
                    &&& next is Ok ==> next->Ok_0.phase == ChainPhase::AwaitAccepted
                },
                ChainPhase::AwaitAccepted => {
                    &&& next is Ok <==> reply is Record
                    &&& next is Ok ==> next->Ok_0.phase == ChainPhase::AwaitSourceTerms
                },
                ChainPhase::AwaitSourceTerms => {
                    &&& next is Ok <==> reply is Record
                    &&& next is Ok ==> next->Ok_0.phase == ChainPhase::VerifySource
                },
                ChainPhase::VerifySource => {
                    &&& next is Ok <==> reply is Done
                    &&& next is Ok ==> next->Ok_0.phase == ChainPhase::SaySourceVerified
                },
                ChainPhase::SaySourceVerified => {
                    &&& next is Ok <==> reply is Record
                    &&& next is Ok ==> next->Ok_0.phase == ChainPhase::AwaitDestinationTerms
                },
                ChainPhase::AwaitDestinationTerms => {
                    &&& next is Ok <==> reply is Record
                    &&& next is Ok ==> next->Ok_0.phase == ChainPhase::CheckDestinationTemplate
                },
                ChainPhase::CheckDestinationTemplate => {
                    let case_1 = run.direction is BitcoinToLiquid;
                    let case_2 = !(run.direction is BitcoinToLiquid);
                    &&& next is Ok <==> {
                        &&& reply is Outputs
                        &&& destination_reading(run.contract, run.direction, reply->Outputs_0) is Ok
                        &&& (case_1 || case_2)
                    }
                    &&& next is Ok && case_1 ==> next->Ok_0.phase == ChainPhase::PreflightDestination
                    &&& next is Ok && case_2 ==> next->Ok_0.phase == ChainPhase::AuthorizeFunding
                },
                ChainPhase::PreflightDestination => {
                    &&& next is Ok <==> reply is Done
                    &&& next is Ok ==> next->Ok_0.phase == ChainPhase::AuthorizeFunding
                },
                ChainPhase::AuthorizeFunding => {
                    &&& next is Ok <==> reply is Done
                    &&& next is Ok ==> next->Ok_0.phase == ChainPhase::SayDestinationVerified
                },
                ChainPhase::SayDestinationVerified => {
                    &&& next is Ok <==> reply is Record
                    &&& next is Ok ==> next->Ok_0.phase == ChainPhase::AwaitFundingRequired
                },
                ChainPhase::AwaitFundingRequired => {
                    &&& next is Ok <==> reply is Record
                    &&& next is Ok ==> next->Ok_0.phase == ChainPhase::FundSource
                },
                ChainPhase::FundSource => {
                    &&& next is Ok <==> {
                        &&& reply is Funding
                        &&& reply->Funding_receipt == reply->Funding_id
                    }
                    &&& next is Ok ==> next->Ok_0.phase == ChainPhase::RecordSource
                },
                ChainPhase::RecordSource => {
                    &&& next is Ok <==> reply is Done
                    &&& next is Ok ==> next->Ok_0.phase == ChainPhase::SaySourceBroadcast
                },
                ChainPhase::SaySourceBroadcast => {
                    &&& next is Ok <==> {
                        &&& reply is Record
                        &&& chain_rail_reading(run.contract, "source"@) is Ok
                        &&& chain_rail_reading(run.contract, "destination"@) is Ok
                    }
                    &&& next is Ok ==> next->Ok_0.phase == ChainPhase::MineSource
                },
                ChainPhase::MineSource => {
                    &&& next is Ok <==> reply is Done
                    &&& next is Ok ==> next->Ok_0.phase == ChainPhase::AwaitSourceObserved
                },
                ChainPhase::AwaitSourceObserved => {
                    &&& next is Ok <==> reply is Record
                    &&& next is Ok ==> next->Ok_0.phase == ChainPhase::AwaitSourceFinal
                },
                ChainPhase::AwaitSourceFinal => {
                    &&& next is Ok <==> reply is Record
                    &&& next is Ok ==> next->Ok_0.phase == ChainPhase::AwaitDestinationBroadcast
                },
                ChainPhase::AwaitDestinationBroadcast => {
                    &&& next is Ok <==> {
                        &&& reply is Record
                        &&& outpoint_reading(reply->Record_content) is Ok
                    }
                    &&& next is Ok ==> next->Ok_0.phase == ChainPhase::KeepDestination
                },
                ChainPhase::KeepDestination => {
                    &&& next is Ok <==> reply is Done
                    &&& next is Ok ==> next->Ok_0.phase == ChainPhase::CheckHealthAgain
                },
                ChainPhase::CheckHealthAgain => {
                    &&& next is Ok <==> reply is Done
                    &&& next is Ok ==> next->Ok_0.phase == ChainPhase::LoadRestartProof
                },
                ChainPhase::LoadRestartProof => {
                    &&& next is Ok <==> {
                        &&& reply is Document
                        &&& reply->Document_0 is Some
                    }
                    &&& next is Ok ==> next->Ok_0.phase == ChainPhase::AwaitReplay
                },
                ChainPhase::AwaitReplay => {
                    &&& next is Ok <==> {
                        &&& reply is Record
                        &&& reply->Record_id == run.destination_status
                        &&& outpoint_reading(reply->Record_content) is Ok
                        &&& outpoint_reading(reply->Record_content)->Ok_0 == (
                            run.destination_id, run.destination_output
                        )
                    }
                    &&& next is Ok ==> next->Ok_0.phase == ChainPhase::AwaitDestinationPropagated
                },
                ChainPhase::AwaitDestinationPropagated => {
                    &&& next is Ok <==> reply is Done
                    &&& next is Ok ==> next->Ok_0.phase == ChainPhase::MineDestination
                },
                ChainPhase::MineDestination => {
                    &&& next is Ok <==> reply is Done
                    &&& next is Ok ==> next->Ok_0.phase == ChainPhase::AwaitDestinationObserved
                },
                ChainPhase::AwaitDestinationObserved => {
                    &&& next is Ok <==> reply is Record
                    &&& next is Ok ==> next->Ok_0.phase == ChainPhase::AwaitDestinationFinal
                },
                ChainPhase::AwaitDestinationFinal => {
                    &&& next is Ok <==> reply is Record
                    &&& next is Ok ==> next->Ok_0.phase == ChainPhase::SayClaimPending
                },
                ChainPhase::SayClaimPending => {
                    &&& next is Ok <==> reply is Record
                    &&& next is Ok ==> next->Ok_0.phase == ChainPhase::ClaimDestination
                },
                ChainPhase::ClaimDestination => {
                    let case_1 = run.direction is BitcoinToLiquid;
                    let case_2 = !(run.direction is BitcoinToLiquid);
                    &&& next is Ok <==> {
                        &&& reply is Texts
                        &&& reply->Texts_0.len() == 2
                        &&& (case_1 || case_2)
                    }
                    &&& next is Ok && case_1 ==> next->Ok_0.phase == ChainPhase::KeepClaim
                    &&& next is Ok && case_2 ==> next->Ok_0.phase == ChainPhase::RemoveSecret
                },
                ChainPhase::KeepClaim => {
                    &&& next is Ok <==> reply is Done
                    &&& next is Ok ==> next->Ok_0.phase == ChainPhase::RemoveSecret
                },
                ChainPhase::RemoveSecret => {
                    &&& next is Ok <==> reply is Done
                    &&& next is Ok ==> next->Ok_0.phase == ChainPhase::SayClaimed
                },
                ChainPhase::SayClaimed => {
                    &&& next is Ok <==> reply is Record
                    &&& next is Ok ==> next->Ok_0.phase == ChainPhase::MineClaim
                },
                ChainPhase::MineClaim => {
                    &&& next is Ok <==> reply is Done
                    &&& next is Ok ==> next->Ok_0.phase == ChainPhase::AwaitSourceClaim
                },
                ChainPhase::AwaitSourceClaim => {
                    &&& next is Ok <==> {
                        &&& reply is Record
                        &&& transaction_reading(reply->Record_content) is Ok
                    }
                    &&& next is Ok ==> next->Ok_0.phase == ChainPhase::AwaitSourceClaimPropagated
                },
                ChainPhase::AwaitSourceClaimPropagated => {
                    &&& next is Ok <==> reply is Done
                    &&& next is Ok ==> next->Ok_0.phase == ChainPhase::MineSourceClaim
                },
                ChainPhase::MineSourceClaim => {
                    &&& next is Ok <==> reply is Done
                    &&& next is Ok ==> next->Ok_0.phase == ChainPhase::AwaitSourceClaimed
                },
                ChainPhase::AwaitSourceClaimed => {
                    &&& next is Ok <==> reply is Record
                    &&& next is Ok ==> next->Ok_0.phase == ChainPhase::AwaitCompleted
                },
                ChainPhase::AwaitCompleted => {
                    &&& next is Ok <==> {
                        &&& reply is Record
                        &&& settlement_ids(
                            run.source_rail,
                            run.destination_rail,
                            run.source_claim_id,
                            run.destination_claim_id,
                        ) is Ok
                    }
                    &&& next is Ok ==> next->Ok_0.phase == ChainPhase::AwaitClose
                },
                ChainPhase::AwaitClose => {
                    &&& next is Ok <==> reply is Record
                    &&& next is Ok ==> next->Ok_0.phase == ChainPhase::ReadDestination
                },
                ChainPhase::ReadDestination => {
                    &&& next is Ok <==> {
                        &&& reply is Texts
                        &&& reply->Texts_0.len() == 1
                    }
                    &&& next is Ok ==> next->Ok_0.phase == ChainPhase::ReadSourceClaim
                },
                ChainPhase::ReadSourceClaim => {
                    &&& next is Ok <==> {
                        &&& reply is Texts
                        &&& reply->Texts_0.len() == 1
                    }
                    &&& next is Ok ==> next->Ok_0.phase == ChainPhase::Finished
                },
                ChainPhase::Finished => next is Err,
            }
        }),
{
}

/// The reply that a trace of a chain swap holds for a phase.
pub open spec fn chain_told(trace: Seq<(ChainRunView, ReplyView)>, phase: ChainPhase) -> ReplyView {
    trace[choose|i: int| 0 <= i < trace.len() && (#[trigger] trace[i]).0.phase == phase].1
}

/// The values that a run of a chain swap holds, by the replies that gave them: each stays as the
/// reply to one phase gave it, or as the run started with it.
pub open spec fn chain_holds(trace: Seq<(ChainRunView, ReplyView)>, run: ChainRunView) -> bool {
    let start = trace[0].0;
    let offering_id = chain_told(trace, ChainPhase::DiscoverOffering)->Record_id;
    let provider_pubkey = chain_told(trace, ChainPhase::DiscoverOffering)->Record_pubkey;
    let contract = chain_told(trace, ChainPhase::PrepareOrder)->Document_0->0;
    let source_id = chain_told(trace, ChainPhase::FundSource)->Funding_id;
    let source_output = chain_told(trace, ChainPhase::FundSource)->Funding_output_index;
    let source_hex = chain_told(trace, ChainPhase::FundSource)->Funding_hex;
    let source_rail = chain_rail_reading(contract, "source"@)->Ok_0;
    let destination_rail = chain_rail_reading(contract, "destination"@)->Ok_0;
    let destination_status = chain_told(trace, ChainPhase::AwaitDestinationBroadcast)->Record_id;
    let destination_id = outpoint_reading(
        chain_told(trace, ChainPhase::AwaitDestinationBroadcast)->Record_content,
    )->Ok_0.0;
    let destination_output = outpoint_reading(
        chain_told(trace, ChainPhase::AwaitDestinationBroadcast)->Record_content,
    )->Ok_0.1;
    let restart_proof = chain_told(trace, ChainPhase::LoadRestartProof)->Document_0->0;
    let destination_claim_id = chain_told(trace, ChainPhase::ClaimDestination)->Texts_0[0];
    let destination_claim_hex = chain_told(trace, ChainPhase::ClaimDestination)->Texts_0[1];
    let source_claim_id = transaction_reading(chain_told(trace, ChainPhase::AwaitSourceClaim)->Record_content)->Ok_0;
    let bitcoin_settlement = settlement_ids(source_rail, destination_rail, source_claim_id, destination_claim_id)->Ok_0.0;
    let liquid_settlement = settlement_ids(source_rail, destination_rail, source_claim_id, destination_claim_id)->Ok_0.1;
    let close_id = chain_told(trace, ChainPhase::AwaitClose)->Record_id;
    let destination_hex = chain_told(trace, ChainPhase::ReadDestination)->Texts_0[0];
    let source_claim_hex = chain_told(trace, ChainPhase::ReadSourceClaim)->Texts_0[0];
    &&& run.direction == start.direction
    &&& run.confirmations == start.confirmations
    &&& run.network_id == start.network_id
    &&& run.pegged_asset == start.pegged_asset
    &&& run.phase.rank() > ChainPhase::DiscoverOffering.rank() ==> run.offering_id == offering_id
    &&& run.phase.rank() > ChainPhase::DiscoverOffering.rank()
        ==> run.provider_pubkey == provider_pubkey
    &&& run.phase.rank() > ChainPhase::PrepareOrder.rank() ==> run.contract == contract
    &&& run.phase.rank() > ChainPhase::FundSource.rank() ==> run.source_id == source_id
    &&& run.phase.rank() > ChainPhase::FundSource.rank() ==> run.source_output == source_output
    &&& run.phase.rank() > ChainPhase::FundSource.rank() ==> run.source_hex == source_hex
    &&& run.phase.rank() > ChainPhase::SaySourceBroadcast.rank() ==> run.source_rail == source_rail
    &&& run.phase.rank() > ChainPhase::SaySourceBroadcast.rank()
        ==> run.destination_rail == destination_rail
    &&& run.phase.rank() > ChainPhase::AwaitDestinationBroadcast.rank()
        ==> run.destination_status == destination_status
    &&& run.phase.rank() > ChainPhase::AwaitDestinationBroadcast.rank()
        ==> run.destination_id == destination_id
    &&& run.phase.rank() > ChainPhase::AwaitDestinationBroadcast.rank()
        ==> run.destination_output == destination_output
    &&& run.phase.rank() > ChainPhase::ReadDestination.rank()
        ==> run.destination_hex == destination_hex
    &&& run.phase.rank() > ChainPhase::LoadRestartProof.rank()
        ==> run.restart_proof == restart_proof
    &&& run.phase.rank() > ChainPhase::ClaimDestination.rank()
        ==> run.destination_claim_id == destination_claim_id
    &&& run.phase.rank() > ChainPhase::ClaimDestination.rank()
        ==> run.destination_claim_hex == destination_claim_hex
    &&& run.phase.rank() > ChainPhase::AwaitSourceClaim.rank()
        ==> run.source_claim_id == source_claim_id
    &&& run.phase.rank() > ChainPhase::ReadSourceClaim.rank()
        ==> run.source_claim_hex == source_claim_hex
    &&& run.phase.rank() > ChainPhase::AwaitCompleted.rank()
        ==> run.bitcoin_settlement == bitcoin_settlement
    &&& run.phase.rank() > ChainPhase::AwaitCompleted.rank()
        ==> run.liquid_settlement == liquid_settlement
    &&& run.phase.rank() > ChainPhase::AwaitClose.rank() ==> run.close_id == close_id
}

/// No phase of a chain swap comes twice in a trace.
proof fn lemma_chain_told_once(trace: Seq<(ChainRunView, ReplyView)>, place: int)
    requires
        is_chain_trace(trace),
        0 <= place < trace.len(),
    ensures
        chain_told(trace, trace[place].0.phase) == trace[place].1,
{
    let phase = trace[place].0.phase;
    let other = choose|i: int| 0 <= i < trace.len() && (#[trigger] trace[i]).0.phase == phase;
    assert(trace[place].0.phase == phase);
    if other != place {
        let (early, late) = if other < place {
            (other, place)
        } else {
            (place, other)
        };
        assert forall|run: ChainRunView, reply: ReplyView|
            (#[trigger] chain_step(run, reply)) is Ok implies run.phase.rank() < chain_step(
            run,
            reply,
        )->Ok_0.phase.rank() by {
            law_chain_moves_forward(run, reply);
        }
        lemma_ranks_rise(
            trace,
            |run: ChainRunView, reply: ReplyView| chain_step(run, reply),
            |run: ChainRunView| run.phase.rank(),
            early,
            late,
        );
    }
}

/// A reply keeps what a chain swap holds, and adds what it tells.
proof fn lemma_chain_holds_on(
    trace: Seq<(ChainRunView, ReplyView)>,
    run: ChainRunView,
    reply: ReplyView,
)
    requires
        chain_holds(trace, run),
        chain_told(trace, run.phase) == reply,
        chain_step(run, reply) is Ok,
    ensures
        chain_holds(trace, chain_step(run, reply)->Ok_0),
{
    let next = chain_step(run, reply)->Ok_0;
    match run.phase {
        ChainPhase::CheckNetwork => assert(chain_holds(trace, next)),
        ChainPhase::CheckHealth => assert(chain_holds(trace, next)),
        ChainPhase::DiscoverOffering => assert(chain_holds(trace, next)),
        ChainPhase::StoreSecret => assert(chain_holds(trace, next)),
        ChainPhase::PrepareOrder => assert(chain_holds(trace, next)),
        ChainPhase::AwaitAccepted => assert(chain_holds(trace, next)),
        ChainPhase::AwaitSourceTerms => assert(chain_holds(trace, next)),
        ChainPhase::VerifySource => assert(chain_holds(trace, next)),
        ChainPhase::SaySourceVerified => assert(chain_holds(trace, next)),
        ChainPhase::AwaitDestinationTerms => assert(chain_holds(trace, next)),
        ChainPhase::CheckDestinationTemplate => assert(chain_holds(trace, next)),
        ChainPhase::PreflightDestination => assert(chain_holds(trace, next)),
        ChainPhase::AuthorizeFunding => assert(chain_holds(trace, next)),
        ChainPhase::SayDestinationVerified => assert(chain_holds(trace, next)),
        ChainPhase::AwaitFundingRequired => assert(chain_holds(trace, next)),
        ChainPhase::FundSource => assert(chain_holds(trace, next)),
        ChainPhase::RecordSource => assert(chain_holds(trace, next)),
        ChainPhase::SaySourceBroadcast => assert(chain_holds(trace, next)),
        ChainPhase::MineSource => assert(chain_holds(trace, next)),
        ChainPhase::AwaitSourceObserved => assert(chain_holds(trace, next)),
        ChainPhase::AwaitSourceFinal => assert(chain_holds(trace, next)),
        ChainPhase::AwaitDestinationBroadcast => assert(chain_holds(trace, next)),
        ChainPhase::KeepDestination => assert(chain_holds(trace, next)),
        ChainPhase::CheckHealthAgain => assert(chain_holds(trace, next)),
        ChainPhase::LoadRestartProof => assert(chain_holds(trace, next)),
        ChainPhase::AwaitReplay => assert(chain_holds(trace, next)),
        ChainPhase::AwaitDestinationPropagated => assert(chain_holds(trace, next)),
        ChainPhase::MineDestination => assert(chain_holds(trace, next)),
        ChainPhase::AwaitDestinationObserved => assert(chain_holds(trace, next)),
        ChainPhase::AwaitDestinationFinal => assert(chain_holds(trace, next)),
        ChainPhase::SayClaimPending => assert(chain_holds(trace, next)),
        ChainPhase::ClaimDestination => assert(chain_holds(trace, next)),
        ChainPhase::KeepClaim => assert(chain_holds(trace, next)),
        ChainPhase::RemoveSecret => assert(chain_holds(trace, next)),
        ChainPhase::SayClaimed => assert(chain_holds(trace, next)),
        ChainPhase::MineClaim => assert(chain_holds(trace, next)),
        ChainPhase::AwaitSourceClaim => assert(chain_holds(trace, next)),
        ChainPhase::AwaitSourceClaimPropagated => assert(chain_holds(trace, next)),
        ChainPhase::MineSourceClaim => assert(chain_holds(trace, next)),
        ChainPhase::AwaitSourceClaimed => assert(chain_holds(trace, next)),
        ChainPhase::AwaitCompleted => assert(chain_holds(trace, next)),
        ChainPhase::AwaitClose => assert(chain_holds(trace, next)),
        ChainPhase::ReadDestination => assert(chain_holds(trace, next)),
        ChainPhase::ReadSourceClaim => assert(chain_holds(trace, next)),
        ChainPhase::Finished => assert(chain_holds(trace, next)),
    }
}

/// What a chain swap has been told, it keeps: at every place of a trace each value that the run
/// holds is the one that the reply to the phase that asks for it gave, or the one that the run
/// started with.
pub proof fn law_chain_keeps_what_it_was_told(trace: Seq<(ChainRunView, ReplyView)>, last: int)
    requires
        is_chain_trace(trace),
        0 <= last < trace.len(),
    ensures
        chain_holds(trace, trace[last].0),
    decreases last,
{
    if last > 0 {
        let before = last - 1;
        law_chain_keeps_what_it_was_told(trace, before);
        lemma_chain_told_once(trace, before);
        assert(chain_step(trace[before].0, trace[before].1) == Ok::<ChainRunView, Seq<char>>(
            trace[before + 1].0,
        ));
        lemma_chain_holds_on(trace, trace[before].0, trace[before].1);
    }
}

/// What a chain swap asks for in each phase, in terms of the replies before it: the values in a
/// request are those that the replies to the named phases gave, or those that the run started with.
pub proof fn law_chain_asks_with_what_it_was_told(trace: Seq<(ChainRunView, ReplyView)>, last: int)
    requires
        is_chain_trace(trace),
        0 <= last < trace.len(),
    ensures
        ({
            let start = trace[0].0;
            let contract = chain_told(trace, ChainPhase::PrepareOrder)->Document_0->0;
            let source_id = chain_told(trace, ChainPhase::FundSource)->Funding_id;
            let source_output = chain_told(trace, ChainPhase::FundSource)->Funding_output_index;
            let source_hex = chain_told(trace, ChainPhase::FundSource)->Funding_hex;
            let source_rail = chain_rail_reading(contract, "source"@)->Ok_0;
            let destination_rail = chain_rail_reading(contract, "destination"@)->Ok_0;
            let destination_id = outpoint_reading(
                chain_told(trace, ChainPhase::AwaitDestinationBroadcast)->Record_content,
            )->Ok_0.0;
            let destination_output = outpoint_reading(
                chain_told(trace, ChainPhase::AwaitDestinationBroadcast)->Record_content,
            )->Ok_0.1;
            let destination_claim_id = chain_told(trace, ChainPhase::ClaimDestination)->Texts_0[0];
            let source_claim_id = transaction_reading(
                chain_told(trace, ChainPhase::AwaitSourceClaim)->Record_content,
            )->Ok_0;
            let bitcoin_settlement = settlement_ids(
                source_rail,
                destination_rail,
                source_claim_id,
                destination_claim_id,
            )->Ok_0.0;
            let liquid_settlement = settlement_ids(
                source_rail,
                destination_rail,
                source_claim_id,
                destination_claim_id,
            )->Ok_0.1;
            let action = chain_action(trace[last].0);
            match trace[last].0.phase {
                ChainPhase::CheckNetwork => action == ActionView::Perform(
                    Task::ReadLiquidNetwork,
                    seq![],
                ),
                ChainPhase::CheckHealth => action == ActionView::CheckHealth,
                ChainPhase::DiscoverOffering => action == ActionView::Perform(
                    Task::DiscoverOffering,
                    seq![],
                ),
                ChainPhase::StoreSecret => action == ActionView::Perform(
                    Task::StoreSecret,
                    seq!["chain"@],
                ),
                ChainPhase::PrepareOrder => action == ActionView::Perform(
                    Task::PrepareOrder,
                    seq![],
                ),
                ChainPhase::AwaitAccepted => action == ActionView::AwaitState("accepted"@),
                ChainPhase::AwaitSourceTerms => action == ActionView::AwaitState(
                    "source_lock_terms_ready"@,
                ),
                ChainPhase::VerifySource => action == ActionView::Perform(
                    Task::VerifyChainSource,
                    seq![],
                ),
                ChainPhase::SaySourceVerified => action == ActionView::Say(
                    "requester_source_verified"@,
                    no_members(),
                ),
                ChainPhase::AwaitDestinationTerms => action == ActionView::AwaitState(
                    "destination_lock_terms_ready"@,
                ),
                ChainPhase::CheckDestinationTemplate => action == ActionView::Perform(
                    Task::ParseDestinationTemplate,
                    seq![],
                ),
                ChainPhase::PreflightDestination => action == ActionView::Perform(
                    Task::PreflightLiquidDestination,
                    seq![],
                ),
                ChainPhase::AuthorizeFunding => action == ActionView::Perform(
                    Task::AuthorizeFunding,
                    seq![],
                ),
                ChainPhase::SayDestinationVerified => action == ActionView::Say(
                    "requester_destination_verified"@,
                    no_members(),
                ),
                ChainPhase::AwaitFundingRequired => action == ActionView::AwaitState(
                    "source_funding_required"@,
                ),
                ChainPhase::FundSource => action == ActionView::Perform(
                    Task::BroadcastFunding,
                    seq![start.direction.source_label()],
                ),
                ChainPhase::RecordSource => action == ActionView::Perform(
                    Task::RecordFundingEffect,
                    seq![source_id, source_hex, "hex-bytes"@],
                ),
                ChainPhase::SaySourceBroadcast => action == ActionView::Say(
                    "requester_source_broadcast"@,
                    no_members().insert("transaction_id"@, text_doc(source_id)).insert(
                        "output_index"@,
                        number_doc(source_output as u64),
                    ),
                ),
                ChainPhase::MineSource => action == ActionView::Mine(
                    source_rail,
                    start.confirmations,
                    "chain-source-finality"@,
                ),
                ChainPhase::AwaitSourceObserved => action == ActionView::AwaitState(
                    "source_funding_observed"@,
                ),
                ChainPhase::AwaitSourceFinal => action == ActionView::AwaitState(
                    "source_funding_final"@,
                ),
                ChainPhase::AwaitDestinationBroadcast => action == ActionView::AwaitState(
                    "provider_destination_broadcast"@,
                ),
                ChainPhase::KeepDestination => action == ActionView::Keep(
                    "provider_funding_effect_recorded"@,
                    effect_doc(destination_id),
                ),
                ChainPhase::CheckHealthAgain => action == ActionView::CheckHealth,
                ChainPhase::LoadRestartProof => action == ActionView::LoadControllerProof,
                ChainPhase::AwaitReplay => action == ActionView::AwaitState(
                    "provider_destination_broadcast"@,
                ),
                ChainPhase::AwaitDestinationPropagated => action == ActionView::AwaitTransaction(
                    destination_rail,
                    destination_id,
                    "chain-destination-funding"@,
                ),
                ChainPhase::MineDestination => action == ActionView::Mine(
                    destination_rail,
                    start.confirmations,
                    "chain-destination-finality"@,
                ),
                ChainPhase::AwaitDestinationObserved => action == ActionView::AwaitState(
                    "destination_funding_observed"@,
                ),
                ChainPhase::AwaitDestinationFinal => action == ActionView::AwaitState(
                    "destination_funding_final"@,
                ),
                ChainPhase::SayClaimPending => action == ActionView::Say(
                    "requester_destination_claim_pending"@,
                    no_members(),
                ),
                ChainPhase::ClaimDestination => {
                    &&& start.direction is BitcoinToLiquid ==> action == ActionView::Perform(
                        Task::ClaimLiquidDestination,
                        seq!["destination"@, "chain"@, "chain-liquid-destination-claim"@],
                    )
                    &&& !(start.direction is BitcoinToLiquid) ==> action == ActionView::Perform(
                        Task::ClaimBitcoinDestination,
                        seq![
                            destination_id,
                            decimal(destination_output as nat),
                            "chain-bitcoin-destination-claim"@,
                        ],
                    )
                },
                ChainPhase::KeepClaim => action == ActionView::Keep(
                    "liquid_claim_broadcast_recorded"@,
                    effect_doc(destination_claim_id),
                ),
                ChainPhase::RemoveSecret => action == ActionView::Perform(
                    Task::RemoveSecret,
                    seq!["chain"@],
                ),
                ChainPhase::SayClaimed => action == ActionView::Say(
                    "requester_destination_claimed"@,
                    no_members().insert("transaction_id"@, text_doc(destination_claim_id)),
                ),
                ChainPhase::MineClaim => action == ActionView::Mine(
                    destination_rail,
                    start.confirmations,
                    "chain-destination-claim-propagation"@,
                ),
                ChainPhase::AwaitSourceClaim => action == ActionView::AwaitState(
                    "provider_source_claim_pending"@,
                ),
                ChainPhase::AwaitSourceClaimPropagated => action == ActionView::AwaitTransaction(
                    source_rail,
                    source_claim_id,
                    "chain-source-claim"@,
                ),
                ChainPhase::MineSourceClaim => action == ActionView::Mine(
                    source_rail,
                    start.confirmations,
                    "chain-source-claim-finality"@,
                ),
                ChainPhase::AwaitSourceClaimed => action == ActionView::AwaitState(
                    "provider_source_claimed"@,
                ),
                ChainPhase::AwaitCompleted => action == ActionView::AwaitState("completed"@),
                ChainPhase::AwaitClose => action == ActionView::AwaitClose(
                    CloseCheckView {
                        outcome: "completed"@,
                        bitcoin: Some(bitcoin_settlement),
                        liquid: Some(liquid_settlement),
                        lightning: None,
                    },
                ),
                ChainPhase::ReadDestination => action == ActionView::ReadTransaction(
                    destination_rail,
                    destination_id,
                    "chain-destination-funding-proof"@,
                ),
                ChainPhase::ReadSourceClaim => action == ActionView::ReadTransaction(
                    source_rail,
                    source_claim_id,
                    "chain-source-claim-proof"@,
                ),
                ChainPhase::Finished => action == ActionView::Finish,
            }
        }),
{
    law_chain_keeps_what_it_was_told(trace, last);
}

/// The source is funded only after the client has authorized it.
pub proof fn law_chain_funds_only_when_authorized(trace: Seq<(ChainRunView, ReplyView)>, last: int)
    requires
        is_chain_trace(trace),
        0 <= last < trace.len(),
        trace[last].0.phase == ChainPhase::FundSource,
    ensures
        exists|i: int|
            0 <= i < last && (#[trigger] trace[i]).0.phase == ChainPhase::AuthorizeFunding &&
                trace[i].1 == ReplyView::Done,
{
    let i = lemma_milestone(
        trace,
        |run: ChainRunView, reply: ReplyView| chain_step(run, reply),
        |run: ChainRunView| run.phase.rank(),
        12,
        last,
    );
    assert(trace[i].0.phase == ChainPhase::AuthorizeFunding);
    assert(chain_step(trace[i].0, trace[i].1) == Ok::<ChainRunView, Seq<char>>(trace[i + 1].0));
}

/// The requester says that the source is verified only after the client has verified it.
pub proof fn law_chain_source_is_verified_before_it_is_said(
    trace: Seq<(ChainRunView, ReplyView)>,
    last: int,
)
    requires
        is_chain_trace(trace),
        0 <= last < trace.len(),
        trace[last].0.phase == ChainPhase::SaySourceVerified,
    ensures
        exists|i: int|
            0 <= i < last && (#[trigger] trace[i]).0.phase == ChainPhase::VerifySource && trace[i].1
                == ReplyView::Done,
{
    let i = lemma_milestone(
        trace,
        |run: ChainRunView, reply: ReplyView| chain_step(run, reply),
        |run: ChainRunView| run.phase.rank(),
        7,
        last,
    );
    assert(trace[i].0.phase == ChainPhase::VerifySource);
    assert(chain_step(trace[i].0, trace[i].1) == Ok::<ChainRunView, Seq<char>>(trace[i + 1].0));
}

/// Whether every reply of a trace answers the action that it is told for.
pub open spec fn is_answered_chain(
    trace: Seq<(ChainRunView, ReplyView)>,
    kinds: RecordKinds,
    provider: Seq<char>,
) -> bool {
    forall|i: int|
        0 <= i < trace.len() - 1 ==> answers(
            chain_action((#[trigger] trace[i]).0),
            trace[i].1,
            kinds,
            provider,
        )
}

/// The destination is checked only after the provider gave its terms.
pub proof fn law_chain_destination_is_checked_after_its_terms(
    trace: Seq<(ChainRunView, ReplyView)>,
    kinds: RecordKinds,
    provider: Seq<char>,
    last: int,
)
    requires
        is_chain_trace(trace),
        is_answered_chain(trace, kinds, provider),
        0 <= last < trace.len(),
        trace[last].0.phase == ChainPhase::CheckDestinationTemplate || trace[last].0.phase
            == ChainPhase::PreflightDestination,
    ensures
        exists|i: int|
            0 <= i < last && (#[trigger] trace[i]).0.phase == ChainPhase::AwaitDestinationTerms &&
                says(
                trace[i].1,
                kinds,
                provider,
                "destination_lock_terms_ready"@,
            ),
{
    let i = lemma_milestone(
        trace,
        |run: ChainRunView, reply: ReplyView| chain_step(run, reply),
        |run: ChainRunView| run.phase.rank(),
        9,
        last,
    );
    assert(trace[i].0.phase == ChainPhase::AwaitDestinationTerms);
    assert(answers(chain_action(trace[i].0), trace[i].1, kinds, provider));
}

/// The requester says that the destination is verified only after the client has authorized both
/// legs.
pub proof fn law_chain_is_authorized_before_it_is_said(
    trace: Seq<(ChainRunView, ReplyView)>,
    last: int,
)
    requires
        is_chain_trace(trace),
        0 <= last < trace.len(),
        trace[last].0.phase == ChainPhase::SayDestinationVerified,
    ensures
        exists|i: int|
            0 <= i < last && (#[trigger] trace[i]).0.phase == ChainPhase::AuthorizeFunding &&
                trace[i].1 == ReplyView::Done,
{
    let i = lemma_milestone(
        trace,
        |run: ChainRunView, reply: ReplyView| chain_step(run, reply),
        |run: ChainRunView| run.phase.rank(),
        12,
        last,
    );
    assert(trace[i].0.phase == ChainPhase::AuthorizeFunding);
    assert(chain_step(trace[i].0, trace[i].1) == Ok::<ChainRunView, Seq<char>>(trace[i + 1].0));
}

/// The destination is claimed only after the client has authorized the swap.
pub proof fn law_chain_claims_only_when_authorized(trace: Seq<(ChainRunView, ReplyView)>, last: int)
    requires
        is_chain_trace(trace),
        0 <= last < trace.len(),
        trace[last].0.phase == ChainPhase::ClaimDestination,
    ensures
        exists|i: int|
            0 <= i < last && (#[trigger] trace[i]).0.phase == ChainPhase::AuthorizeFunding &&
                trace[i].1 == ReplyView::Done,
{
    let i = lemma_milestone(
        trace,
        |run: ChainRunView, reply: ReplyView| chain_step(run, reply),
        |run: ChainRunView| run.phase.rank(),
        12,
        last,
    );
    assert(trace[i].0.phase == ChainPhase::AuthorizeFunding);
    assert(chain_step(trace[i].0, trace[i].1) == Ok::<ChainRunView, Seq<char>>(trace[i + 1].0));
}

/// The destination is claimed only after the provider said that its funding is final.
pub proof fn law_chain_claims_only_final_funding(
    trace: Seq<(ChainRunView, ReplyView)>,
    kinds: RecordKinds,
    provider: Seq<char>,
    last: int,
)
    requires
        is_chain_trace(trace),
        is_answered_chain(trace, kinds, provider),
        0 <= last < trace.len(),
        trace[last].0.phase == ChainPhase::ClaimDestination,
    ensures
        exists|i: int|
            0 <= i < last && (#[trigger] trace[i]).0.phase == ChainPhase::AwaitDestinationFinal &&
                says(
                trace[i].1,
                kinds,
                provider,
                "destination_funding_final"@,
            ),
{
    let i = lemma_milestone(
        trace,
        |run: ChainRunView, reply: ReplyView| chain_step(run, reply),
        |run: ChainRunView| run.phase.rank(),
        29,
        last,
    );
    assert(trace[i].0.phase == ChainPhase::AwaitDestinationFinal);
    assert(answers(chain_action(trace[i].0), trace[i].1, kinds, provider));
}

/// A swap to Bitcoin claims the lock that the provider reported: the outpoint that the claim is asked
/// with is the one that the content of the record that answered the wait for the destination names.
pub proof fn law_chain_claims_the_reported_destination(
    trace: Seq<(ChainRunView, ReplyView)>,
    last: int,
) -> (place: int)
    requires
        is_chain_trace(trace),
        0 <= last < trace.len(),
        trace[0].0.direction is LiquidToBitcoin,
        trace[last].0.phase == ChainPhase::ClaimDestination,
    ensures
        0 <= place < last,
        chain_action(trace[place].0) == ActionView::AwaitState("provider_destination_broadcast"@),
        trace[place].1 is Record,
        profile_reading(trace[place].1->Record_content) is Ok,
        ({
            let profile = profile_reading(trace[place].1->Record_content)->Ok_0;
            let id = said(profile, "transaction_id"@);
            let index = if profile.dom().contains("output_index"@) {
                counted(profile, "output_index"@)
            } else {
                counted(profile, "vout"@)
            };
            &&& id is Some
            &&& index is Some
            &&& chain_action(trace[last].0) == ActionView::Perform(
                Task::ClaimBitcoinDestination,
                seq![id->0, decimal(index->0 as nat), "chain-bitcoin-destination-claim"@],
            )
        }),
{
    let place = lemma_milestone(
        trace,
        |run: ChainRunView, reply: ReplyView| chain_step(run, reply),
        |run: ChainRunView| run.phase.rank(),
        ChainPhase::AwaitDestinationBroadcast.rank(),
        last,
    );
    assert(trace[place].0.phase == ChainPhase::AwaitDestinationBroadcast);
    lemma_chain_told_once(trace, place);
    law_chain_keeps_what_it_was_told(trace, last);
    assert(chain_step(trace[place].0, trace[place].1) == Ok::<ChainRunView, Seq<char>>(
        trace[place + 1].0,
    ));
    place
}

/// The destination is claimed only after the restarted provider has repeated its funding.
pub proof fn law_chain_checks_the_replay(
    trace: Seq<(ChainRunView, ReplyView)>,
    kinds: RecordKinds,
    provider: Seq<char>,
    last: int,
)
    requires
        is_chain_trace(trace),
        is_answered_chain(trace, kinds, provider),
        0 <= last < trace.len(),
        trace[last].0.phase == ChainPhase::ClaimDestination,
    ensures
        exists|i: int|
            0 <= i < last && (#[trigger] trace[i]).0.phase == ChainPhase::AwaitReplay && says(
                trace[i].1,
                kinds,
                provider,
                "provider_destination_broadcast"@,
            ),
{
    let i = lemma_milestone(
        trace,
        |run: ChainRunView, reply: ReplyView| chain_step(run, reply),
        |run: ChainRunView| run.phase.rank(),
        25,
        last,
    );
    assert(trace[i].0.phase == ChainPhase::AwaitReplay);
    assert(answers(chain_action(trace[i].0), trace[i].1, kinds, provider));
}

/// The secret is removed only after the destination has been claimed.
pub proof fn law_chain_drops_the_secret_after_the_claim(
    trace: Seq<(ChainRunView, ReplyView)>,
    last: int,
)
    requires
        is_chain_trace(trace),
        0 <= last < trace.len(),
        trace[last].0.phase == ChainPhase::RemoveSecret,
    ensures
        exists|i: int|
            0 <= i < last && (#[trigger] trace[i]).0.phase == ChainPhase::ClaimDestination &&
                trace[i].1 is Texts,
{
    let i = lemma_milestone(
        trace,
        |run: ChainRunView, reply: ReplyView| chain_step(run, reply),
        |run: ChainRunView| run.phase.rank(),
        31,
        last,
    );
    assert(trace[i].0.phase == ChainPhase::ClaimDestination);
    assert(chain_step(trace[i].0, trace[i].1) == Ok::<ChainRunView, Seq<char>>(trace[i + 1].0));
}

/// A chain swap finishes only after the provider's close has been verified.
pub proof fn law_chain_ends_with_a_close(
    trace: Seq<(ChainRunView, ReplyView)>,
    kinds: RecordKinds,
    provider: Seq<char>,
    last: int,
)
    requires
        is_chain_trace(trace),
        is_answered_chain(trace, kinds, provider),
        0 <= last < trace.len(),
        trace[last].0.phase == ChainPhase::Finished,
    ensures
        exists|i: int|
            0 <= i < last && (#[trigger] trace[i]).0.phase == ChainPhase::AwaitClose && closes(
                trace[i].1,
                kinds,
                provider,
                "completed"@,
            ),
{
    let i = lemma_milestone(
        trace,
        |run: ChainRunView, reply: ReplyView| chain_step(run, reply),
        |run: ChainRunView| run.phase.rank(),
        41,
        last,
    );
    assert(trace[i].0.phase == ChainPhase::AwaitClose);
    assert(answers(chain_action(trace[i].0), trace[i].1, kinds, provider));
}

impl ChainRun {
    fn is_bitcoin_to_liquid(&self) -> (is: bool)
        ensures
            is == (self@.direction is BitcoinToLiquid),
    {
        match self.direction {
            LiquidChainDirection::BitcoinToLiquid => true,
            LiquidChainDirection::LiquidToBitcoin => false,
        }
    }

    fn settlements(&self) -> (ids: Result<(String, String), String>)
        ensures
            (match ids {
                Ok((bitcoin, liquid)) => Ok((bitcoin@, liquid@)),
                Err(message) => Err(message@),
            }) == settlement_ids(
                self@.source_rail,
                self@.destination_rail,
                self@.source_claim_id,
                self@.destination_claim_id,
            ),
    {
        let (bitcoin, liquid) = chain_terminal_settlement_ids(
            self.source_rail.as_str(),
            self.destination_rail.as_str(),
            self.source_claim_id.as_str(),
            self.destination_claim_id.as_str(),
        )?;
        Ok((bitcoin.to_owned(), liquid.to_owned()))
    }
}

/// The name of one of the two providers.
pub open spec fn provider_name(provider_index: usize) -> Seq<char> {
    if provider_index == 0 {
        "provider-a"@
    } else {
        "provider-b"@
    }
}

/// The name of one of the two providers.
pub fn selected_provider(provider_index: usize) -> (name: &'static str)
    ensures
        name@ == provider_name(provider_index),
{
    if provider_index == 0 {
        "provider-a"
    } else {
        "provider-b"
    }
}

/// Whether the controller's acknowledgement shows that the process was replaced.
pub open spec fn shows_replacement(restart_proof: JsonView) -> bool {
    text_of(step(member(restart_proof, "evidence"@), "transition"@)) == Some(
        "process_replaced_and_ready"@,
    )
}

/// Whether the controller's acknowledgement shows that the process was replaced.
pub fn process_replaced(restart_proof: &Json) -> (replaced: bool)
    ensures
        replaced == shows_replacement(restart_proof@),
{
    match restart_proof.get("evidence") {
        Some(evidence) => evidence.says("transition", "process_replaced_and_ready"),
        None => false,
    }
}

/// The shape of the proof, the effects of the provider and the one who ends the Liquid leg.
pub open spec fn chain_shape(direction: LiquidChainDirection) -> (
    Seq<char>,
    Seq<Seq<char>>,
    Seq<char>,
) {
    match direction {
        LiquidChainDirection::BitcoinToLiquid => (
            "chain-btc-to-lbtc"@,
            seq!["liquid_chain_fund"@, "chain_claim"@],
            "requester"@,
        ),
        LiquidChainDirection::LiquidToBitcoin => (
            "chain-lbtc-to-btc"@,
            seq!["chain_fund"@, "liquid_chain_claim"@],
            "provider"@,
        ),
    }
}

/// The proof that the source leg was locked and left.
pub open spec fn source_proof(run: ChainRunView, rail: Seq<char>) -> JsonView {
    leg_proof_doc(
        rail,
        run.source_id,
        run.source_output,
        run.source_hex,
        run.source_claim_id,
        run.source_claim_hex,
    )
}

/// The proof that the destination leg was locked and left.
pub open spec fn destination_proof(run: ChainRunView, rail: Seq<char>) -> JsonView {
    leg_proof_doc(
        rail,
        run.destination_id,
        run.destination_output,
        run.destination_hex,
        run.destination_claim_id,
        run.destination_claim_hex,
    )
}

/// The proof of a finished chain swap.
pub open spec fn chain_proof_doc(
    run: ChainRunView,
    provider_index: usize,
    lifecycle: JsonView,
) -> JsonView {
    let (shape, operations, actor) = chain_shape(run.direction);
    let rails = match run.direction {
        LiquidChainDirection::BitcoinToLiquid => no_members().insert(
            "bitcoin"@,
            source_proof(run, "bitcoin"@),
        ).insert("liquid"@, destination_proof(run, "liquid"@)),
        LiquidChainDirection::LiquidToBitcoin => no_members().insert(
            "bitcoin"@,
            destination_proof(run, "bitcoin"@),
        ).insert("liquid"@, source_proof(run, "liquid"@)),
    };
    let restart = no_members().insert("target"@, text_doc(provider_name(provider_index))).insert(
        "checkpoint_effect_operation"@,
        text_doc(operations[0]),
    ).insert("checkpoint_status_state"@, text_doc("provider_destination_broadcast"@)).insert(
        "process_replaced"@,
        JsonView::Bool(shows_replacement(run.restart_proof)),
    ).insert("restored_from_postgres"@, JsonView::Bool(true)).insert(
        "exact_known_replay"@,
        JsonView::Bool(true),
    ).insert("duplicate_external_effects"@, number_doc(0));
    let terminal = no_members().insert("actor"@, text_doc(actor)).insert(
        "path"@,
        text_doc("claim"@),
    ).insert("effect_class"@, text_doc("liquid_spend"@)).insert("confirmed"@, JsonView::Bool(true));
    JsonView::Object(
        no_members().insert(
            "liquid_case"@,
            JsonView::Object(
                no_members().insert(
                    "schema"@,
                    text_doc("openagents.immortal.adversarial-liquid-case.v1"@),
                ).insert("shape"@, text_doc(shape)).insert(
                    "selected_provider"@,
                    text_doc(provider_name(provider_index)),
                ).insert("signed_lifecycle_event_ids"@, lifecycle).insert(
                    "rails"@,
                    JsonView::Object(rails),
                ).insert("provider_effect_operations"@, texts_doc(operations)).insert(
                    "provider_status_anchors"@,
                    texts_doc(seq!["provider_destination_broadcast"@]),
                ).insert("provider_restart"@, JsonView::Object(restart)).insert(
                    "liquid_terminal"@,
                    JsonView::Object(terminal),
                ).insert("lightning_terminal"@, JsonView::Null).insert("recovery"@, JsonView::Null),
            ),
        ),
    )
}

/// What the end of a chain swap reads as: its proof, or what is missing from it.
pub open spec fn chain_proof_reading(
    run: ChainRunView,
    provider_index: usize,
    records: Seq<Event>,
    kinds: RecordKinds,
) -> Result<JsonView, Seq<char>> {
    match chain_lifecycle_reading(
        records,
        kinds,
        run.offering_id,
        run.provider_pubkey,
        run.close_id,
    ) {
        Err(message) => Err(message),
        Ok(lifecycle) => if records.filter(
            in_state(kinds.status, run.provider_pubkey, "provider_destination_broadcast"@),
        ).len() != 1 {
            Err("provider restart created a duplicate destination Status"@)
        } else {
            Ok(chain_proof_doc(run, provider_index, lifecycle))
        },
    }
}

/// What the end of a chain swap reads as: it can be had exactly where every part that it rests on
/// can, and each part of it is the one that its name says.
pub proof fn law_chain_proof_is_read_from_its_parts(
    run: ChainRunView,
    provider_index: usize,
    records: Seq<Event>,
    kinds: RecordKinds,
)
    ensures
        ({
            let read = chain_proof_reading(run, provider_index, records, kinds);
            let given = read->Ok_0;
            &&& read is Ok <==> {
                &&& chain_lifecycle_reading(
                    records,
                    kinds,
                    run.offering_id,
                    run.provider_pubkey,
                    run.close_id,
                ) is Ok
                &&& records.filter(
                    in_state(kinds.status, run.provider_pubkey, "provider_destination_broadcast"@),
                ).len() == 1
            }
            &&& read is Ok ==> {
                &&& given == chain_proof_doc(
                    run,
                    provider_index,
                    chain_lifecycle_reading(
                        records,
                        kinds,
                        run.offering_id,
                        run.provider_pubkey,
                        run.close_id,
                    )->Ok_0,
                )
            }
        }),
{
}

impl ChainRun {
    fn leg_proof(&self, rail: &str, of_source: bool) -> (proven: Json)
        ensures
            proven@ == (if of_source {
                source_proof(self@, rail@)
            } else {
                destination_proof(self@, rail@)
            }),
    {
        if of_source {
            chain_leg_process_proof(
                rail,
                self.source_id.as_str(),
                self.source_output,
                self.source_hex.as_str(),
                self.source_claim_id.as_str(),
                self.source_claim_hex.as_str(),
            )
        } else {
            chain_leg_process_proof(
                rail,
                self.destination_id.as_str(),
                self.destination_output,
                self.destination_hex.as_str(),
                self.destination_claim_id.as_str(),
                self.destination_claim_hex.as_str(),
            )
        }
    }

    /// The proof of a finished chain swap, from the records that were signed in it; nothing before
    /// it is over.
    pub fn process_proof(
        &self,
        provider_index: usize,
        records: &Vec<Event>,
        kinds: RecordKinds,
    ) -> (proven: Option<Result<Json, String>>)
        ensures
            match proven {
                Some(proven) => self@.phase == ChainPhase::Finished && told_json(proven) == chain_proof_reading(
                    self@,
                    provider_index,
                    records@,
                    kinds,
                ),
                None => self@.phase != ChainPhase::Finished,
            },
    {
        if self.phase == ChainPhase::Finished {
            Some(self.proof_document(provider_index, records, kinds))
        } else {
            None
        }
    }

    fn proof_document(&self, provider_index: usize, records: &Vec<Event>, kinds: RecordKinds) -> (
    proven: Result<Json, String>)
        ensures
            told_json(proven) == chain_proof_reading(self@, provider_index, records@, kinds),
    {
        let lifecycle: Json = chain_lifecycle_event_ids(
            records,
            kinds,
            self.offering_id.as_str(),
            self.provider_pubkey.as_str(),
            self.close_id.as_str(),
        )?;
        if count_in_state(
            records,
            kinds.status,
            self.provider_pubkey.as_str(),
            "provider_destination_broadcast",
        ) != 1 {
            return Err("provider restart created a duplicate destination Status".to_owned());
        }
        let to_liquid: bool = self.is_bitcoin_to_liquid();
        let rails: JsonObject = JsonObject::new().with(
            "bitcoin",
            self.leg_proof("bitcoin", to_liquid),
        ).with("liquid", self.leg_proof("liquid", !to_liquid));
        let (shape, first, second, actor): (&str, &str, &str, &str) = if to_liquid {
            ("chain-btc-to-lbtc", "liquid_chain_fund", "chain_claim", "requester")
        } else {
            ("chain-lbtc-to-btc", "chain_fund", "liquid_chain_claim", "provider")
        };
        let operations: Vec<&str> = vec![first, second];
        let anchors: Vec<&str> = vec!["provider_destination_broadcast"];
        proof {
            assert(name_views(operations@) =~= chain_shape(self@.direction).1);
            assert(name_views(anchors@) =~= seq!["provider_destination_broadcast"@]);
        }
        let provider: &str = selected_provider(provider_index);
        let restart: JsonObject = JsonObject::new().with_text("target", provider).with_text(
            "checkpoint_effect_operation",
            first,
        ).with_text("checkpoint_status_state", "provider_destination_broadcast").with_bool(
            "process_replaced",
            process_replaced(&self.restart_proof),
        ).with_bool("restored_from_postgres", true).with_bool(
            "exact_known_replay",
            true,
        ).with_number("duplicate_external_effects", 0);
        let terminal: JsonObject = JsonObject::new().with_text("actor", actor).with_text(
            "path",
            "claim",
        ).with_text("effect_class", "liquid_spend").with_bool("confirmed", true);
        let case: JsonObject = JsonObject::new().with_text(
            "schema",
            "openagents.immortal.adversarial-liquid-case.v1",
        ).with_text("shape", shape).with_text("selected_provider", provider).with(
            "signed_lifecycle_event_ids",
            lifecycle,
        ).with("rails", Json::object(rails)).with(
            "provider_effect_operations",
            Json::texts(&operations),
        ).with("provider_status_anchors", Json::texts(&anchors)).with(
            "provider_restart",
            Json::object(restart),
        ).with("liquid_terminal", Json::object(terminal)).with(
            "lightning_terminal",
            Json::null(),
        ).with("recovery", Json::null());
        Ok(Json::object(JsonObject::new().with("liquid_case", Json::object(case))))
    }
}

/// The proofs of the two legs are of the transactions that the swap was told of: the source leg was
/// funded by this side and claimed as the provider reported, the destination leg was funded as the
/// provider reported and claimed by this side.
pub proof fn law_chain_proofs_are_of_what_it_was_told(
    trace: Seq<(ChainRunView, ReplyView)>,
    last: int,
    rail: Seq<char>,
)
    requires
        is_chain_trace(trace),
        0 <= last < trace.len(),
        trace[last].0.phase == ChainPhase::Finished,
    ensures
        ({
            let funded = chain_told(trace, ChainPhase::FundSource);
            let reported = outpoint_reading(
                chain_told(trace, ChainPhase::AwaitDestinationBroadcast)->Record_content,
            )->Ok_0;
            let claimed = chain_told(trace, ChainPhase::ClaimDestination)->Texts_0;
            let source_claim = transaction_reading(
                chain_told(trace, ChainPhase::AwaitSourceClaim)->Record_content,
            )->Ok_0;
            &&& source_proof(trace[last].0, rail) == leg_proof_doc(
                rail,
                funded->Funding_id,
                funded->Funding_output_index,
                funded->Funding_hex,
                source_claim,
                chain_told(trace, ChainPhase::ReadSourceClaim)->Texts_0[0],
            )
            &&& destination_proof(trace[last].0, rail) == leg_proof_doc(
                rail,
                reported.0,
                reported.1,
                chain_told(trace, ChainPhase::ReadDestination)->Texts_0[0],
                claimed[0],
                claimed[1],
            )
        }),
{
    law_chain_keeps_what_it_was_told(trace, last);
}

/// What the proof of a chain swap says: the proof of the leg on Bitcoin stands under Bitcoin and that of
/// the leg on Liquid under Liquid, whichever way the swap goes, so the source stands under Bitcoin
/// exactly where the swap goes from there; and whoever claims on Liquid is named.
pub proof fn law_chain_proof_stands_by_rail(
    run: ChainRunView,
    provider_index: usize,
    lifecycle: JsonView,
)
    ensures
        ({
            let case = member(chain_proof_doc(run, provider_index, lifecycle), "liquid_case"@);
            let rails = step(case, "rails"@);
            let terminal = step(case, "liquid_terminal"@);
            &&& run.direction is BitcoinToLiquid ==> {
                &&& step(rails, "bitcoin"@) == Some(source_proof(run, "bitcoin"@))
                &&& step(rails, "liquid"@) == Some(destination_proof(run, "liquid"@))
                &&& text_of(step(terminal, "actor"@)) == Some("requester"@)
                &&& text_of(step(case, "shape"@)) == Some("chain-btc-to-lbtc"@)
                &&& step(case, "provider_effect_operations"@) == Some(
                    texts_doc(seq!["liquid_chain_fund"@, "chain_claim"@]),
                )
            }
            &&& run.direction is LiquidToBitcoin ==> {
                &&& step(rails, "bitcoin"@) == Some(destination_proof(run, "bitcoin"@))
                &&& step(rails, "liquid"@) == Some(source_proof(run, "liquid"@))
                &&& text_of(step(terminal, "actor"@)) == Some("provider"@)
                &&& text_of(step(case, "shape"@)) == Some("chain-lbtc-to-btc"@)
                &&& step(case, "provider_effect_operations"@) == Some(
                    texts_doc(seq!["chain_fund"@, "liquid_chain_claim"@]),
                )
            }
            &&& text_of(step(terminal, "path"@)) == Some("claim"@)
            &&& text_of(step(case, "selected_provider"@)) == Some(provider_name(provider_index))
            &&& step(case, "signed_lifecycle_event_ids"@) == Some(lifecycle)
            &&& step(step(case, "provider_restart"@), "process_replaced"@) == Some(
                JsonView::Bool(shows_replacement(run.restart_proof)),
            )
        }),
{
    reveal_strlit("schema");
    reveal_strlit("shape");
    reveal_strlit("selected_provider");
    reveal_strlit("signed_lifecycle_event_ids");
    reveal_strlit("rails");
    reveal_strlit("provider_effect_operations");
    reveal_strlit("provider_status_anchors");
    reveal_strlit("provider_restart");
    reveal_strlit("liquid_terminal");
    reveal_strlit("lightning_terminal");
    reveal_strlit("recovery");
    assert("schema"@.len() == 6);
    assert("shape"@.len() == 5);
    assert("selected_provider"@.len() == 17);
    assert("signed_lifecycle_event_ids"@.len() == 26);
    assert("rails"@.len() == 5);
    assert("provider_effect_operations"@.len() == 26);
    assert("provider_status_anchors"@.len() == 23);
    assert("provider_restart"@.len() == 16);
    assert("liquid_terminal"@.len() == 15);
    assert("lightning_terminal"@.len() == 18);
    assert("recovery"@.len() == 8);
    assert("shape"@[0] == 's');
    assert("rails"@[0] == 'r');
    assert("signed_lifecycle_event_ids"@[0] == 's');
    assert("provider_effect_operations"@[0] == 'p');
    reveal_strlit("bitcoin");
    reveal_strlit("liquid");
    assert("bitcoin"@.len() == 7);
    assert("liquid"@.len() == 6);
    reveal_strlit("actor");
    reveal_strlit("path");
    reveal_strlit("effect_class");
    reveal_strlit("confirmed");
    assert("actor"@.len() == 5);
    assert("path"@.len() == 4);
    assert("effect_class"@.len() == 12);
    assert("confirmed"@.len() == 9);
    reveal_strlit("target");
    reveal_strlit("checkpoint_effect_operation");
    reveal_strlit("checkpoint_status_state");
    reveal_strlit("process_replaced");
    reveal_strlit("restored_from_postgres");
    reveal_strlit("exact_known_replay");
    reveal_strlit("duplicate_external_effects");
    assert("target"@.len() == 6);
    assert("checkpoint_effect_operation"@.len() == 27);
    assert("checkpoint_status_state"@.len() == 23);
    assert("process_replaced"@.len() == 16);
    assert("restored_from_postgres"@.len() == 22);
    assert("exact_known_replay"@.len() == 18);
    assert("duplicate_external_effects"@.len() == 26);
}

} // verus!
