//! Submarine swaps: the requester locks coins and the provider pays an invoice.

use vstd::prelude::*;
use crate::answer::{answers, closes};
use crate::amount::OUTPUT_AMOUNT_SAT;
use crate::contract::{
    BitcoinTerms, after_fee, amount_after_fee, bitcoin_terms, checkpoint_external_identifier,
    external_identifier_reading, known_transaction_reading, terms_reading,
    verify_known_bitcoin_transaction,
};
use crate::control::FundedCheckpoint;
use crate::journey::HarnessInjection;
use crate::json::{Json, JsonObject, JsonView, no_members, number_doc, text_doc};
use crate::lifecycle::{status_transaction_id, transaction_reading};
use crate::machine::{
    Action, ActionView, CloseCheck, CloseCheckView, INVOICE_EXPIRY_SECONDS, LightningView, Reply,
    ReplyView, Task, blocks_until, count_blocks_until, effect_details, effect_doc, height_reading,
    lemma_milestone, lemma_ranks_rise, narrow_height, perform, perform_with, perform_with_four,
    perform_with_three, perform_with_two, wrong_reply, wrong_reply_text,
};
use crate::order::wants_zero_confirmation;
use crate::payment::{finalize_invoice_unpaid, removal_reading};
use crate::planner::{Plan, PlanView, refund_standing, show_refund};
use crate::record::{Event, RecordKinds};
use crate::status::{is_provider_word, provider_said};
use crate::terminal::LightningTerminalCheck;
use crate::text::{decimal, decimal_text, join, same_text};

verus! {

/// Whether a fault is one that a conflicting transaction brings about.
pub open spec fn proves_conflict(injection: Option<HarnessInjection>) -> bool {
    ||| injection == Some(HarnessInjection::RbfConflict)
    ||| injection == Some(HarnessInjection::ZeroConfRbfReplacement)
    ||| injection == Some(HarnessInjection::ZeroConfDoubleSpend)
    ||| injection == Some(HarnessInjection::ZeroConfAncestorEviction)
}

/// Whether the provider has said that they settled, or are about to.
pub open spec fn provider_settled(
    records: Seq<Event>,
    kinds: RecordKinds,
    provider: Seq<char>,
) -> bool {
    exists|i: int|
        0 <= i < records.len() && (is_provider_word(
            #[trigger] records[i],
            kinds,
            provider,
            "lightning_paid"@,
        ) || is_provider_word(records[i], kinds, provider, "provider_claim_pending"@)
            || is_provider_word(records[i], kinds, provider, "provider_claimed"@))
}

fn some_settlement(records: &Vec<Event>, kinds: RecordKinds, provider: &str) -> (found: bool)
    ensures
        found == provider_settled(records@, kinds, provider@),
{
    provider_said(records, kinds, provider, "lightning_paid") || provider_said(
        records,
        kinds,
        provider,
        "provider_claim_pending",
    ) || provider_said(records, kinds, provider, "provider_claimed")
}

/// The phases of a submarine swap, in their order.
#[derive(Clone, Copy, Debug, PartialEq, Eq, Structural)]
pub enum SubmarinePhase {
    CreateInvoice,
    PrepareOrder,
    AwaitAccepted,
    AwaitLockTerms,
    TakeFunding,
    AuthorizeFunding,
    KeepAuthorization,
    Diverted,
    SayVerified,
    DeriveFundingId,
    KeepReady,
    BroadcastFunding,
    CheckFundingId,
    BroadcastAgain,
    RecordFunding,
    RequireFundingKnown,
    SayFunding,
    PauseFunding,
    MineFunding,
    AwaitObserved,
    AwaitFinal,
    AwaitPaymentPending,
    AwaitPaid,
    AwaitClaimPending,
    PauseClaim,
    AwaitClaimPropagated,
    MineClaim,
    AwaitClaimed,
    AwaitCompleted,
    AwaitClose,
    KeepResult,
    Finished,
}

impl SubmarinePhase {
    /// The place of the phase in their order.
    pub open spec fn rank(self) -> int {
        match self {
            SubmarinePhase::CreateInvoice => 0,
            SubmarinePhase::PrepareOrder => 1,
            SubmarinePhase::AwaitAccepted => 2,
            SubmarinePhase::AwaitLockTerms => 3,
            SubmarinePhase::TakeFunding => 4,
            SubmarinePhase::AuthorizeFunding => 5,
            SubmarinePhase::KeepAuthorization => 6,
            SubmarinePhase::Diverted => 7,
            SubmarinePhase::SayVerified => 8,
            SubmarinePhase::DeriveFundingId => 9,
            SubmarinePhase::KeepReady => 10,
            SubmarinePhase::BroadcastFunding => 11,
            SubmarinePhase::CheckFundingId => 12,
            SubmarinePhase::BroadcastAgain => 13,
            SubmarinePhase::RecordFunding => 14,
            SubmarinePhase::RequireFundingKnown => 15,
            SubmarinePhase::SayFunding => 16,
            SubmarinePhase::PauseFunding => 17,
            SubmarinePhase::MineFunding => 18,
            SubmarinePhase::AwaitObserved => 19,
            SubmarinePhase::AwaitFinal => 20,
            SubmarinePhase::AwaitPaymentPending => 21,
            SubmarinePhase::AwaitPaid => 22,
            SubmarinePhase::AwaitClaimPending => 23,
            SubmarinePhase::PauseClaim => 24,
            SubmarinePhase::AwaitClaimPropagated => 25,
            SubmarinePhase::MineClaim => 26,
            SubmarinePhase::AwaitClaimed => 27,
            SubmarinePhase::AwaitCompleted => 28,
            SubmarinePhase::AwaitClose => 29,
            SubmarinePhase::KeepResult => 30,
            SubmarinePhase::Finished => 31,
        }
    }
}

/// A submarine swap: the requester locks coins and the provider pays an invoice.
pub struct SubmarineRun {
    pub phase: SubmarinePhase,
    pub confirmations: u64,
    pub injection: Option<HarnessInjection>,
    pub payment_hash: String,
    pub invoice: String,
    pub order_id: String,
    pub contract: Json,
    pub lockup_txid: String,
    pub lockup_output: u32,
    pub funding_hex: String,
    pub resumed: bool,
    pub claim_txid: String,
}

/// A submarine swap: the requester locks coins and the provider pays an invoice.
#[verifier::ext_equal]
pub struct SubmarineRunView {
    pub phase: SubmarinePhase,
    pub confirmations: u64,
    pub injection: Option<HarnessInjection>,
    pub payment_hash: Seq<char>,
    pub invoice: Seq<char>,
    pub order_id: Seq<char>,
    pub contract: JsonView,
    pub lockup_txid: Seq<char>,
    pub lockup_output: u32,
    pub funding_hex: Seq<char>,
    pub resumed: bool,
    pub claim_txid: Seq<char>,
}

impl View for SubmarineRun {
    type V = SubmarineRunView;

    open spec fn view(&self) -> SubmarineRunView {
        SubmarineRunView {
            phase: self.phase,
            confirmations: self.confirmations,
            injection: self.injection,
            payment_hash: self.payment_hash@,
            invoice: self.invoice@,
            order_id: self.order_id@,
            contract: self.contract@,
            lockup_txid: self.lockup_txid@,
            lockup_output: self.lockup_output,
            funding_hex: self.funding_hex@,
            resumed: self.resumed,
            claim_txid: self.claim_txid@,
        }
    }
}

/// What a submarine swap asks for next.
pub open spec fn submarine_action(run: SubmarineRunView) -> ActionView {
    match run.phase {
        SubmarinePhase::CreateInvoice => ActionView::Perform(
            Task::CreateInvoice,
            seq![
                "immortal-funded-submarine"@,
                decimal(OUTPUT_AMOUNT_SAT as nat),
                "Immortal funded smoke submarine"@,
                decimal(INVOICE_EXPIRY_SECONDS as nat),
            ],
        ),
        SubmarinePhase::PrepareOrder => ActionView::Perform(
            Task::PrepareOrder,
            seq![run.payment_hash, run.invoice],
        ),
        SubmarinePhase::AwaitAccepted => ActionView::AwaitState("accepted"@),
        SubmarinePhase::AwaitLockTerms => ActionView::AwaitState("lock_terms_ready"@),
        SubmarinePhase::TakeFunding => ActionView::Perform(Task::TakeFunding, seq![]),
        SubmarinePhase::AuthorizeFunding => ActionView::Perform(
            Task::AuthorizeFunding,
            seq![run.invoice],
        ),
        SubmarinePhase::KeepAuthorization => ActionView::Perform(Task::KeepAuthorization, seq![]),
        SubmarinePhase::Diverted => ActionView::Finish,
        SubmarinePhase::SayVerified => ActionView::Say(
            "requester_verification_passed"@,
            no_members(),
        ),
        SubmarinePhase::DeriveFundingId => ActionView::Perform(Task::DeriveFundingId, seq![]),
        SubmarinePhase::KeepReady => ActionView::Keep(
            "funding_execution_ready"@,
            effect_doc(run.lockup_txid),
        ),
        SubmarinePhase::BroadcastFunding => ActionView::Perform(
            Task::BroadcastBitcoin,
            seq!["submarine-funding"@, run.funding_hex, run.lockup_txid],
        ),
        SubmarinePhase::CheckFundingId => ActionView::Perform(Task::DeriveFundingId, seq![]),
        SubmarinePhase::BroadcastAgain => ActionView::Perform(
            Task::BroadcastBitcoin,
            seq!["submarine-funding-resume"@, run.funding_hex, run.lockup_txid],
        ),
        SubmarinePhase::RecordFunding => ActionView::Perform(
            Task::RecordFundingEffect,
            seq![run.lockup_txid, run.funding_hex, "text"@],
        ),
        SubmarinePhase::RequireFundingKnown => ActionView::Perform(
            Task::RequireKnownTransaction,
            seq!["submarine-funding-recorded"@, run.lockup_txid, run.funding_hex],
        ),
        SubmarinePhase::SayFunding => ActionView::Say(
            "requester_funding_broadcast"@,
            no_members().insert("transaction_id"@, text_doc(run.lockup_txid)).insert(
                "output_index"@,
                number_doc(0),
            ),
        ),
        SubmarinePhase::PauseFunding => ActionView::Pause(
            "funding_reorg_control"@,
            effect_doc(run.lockup_txid),
        ),
        SubmarinePhase::MineFunding => ActionView::Mine("bitcoin"@, 1, "submarine-funding"@),
        SubmarinePhase::AwaitObserved => ActionView::AwaitState("funding_observed"@),
        SubmarinePhase::AwaitFinal => ActionView::AwaitState("funding_final"@),
        SubmarinePhase::AwaitPaymentPending => ActionView::AwaitState("lightning_payment_pending"@),
        SubmarinePhase::AwaitPaid => ActionView::AwaitState("lightning_paid"@),
        SubmarinePhase::AwaitClaimPending => ActionView::AwaitState("provider_claim_pending"@),
        SubmarinePhase::PauseClaim => ActionView::Pause(
            "claim_reorg_control"@,
            effect_doc(run.claim_txid),
        ),
        SubmarinePhase::AwaitClaimPropagated => ActionView::AwaitTransaction(
            "bitcoin"@,
            run.claim_txid,
            "submarine-claim"@,
        ),
        SubmarinePhase::MineClaim => ActionView::Mine(
            "bitcoin"@,
            run.confirmations,
            "submarine-claim"@,
        ),
        SubmarinePhase::AwaitClaimed => ActionView::AwaitState("provider_claimed"@),
        SubmarinePhase::AwaitCompleted => ActionView::AwaitState("completed"@),
        SubmarinePhase::AwaitClose => ActionView::AwaitClose(
            CloseCheckView {
                outcome: "completed"@,
                bitcoin: Some(run.claim_txid),
                liquid: None,
                lightning: Some(LightningView::Incoming(run.payment_hash)),
            },
        ),
        SubmarinePhase::KeepResult => ActionView::Keep(
            "completed"@,
            JsonView::Object(no_members().insert("result"@, submarine_result(run))),
        ),
        SubmarinePhase::Finished => ActionView::Finish,
    }
}

/// Where a reply takes a submarine swap.
pub open spec fn submarine_step(run: SubmarineRunView, reply: ReplyView) -> Result<
    SubmarineRunView,
    Seq<char>,
> {
    match (run.phase, reply) {
        (SubmarinePhase::CreateInvoice, ReplyView::Texts(texts)) => {
            if texts.len() != 2 {
                Err(wrong_reply())
            } else {
                Ok(
                    SubmarineRunView {
                        phase: SubmarinePhase::PrepareOrder,
                        payment_hash: texts[0],
                        invoice: texts[1],
                        ..run
                    },
                )
            }
        },
        (SubmarinePhase::PrepareOrder, ReplyView::Session { order_id, contract }) => Ok(
            SubmarineRunView {
                phase: SubmarinePhase::AwaitAccepted,
                order_id: order_id,
                contract: contract,
                ..run
            },
        ),
        (SubmarinePhase::AwaitAccepted, ReplyView::Record { .. }) => Ok(
            SubmarineRunView { phase: SubmarinePhase::AwaitLockTerms, ..run },
        ),
        (SubmarinePhase::AwaitLockTerms, ReplyView::Record { .. }) => Ok(
            SubmarineRunView { phase: SubmarinePhase::TakeFunding, ..run },
        ),
        (SubmarinePhase::TakeFunding, ReplyView::Funding { receipt, id, output_index, hex }) => Ok(
            SubmarineRunView {
                phase: SubmarinePhase::AuthorizeFunding,
                lockup_txid: id,
                lockup_output: output_index,
                funding_hex: hex,
                ..run
            },
        ),
        (SubmarinePhase::TakeFunding, ReplyView::Done) => Err(
            "submarine session has no contract-bound funding transaction"@,
        ),
        (SubmarinePhase::AuthorizeFunding, ReplyView::Done) => Ok(
            SubmarineRunView { phase: SubmarinePhase::KeepAuthorization, ..run },
        ),
        (SubmarinePhase::KeepAuthorization, ReplyView::Done) => {
            if proves_conflict(run.injection) {
                Ok(SubmarineRunView { phase: SubmarinePhase::Diverted, ..run })
            } else {
                Ok(SubmarineRunView { phase: SubmarinePhase::SayVerified, ..run })
            }
        },
        (SubmarinePhase::SayVerified, ReplyView::Record { .. }) => {
            if run.resumed {
                Ok(SubmarineRunView { phase: SubmarinePhase::DeriveFundingId, ..run })
            } else {
                Ok(SubmarineRunView { phase: SubmarinePhase::KeepReady, ..run })
            }
        },
        (SubmarinePhase::DeriveFundingId, ReplyView::Texts(texts)) => {
            if texts.len() != 1 {
                Err(wrong_reply())
            } else {
                Ok(
                    SubmarineRunView {
                        phase: SubmarinePhase::KeepReady,
                        lockup_txid: texts[0],
                        ..run
                    },
                )
            }
        },
        (SubmarinePhase::KeepReady, ReplyView::Done) => Ok(
            SubmarineRunView { phase: SubmarinePhase::BroadcastFunding, ..run },
        ),
        (SubmarinePhase::BroadcastFunding, ReplyView::Done) => Ok(
            SubmarineRunView { phase: SubmarinePhase::RecordFunding, ..run },
        ),
        (SubmarinePhase::CheckFundingId, ReplyView::Texts(texts)) => {
            if texts.len() != 1 {
                Err(wrong_reply())
            } else if texts[0] != run.lockup_txid {
                Err("persisted funding checkpoint binds another transaction"@)
            } else {
                Ok(SubmarineRunView { phase: SubmarinePhase::BroadcastAgain, ..run })
            }
        },
        (SubmarinePhase::BroadcastAgain, ReplyView::Done) => Ok(
            SubmarineRunView { phase: SubmarinePhase::RecordFunding, ..run },
        ),
        (SubmarinePhase::RecordFunding, ReplyView::Done) => Ok(
            SubmarineRunView { phase: SubmarinePhase::SayFunding, ..run },
        ),
        (SubmarinePhase::RequireFundingKnown, ReplyView::Document(Some(report))) => match known_transaction_reading(
            report,
            run.lockup_txid,
            Some(run.funding_hex),
        ) {
            Err(message) => Err(message),
            Ok(known) => Ok(SubmarineRunView { phase: SubmarinePhase::SayFunding, ..run }),
        },
        (SubmarinePhase::SayFunding, ReplyView::Record { .. }) => {
            if run.injection == Some(HarnessInjection::FundingReorg) {
                Ok(SubmarineRunView { phase: SubmarinePhase::PauseFunding, ..run })
            } else {
                Ok(SubmarineRunView { phase: SubmarinePhase::MineFunding, ..run })
            }
        },
        (SubmarinePhase::PauseFunding, ReplyView::Done) => Ok(
            SubmarineRunView { phase: SubmarinePhase::AwaitObserved, ..run },
        ),
        (SubmarinePhase::MineFunding, ReplyView::Done) => Ok(
            SubmarineRunView { phase: SubmarinePhase::AwaitObserved, ..run },
        ),
        (SubmarinePhase::AwaitObserved, ReplyView::Record { .. }) => Ok(
            SubmarineRunView { phase: SubmarinePhase::AwaitFinal, ..run },
        ),
        (SubmarinePhase::AwaitFinal, ReplyView::Record { .. }) => Ok(
            SubmarineRunView { phase: SubmarinePhase::AwaitPaymentPending, ..run },
        ),
        (SubmarinePhase::AwaitPaymentPending, ReplyView::Record { .. }) => Ok(
            SubmarineRunView { phase: SubmarinePhase::AwaitPaid, ..run },
        ),
        (SubmarinePhase::AwaitPaid, ReplyView::Record { .. }) => Ok(
            SubmarineRunView { phase: SubmarinePhase::AwaitClaimPending, ..run },
        ),
        (SubmarinePhase::AwaitClaimPending, ReplyView::Record { id, pubkey, tags, content, .. }) => match transaction_reading(
            content,
        ) {
            Err(message) => Err(message),
            Ok(found) => {
                if run.injection == Some(HarnessInjection::ClaimReorg) {
                    Ok(
                        SubmarineRunView {
                            phase: SubmarinePhase::PauseClaim,
                            claim_txid: found,
                            ..run
                        },
                    )
                } else {
                    Ok(
                        SubmarineRunView {
                            phase: SubmarinePhase::AwaitClaimPropagated,
                            claim_txid: found,
                            ..run
                        },
                    )
                }
            },
        },
        (SubmarinePhase::PauseClaim, ReplyView::Done) => Ok(
            SubmarineRunView { phase: SubmarinePhase::AwaitClaimPropagated, ..run },
        ),
        (SubmarinePhase::AwaitClaimPropagated, ReplyView::Done) => Ok(
            SubmarineRunView { phase: SubmarinePhase::MineClaim, ..run },
        ),
        (SubmarinePhase::MineClaim, ReplyView::Done) => Ok(
            SubmarineRunView { phase: SubmarinePhase::AwaitClaimed, ..run },
        ),
        (SubmarinePhase::AwaitClaimed, ReplyView::Record { .. }) => Ok(
            SubmarineRunView { phase: SubmarinePhase::AwaitCompleted, ..run },
        ),
        (SubmarinePhase::AwaitCompleted, ReplyView::Record { .. }) => Ok(
            SubmarineRunView { phase: SubmarinePhase::AwaitClose, ..run },
        ),
        (SubmarinePhase::AwaitClose, ReplyView::Record { .. }) => Ok(
            SubmarineRunView { phase: SubmarinePhase::KeepResult, ..run },
        ),
        (SubmarinePhase::KeepResult, ReplyView::Done) => Ok(
            SubmarineRunView { phase: SubmarinePhase::Finished, ..run },
        ),
        _ => Err(wrong_reply()),
    }
}

impl SubmarineRun {
    /// A submarine swap before its first action.
    pub fn new(confirmations: u64, injection: Option<HarnessInjection>) -> (run: SubmarineRun)
        ensures
            run@.phase == SubmarinePhase::CreateInvoice,
            run@.confirmations == confirmations,
            run@.injection == injection,
            run@.payment_hash == Seq::<char>::empty(),
            run@.invoice == Seq::<char>::empty(),
            run@.order_id == Seq::<char>::empty(),
            run@.contract == JsonView::Null,
            run@.lockup_txid == Seq::<char>::empty(),
            run@.lockup_output == 0,
            run@.funding_hex == Seq::<char>::empty(),
            run@.resumed == false,
            run@.claim_txid == Seq::<char>::empty(),
    {
        SubmarineRun {
            phase: SubmarinePhase::CreateInvoice,
            confirmations,
            injection,
            payment_hash: String::new(),
            invoice: String::new(),
            order_id: String::new(),
            contract: Json::null(),
            lockup_txid: String::new(),
            lockup_output: 0,
            funding_hex: String::new(),
            resumed: false,
            claim_txid: String::new(),
        }
    }

    /// What the journey asks for next.
    pub fn action(&self) -> (action: Action)
        ensures
            action@ == submarine_action(self@),
    {
        match self.phase {
            SubmarinePhase::CreateInvoice => perform_with_four(
                Task::CreateInvoice,
                "immortal-funded-submarine",
                decimal_text(OUTPUT_AMOUNT_SAT).as_str(),
                "Immortal funded smoke submarine",
                decimal_text(INVOICE_EXPIRY_SECONDS).as_str(),
            ),
            SubmarinePhase::PrepareOrder => perform_with_two(
                Task::PrepareOrder,
                self.payment_hash.as_str(),
                self.invoice.as_str(),
            ),
            SubmarinePhase::AwaitAccepted => Action::AwaitState("accepted"),
            SubmarinePhase::AwaitLockTerms => Action::AwaitState("lock_terms_ready"),
            SubmarinePhase::TakeFunding => perform(Task::TakeFunding),
            SubmarinePhase::AuthorizeFunding => perform_with(
                Task::AuthorizeFunding,
                self.invoice.as_str(),
            ),
            SubmarinePhase::KeepAuthorization => perform(Task::KeepAuthorization),
            SubmarinePhase::Diverted => Action::Finish,
            SubmarinePhase::SayVerified => Action::Say(
                "requester_verification_passed",
                JsonObject::new(),
            ),
            SubmarinePhase::DeriveFundingId => perform(Task::DeriveFundingId),
            SubmarinePhase::KeepReady => Action::Keep(
                "funding_execution_ready",
                effect_details(self.lockup_txid.as_str()),
            ),
            SubmarinePhase::BroadcastFunding => perform_with_three(
                Task::BroadcastBitcoin,
                "submarine-funding",
                self.funding_hex.as_str(),
                self.lockup_txid.as_str(),
            ),
            SubmarinePhase::CheckFundingId => perform(Task::DeriveFundingId),
            SubmarinePhase::BroadcastAgain => perform_with_three(
                Task::BroadcastBitcoin,
                "submarine-funding-resume",
                self.funding_hex.as_str(),
                self.lockup_txid.as_str(),
            ),
            SubmarinePhase::RecordFunding => perform_with_three(
                Task::RecordFundingEffect,
                self.lockup_txid.as_str(),
                self.funding_hex.as_str(),
                "text",
            ),
            SubmarinePhase::RequireFundingKnown => perform_with_three(
                Task::RequireKnownTransaction,
                "submarine-funding-recorded",
                self.lockup_txid.as_str(),
                self.funding_hex.as_str(),
            ),
            SubmarinePhase::SayFunding => Action::Say(
                "requester_funding_broadcast",
                JsonObject::new().with_text(
                    "transaction_id",
                    self.lockup_txid.as_str(),
                ).with_number("output_index", 0),
            ),
            SubmarinePhase::PauseFunding => Action::Pause(
                "funding_reorg_control",
                effect_details(self.lockup_txid.as_str()),
            ),
            SubmarinePhase::MineFunding => Action::Mine(
                "bitcoin".to_owned(),
                1,
                "submarine-funding",
            ),
            SubmarinePhase::AwaitObserved => Action::AwaitState("funding_observed"),
            SubmarinePhase::AwaitFinal => Action::AwaitState("funding_final"),
            SubmarinePhase::AwaitPaymentPending => Action::AwaitState("lightning_payment_pending"),
            SubmarinePhase::AwaitPaid => Action::AwaitState("lightning_paid"),
            SubmarinePhase::AwaitClaimPending => Action::AwaitState("provider_claim_pending"),
            SubmarinePhase::PauseClaim => Action::Pause(
                "claim_reorg_control",
                effect_details(self.claim_txid.as_str()),
            ),
            SubmarinePhase::AwaitClaimPropagated => Action::AwaitTransaction(
                "bitcoin".to_owned(),
                self.claim_txid.clone(),
                "submarine-claim",
            ),
            SubmarinePhase::MineClaim => Action::Mine(
                "bitcoin".to_owned(),
                self.confirmations,
                "submarine-claim",
            ),
            SubmarinePhase::AwaitClaimed => Action::AwaitState("provider_claimed"),
            SubmarinePhase::AwaitCompleted => Action::AwaitState("completed"),
            SubmarinePhase::AwaitClose => Action::AwaitClose(
                CloseCheck {
                    outcome: "completed",
                    bitcoin: Some(self.claim_txid.clone()),
                    liquid: None,
                    lightning: Some(
                        LightningTerminalCheck::IncomingInvoice {
                            payment_hash: self.payment_hash.clone(),
                        },
                    ),
                },
            ),
            SubmarinePhase::KeepResult => Action::Keep(
                "completed",
                Json::object(JsonObject::new().with("result", self.result_document())),
            ),
            SubmarinePhase::Finished => Action::Finish,
        }
    }

    /// Takes a reply: the journey goes on to its next phase, or ends with a message.
    #[verifier::rlimit(90)]
    pub fn advance(&mut self, reply: Reply) -> (moved: Result<(), String>)
        ensures
            match moved {
                Ok(_) => submarine_step(old(self)@, reply@) == Ok::<SubmarineRunView, Seq<char>>(
                    final(self)@,
                ),
                Err(message) => {
                    &&& submarine_step(old(self)@, reply@) == Err::<SubmarineRunView, Seq<char>>(
                        message@,
                    )
                    &&& final(self)@ == old(self)@
                },
            },
    {
        match (self.phase, reply) {
            (SubmarinePhase::CreateInvoice, Reply::Texts(texts)) => {
                if texts.len() != 2 {
                    return Err(wrong_reply_text());
                }
                self.payment_hash = texts[0].clone();
                self.invoice = texts[1].clone();
                self.phase = SubmarinePhase::PrepareOrder;
                Ok(())
            },
            (SubmarinePhase::PrepareOrder, Reply::Session { order_id, contract }) => {
                self.order_id = order_id;
                self.contract = contract;
                self.phase = SubmarinePhase::AwaitAccepted;
                Ok(())
            },
            (SubmarinePhase::AwaitAccepted, Reply::Record(_)) => {
                self.phase = SubmarinePhase::AwaitLockTerms;
                Ok(())
            },
            (SubmarinePhase::AwaitLockTerms, Reply::Record(_)) => {
                self.phase = SubmarinePhase::TakeFunding;
                Ok(())
            },
            (SubmarinePhase::TakeFunding, Reply::Funding { receipt: _, id, output_index, hex }) => {
                self.lockup_txid = id;
                self.lockup_output = output_index;
                self.funding_hex = hex;
                self.phase = SubmarinePhase::AuthorizeFunding;
                Ok(())
            },
            (SubmarinePhase::TakeFunding, Reply::Done) => {
                Err("submarine session has no contract-bound funding transaction".to_owned())
            },
            (SubmarinePhase::AuthorizeFunding, Reply::Done) => {
                self.phase = SubmarinePhase::KeepAuthorization;
                Ok(())
            },
            (SubmarinePhase::KeepAuthorization, Reply::Done) => {
                self.phase = if self.proves_conflict() {
                    SubmarinePhase::Diverted
                } else {
                    SubmarinePhase::SayVerified
                };
                Ok(())
            },
            (SubmarinePhase::SayVerified, Reply::Record(_)) => {
                self.phase = if self.resumed {
                    SubmarinePhase::DeriveFundingId
                } else {
                    SubmarinePhase::KeepReady
                };
                Ok(())
            },
            (SubmarinePhase::DeriveFundingId, Reply::Texts(texts)) => {
                if texts.len() != 1 {
                    return Err(wrong_reply_text());
                }
                self.lockup_txid = texts[0].clone();
                self.phase = SubmarinePhase::KeepReady;
                Ok(())
            },
            (SubmarinePhase::KeepReady, Reply::Done) => {
                self.phase = SubmarinePhase::BroadcastFunding;
                Ok(())
            },
            (SubmarinePhase::BroadcastFunding, Reply::Done) => {
                self.phase = SubmarinePhase::RecordFunding;
                Ok(())
            },
            (SubmarinePhase::CheckFundingId, Reply::Texts(texts)) => {
                if texts.len() != 1 {
                    return Err(wrong_reply_text());
                }
                if !same_text(texts[0].as_str(), self.lockup_txid.as_str()) {
                    return Err("persisted funding checkpoint binds another transaction".to_owned());
                }
                self.phase = SubmarinePhase::BroadcastAgain;
                Ok(())
            },
            (SubmarinePhase::BroadcastAgain, Reply::Done) => {
                self.phase = SubmarinePhase::RecordFunding;
                Ok(())
            },
            (SubmarinePhase::RecordFunding, Reply::Done) => {
                self.phase = SubmarinePhase::SayFunding;
                Ok(())
            },
            (SubmarinePhase::RequireFundingKnown, Reply::Document(Some(report))) => {
                let known: () = verify_known_bitcoin_transaction(
                    &report,
                    self.lockup_txid.as_str(),
                    Some(self.funding_hex.as_str()),
                )?;
                self.phase = SubmarinePhase::SayFunding;
                Ok(())
            },
            (SubmarinePhase::SayFunding, Reply::Record(_)) => {
                self.phase = if self.injection == Some(HarnessInjection::FundingReorg) {
                    SubmarinePhase::PauseFunding
                } else {
                    SubmarinePhase::MineFunding
                };
                Ok(())
            },
            (SubmarinePhase::PauseFunding, Reply::Done) => {
                self.phase = SubmarinePhase::AwaitObserved;
                Ok(())
            },
            (SubmarinePhase::MineFunding, Reply::Done) => {
                self.phase = SubmarinePhase::AwaitObserved;
                Ok(())
            },
            (SubmarinePhase::AwaitObserved, Reply::Record(_)) => {
                self.phase = SubmarinePhase::AwaitFinal;
                Ok(())
            },
            (SubmarinePhase::AwaitFinal, Reply::Record(_)) => {
                self.phase = SubmarinePhase::AwaitPaymentPending;
                Ok(())
            },
            (SubmarinePhase::AwaitPaymentPending, Reply::Record(_)) => {
                self.phase = SubmarinePhase::AwaitPaid;
                Ok(())
            },
            (SubmarinePhase::AwaitPaid, Reply::Record(_)) => {
                self.phase = SubmarinePhase::AwaitClaimPending;
                Ok(())
            },
            (SubmarinePhase::AwaitClaimPending, Reply::Record(event)) => {
                let found: String = status_transaction_id(&event)?;
                self.claim_txid = found;
                self.phase = if self.injection == Some(HarnessInjection::ClaimReorg) {
                    SubmarinePhase::PauseClaim
                } else {
                    SubmarinePhase::AwaitClaimPropagated
                };
                Ok(())
            },
            (SubmarinePhase::PauseClaim, Reply::Done) => {
                self.phase = SubmarinePhase::AwaitClaimPropagated;
                Ok(())
            },
            (SubmarinePhase::AwaitClaimPropagated, Reply::Done) => {
                self.phase = SubmarinePhase::MineClaim;
                Ok(())
            },
            (SubmarinePhase::MineClaim, Reply::Done) => {
                self.phase = SubmarinePhase::AwaitClaimed;
                Ok(())
            },
            (SubmarinePhase::AwaitClaimed, Reply::Record(_)) => {
                self.phase = SubmarinePhase::AwaitCompleted;
                Ok(())
            },
            (SubmarinePhase::AwaitCompleted, Reply::Record(_)) => {
                self.phase = SubmarinePhase::AwaitClose;
                Ok(())
            },
            (SubmarinePhase::AwaitClose, Reply::Record(_)) => {
                self.phase = SubmarinePhase::KeepResult;
                Ok(())
            },
            (SubmarinePhase::KeepResult, Reply::Done) => {
                self.phase = SubmarinePhase::Finished;
                Ok(())
            },
            _ => Err(wrong_reply_text()),
        }
    }
}

/// Whether each entry of a trace leads to the one after it, from the first phase on.
pub open spec fn is_submarine_trace(trace: Seq<(SubmarineRunView, ReplyView)>) -> bool {
    &&& trace.len() > 0
    &&& trace[0].0.phase == SubmarinePhase::CreateInvoice
    &&& forall|i: int|
        0 <= i < trace.len() - 1 ==> submarine_step((#[trigger] trace[i]).0, trace[i].1) == Ok::<
            SubmarineRunView,
            Seq<char>,
        >(trace[i + 1].0)
}

/// Each reply takes a submarine swap forward, never back and never in place.
#[verifier::rlimit(90)]
pub proof fn law_submarine_moves_forward(run: SubmarineRunView, reply: ReplyView)
    requires
        submarine_step(run, reply) is Ok,
    ensures
        run.phase.rank() < submarine_step(run, reply)->Ok_0.phase.rank(),
{
}

/// Which replies take a submarine swap on, and to which phase: in each phase exactly the replies
/// that pass every check of that phase, and no others.
pub proof fn law_submarine_goes_on_only_when_answered(run: SubmarineRunView, reply: ReplyView)
    ensures
        ({
            let next = submarine_step(run, reply);
            match run.phase {
                SubmarinePhase::CreateInvoice => {
                    &&& next is Ok <==> {
                        &&& reply is Texts
                        &&& reply->Texts_0.len() == 2
                    }
                    &&& next is Ok ==> next->Ok_0.phase == SubmarinePhase::PrepareOrder
                },
                SubmarinePhase::PrepareOrder => {
                    &&& next is Ok <==> reply is Session
                    &&& next is Ok ==> next->Ok_0.phase == SubmarinePhase::AwaitAccepted
                },
                SubmarinePhase::AwaitAccepted => {
                    &&& next is Ok <==> reply is Record
                    &&& next is Ok ==> next->Ok_0.phase == SubmarinePhase::AwaitLockTerms
                },
                SubmarinePhase::AwaitLockTerms => {
                    &&& next is Ok <==> reply is Record
                    &&& next is Ok ==> next->Ok_0.phase == SubmarinePhase::TakeFunding
                },
                SubmarinePhase::TakeFunding => {
                    &&& next is Ok <==> reply is Funding
                    &&& next is Ok ==> next->Ok_0.phase == SubmarinePhase::AuthorizeFunding
                },
                SubmarinePhase::AuthorizeFunding => {
                    &&& next is Ok <==> reply is Done
                    &&& next is Ok ==> next->Ok_0.phase == SubmarinePhase::KeepAuthorization
                },
                SubmarinePhase::KeepAuthorization => {
                    let case_1 = proves_conflict(run.injection);
                    let case_2 = !(proves_conflict(run.injection));
                    &&& next is Ok <==> {
                        &&& reply is Done
                        &&& (case_1 || case_2)
                    }
                    &&& next is Ok && case_1 ==> next->Ok_0.phase == SubmarinePhase::Diverted
                    &&& next is Ok && case_2 ==> next->Ok_0.phase == SubmarinePhase::SayVerified
                },
                SubmarinePhase::Diverted => next is Err,
                SubmarinePhase::SayVerified => {
                    let case_1 = run.resumed;
                    let case_2 = !(run.resumed);
                    &&& next is Ok <==> {
                        &&& reply is Record
                        &&& (case_1 || case_2)
                    }
                    &&& next is Ok && case_1 ==> next->Ok_0.phase == SubmarinePhase::DeriveFundingId
                    &&& next is Ok && case_2 ==> next->Ok_0.phase == SubmarinePhase::KeepReady
                },
                SubmarinePhase::DeriveFundingId => {
                    &&& next is Ok <==> {
                        &&& reply is Texts
                        &&& reply->Texts_0.len() == 1
                    }
                    &&& next is Ok ==> next->Ok_0.phase == SubmarinePhase::KeepReady
                },
                SubmarinePhase::KeepReady => {
                    &&& next is Ok <==> reply is Done
                    &&& next is Ok ==> next->Ok_0.phase == SubmarinePhase::BroadcastFunding
                },
                SubmarinePhase::BroadcastFunding => {
                    &&& next is Ok <==> reply is Done
                    &&& next is Ok ==> next->Ok_0.phase == SubmarinePhase::RecordFunding
                },
                SubmarinePhase::CheckFundingId => {
                    &&& next is Ok <==> {
                        &&& reply is Texts
                        &&& reply->Texts_0.len() == 1
                        &&& reply->Texts_0[0] == run.lockup_txid
                    }
                    &&& next is Ok ==> next->Ok_0.phase == SubmarinePhase::BroadcastAgain
                },
                SubmarinePhase::BroadcastAgain => {
                    &&& next is Ok <==> reply is Done
                    &&& next is Ok ==> next->Ok_0.phase == SubmarinePhase::RecordFunding
                },
                SubmarinePhase::RecordFunding => {
                    &&& next is Ok <==> reply is Done
                    &&& next is Ok ==> next->Ok_0.phase == SubmarinePhase::SayFunding
                },
                SubmarinePhase::RequireFundingKnown => {
                    &&& next is Ok <==> {
                        &&& reply is Document
                        &&& reply->Document_0 is Some
                        &&& known_transaction_reading(
                            reply->Document_0->0,
                            run.lockup_txid,
                            Some(run.funding_hex),
                        ) is Ok
                    }
                    &&& next is Ok ==> next->Ok_0.phase == SubmarinePhase::SayFunding
                },
                SubmarinePhase::SayFunding => {
                    let case_1 = run.injection == Some(HarnessInjection::FundingReorg);
                    let case_2 = run.injection != Some(HarnessInjection::FundingReorg);
                    &&& next is Ok <==> {
                        &&& reply is Record
                        &&& (case_1 || case_2)
                    }
                    &&& next is Ok && case_1 ==> next->Ok_0.phase == SubmarinePhase::PauseFunding
                    &&& next is Ok && case_2 ==> next->Ok_0.phase == SubmarinePhase::MineFunding
                },
                SubmarinePhase::PauseFunding => {
                    &&& next is Ok <==> reply is Done
                    &&& next is Ok ==> next->Ok_0.phase == SubmarinePhase::AwaitObserved
                },
                SubmarinePhase::MineFunding => {
                    &&& next is Ok <==> reply is Done
                    &&& next is Ok ==> next->Ok_0.phase == SubmarinePhase::AwaitObserved
                },
                SubmarinePhase::AwaitObserved => {
                    &&& next is Ok <==> reply is Record
                    &&& next is Ok ==> next->Ok_0.phase == SubmarinePhase::AwaitFinal
                },
                SubmarinePhase::AwaitFinal => {
                    &&& next is Ok <==> reply is Record
                    &&& next is Ok ==> next->Ok_0.phase == SubmarinePhase::AwaitPaymentPending
                },
                SubmarinePhase::AwaitPaymentPending => {
                    &&& next is Ok <==> reply is Record
                    &&& next is Ok ==> next->Ok_0.phase == SubmarinePhase::AwaitPaid
                },
                SubmarinePhase::AwaitPaid => {
                    &&& next is Ok <==> reply is Record
                    &&& next is Ok ==> next->Ok_0.phase == SubmarinePhase::AwaitClaimPending
                },
                SubmarinePhase::AwaitClaimPending => {
                    let case_1 = run.injection == Some(HarnessInjection::ClaimReorg);
                    let case_2 = run.injection != Some(HarnessInjection::ClaimReorg);
                    &&& next is Ok <==> {
                        &&& reply is Record
                        &&& transaction_reading(reply->Record_content) is Ok
                        &&& (case_1 || case_2)
                    }
                    &&& next is Ok && case_1 ==> next->Ok_0.phase == SubmarinePhase::PauseClaim
                    &&& next is Ok && case_2 ==> next->Ok_0.phase == SubmarinePhase::AwaitClaimPropagated
                },
                SubmarinePhase::PauseClaim => {
                    &&& next is Ok <==> reply is Done
                    &&& next is Ok ==> next->Ok_0.phase == SubmarinePhase::AwaitClaimPropagated
                },
                SubmarinePhase::AwaitClaimPropagated => {
                    &&& next is Ok <==> reply is Done
                    &&& next is Ok ==> next->Ok_0.phase == SubmarinePhase::MineClaim
                },
                SubmarinePhase::MineClaim => {
                    &&& next is Ok <==> reply is Done
                    &&& next is Ok ==> next->Ok_0.phase == SubmarinePhase::AwaitClaimed
                },
                SubmarinePhase::AwaitClaimed => {
                    &&& next is Ok <==> reply is Record
                    &&& next is Ok ==> next->Ok_0.phase == SubmarinePhase::AwaitCompleted
                },
                SubmarinePhase::AwaitCompleted => {
                    &&& next is Ok <==> reply is Record
                    &&& next is Ok ==> next->Ok_0.phase == SubmarinePhase::AwaitClose
                },
                SubmarinePhase::AwaitClose => {
                    &&& next is Ok <==> reply is Record
                    &&& next is Ok ==> next->Ok_0.phase == SubmarinePhase::KeepResult
                },
                SubmarinePhase::KeepResult => {
                    &&& next is Ok <==> reply is Done
                    &&& next is Ok ==> next->Ok_0.phase == SubmarinePhase::Finished
                },
                SubmarinePhase::Finished => next is Err,
            }
        }),
{
}

/// The reply that a trace of a submarine swap holds for a phase.
pub open spec fn submarine_told(
    trace: Seq<(SubmarineRunView, ReplyView)>,
    phase: SubmarinePhase,
) -> ReplyView {
    trace[choose|i: int| 0 <= i < trace.len() && (#[trigger] trace[i]).0.phase == phase].1
}

/// The values that a run of a submarine swap holds, by the replies that gave them: each stays as
/// the reply to one phase gave it, or as the run started with it.
pub open spec fn submarine_holds(
    trace: Seq<(SubmarineRunView, ReplyView)>,
    run: SubmarineRunView,
) -> bool {
    let start = trace[0].0;
    let payment_hash = submarine_told(trace, SubmarinePhase::CreateInvoice)->Texts_0[0];
    let invoice = submarine_told(trace, SubmarinePhase::CreateInvoice)->Texts_0[1];
    let order_id = submarine_told(trace, SubmarinePhase::PrepareOrder)->Session_order_id;
    let contract = submarine_told(trace, SubmarinePhase::PrepareOrder)->Session_contract;
    let lockup_output = submarine_told(trace, SubmarinePhase::TakeFunding)->Funding_output_index;
    let funding_hex = submarine_told(trace, SubmarinePhase::TakeFunding)->Funding_hex;
    let lockup_txid = if start.resumed {
        submarine_told(trace, SubmarinePhase::DeriveFundingId)->Texts_0[0]
    } else { submarine_told(trace, SubmarinePhase::TakeFunding)->Funding_id };
    let claim_txid = transaction_reading(
        submarine_told(trace, SubmarinePhase::AwaitClaimPending)->Record_content,
    )->Ok_0;
    &&& run.confirmations == start.confirmations
    &&& run.injection == start.injection
    &&& run.phase.rank() > SubmarinePhase::CreateInvoice.rank() ==> run.payment_hash == payment_hash
    &&& run.phase.rank() > SubmarinePhase::CreateInvoice.rank() ==> run.invoice == invoice
    &&& run.phase.rank() > SubmarinePhase::PrepareOrder.rank() ==> run.order_id == order_id
    &&& run.phase.rank() > SubmarinePhase::PrepareOrder.rank() ==> run.contract == contract
    &&& run.phase.rank() > SubmarinePhase::DeriveFundingId.rank() ==> run.lockup_txid == lockup_txid
    &&& run.phase.rank() > SubmarinePhase::TakeFunding.rank() ==> run.lockup_output == lockup_output
    &&& run.phase.rank() > SubmarinePhase::TakeFunding.rank() ==> run.funding_hex == funding_hex
    &&& run.resumed == start.resumed
    &&& run.phase.rank() > SubmarinePhase::AwaitClaimPending.rank() ==> run.claim_txid == claim_txid
    &&& run.phase.rank() > SubmarinePhase::TakeFunding.rank() && !start.resumed
        ==> run.lockup_txid == submarine_told(trace, SubmarinePhase::TakeFunding)->Funding_id
    &&& run.phase == SubmarinePhase::DeriveFundingId ==> start.resumed
    &&& !(run.phase is CheckFundingId)
    &&& !(run.phase is BroadcastAgain)
    &&& !(run.phase is RequireFundingKnown)
}

/// No phase of a submarine swap comes twice in a trace.
proof fn lemma_submarine_told_once(trace: Seq<(SubmarineRunView, ReplyView)>, place: int)
    requires
        is_submarine_trace(trace),
        0 <= place < trace.len(),
    ensures
        submarine_told(trace, trace[place].0.phase) == trace[place].1,
{
    let phase = trace[place].0.phase;
    let other = choose|i: int| 0 <= i < trace.len() && (#[trigger] trace[i]).0.phase == phase;
    assert(trace[place].0.phase == phase);
    if other != place {
        let (early, late) = if other < place {
            (other, place)
        } else {
            (place, other)
        };
        assert forall|run: SubmarineRunView, reply: ReplyView|
            (#[trigger] submarine_step(run, reply)) is Ok implies run.phase.rank() < submarine_step(
            run,
            reply,
        )->Ok_0.phase.rank() by {
            law_submarine_moves_forward(run, reply);
        }
        lemma_ranks_rise(
            trace,
            |run: SubmarineRunView, reply: ReplyView| submarine_step(run, reply),
            |run: SubmarineRunView| run.phase.rank(),
            early,
            late,
        );
    }
}

/// A reply keeps what a submarine swap holds, and adds what it tells.
proof fn lemma_submarine_holds_on(
    trace: Seq<(SubmarineRunView, ReplyView)>,
    run: SubmarineRunView,
    reply: ReplyView,
)
    requires
        submarine_holds(trace, run),
        submarine_told(trace, run.phase) == reply,
        submarine_step(run, reply) is Ok,
    ensures
        submarine_holds(trace, submarine_step(run, reply)->Ok_0),
{
    let next = submarine_step(run, reply)->Ok_0;
    match run.phase {
        SubmarinePhase::CreateInvoice => assert(submarine_holds(trace, next)),
        SubmarinePhase::PrepareOrder => assert(submarine_holds(trace, next)),
        SubmarinePhase::AwaitAccepted => assert(submarine_holds(trace, next)),
        SubmarinePhase::AwaitLockTerms => assert(submarine_holds(trace, next)),
        SubmarinePhase::TakeFunding => assert(submarine_holds(trace, next)),
        SubmarinePhase::AuthorizeFunding => assert(submarine_holds(trace, next)),
        SubmarinePhase::KeepAuthorization => assert(submarine_holds(trace, next)),
        SubmarinePhase::Diverted => assert(submarine_holds(trace, next)),
        SubmarinePhase::SayVerified => assert(submarine_holds(trace, next)),
        SubmarinePhase::DeriveFundingId => assert(submarine_holds(trace, next)),
        SubmarinePhase::KeepReady => assert(submarine_holds(trace, next)),
        SubmarinePhase::BroadcastFunding => assert(submarine_holds(trace, next)),
        SubmarinePhase::CheckFundingId => assert(submarine_holds(trace, next)),
        SubmarinePhase::BroadcastAgain => assert(submarine_holds(trace, next)),
        SubmarinePhase::RecordFunding => assert(submarine_holds(trace, next)),
        SubmarinePhase::RequireFundingKnown => assert(submarine_holds(trace, next)),
        SubmarinePhase::SayFunding => assert(submarine_holds(trace, next)),
        SubmarinePhase::PauseFunding => assert(submarine_holds(trace, next)),
        SubmarinePhase::MineFunding => assert(submarine_holds(trace, next)),
        SubmarinePhase::AwaitObserved => assert(submarine_holds(trace, next)),
        SubmarinePhase::AwaitFinal => assert(submarine_holds(trace, next)),
        SubmarinePhase::AwaitPaymentPending => assert(submarine_holds(trace, next)),
        SubmarinePhase::AwaitPaid => assert(submarine_holds(trace, next)),
        SubmarinePhase::AwaitClaimPending => assert(submarine_holds(trace, next)),
        SubmarinePhase::PauseClaim => assert(submarine_holds(trace, next)),
        SubmarinePhase::AwaitClaimPropagated => assert(submarine_holds(trace, next)),
        SubmarinePhase::MineClaim => assert(submarine_holds(trace, next)),
        SubmarinePhase::AwaitClaimed => assert(submarine_holds(trace, next)),
        SubmarinePhase::AwaitCompleted => assert(submarine_holds(trace, next)),
        SubmarinePhase::AwaitClose => assert(submarine_holds(trace, next)),
        SubmarinePhase::KeepResult => assert(submarine_holds(trace, next)),
        SubmarinePhase::Finished => assert(submarine_holds(trace, next)),
    }
}

/// What a submarine swap has been told, it keeps: at every place of a trace each value that the run
/// holds is the one that the reply to the phase that asks for it gave, or the one that the run
/// started with.
pub proof fn law_submarine_keeps_what_it_was_told(
    trace: Seq<(SubmarineRunView, ReplyView)>,
    last: int,
)
    requires
        is_submarine_trace(trace),
        0 <= last < trace.len(),
    ensures
        submarine_holds(trace, trace[last].0),
    decreases last,
{
    if last > 0 {
        let before = last - 1;
        law_submarine_keeps_what_it_was_told(trace, before);
        lemma_submarine_told_once(trace, before);
        assert(submarine_step(trace[before].0, trace[before].1) == Ok::<SubmarineRunView, Seq<char>>(
            trace[before + 1].0,
        ));
        lemma_submarine_holds_on(trace, trace[before].0, trace[before].1);
    }
}

/// What a submarine swap asks for in each phase, in terms of the replies before it: the values in a
/// request are those that the replies to the named phases gave, or those that the run started with.
pub proof fn law_submarine_asks_with_what_it_was_told(
    trace: Seq<(SubmarineRunView, ReplyView)>,
    last: int,
)
    requires
        is_submarine_trace(trace),
        0 <= last < trace.len(),
    ensures
        ({
            let start = trace[0].0;
            let payment_hash = submarine_told(trace, SubmarinePhase::CreateInvoice)->Texts_0[0];
            let invoice = submarine_told(trace, SubmarinePhase::CreateInvoice)->Texts_0[1];
            let order_id = submarine_told(trace, SubmarinePhase::PrepareOrder)->Session_order_id;
            let funding_hex = submarine_told(trace, SubmarinePhase::TakeFunding)->Funding_hex;
            let lockup_txid = if start.resumed {
                submarine_told(trace, SubmarinePhase::DeriveFundingId)->Texts_0[0]
            } else { submarine_told(trace, SubmarinePhase::TakeFunding)->Funding_id };
            let claim_txid = transaction_reading(
                submarine_told(trace, SubmarinePhase::AwaitClaimPending)->Record_content,
            )->Ok_0;
            let action = submarine_action(trace[last].0);
            match trace[last].0.phase {
                SubmarinePhase::CreateInvoice => action == ActionView::Perform(
                    Task::CreateInvoice,
                    seq![
                        "immortal-funded-submarine"@,
                        decimal(OUTPUT_AMOUNT_SAT as nat),
                        "Immortal funded smoke submarine"@,
                        decimal(INVOICE_EXPIRY_SECONDS as nat),
                    ],
                ),
                SubmarinePhase::PrepareOrder => action == ActionView::Perform(
                    Task::PrepareOrder,
                    seq![payment_hash, invoice],
                ),
                SubmarinePhase::AwaitAccepted => action == ActionView::AwaitState("accepted"@),
                SubmarinePhase::AwaitLockTerms => action == ActionView::AwaitState(
                    "lock_terms_ready"@,
                ),
                SubmarinePhase::TakeFunding => action == ActionView::Perform(
                    Task::TakeFunding,
                    seq![],
                ),
                SubmarinePhase::AuthorizeFunding => action == ActionView::Perform(
                    Task::AuthorizeFunding,
                    seq![invoice],
                ),
                SubmarinePhase::KeepAuthorization => action == ActionView::Perform(
                    Task::KeepAuthorization,
                    seq![],
                ),
                SubmarinePhase::Diverted => action == ActionView::Finish,
                SubmarinePhase::SayVerified => action == ActionView::Say(
                    "requester_verification_passed"@,
                    no_members(),
                ),
                SubmarinePhase::DeriveFundingId => action == ActionView::Perform(
                    Task::DeriveFundingId,
                    seq![],
                ),
                SubmarinePhase::KeepReady => action == ActionView::Keep(
                    "funding_execution_ready"@,
                    effect_doc(lockup_txid),
                ),
                SubmarinePhase::BroadcastFunding => action == ActionView::Perform(
                    Task::BroadcastBitcoin,
                    seq!["submarine-funding"@, funding_hex, lockup_txid],
                ),
                SubmarinePhase::RecordFunding => action == ActionView::Perform(
                    Task::RecordFundingEffect,
                    seq![lockup_txid, funding_hex, "text"@],
                ),
                SubmarinePhase::SayFunding => action == ActionView::Say(
                    "requester_funding_broadcast"@,
                    no_members().insert(
                        "transaction_id"@,
                        text_doc(lockup_txid),
                    ).insert("output_index"@, number_doc(0)),
                ),
                SubmarinePhase::PauseFunding => action == ActionView::Pause(
                    "funding_reorg_control"@,
                    effect_doc(lockup_txid),
                ),
                SubmarinePhase::MineFunding => action == ActionView::Mine(
                    "bitcoin"@,
                    1,
                    "submarine-funding"@,
                ),
                SubmarinePhase::AwaitObserved => action == ActionView::AwaitState(
                    "funding_observed"@,
                ),
                SubmarinePhase::AwaitFinal => action == ActionView::AwaitState("funding_final"@),
                SubmarinePhase::AwaitPaymentPending => action == ActionView::AwaitState(
                    "lightning_payment_pending"@,
                ),
                SubmarinePhase::AwaitPaid => action == ActionView::AwaitState("lightning_paid"@),
                SubmarinePhase::AwaitClaimPending => action == ActionView::AwaitState(
                    "provider_claim_pending"@,
                ),
                SubmarinePhase::PauseClaim => action == ActionView::Pause(
                    "claim_reorg_control"@,
                    effect_doc(claim_txid),
                ),
                SubmarinePhase::AwaitClaimPropagated => action == ActionView::AwaitTransaction(
                    "bitcoin"@,
                    claim_txid,
                    "submarine-claim"@,
                ),
                SubmarinePhase::MineClaim => action == ActionView::Mine(
                    "bitcoin"@,
                    start.confirmations,
                    "submarine-claim"@,
                ),
                SubmarinePhase::AwaitClaimed => action == ActionView::AwaitState(
                    "provider_claimed"@,
                ),
                SubmarinePhase::AwaitCompleted => action == ActionView::AwaitState("completed"@),
                SubmarinePhase::AwaitClose => action == ActionView::AwaitClose(
                    CloseCheckView {
                        outcome: "completed"@,
                        bitcoin: Some(claim_txid),
                        liquid: None,
                        lightning: Some(LightningView::Incoming(payment_hash)),
                    },
                ),
                SubmarinePhase::KeepResult => action == ActionView::Keep(
                    "completed"@,
                    JsonView::Object(
                        no_members().insert(
                            "result"@,
                            JsonView::Object(
                                no_members().insert("order_id"@, text_doc(order_id)).insert("lockup_txid"@, text_doc(lockup_txid)).insert("lockup_vout"@, number_doc(0)).insert("claim_txid"@, text_doc(claim_txid)).insert(
                                    "payment_hash"@,
                                    text_doc(payment_hash),
                                ).insert("result"@, text_doc("claimed"@)),
                            ),
                        ),
                    ),
                ),
                SubmarinePhase::Finished => action == ActionView::Finish,
                _ => true,
            }
        }),
{
    law_submarine_keeps_what_it_was_told(trace, last);
}

/// What a submarine swap reports at its end is what it was told on the way: each identifier in the
/// report is the one that the reply to the named phase gave, or one that the run started with.
pub proof fn law_submarine_result_names_what_it_was_told(
    trace: Seq<(SubmarineRunView, ReplyView)>,
    last: int,
)
    requires
        is_submarine_trace(trace),
        0 <= last < trace.len(),
        trace[last].0.phase == SubmarinePhase::Finished,
    ensures
        ({
            let start = trace[0].0;
            let payment_hash = submarine_told(trace, SubmarinePhase::CreateInvoice)->Texts_0[0];
            let order_id = submarine_told(trace, SubmarinePhase::PrepareOrder)->Session_order_id;
            let lockup_txid = if start.resumed {
                submarine_told(trace, SubmarinePhase::DeriveFundingId)->Texts_0[0]
            } else { submarine_told(trace, SubmarinePhase::TakeFunding)->Funding_id };
            let claim_txid = transaction_reading(
                submarine_told(trace, SubmarinePhase::AwaitClaimPending)->Record_content,
            )->Ok_0;
            submarine_result(trace[last].0) == JsonView::Object(
                no_members().insert("order_id"@, text_doc(order_id)).insert("lockup_txid"@, text_doc(lockup_txid)).insert("lockup_vout"@, number_doc(0)).insert("claim_txid"@, text_doc(claim_txid)).insert(
                    "payment_hash"@,
                    text_doc(payment_hash),
                ).insert("result"@, text_doc("claimed"@)),
            )
        }),
{
    law_submarine_keeps_what_it_was_told(trace, last);
}

/// The lock is broadcast only after the client has authorized it.
pub proof fn law_submarine_is_authorized_first(trace: Seq<(SubmarineRunView, ReplyView)>, last: int)
    requires
        is_submarine_trace(trace),
        0 <= last < trace.len(),
        trace[last].0.phase == SubmarinePhase::BroadcastFunding,
    ensures
        exists|i: int|
            0 <= i < last && (#[trigger] trace[i]).0.phase == SubmarinePhase::AuthorizeFunding &&
                trace[i].1 == ReplyView::Done,
{
    let i = lemma_milestone(
        trace,
        |run: SubmarineRunView, reply: ReplyView| submarine_step(run, reply),
        |run: SubmarineRunView| run.phase.rank(),
        5,
        last,
    );
    assert(trace[i].0.phase == SubmarinePhase::AuthorizeFunding);
    assert(submarine_step(trace[i].0, trace[i].1) == Ok::<SubmarineRunView, Seq<char>>(trace[i +
        1].0));
}

/// The lock is broadcast only after a checkpoint names it.
pub proof fn law_submarine_is_kept_before_broadcast(
    trace: Seq<(SubmarineRunView, ReplyView)>,
    last: int,
)
    requires
        is_submarine_trace(trace),
        0 <= last < trace.len(),
        trace[last].0.phase == SubmarinePhase::BroadcastFunding,
    ensures
        exists|i: int|
            0 <= i < last && (#[trigger] trace[i]).0.phase == SubmarinePhase::KeepReady &&
                trace[i].1 == ReplyView::Done,
{
    let i = lemma_milestone(
        trace,
        |run: SubmarineRunView, reply: ReplyView| submarine_step(run, reply),
        |run: SubmarineRunView| run.phase.rank(),
        10,
        last,
    );
    assert(trace[i].0.phase == SubmarinePhase::KeepReady);
    assert(submarine_step(trace[i].0, trace[i].1) == Ok::<SubmarineRunView, Seq<char>>(trace[i +
        1].0));
}

/// Whether every reply of a trace answers the action that it is told for.
pub open spec fn is_answered_submarine(
    trace: Seq<(SubmarineRunView, ReplyView)>,
    kinds: RecordKinds,
    provider: Seq<char>,
) -> bool {
    forall|i: int|
        0 <= i < trace.len() - 1 ==> answers(
            submarine_action((#[trigger] trace[i]).0),
            trace[i].1,
            kinds,
            provider,
        )
}

/// A swap is kept as completed only after its close has been verified.
pub proof fn law_submarine_completes_after_its_close(
    trace: Seq<(SubmarineRunView, ReplyView)>,
    kinds: RecordKinds,
    provider: Seq<char>,
    last: int,
)
    requires
        is_submarine_trace(trace),
        is_answered_submarine(trace, kinds, provider),
        0 <= last < trace.len(),
        trace[last].0.phase == SubmarinePhase::KeepResult,
    ensures
        exists|i: int|
            0 <= i < last && (#[trigger] trace[i]).0.phase == SubmarinePhase::AwaitClose && closes(
                trace[i].1,
                kinds,
                provider,
                "completed"@,
            ),
{
    let i = lemma_milestone(
        trace,
        |run: SubmarineRunView, reply: ReplyView| submarine_step(run, reply),
        |run: SubmarineRunView| run.phase.rank(),
        29,
        last,
    );
    assert(trace[i].0.phase == SubmarinePhase::AwaitClose);
    assert(answers(submarine_action(trace[i].0), trace[i].1, kinds, provider));
}

/// What a submarine swap comes to.
pub open spec fn submarine_result(run: SubmarineRunView) -> JsonView {
    JsonView::Object(
        no_members().insert("order_id"@, text_doc(run.order_id)).insert(
            "lockup_txid"@,
            text_doc(run.lockup_txid),
        ).insert("lockup_vout"@, number_doc(0)).insert(
            "claim_txid"@,
            text_doc(run.claim_txid),
        ).insert("payment_hash"@, text_doc(run.payment_hash)).insert(
            "result"@,
            text_doc("claimed"@),
        ),
    )
}

impl SubmarineRun {
    fn result_document(&self) -> (document: Json)
        ensures
            document@ == submarine_result(self@),
    {
        Json::object(
            JsonObject::new().with_text("order_id", self.order_id.as_str()).with_text(
                "lockup_txid",
                self.lockup_txid.as_str(),
            ).with_number("lockup_vout", 0).with_text(
                "claim_txid",
                self.claim_txid.as_str(),
            ).with_text("payment_hash", self.payment_hash.as_str()).with_text("result", "claimed"),
        )
    }

    /// What a submarine swap comes to; nothing before it is over.
    pub fn result(&self) -> (document: Option<Json>)
        ensures
            match document {
                Some(document) => self@.phase == SubmarinePhase::Finished && document@ == submarine_result(self@),
                None => self@.phase != SubmarinePhase::Finished,
            },
    {
        if self.phase == SubmarinePhase::Finished {
            Some(self.result_document())
        } else {
            None
        }
    }
}

impl SubmarineRun {
    pub(crate) fn proves_conflict(&self) -> (proves: bool)
        ensures
            proves == proves_conflict(self.injection),
    {
        self.injection == Some(HarnessInjection::RbfConflict) || self.injection == Some(
            HarnessInjection::ZeroConfRbfReplacement,
        ) || self.injection == Some(HarnessInjection::ZeroConfDoubleSpend) || self.injection
            == Some(HarnessInjection::ZeroConfAncestorEviction)
    }
}

/// Where a submarine swap goes on from a checkpoint: the phase and the transaction that it binds.
pub open spec fn submarine_resume(label: Seq<char>, details: JsonView) -> Result<
    (SubmarinePhase, Seq<char>),
    Seq<char>,
> {
    if label == "funding_authorized"@ {
        Ok((SubmarinePhase::SayVerified, ""@))
    } else if label == "funding_execution_ready"@ {
        match external_identifier_reading(details) {
            Ok(id) => Ok((SubmarinePhase::CheckFundingId, id)),
            Err(message) => Err(message),
        }
    } else if label == "funding_effect_recorded"@ {
        match external_identifier_reading(details) {
            Ok(id) => Ok((SubmarinePhase::RequireFundingKnown, id)),
            Err(message) => Err(message),
        }
    } else {
        Err("submarine checkpoint cannot resume execution"@)
    }
}

/// Where a submarine swap goes on from a checkpoint: it can be had exactly where every part that it
/// rests on can, and each part of it is the one that its name says.
pub proof fn law_submarine_resume_is_read_from_its_parts(label: Seq<char>, details: JsonView)
    ensures
        ({
            let read = submarine_resume(label, details);
            let id = external_identifier_reading(details)->Ok_0;
            let given = read->Ok_0;
            let case_1 = label == "funding_authorized"@;
            let case_2 = {
                &&& label != "funding_authorized"@
                &&& label == "funding_execution_ready"@
                &&& external_identifier_reading(details) is Ok
            };
            let case_3 = {
                &&& label != "funding_authorized"@
                &&& label != "funding_execution_ready"@
                &&& label == "funding_effect_recorded"@
                &&& external_identifier_reading(details) is Ok
            };
            &&& (read is Ok <==> case_1 || case_2 || case_3)
            &&& read is Ok && case_1 ==> {
                &&& given.0 == SubmarinePhase::SayVerified
                &&& given.1 == ""@
            }
            &&& read is Ok && case_2 ==> {
                &&& given.0 == SubmarinePhase::CheckFundingId
                &&& given.1 == id
            }
            &&& read is Ok && case_3 ==> {
                &&& given.0 == SubmarinePhase::RequireFundingKnown
                &&& given.1 == id
            }
        }),
{
}

impl SubmarineRun {
    /// A submarine swap that goes on from a checkpoint.
    pub fn resume(
        checkpoint: &FundedCheckpoint,
        confirmations: u64,
        injection: Option<HarnessInjection>,
        order_id: &str,
        contract: &Json,
        raw_funding: &str,
        payment_hash: &str,
    ) -> (run: Result<SubmarineRun, String>)
        ensures
            match (run, submarine_resume(checkpoint.label@, checkpoint.details@)) {
                (Ok(run), Ok((phase, lockup_txid))) => {
                    &&& run@.phase == phase
                    &&& run@.lockup_txid == lockup_txid
                    &&& run@.confirmations == confirmations
                    &&& run@.injection == injection
                    &&& run@.order_id == order_id@
                    &&& run@.contract == contract@
                    &&& run@.funding_hex == raw_funding@
                    &&& run@.payment_hash == payment_hash@
                    &&& run@.resumed
                },
                (Err(message), Err(expected)) => message@ == expected,
                _ => false,
            },
    {
        let label: &str = checkpoint.label.as_str();
        let (phase, lockup_txid): (SubmarinePhase, String) = if same_text(
            label,
            "funding_authorized",
        )
        {
            (SubmarinePhase::SayVerified, "".to_owned())
        } else if same_text(label, "funding_execution_ready") {
            (SubmarinePhase::CheckFundingId, checkpoint_external_identifier(checkpoint)?)
        } else if same_text(label, "funding_effect_recorded") {
            (SubmarinePhase::RequireFundingKnown, checkpoint_external_identifier(checkpoint)?)
        } else {
            return Err("submarine checkpoint cannot resume execution".to_owned());
        };
        let mut run: SubmarineRun = SubmarineRun::new(confirmations, injection);
        run.phase = phase;
        run.lockup_txid = lockup_txid;
        run.order_id = order_id.to_owned();
        run.contract = contract.copy();
        run.funding_hex = raw_funding.to_owned();
        run.payment_hash = payment_hash.to_owned();
        run.resumed = true;
        Ok(run)
    }
}

impl SubmarineRun {
    /// A submarine swap whose lock the client has authorized.
    pub fn authorized(
        confirmations: u64,
        injection: Option<HarnessInjection>,
        order_id: &str,
        contract: &Json,
        lockup_txid: &str,
        raw_funding: &str,
        payment_hash: &str,
    ) -> (run: SubmarineRun)
        ensures
            run@.phase == SubmarinePhase::SayVerified,
            !run@.resumed,
            run@.confirmations == confirmations,
            run@.injection == injection,
            run@.order_id == order_id@,
            run@.contract == contract@,
            run@.lockup_txid == lockup_txid@,
            run@.funding_hex == raw_funding@,
            run@.payment_hash == payment_hash@,
    {
        let mut run: SubmarineRun = SubmarineRun::new(confirmations, injection);
        run.phase = SubmarinePhase::SayVerified;
        run.resumed = false;
        run.order_id = order_id.to_owned();
        run.contract = contract.copy();
        run.lockup_txid = lockup_txid.to_owned();
        run.funding_hex = raw_funding.to_owned();
        run.payment_hash = payment_hash.to_owned();
        run
    }

    /// A submarine swap whose lock has been broadcast and recorded.
    pub fn funded(
        confirmations: u64,
        injection: Option<HarnessInjection>,
        order_id: &str,
        contract: &Json,
        lockup_txid: &str,
        raw_funding: &str,
        payment_hash: &str,
    ) -> (run: SubmarineRun)
        ensures
            run@.phase == SubmarinePhase::SayFunding,
            run@.confirmations == confirmations,
            run@.injection == injection,
            run@.order_id == order_id@,
            run@.contract == contract@,
            run@.lockup_txid == lockup_txid@,
            run@.funding_hex == raw_funding@,
            run@.payment_hash == payment_hash@,
    {
        let mut run: SubmarineRun = SubmarineRun::authorized(
            confirmations,
            injection,
            order_id,
            contract,
            lockup_txid,
            raw_funding,
            payment_hash,
        );
        run.phase = SubmarinePhase::SayFunding;
        run
    }
}

/// A swap whose lock was recorded as broadcast never broadcasts it again: it goes on behind both
/// broadcasts.
pub proof fn law_recorded_funding_is_not_broadcast_again(details: JsonView)
    requires
        submarine_resume("funding_effect_recorded"@, details) is Ok,
    ensures
        ({
            let phase = match submarine_resume("funding_effect_recorded"@, details) {
                Ok((phase, _)) => phase,
                Err(_) => SubmarinePhase::CreateInvoice,
            };
            &&& phase.rank() > SubmarinePhase::BroadcastFunding.rank()
            &&& phase.rank() > SubmarinePhase::BroadcastAgain.rank()
        }),
{
    reveal_strlit("funding_effect_recorded");
    reveal_strlit("funding_execution_ready");
    reveal_strlit("funding_authorized");
    assert("funding_effect_recorded"@.len() == 23);
    assert("funding_execution_ready"@[8] == 'e');
    assert("funding_effect_recorded"@[9] == 'f');
    assert("funding_execution_ready"@[9] == 'x');
    assert("funding_authorized"@.len() == 18);
}

/// The phases of a submarine refund, in their order.
#[derive(Clone, Copy, Debug, PartialEq, Eq, Structural)]
pub enum SubmarineRefundPhase {
    CreateInvoice,
    PrepareOrder,
    AwaitAccepted,
    AwaitLockTerms,
    TakeFunding,
    AuthorizeFunding,
    KeepAuthorization,
    SayVerified,
    KeepReady,
    BroadcastFunding,
    RecordFunding,
    SayFunding,
    MineFunding,
    ReadConfirmation,
    FinalizeInvoice,
    ReadHeight,
    PlanBeforeTimeout,
    MineTimeout,
    ReadTimeoutHeight,
    PlanRefund,
    SayPrepared,
    BuildRefund,
    SignRefund,
    RecordRefund,
    SayPending,
    BroadcastRefund,
    MineRefund,
    VerifyOnBothNodes,
    ReadRecords,
    SayRefunded,
    KeepResult,
    Finished,
}

impl SubmarineRefundPhase {
    /// The place of the phase in their order.
    pub open spec fn rank(self) -> int {
        match self {
            SubmarineRefundPhase::CreateInvoice => 0,
            SubmarineRefundPhase::PrepareOrder => 1,
            SubmarineRefundPhase::AwaitAccepted => 2,
            SubmarineRefundPhase::AwaitLockTerms => 3,
            SubmarineRefundPhase::TakeFunding => 4,
            SubmarineRefundPhase::AuthorizeFunding => 5,
            SubmarineRefundPhase::KeepAuthorization => 6,
            SubmarineRefundPhase::SayVerified => 7,
            SubmarineRefundPhase::KeepReady => 8,
            SubmarineRefundPhase::BroadcastFunding => 9,
            SubmarineRefundPhase::RecordFunding => 10,
            SubmarineRefundPhase::SayFunding => 11,
            SubmarineRefundPhase::MineFunding => 12,
            SubmarineRefundPhase::ReadConfirmation => 13,
            SubmarineRefundPhase::FinalizeInvoice => 14,
            SubmarineRefundPhase::ReadHeight => 15,
            SubmarineRefundPhase::PlanBeforeTimeout => 16,
            SubmarineRefundPhase::MineTimeout => 17,
            SubmarineRefundPhase::ReadTimeoutHeight => 18,
            SubmarineRefundPhase::PlanRefund => 19,
            SubmarineRefundPhase::SayPrepared => 20,
            SubmarineRefundPhase::BuildRefund => 21,
            SubmarineRefundPhase::SignRefund => 22,
            SubmarineRefundPhase::RecordRefund => 23,
            SubmarineRefundPhase::SayPending => 24,
            SubmarineRefundPhase::BroadcastRefund => 25,
            SubmarineRefundPhase::MineRefund => 26,
            SubmarineRefundPhase::VerifyOnBothNodes => 27,
            SubmarineRefundPhase::ReadRecords => 28,
            SubmarineRefundPhase::SayRefunded => 29,
            SubmarineRefundPhase::KeepResult => 30,
            SubmarineRefundPhase::Finished => 31,
        }
    }
}

/// A submarine swap whose provider does not cooperate, and whose coins the requester takes back.
pub struct SubmarineRefundRun {
    pub phase: SubmarineRefundPhase,
    pub provider_pubkey: String,
    pub confirmations: u64,
    pub injection: Option<HarnessInjection>,
    pub kinds: RecordKinds,
    pub payment_hash: String,
    pub invoice: String,
    pub order_id: String,
    pub contract: Json,
    pub lockup_txid: String,
    pub lockup_output: u32,
    pub funding_hex: String,
    pub funding_confirmation_height: u32,
    pub refund_lock_height: u32,
    pub amount_sat: u64,
    pub fee_budget_sat: u64,
    pub height: u32,
    pub timeout_height: u32,
    pub effect_id: String,
    pub refund_value_sat: u64,
    pub refund_hex: String,
    pub refund_txid: String,
}

/// A submarine swap whose provider does not cooperate, and whose coins the requester takes back.
#[verifier::ext_equal]
pub struct SubmarineRefundRunView {
    pub phase: SubmarineRefundPhase,
    pub provider_pubkey: Seq<char>,
    pub confirmations: u64,
    pub injection: Option<HarnessInjection>,
    pub kinds: RecordKinds,
    pub payment_hash: Seq<char>,
    pub invoice: Seq<char>,
    pub order_id: Seq<char>,
    pub contract: JsonView,
    pub lockup_txid: Seq<char>,
    pub lockup_output: u32,
    pub funding_hex: Seq<char>,
    pub funding_confirmation_height: u32,
    pub refund_lock_height: u32,
    pub amount_sat: u64,
    pub fee_budget_sat: u64,
    pub height: u32,
    pub timeout_height: u32,
    pub effect_id: Seq<char>,
    pub refund_value_sat: u64,
    pub refund_hex: Seq<char>,
    pub refund_txid: Seq<char>,
}

impl View for SubmarineRefundRun {
    type V = SubmarineRefundRunView;

    open spec fn view(&self) -> SubmarineRefundRunView {
        SubmarineRefundRunView {
            phase: self.phase,
            provider_pubkey: self.provider_pubkey@,
            confirmations: self.confirmations,
            injection: self.injection,
            kinds: self.kinds,
            payment_hash: self.payment_hash@,
            invoice: self.invoice@,
            order_id: self.order_id@,
            contract: self.contract@,
            lockup_txid: self.lockup_txid@,
            lockup_output: self.lockup_output,
            funding_hex: self.funding_hex@,
            funding_confirmation_height: self.funding_confirmation_height,
            refund_lock_height: self.refund_lock_height,
            amount_sat: self.amount_sat,
            fee_budget_sat: self.fee_budget_sat,
            height: self.height,
            timeout_height: self.timeout_height,
            effect_id: self.effect_id@,
            refund_value_sat: self.refund_value_sat,
            refund_hex: self.refund_hex@,
            refund_txid: self.refund_txid@,
        }
    }
}

/// What a submarine refund asks for next.
pub open spec fn submarine_refund_action(run: SubmarineRefundRunView) -> ActionView {
    match run.phase {
        SubmarineRefundPhase::CreateInvoice => ActionView::Perform(
            Task::CreateInvoice,
            seq![
                "immortal-funded-submarine-refund"@,
                decimal(OUTPUT_AMOUNT_SAT as nat),
                "Immortal adversarial submarine refund"@,
                decimal(INVOICE_EXPIRY_SECONDS as nat),
            ],
        ),
        SubmarineRefundPhase::PrepareOrder => ActionView::Perform(
            Task::PrepareOrder,
            seq![run.payment_hash, run.invoice],
        ),
        SubmarineRefundPhase::AwaitAccepted => ActionView::AwaitState("accepted"@),
        SubmarineRefundPhase::AwaitLockTerms => ActionView::AwaitState("lock_terms_ready"@),
        SubmarineRefundPhase::TakeFunding => ActionView::Perform(Task::TakeFunding, seq![]),
        SubmarineRefundPhase::AuthorizeFunding => ActionView::Perform(
            Task::AuthorizeFunding,
            seq![run.invoice],
        ),
        SubmarineRefundPhase::KeepAuthorization => ActionView::Perform(
            Task::KeepAuthorization,
            seq![],
        ),
        SubmarineRefundPhase::SayVerified => ActionView::Say(
            "requester_verification_passed"@,
            no_members(),
        ),
        SubmarineRefundPhase::KeepReady => ActionView::Keep(
            "funding_execution_ready"@,
            effect_doc(run.lockup_txid),
        ),
        SubmarineRefundPhase::BroadcastFunding => ActionView::Perform(
            Task::BroadcastBitcoin,
            seq!["submarine-refund-funding"@, run.funding_hex, run.lockup_txid],
        ),
        SubmarineRefundPhase::RecordFunding => ActionView::Perform(
            Task::RecordFundingEffect,
            seq![run.lockup_txid, run.funding_hex, "text"@],
        ),
        SubmarineRefundPhase::SayFunding => ActionView::Say(
            "requester_funding_broadcast"@,
            no_members().insert("transaction_id"@, text_doc(run.lockup_txid)).insert(
                "output_index"@,
                number_doc(0),
            ),
        ),
        SubmarineRefundPhase::MineFunding => ActionView::Mine(
            "bitcoin"@,
            1,
            "submarine-refund-funding"@,
        ),
        SubmarineRefundPhase::ReadConfirmation => ActionView::Perform(
            Task::ReadConfirmationHeight,
            seq!["submarine-refund-funding-confirmation"@, run.lockup_txid],
        ),
        SubmarineRefundPhase::FinalizeInvoice => ActionView::Perform(
            Task::FinalizeInvoice,
            seq!["immortal-funded-submarine-refund"@, run.payment_hash],
        ),
        SubmarineRefundPhase::ReadHeight => ActionView::Perform(
            Task::ReadHeight,
            seq!["refund-before-timeout"@],
        ),
        SubmarineRefundPhase::PlanBeforeTimeout => ActionView::Plan(
            refund_standing(run.height, run.funding_confirmation_height, true),
        ),
        SubmarineRefundPhase::MineTimeout => ActionView::Mine(
            "bitcoin"@,
            blocks_until(run.refund_lock_height, run.height),
            "submarine-refund-timeout"@,
        ),
        SubmarineRefundPhase::ReadTimeoutHeight => ActionView::Perform(
            Task::ReadHeight,
            seq!["refund-timeout"@],
        ),
        SubmarineRefundPhase::PlanRefund => ActionView::Plan(
            refund_standing(run.timeout_height, run.funding_confirmation_height, true),
        ),
        SubmarineRefundPhase::SayPrepared => ActionView::Say("refund_prepared"@, no_members()),
        SubmarineRefundPhase::BuildRefund => ActionView::Perform(
            Task::BuildRefund,
            seq![run.lockup_txid, decimal(run.refund_value_sat as nat)],
        ),
        SubmarineRefundPhase::SignRefund => ActionView::Perform(
            Task::SignExit,
            seq![run.refund_hex],
        ),
        SubmarineRefundPhase::RecordRefund => ActionView::Perform(
            Task::RecordSignedExit,
            seq![run.refund_txid, run.refund_hex],
        ),
        SubmarineRefundPhase::SayPending => ActionView::Say("refund_pending"@, no_members()),
        SubmarineRefundPhase::BroadcastRefund => ActionView::Perform(
            Task::BroadcastBitcoin,
            seq!["submarine-requester-refund"@, run.refund_hex, run.refund_txid],
        ),
        SubmarineRefundPhase::MineRefund => ActionView::Mine(
            "bitcoin"@,
            run.confirmations,
            "submarine-requester-refund"@,
        ),
        SubmarineRefundPhase::VerifyOnBothNodes => ActionView::Perform(
            Task::VerifyOnBothNodes,
            seq![run.lockup_txid, "0"@, run.refund_txid, run.refund_hex],
        ),
        SubmarineRefundPhase::ReadRecords => ActionView::Perform(Task::ReadRecords, seq![]),
        SubmarineRefundPhase::SayRefunded => ActionView::Say("refunded"@, no_members()),
        SubmarineRefundPhase::KeepResult => ActionView::Keep(
            "refunded"@,
            JsonView::Object(no_members().insert("result"@, submarine_refund_result(run))),
        ),
        SubmarineRefundPhase::Finished => ActionView::Finish,
    }
}

/// Where a reply takes a submarine refund.
pub open spec fn submarine_refund_step(run: SubmarineRefundRunView, reply: ReplyView) -> Result<
    SubmarineRefundRunView,
    Seq<char>,
> {
    match (run.phase, reply) {
        (SubmarineRefundPhase::CreateInvoice, ReplyView::Texts(texts)) => {
            if texts.len() != 2 {
                Err(wrong_reply())
            } else {
                Ok(
                    SubmarineRefundRunView {
                        phase: SubmarineRefundPhase::PrepareOrder,
                        payment_hash: texts[0],
                        invoice: texts[1],
                        ..run
                    },
                )
            }
        },
        (SubmarineRefundPhase::PrepareOrder, ReplyView::Session { order_id, contract }) => Ok(
            SubmarineRefundRunView {
                phase: SubmarineRefundPhase::AwaitAccepted,
                order_id: order_id,
                contract: contract,
                ..run
            },
        ),
        (SubmarineRefundPhase::AwaitAccepted, ReplyView::Record { .. }) => Ok(
            SubmarineRefundRunView { phase: SubmarineRefundPhase::AwaitLockTerms, ..run },
        ),
        (SubmarineRefundPhase::AwaitLockTerms, ReplyView::Record { .. }) => Ok(
            SubmarineRefundRunView { phase: SubmarineRefundPhase::TakeFunding, ..run },
        ),
        (SubmarineRefundPhase::TakeFunding, ReplyView::Funding { receipt, id, output_index, hex }) => Ok(
            SubmarineRefundRunView {
                phase: SubmarineRefundPhase::AuthorizeFunding,
                lockup_txid: id,
                lockup_output: output_index,
                funding_hex: hex,
                ..run
            },
        ),
        (SubmarineRefundPhase::TakeFunding, ReplyView::Done) => Err(
            "submarine refund has no contract-bound funding transaction"@,
        ),
        (SubmarineRefundPhase::AuthorizeFunding, ReplyView::Done) => Ok(
            SubmarineRefundRunView { phase: SubmarineRefundPhase::KeepAuthorization, ..run },
        ),
        (SubmarineRefundPhase::KeepAuthorization, ReplyView::Done) => Ok(
            SubmarineRefundRunView { phase: SubmarineRefundPhase::SayVerified, ..run },
        ),
        (SubmarineRefundPhase::SayVerified, ReplyView::Record { .. }) => Ok(
            SubmarineRefundRunView { phase: SubmarineRefundPhase::KeepReady, ..run },
        ),
        (SubmarineRefundPhase::KeepReady, ReplyView::Done) => Ok(
            SubmarineRefundRunView { phase: SubmarineRefundPhase::BroadcastFunding, ..run },
        ),
        (SubmarineRefundPhase::BroadcastFunding, ReplyView::Done) => Ok(
            SubmarineRefundRunView { phase: SubmarineRefundPhase::RecordFunding, ..run },
        ),
        (SubmarineRefundPhase::RecordFunding, ReplyView::Done) => {
            if run.injection != Some(HarnessInjection::ProviderNoncooperative) {
                Err("submarine refund requires the selected provider stop proof"@)
            } else {
                Ok(SubmarineRefundRunView { phase: SubmarineRefundPhase::SayFunding, ..run })
            }
        },
        (SubmarineRefundPhase::SayFunding, ReplyView::Record { .. }) => Ok(
            SubmarineRefundRunView { phase: SubmarineRefundPhase::MineFunding, ..run },
        ),
        (SubmarineRefundPhase::MineFunding, ReplyView::Done) => Ok(
            SubmarineRefundRunView { phase: SubmarineRefundPhase::ReadConfirmation, ..run },
        ),
        (SubmarineRefundPhase::ReadConfirmation, ReplyView::Number(value)) => match height_reading(
            value,
            "funding confirmation height exceeds u32"@,
        ) {
            Err(message) => Err(message),
            Ok(height) => match terms_reading(run.contract, "source"@) {
                Err(message) => Err(message),
                Ok(terms) => {
                    if height >= terms.refund_lock_height {
                        Err("submarine refund lockup confirmed after its CLTV deadline"@)
                    } else {
                        Ok(
                            SubmarineRefundRunView {
                                phase: SubmarineRefundPhase::FinalizeInvoice,
                                refund_lock_height: terms.refund_lock_height,
                                amount_sat: terms.amount_sat,
                                fee_budget_sat: terms.miner_fee_budget_sat,
                                funding_confirmation_height: height,
                                ..run
                            },
                        )
                    }
                },
            },
        },
        (SubmarineRefundPhase::FinalizeInvoice, ReplyView::Removal { deleted, remaining }) => match removal_reading(
            deleted,
            remaining,
            run.payment_hash,
        ) {
            Err(message) => Err(message),
            Ok(removed) => Ok(
                SubmarineRefundRunView { phase: SubmarineRefundPhase::ReadHeight, ..run },
            ),
        },
        (SubmarineRefundPhase::ReadHeight, ReplyView::Number(value)) => match height_reading(
            value,
            "Bitcoin chain height exceeds u32"@,
        ) {
            Err(message) => Err(message),
            Ok(height) => Ok(
                SubmarineRefundRunView {
                    phase: SubmarineRefundPhase::PlanBeforeTimeout,
                    height: height,
                    ..run
                },
            ),
        },
        (SubmarineRefundPhase::PlanBeforeTimeout, ReplyView::Planned(planned)) => match planned {
            Err(message) => Err("client engine rejected submarine refund recovery view: "@ + message),
            Ok(PlanView::WaitForTimeout) => Ok(
                SubmarineRefundRunView { phase: SubmarineRefundPhase::MineTimeout, ..run },
            ),
            Ok(_) => Err("client recovery did not wait for the committed refund timeout"@),
        },
        (SubmarineRefundPhase::MineTimeout, ReplyView::Done) => Ok(
            SubmarineRefundRunView { phase: SubmarineRefundPhase::ReadTimeoutHeight, ..run },
        ),
        (SubmarineRefundPhase::ReadTimeoutHeight, ReplyView::Number(value)) => match height_reading(
            value,
            "Bitcoin chain height exceeds u32"@,
        ) {
            Err(message) => Err(message),
            Ok(height) => {
                if height != run.refund_lock_height {
                    Err("scripted mining did not stop at the exact CLTV refund height"@)
                } else {
                    Ok(
                        SubmarineRefundRunView {
                            phase: SubmarineRefundPhase::PlanRefund,
                            timeout_height: height,
                            ..run
                        },
                    )
                }
            },
        },
        (SubmarineRefundPhase::PlanRefund, ReplyView::Planned(planned)) => match planned {
            Err(message) => Err("client engine rejected submarine refund recovery view: "@ + message),
            Ok(PlanView::RequestWalletRefund(effect_id)) => Ok(
                SubmarineRefundRunView {
                    phase: SubmarineRefundPhase::SayPrepared,
                    effect_id,
                    ..run
                },
            ),
            Ok(_) => Err("client recovery did not authorize the requester wallet refund"@),
        },
        (SubmarineRefundPhase::SayPrepared, ReplyView::Record { .. }) => match after_fee(
            run.amount_sat,
            run.fee_budget_sat,
        ) {
            None => Err("submarine refund fee consumes its output"@),
            Some(left) => Ok(
                SubmarineRefundRunView {
                    phase: SubmarineRefundPhase::BuildRefund,
                    refund_value_sat: left,
                    ..run
                },
            ),
        },
        (SubmarineRefundPhase::BuildRefund, ReplyView::Texts(texts)) => {
            if texts.len() != 2 {
                Err(wrong_reply())
            } else {
                Ok(
                    SubmarineRefundRunView {
                        phase: SubmarineRefundPhase::SignRefund,
                        refund_hex: texts[0],
                        refund_txid: texts[1],
                        ..run
                    },
                )
            }
        },
        (SubmarineRefundPhase::SignRefund, ReplyView::Texts(texts)) => {
            if texts.len() != 2 {
                Err(wrong_reply())
            } else if texts[0] != run.effect_id || texts[1] != run.refund_hex {
                Err("client engine signed another requester refund transaction"@)
            } else {
                Ok(SubmarineRefundRunView { phase: SubmarineRefundPhase::RecordRefund, ..run })
            }
        },
        (SubmarineRefundPhase::SignRefund, ReplyView::Done) => Err(
            "requester refund signing unexpectedly reused another effect"@,
        ),
        (SubmarineRefundPhase::RecordRefund, ReplyView::Done) => Ok(
            SubmarineRefundRunView { phase: SubmarineRefundPhase::SayPending, ..run },
        ),
        (SubmarineRefundPhase::SayPending, ReplyView::Record { .. }) => Ok(
            SubmarineRefundRunView { phase: SubmarineRefundPhase::BroadcastRefund, ..run },
        ),
        (SubmarineRefundPhase::BroadcastRefund, ReplyView::Done) => Ok(
            SubmarineRefundRunView { phase: SubmarineRefundPhase::MineRefund, ..run },
        ),
        (SubmarineRefundPhase::MineRefund, ReplyView::Done) => Ok(
            SubmarineRefundRunView { phase: SubmarineRefundPhase::VerifyOnBothNodes, ..run },
        ),
        (SubmarineRefundPhase::VerifyOnBothNodes, ReplyView::Done) => Ok(
            SubmarineRefundRunView { phase: SubmarineRefundPhase::ReadRecords, ..run },
        ),
        (SubmarineRefundPhase::ReadRecords, ReplyView::Records(records)) => {
            if provider_settled(records, run.kinds, run.provider_pubkey) {
                Err("noncooperative provider produced a settlement effect"@)
            } else {
                Ok(SubmarineRefundRunView { phase: SubmarineRefundPhase::SayRefunded, ..run })
            }
        },
        (SubmarineRefundPhase::SayRefunded, ReplyView::Record { .. }) => Ok(
            SubmarineRefundRunView { phase: SubmarineRefundPhase::KeepResult, ..run },
        ),
        (SubmarineRefundPhase::KeepResult, ReplyView::Done) => Ok(
            SubmarineRefundRunView { phase: SubmarineRefundPhase::Finished, ..run },
        ),
        _ => Err(wrong_reply()),
    }
}

impl SubmarineRefundRun {
    /// A submarine refund before its first action.
    pub fn new(
        provider_pubkey: &str,
        confirmations: u64,
        injection: Option<HarnessInjection>,
        kinds: RecordKinds,
    ) -> (run: SubmarineRefundRun)
        ensures
            run@.phase == SubmarineRefundPhase::CreateInvoice,
            run@.provider_pubkey == provider_pubkey@,
            run@.confirmations == confirmations,
            run@.injection == injection,
            run@.kinds == kinds,
            run@.payment_hash == Seq::<char>::empty(),
            run@.invoice == Seq::<char>::empty(),
            run@.order_id == Seq::<char>::empty(),
            run@.contract == JsonView::Null,
            run@.lockup_txid == Seq::<char>::empty(),
            run@.lockup_output == 0,
            run@.funding_hex == Seq::<char>::empty(),
            run@.funding_confirmation_height == 0,
            run@.refund_lock_height == 0,
            run@.amount_sat == 0,
            run@.fee_budget_sat == 0,
            run@.height == 0,
            run@.timeout_height == 0,
            run@.effect_id == Seq::<char>::empty(),
            run@.refund_value_sat == 0,
            run@.refund_hex == Seq::<char>::empty(),
            run@.refund_txid == Seq::<char>::empty(),
    {
        SubmarineRefundRun {
            phase: SubmarineRefundPhase::CreateInvoice,
            provider_pubkey: provider_pubkey.to_owned(),
            confirmations,
            injection,
            kinds,
            payment_hash: String::new(),
            invoice: String::new(),
            order_id: String::new(),
            contract: Json::null(),
            lockup_txid: String::new(),
            lockup_output: 0,
            funding_hex: String::new(),
            funding_confirmation_height: 0,
            refund_lock_height: 0,
            amount_sat: 0,
            fee_budget_sat: 0,
            height: 0,
            timeout_height: 0,
            effect_id: String::new(),
            refund_value_sat: 0,
            refund_hex: String::new(),
            refund_txid: String::new(),
        }
    }

    /// What the journey asks for next.
    pub fn action(&self) -> (action: Action)
        ensures
            action@ == submarine_refund_action(self@),
    {
        match self.phase {
            SubmarineRefundPhase::CreateInvoice => perform_with_four(
                Task::CreateInvoice,
                "immortal-funded-submarine-refund",
                decimal_text(OUTPUT_AMOUNT_SAT).as_str(),
                "Immortal adversarial submarine refund",
                decimal_text(INVOICE_EXPIRY_SECONDS).as_str(),
            ),
            SubmarineRefundPhase::PrepareOrder => perform_with_two(
                Task::PrepareOrder,
                self.payment_hash.as_str(),
                self.invoice.as_str(),
            ),
            SubmarineRefundPhase::AwaitAccepted => Action::AwaitState("accepted"),
            SubmarineRefundPhase::AwaitLockTerms => Action::AwaitState("lock_terms_ready"),
            SubmarineRefundPhase::TakeFunding => perform(Task::TakeFunding),
            SubmarineRefundPhase::AuthorizeFunding => perform_with(
                Task::AuthorizeFunding,
                self.invoice.as_str(),
            ),
            SubmarineRefundPhase::KeepAuthorization => perform(Task::KeepAuthorization),
            SubmarineRefundPhase::SayVerified => Action::Say(
                "requester_verification_passed",
                JsonObject::new(),
            ),
            SubmarineRefundPhase::KeepReady => Action::Keep(
                "funding_execution_ready",
                effect_details(self.lockup_txid.as_str()),
            ),
            SubmarineRefundPhase::BroadcastFunding => perform_with_three(
                Task::BroadcastBitcoin,
                "submarine-refund-funding",
                self.funding_hex.as_str(),
                self.lockup_txid.as_str(),
            ),
            SubmarineRefundPhase::RecordFunding => perform_with_three(
                Task::RecordFundingEffect,
                self.lockup_txid.as_str(),
                self.funding_hex.as_str(),
                "text",
            ),
            SubmarineRefundPhase::SayFunding => Action::Say(
                "requester_funding_broadcast",
                JsonObject::new().with_text(
                    "transaction_id",
                    self.lockup_txid.as_str(),
                ).with_number("output_index", 0),
            ),
            SubmarineRefundPhase::MineFunding => Action::Mine(
                "bitcoin".to_owned(),
                1,
                "submarine-refund-funding",
            ),
            SubmarineRefundPhase::ReadConfirmation => perform_with_two(
                Task::ReadConfirmationHeight,
                "submarine-refund-funding-confirmation",
                self.lockup_txid.as_str(),
            ),
            SubmarineRefundPhase::FinalizeInvoice => perform_with_two(
                Task::FinalizeInvoice,
                "immortal-funded-submarine-refund",
                self.payment_hash.as_str(),
            ),
            SubmarineRefundPhase::ReadHeight => perform_with(
                Task::ReadHeight,
                "refund-before-timeout",
            ),
            SubmarineRefundPhase::PlanBeforeTimeout => Action::Plan(
                show_refund(self.height, self.funding_confirmation_height, true),
            ),
            SubmarineRefundPhase::MineTimeout => Action::Mine(
                "bitcoin".to_owned(),
                count_blocks_until(self.refund_lock_height, self.height),
                "submarine-refund-timeout",
            ),
            SubmarineRefundPhase::ReadTimeoutHeight => perform_with(
                Task::ReadHeight,
                "refund-timeout",
            ),
            SubmarineRefundPhase::PlanRefund => Action::Plan(
                show_refund(self.timeout_height, self.funding_confirmation_height, true),
            ),
            SubmarineRefundPhase::SayPrepared => Action::Say("refund_prepared", JsonObject::new()),
            SubmarineRefundPhase::BuildRefund => perform_with_two(
                Task::BuildRefund,
                self.lockup_txid.as_str(),
                decimal_text(self.refund_value_sat).as_str(),
            ),
            SubmarineRefundPhase::SignRefund => perform_with(
                Task::SignExit,
                self.refund_hex.as_str(),
            ),
            SubmarineRefundPhase::RecordRefund => perform_with_two(
                Task::RecordSignedExit,
                self.refund_txid.as_str(),
                self.refund_hex.as_str(),
            ),
            SubmarineRefundPhase::SayPending => Action::Say("refund_pending", JsonObject::new()),
            SubmarineRefundPhase::BroadcastRefund => perform_with_three(
                Task::BroadcastBitcoin,
                "submarine-requester-refund",
                self.refund_hex.as_str(),
                self.refund_txid.as_str(),
            ),
            SubmarineRefundPhase::MineRefund => Action::Mine(
                "bitcoin".to_owned(),
                self.confirmations,
                "submarine-requester-refund",
            ),
            SubmarineRefundPhase::VerifyOnBothNodes => perform_with_four(
                Task::VerifyOnBothNodes,
                self.lockup_txid.as_str(),
                "0",
                self.refund_txid.as_str(),
                self.refund_hex.as_str(),
            ),
            SubmarineRefundPhase::ReadRecords => perform(Task::ReadRecords),
            SubmarineRefundPhase::SayRefunded => Action::Say("refunded", JsonObject::new()),
            SubmarineRefundPhase::KeepResult => Action::Keep(
                "refunded",
                Json::object(JsonObject::new().with("result", self.result_document())),
            ),
            SubmarineRefundPhase::Finished => Action::Finish,
        }
    }

    /// Takes a reply: the journey goes on to its next phase, or ends with a message.
    #[verifier::rlimit(100)]
    pub fn advance(&mut self, reply: Reply) -> (moved: Result<(), String>)
        ensures
            match moved {
                Ok(_) => submarine_refund_step(
                    old(self)@,
                    reply@,
                ) == Ok::<SubmarineRefundRunView, Seq<char>>(final(self)@),
                Err(message) => {
                    &&& submarine_refund_step(
                        old(self)@,
                        reply@,
                    ) == Err::<SubmarineRefundRunView, Seq<char>>(message@)
                    &&& final(self)@ == old(self)@
                },
            },
    {
        match (self.phase, reply) {
            (SubmarineRefundPhase::CreateInvoice, Reply::Texts(texts)) => {
                if texts.len() != 2 {
                    return Err(wrong_reply_text());
                }
                self.payment_hash = texts[0].clone();
                self.invoice = texts[1].clone();
                self.phase = SubmarineRefundPhase::PrepareOrder;
                Ok(())
            },
            (SubmarineRefundPhase::PrepareOrder, Reply::Session { order_id, contract }) => {
                self.order_id = order_id;
                self.contract = contract;
                self.phase = SubmarineRefundPhase::AwaitAccepted;
                Ok(())
            },
            (SubmarineRefundPhase::AwaitAccepted, Reply::Record(_)) => {
                self.phase = SubmarineRefundPhase::AwaitLockTerms;
                Ok(())
            },
            (SubmarineRefundPhase::AwaitLockTerms, Reply::Record(_)) => {
                self.phase = SubmarineRefundPhase::TakeFunding;
                Ok(())
            },
            (SubmarineRefundPhase::TakeFunding, Reply::Funding { receipt: _, id, output_index, hex }) => {
                self.lockup_txid = id;
                self.lockup_output = output_index;
                self.funding_hex = hex;
                self.phase = SubmarineRefundPhase::AuthorizeFunding;
                Ok(())
            },
            (SubmarineRefundPhase::TakeFunding, Reply::Done) => {
                Err("submarine refund has no contract-bound funding transaction".to_owned())
            },
            (SubmarineRefundPhase::AuthorizeFunding, Reply::Done) => {
                self.phase = SubmarineRefundPhase::KeepAuthorization;
                Ok(())
            },
            (SubmarineRefundPhase::KeepAuthorization, Reply::Done) => {
                self.phase = SubmarineRefundPhase::SayVerified;
                Ok(())
            },
            (SubmarineRefundPhase::SayVerified, Reply::Record(_)) => {
                self.phase = SubmarineRefundPhase::KeepReady;
                Ok(())
            },
            (SubmarineRefundPhase::KeepReady, Reply::Done) => {
                self.phase = SubmarineRefundPhase::BroadcastFunding;
                Ok(())
            },
            (SubmarineRefundPhase::BroadcastFunding, Reply::Done) => {
                self.phase = SubmarineRefundPhase::RecordFunding;
                Ok(())
            },
            (SubmarineRefundPhase::RecordFunding, Reply::Done) => {
                if self.injection != Some(HarnessInjection::ProviderNoncooperative) {
                    return Err(
                        "submarine refund requires the selected provider stop proof".to_owned(),
                    );
                }
                self.phase = SubmarineRefundPhase::SayFunding;
                Ok(())
            },
            (SubmarineRefundPhase::SayFunding, Reply::Record(_)) => {
                self.phase = SubmarineRefundPhase::MineFunding;
                Ok(())
            },
            (SubmarineRefundPhase::MineFunding, Reply::Done) => {
                self.phase = SubmarineRefundPhase::ReadConfirmation;
                Ok(())
            },
            (SubmarineRefundPhase::ReadConfirmation, Reply::Number(value)) => {
                let height: u32 = narrow_height(value, "funding confirmation height exceeds u32")?;
                let terms: BitcoinTerms = bitcoin_terms(&self.contract, "source")?;
                if height >= terms.refund_lock_height {
                    return Err(
                        "submarine refund lockup confirmed after its CLTV deadline".to_owned(),
                    );
                }
                self.refund_lock_height = terms.refund_lock_height;
                self.amount_sat = terms.amount_sat;
                self.fee_budget_sat = terms.miner_fee_budget_sat;
                self.funding_confirmation_height = height;
                self.phase = SubmarineRefundPhase::FinalizeInvoice;
                Ok(())
            },
            (SubmarineRefundPhase::FinalizeInvoice, Reply::Removal { deleted, remaining }) => {
                let removed: () = finalize_invoice_unpaid(
                    &deleted,
                    &remaining,
                    self.payment_hash.as_str(),
                )?;
                self.phase = SubmarineRefundPhase::ReadHeight;
                Ok(())
            },
            (SubmarineRefundPhase::ReadHeight, Reply::Number(value)) => {
                let height: u32 = narrow_height(value, "Bitcoin chain height exceeds u32")?;
                self.height = height;
                self.phase = SubmarineRefundPhase::PlanBeforeTimeout;
                Ok(())
            },
            (SubmarineRefundPhase::PlanBeforeTimeout, Reply::Planned(planned)) => match planned {
                Err(message) => Err(
                    join(
                        "client engine rejected submarine refund recovery view: ",
                        message.as_str(),
                    ),
                ),
                Ok(Plan::WaitForTimeout) => {
                    self.phase = SubmarineRefundPhase::MineTimeout;
                    Ok(())
                },
                Ok(_) => Err(
                    "client recovery did not wait for the committed refund timeout".to_owned(),
                ),
            },
            (SubmarineRefundPhase::MineTimeout, Reply::Done) => {
                self.phase = SubmarineRefundPhase::ReadTimeoutHeight;
                Ok(())
            },
            (SubmarineRefundPhase::ReadTimeoutHeight, Reply::Number(value)) => {
                let height: u32 = narrow_height(value, "Bitcoin chain height exceeds u32")?;
                if height != self.refund_lock_height {
                    return Err(
                        "scripted mining did not stop at the exact CLTV refund height".to_owned(),
                    );
                }
                self.timeout_height = height;
                self.phase = SubmarineRefundPhase::PlanRefund;
                Ok(())
            },
            (SubmarineRefundPhase::PlanRefund, Reply::Planned(planned)) => match planned {
                Err(message) => Err(
                    join(
                        "client engine rejected submarine refund recovery view: ",
                        message.as_str(),
                    ),
                ),
                Ok(Plan::RequestWalletRefund(effect_id)) => {
                    self.effect_id = effect_id;
                    self.phase = SubmarineRefundPhase::SayPrepared;
                    Ok(())
                },
                Ok(_) => Err(
                    "client recovery did not authorize the requester wallet refund".to_owned(),
                ),
            },
            (SubmarineRefundPhase::SayPrepared, Reply::Record(_)) => {
                let left: u64 = match amount_after_fee(self.amount_sat, self.fee_budget_sat) {
                    Some(left) => left,
                    None => {
                        return Err("submarine refund fee consumes its output".to_owned());
                    },
                };
                self.refund_value_sat = left;
                self.phase = SubmarineRefundPhase::BuildRefund;
                Ok(())
            },
            (SubmarineRefundPhase::BuildRefund, Reply::Texts(texts)) => {
                if texts.len() != 2 {
                    return Err(wrong_reply_text());
                }
                self.refund_hex = texts[0].clone();
                self.refund_txid = texts[1].clone();
                self.phase = SubmarineRefundPhase::SignRefund;
                Ok(())
            },
            (SubmarineRefundPhase::SignRefund, Reply::Texts(texts)) => {
                if texts.len() != 2 {
                    return Err(wrong_reply_text());
                }
                if !same_text(texts[0].as_str(), self.effect_id.as_str())
                    || !same_text(texts[1].as_str(), self.refund_hex.as_str())
                {
                    return Err(
                        "client engine signed another requester refund transaction".to_owned(),
                    );
                }
                self.phase = SubmarineRefundPhase::RecordRefund;
                Ok(())
            },
            (SubmarineRefundPhase::SignRefund, Reply::Done) => {
                Err("requester refund signing unexpectedly reused another effect".to_owned())
            },
            (SubmarineRefundPhase::RecordRefund, Reply::Done) => {
                self.phase = SubmarineRefundPhase::SayPending;
                Ok(())
            },
            (SubmarineRefundPhase::SayPending, Reply::Record(_)) => {
                self.phase = SubmarineRefundPhase::BroadcastRefund;
                Ok(())
            },
            (SubmarineRefundPhase::BroadcastRefund, Reply::Done) => {
                self.phase = SubmarineRefundPhase::MineRefund;
                Ok(())
            },
            (SubmarineRefundPhase::MineRefund, Reply::Done) => {
                self.phase = SubmarineRefundPhase::VerifyOnBothNodes;
                Ok(())
            },
            (SubmarineRefundPhase::VerifyOnBothNodes, Reply::Done) => {
                self.phase = SubmarineRefundPhase::ReadRecords;
                Ok(())
            },
            (SubmarineRefundPhase::ReadRecords, Reply::Records(records)) => {
                if some_settlement(&records, self.kinds, self.provider_pubkey.as_str()) {
                    return Err("noncooperative provider produced a settlement effect".to_owned());
                }
                self.phase = SubmarineRefundPhase::SayRefunded;
                Ok(())
            },
            (SubmarineRefundPhase::SayRefunded, Reply::Record(_)) => {
                self.phase = SubmarineRefundPhase::KeepResult;
                Ok(())
            },
            (SubmarineRefundPhase::KeepResult, Reply::Done) => {
                self.phase = SubmarineRefundPhase::Finished;
                Ok(())
            },
            _ => Err(wrong_reply_text()),
        }
    }
}

/// Whether each entry of a trace leads to the one after it, from the first phase on.
pub open spec fn is_submarine_refund_trace(
    trace: Seq<(SubmarineRefundRunView, ReplyView)>,
) -> bool {
    &&& trace.len() > 0
    &&& trace[0].0.phase == SubmarineRefundPhase::CreateInvoice
    &&& forall|i: int|
        0 <= i < trace.len() - 1 ==> submarine_refund_step(
            (#[trigger] trace[i]).0,
            trace[i].1,
        ) == Ok::<
            SubmarineRefundRunView,
            Seq<char>,
        >(trace[i + 1].0)
}

/// Each reply takes a submarine refund forward, never back and never in place.
#[verifier::rlimit(100)]
pub proof fn law_submarine_refund_moves_forward(run: SubmarineRefundRunView, reply: ReplyView)
    requires
        submarine_refund_step(run, reply) is Ok,
    ensures
        run.phase.rank() < submarine_refund_step(run, reply)->Ok_0.phase.rank(),
{
}

/// Which replies take a submarine refund on, and to which phase: in each phase exactly the replies
/// that pass every check of that phase, and no others.
pub proof fn law_submarine_refund_goes_on_only_when_answered(
    run: SubmarineRefundRunView,
    reply: ReplyView,
)
    ensures
        ({
            let next = submarine_refund_step(run, reply);
            match run.phase {
                SubmarineRefundPhase::CreateInvoice => {
                    &&& next is Ok <==> {
                        &&& reply is Texts
                        &&& reply->Texts_0.len() == 2
                    }
                    &&& next is Ok ==> next->Ok_0.phase == SubmarineRefundPhase::PrepareOrder
                },
                SubmarineRefundPhase::PrepareOrder => {
                    &&& next is Ok <==> reply is Session
                    &&& next is Ok ==> next->Ok_0.phase == SubmarineRefundPhase::AwaitAccepted
                },
                SubmarineRefundPhase::AwaitAccepted => {
                    &&& next is Ok <==> reply is Record
                    &&& next is Ok ==> next->Ok_0.phase == SubmarineRefundPhase::AwaitLockTerms
                },
                SubmarineRefundPhase::AwaitLockTerms => {
                    &&& next is Ok <==> reply is Record
                    &&& next is Ok ==> next->Ok_0.phase == SubmarineRefundPhase::TakeFunding
                },
                SubmarineRefundPhase::TakeFunding => {
                    &&& next is Ok <==> reply is Funding
                    &&& next is Ok ==> next->Ok_0.phase == SubmarineRefundPhase::AuthorizeFunding
                },
                SubmarineRefundPhase::AuthorizeFunding => {
                    &&& next is Ok <==> reply is Done
                    &&& next is Ok ==> next->Ok_0.phase == SubmarineRefundPhase::KeepAuthorization
                },
                SubmarineRefundPhase::KeepAuthorization => {
                    &&& next is Ok <==> reply is Done
                    &&& next is Ok ==> next->Ok_0.phase == SubmarineRefundPhase::SayVerified
                },
                SubmarineRefundPhase::SayVerified => {
                    &&& next is Ok <==> reply is Record
                    &&& next is Ok ==> next->Ok_0.phase == SubmarineRefundPhase::KeepReady
                },
                SubmarineRefundPhase::KeepReady => {
                    &&& next is Ok <==> reply is Done
                    &&& next is Ok ==> next->Ok_0.phase == SubmarineRefundPhase::BroadcastFunding
                },
                SubmarineRefundPhase::BroadcastFunding => {
                    &&& next is Ok <==> reply is Done
                    &&& next is Ok ==> next->Ok_0.phase == SubmarineRefundPhase::RecordFunding
                },
                SubmarineRefundPhase::RecordFunding => {
                    &&& next is Ok <==> {
                        &&& reply is Done
                        &&& run.injection == Some(HarnessInjection::ProviderNoncooperative)
                    }
                    &&& next is Ok ==> next->Ok_0.phase == SubmarineRefundPhase::SayFunding
                },
                SubmarineRefundPhase::SayFunding => {
                    &&& next is Ok <==> reply is Record
                    &&& next is Ok ==> next->Ok_0.phase == SubmarineRefundPhase::MineFunding
                },
                SubmarineRefundPhase::MineFunding => {
                    &&& next is Ok <==> reply is Done
                    &&& next is Ok ==> next->Ok_0.phase == SubmarineRefundPhase::ReadConfirmation
                },
                SubmarineRefundPhase::ReadConfirmation => {
                    &&& next is Ok <==> {
                        &&& reply is Number
                        &&& height_reading(
                            reply->Number_0,
                            "funding confirmation height exceeds u32"@,
                        ) is Ok
                        &&& terms_reading(run.contract, "source"@) is Ok
                        &&& height_reading(
                            reply->Number_0,
                            "funding confirmation height exceeds u32"@,
                        )->Ok_0 < terms_reading(
                            run.contract,
                            "source"@,
                        )->Ok_0.refund_lock_height
                    }
                    &&& next is Ok ==> next->Ok_0.phase == SubmarineRefundPhase::FinalizeInvoice
                },
                SubmarineRefundPhase::FinalizeInvoice => {
                    &&& next is Ok <==> {
                        &&& reply is Removal
                        &&& removal_reading(
                            reply->Removal_deleted,
                            reply->Removal_remaining,
                            run.payment_hash,
                        ) is Ok
                    }
                    &&& next is Ok ==> next->Ok_0.phase == SubmarineRefundPhase::ReadHeight
                },
                SubmarineRefundPhase::ReadHeight => {
                    &&& next is Ok <==> {
                        &&& reply is Number
                        &&& height_reading(
                            reply->Number_0,
                            "Bitcoin chain height exceeds u32"@,
                        ) is Ok
                    }
                    &&& next is Ok ==> next->Ok_0.phase == SubmarineRefundPhase::PlanBeforeTimeout
                },
                SubmarineRefundPhase::PlanBeforeTimeout => {
                    &&& next is Ok <==> {
                        &&& reply is Planned
                        &&& reply->Planned_0 is Ok
                        &&& reply->Planned_0->Ok_0 is WaitForTimeout
                    }
                    &&& next is Ok ==> next->Ok_0.phase == SubmarineRefundPhase::MineTimeout
                },
                SubmarineRefundPhase::MineTimeout => {
                    &&& next is Ok <==> reply is Done
                    &&& next is Ok ==> next->Ok_0.phase == SubmarineRefundPhase::ReadTimeoutHeight
                },
                SubmarineRefundPhase::ReadTimeoutHeight => {
                    &&& next is Ok <==> {
                        &&& reply is Number
                        &&& height_reading(
                            reply->Number_0,
                            "Bitcoin chain height exceeds u32"@,
                        ) is Ok
                        &&& height_reading(
                            reply->Number_0,
                            "Bitcoin chain height exceeds u32"@,
                        )->Ok_0 == run.refund_lock_height
                    }
                    &&& next is Ok ==> next->Ok_0.phase == SubmarineRefundPhase::PlanRefund
                },
                SubmarineRefundPhase::PlanRefund => {
                    &&& next is Ok <==> {
                        &&& reply is Planned
                        &&& reply->Planned_0 is Ok
                        &&& reply->Planned_0->Ok_0 is RequestWalletRefund
                    }
                    &&& next is Ok ==> next->Ok_0.phase == SubmarineRefundPhase::SayPrepared
                },
                SubmarineRefundPhase::SayPrepared => {
                    &&& next is Ok <==> {
                        &&& reply is Record
                        &&& after_fee(run.amount_sat, run.fee_budget_sat) is Some
                    }
                    &&& next is Ok ==> next->Ok_0.phase == SubmarineRefundPhase::BuildRefund
                },
                SubmarineRefundPhase::BuildRefund => {
                    &&& next is Ok <==> {
                        &&& reply is Texts
                        &&& reply->Texts_0.len() == 2
                    }
                    &&& next is Ok ==> next->Ok_0.phase == SubmarineRefundPhase::SignRefund
                },
                SubmarineRefundPhase::SignRefund => {
                    &&& next is Ok <==> {
                        &&& reply is Texts
                        &&& reply->Texts_0.len() == 2
                        &&& reply->Texts_0[0] == run.effect_id
                        &&& reply->Texts_0[1] == run.refund_hex
                    }
                    &&& next is Ok ==> next->Ok_0.phase == SubmarineRefundPhase::RecordRefund
                },
                SubmarineRefundPhase::RecordRefund => {
                    &&& next is Ok <==> reply is Done
                    &&& next is Ok ==> next->Ok_0.phase == SubmarineRefundPhase::SayPending
                },
                SubmarineRefundPhase::SayPending => {
                    &&& next is Ok <==> reply is Record
                    &&& next is Ok ==> next->Ok_0.phase == SubmarineRefundPhase::BroadcastRefund
                },
                SubmarineRefundPhase::BroadcastRefund => {
                    &&& next is Ok <==> reply is Done
                    &&& next is Ok ==> next->Ok_0.phase == SubmarineRefundPhase::MineRefund
                },
                SubmarineRefundPhase::MineRefund => {
                    &&& next is Ok <==> reply is Done
                    &&& next is Ok ==> next->Ok_0.phase == SubmarineRefundPhase::VerifyOnBothNodes
                },
                SubmarineRefundPhase::VerifyOnBothNodes => {
                    &&& next is Ok <==> reply is Done
                    &&& next is Ok ==> next->Ok_0.phase == SubmarineRefundPhase::ReadRecords
                },
                SubmarineRefundPhase::ReadRecords => {
                    &&& next is Ok <==> {
                        &&& reply is Records
                        &&& !(provider_settled(reply->Records_0, run.kinds, run.provider_pubkey))
                    }
                    &&& next is Ok ==> next->Ok_0.phase == SubmarineRefundPhase::SayRefunded
                },
                SubmarineRefundPhase::SayRefunded => {
                    &&& next is Ok <==> reply is Record
                    &&& next is Ok ==> next->Ok_0.phase == SubmarineRefundPhase::KeepResult
                },
                SubmarineRefundPhase::KeepResult => {
                    &&& next is Ok <==> reply is Done
                    &&& next is Ok ==> next->Ok_0.phase == SubmarineRefundPhase::Finished
                },
                SubmarineRefundPhase::Finished => next is Err,
            }
        }),
{
}

/// The reply that a trace of a submarine refund holds for a phase.
pub open spec fn submarine_refund_told(
    trace: Seq<(SubmarineRefundRunView, ReplyView)>,
    phase: SubmarineRefundPhase,
) -> ReplyView {
    trace[choose|i: int| 0 <= i < trace.len() && (#[trigger] trace[i]).0.phase == phase].1
}

/// The values that a run of a submarine refund holds, by the replies that gave them: each stays as
/// the reply to one phase gave it, or as the run started with it.
pub open spec fn submarine_refund_holds(
    trace: Seq<(SubmarineRefundRunView, ReplyView)>,
    run: SubmarineRefundRunView,
) -> bool {
    let start = trace[0].0;
    let payment_hash = submarine_refund_told(trace, SubmarineRefundPhase::CreateInvoice)->Texts_0[0];
    let invoice = submarine_refund_told(trace, SubmarineRefundPhase::CreateInvoice)->Texts_0[1];
    let order_id = submarine_refund_told(trace, SubmarineRefundPhase::PrepareOrder)->Session_order_id;
    let contract = submarine_refund_told(trace, SubmarineRefundPhase::PrepareOrder)->Session_contract;
    let lockup_txid = submarine_refund_told(trace, SubmarineRefundPhase::TakeFunding)->Funding_id;
    let lockup_output = submarine_refund_told(trace, SubmarineRefundPhase::TakeFunding)->Funding_output_index;
    let funding_hex = submarine_refund_told(trace, SubmarineRefundPhase::TakeFunding)->Funding_hex;
    let funding_confirmation_height = height_reading(
        submarine_refund_told(trace, SubmarineRefundPhase::ReadConfirmation)->Number_0,
        "funding confirmation height exceeds u32"@,
    )->Ok_0;
    let refund_lock_height = terms_reading(contract, "source"@)->Ok_0.refund_lock_height;
    let amount_sat = terms_reading(contract, "source"@)->Ok_0.amount_sat;
    let fee_budget_sat = terms_reading(contract, "source"@)->Ok_0.miner_fee_budget_sat;
    let height = height_reading(
        submarine_refund_told(trace, SubmarineRefundPhase::ReadHeight)->Number_0,
        "Bitcoin chain height exceeds u32"@,
    )->Ok_0;
    let timeout_height = height_reading(
        submarine_refund_told(trace, SubmarineRefundPhase::ReadTimeoutHeight)->Number_0,
        "Bitcoin chain height exceeds u32"@,
    )->Ok_0;
    let effect_id = submarine_refund_told(
        trace,
        SubmarineRefundPhase::PlanRefund,
    )->Planned_0->Ok_0->RequestWalletRefund_0;
    let refund_value_sat = after_fee(amount_sat, fee_budget_sat)->0;
    let refund_hex = submarine_refund_told(trace, SubmarineRefundPhase::BuildRefund)->Texts_0[0];
    let refund_txid = submarine_refund_told(trace, SubmarineRefundPhase::BuildRefund)->Texts_0[1];
    &&& run.provider_pubkey == start.provider_pubkey
    &&& run.confirmations == start.confirmations
    &&& run.injection == start.injection
    &&& run.kinds == start.kinds
    &&& run.phase.rank() > SubmarineRefundPhase::CreateInvoice.rank()
        ==> run.payment_hash == payment_hash
    &&& run.phase.rank() > SubmarineRefundPhase::CreateInvoice.rank() ==> run.invoice == invoice
    &&& run.phase.rank() > SubmarineRefundPhase::PrepareOrder.rank() ==> run.order_id == order_id
    &&& run.phase.rank() > SubmarineRefundPhase::PrepareOrder.rank() ==> run.contract == contract
    &&& run.phase.rank() > SubmarineRefundPhase::TakeFunding.rank()
        ==> run.lockup_txid == lockup_txid
    &&& run.phase.rank() > SubmarineRefundPhase::TakeFunding.rank()
        ==> run.lockup_output == lockup_output
    &&& run.phase.rank() > SubmarineRefundPhase::TakeFunding.rank()
        ==> run.funding_hex == funding_hex
    &&& run.phase.rank() > SubmarineRefundPhase::ReadConfirmation.rank()
        ==> run.funding_confirmation_height == funding_confirmation_height
    &&& run.phase.rank() > SubmarineRefundPhase::ReadConfirmation.rank()
        ==> run.refund_lock_height == refund_lock_height
    &&& run.phase.rank() > SubmarineRefundPhase::ReadConfirmation.rank()
        ==> run.amount_sat == amount_sat
    &&& run.phase.rank() > SubmarineRefundPhase::ReadConfirmation.rank()
        ==> run.fee_budget_sat == fee_budget_sat
    &&& run.phase.rank() > SubmarineRefundPhase::ReadHeight.rank() ==> run.height == height
    &&& run.phase.rank() > SubmarineRefundPhase::ReadTimeoutHeight.rank()
        ==> run.timeout_height == timeout_height
    &&& run.phase.rank() > SubmarineRefundPhase::PlanRefund.rank() ==> run.effect_id == effect_id
    &&& run.phase.rank() > SubmarineRefundPhase::SayPrepared.rank()
        ==> run.refund_value_sat == refund_value_sat
    &&& run.phase.rank() > SubmarineRefundPhase::BuildRefund.rank() ==> run.refund_hex == refund_hex
    &&& run.phase.rank() > SubmarineRefundPhase::BuildRefund.rank()
        ==> run.refund_txid == refund_txid
}

/// No phase of a submarine refund comes twice in a trace.
proof fn lemma_submarine_refund_told_once(
    trace: Seq<(SubmarineRefundRunView, ReplyView)>,
    place: int,
)
    requires
        is_submarine_refund_trace(trace),
        0 <= place < trace.len(),
    ensures
        submarine_refund_told(trace, trace[place].0.phase) == trace[place].1,
{
    let phase = trace[place].0.phase;
    let other = choose|i: int| 0 <= i < trace.len() && (#[trigger] trace[i]).0.phase == phase;
    assert(trace[place].0.phase == phase);
    if other != place {
        let (early, late) = if other < place {
            (other, place)
        } else {
            (place, other)
        };
        assert forall|run: SubmarineRefundRunView, reply: ReplyView|
            (#[trigger] submarine_refund_step(run, reply)) is Ok implies run.phase.rank() < submarine_refund_step(
            run,
            reply,
        )->Ok_0.phase.rank() by {
            law_submarine_refund_moves_forward(run, reply);
        }
        lemma_ranks_rise(
            trace,
            |run: SubmarineRefundRunView, reply: ReplyView| submarine_refund_step(run, reply),
            |run: SubmarineRefundRunView| run.phase.rank(),
            early,
            late,
        );
    }
}

/// A reply keeps what a submarine refund holds, and adds what it tells.
proof fn lemma_submarine_refund_holds_on(
    trace: Seq<(SubmarineRefundRunView, ReplyView)>,
    run: SubmarineRefundRunView,
    reply: ReplyView,
)
    requires
        submarine_refund_holds(trace, run),
        submarine_refund_told(trace, run.phase) == reply,
        submarine_refund_step(run, reply) is Ok,
    ensures
        submarine_refund_holds(trace, submarine_refund_step(run, reply)->Ok_0),
{
    let next = submarine_refund_step(run, reply)->Ok_0;
    match run.phase {
        SubmarineRefundPhase::CreateInvoice => assert(submarine_refund_holds(trace, next)),
        SubmarineRefundPhase::PrepareOrder => assert(submarine_refund_holds(trace, next)),
        SubmarineRefundPhase::AwaitAccepted => assert(submarine_refund_holds(trace, next)),
        SubmarineRefundPhase::AwaitLockTerms => assert(submarine_refund_holds(trace, next)),
        SubmarineRefundPhase::TakeFunding => assert(submarine_refund_holds(trace, next)),
        SubmarineRefundPhase::AuthorizeFunding => assert(submarine_refund_holds(trace, next)),
        SubmarineRefundPhase::KeepAuthorization => assert(submarine_refund_holds(trace, next)),
        SubmarineRefundPhase::SayVerified => assert(submarine_refund_holds(trace, next)),
        SubmarineRefundPhase::KeepReady => assert(submarine_refund_holds(trace, next)),
        SubmarineRefundPhase::BroadcastFunding => assert(submarine_refund_holds(trace, next)),
        SubmarineRefundPhase::RecordFunding => assert(submarine_refund_holds(trace, next)),
        SubmarineRefundPhase::SayFunding => assert(submarine_refund_holds(trace, next)),
        SubmarineRefundPhase::MineFunding => assert(submarine_refund_holds(trace, next)),
        SubmarineRefundPhase::ReadConfirmation => assert(submarine_refund_holds(trace, next)),
        SubmarineRefundPhase::FinalizeInvoice => assert(submarine_refund_holds(trace, next)),
        SubmarineRefundPhase::ReadHeight => assert(submarine_refund_holds(trace, next)),
        SubmarineRefundPhase::PlanBeforeTimeout => assert(submarine_refund_holds(trace, next)),
        SubmarineRefundPhase::MineTimeout => assert(submarine_refund_holds(trace, next)),
        SubmarineRefundPhase::ReadTimeoutHeight => assert(submarine_refund_holds(trace, next)),
        SubmarineRefundPhase::PlanRefund => assert(submarine_refund_holds(trace, next)),
        SubmarineRefundPhase::SayPrepared => assert(submarine_refund_holds(trace, next)),
        SubmarineRefundPhase::BuildRefund => assert(submarine_refund_holds(trace, next)),
        SubmarineRefundPhase::SignRefund => assert(submarine_refund_holds(trace, next)),
        SubmarineRefundPhase::RecordRefund => assert(submarine_refund_holds(trace, next)),
        SubmarineRefundPhase::SayPending => assert(submarine_refund_holds(trace, next)),
        SubmarineRefundPhase::BroadcastRefund => assert(submarine_refund_holds(trace, next)),
        SubmarineRefundPhase::MineRefund => assert(submarine_refund_holds(trace, next)),
        SubmarineRefundPhase::VerifyOnBothNodes => assert(submarine_refund_holds(trace, next)),
        SubmarineRefundPhase::ReadRecords => assert(submarine_refund_holds(trace, next)),
        SubmarineRefundPhase::SayRefunded => assert(submarine_refund_holds(trace, next)),
        SubmarineRefundPhase::KeepResult => assert(submarine_refund_holds(trace, next)),
        SubmarineRefundPhase::Finished => assert(submarine_refund_holds(trace, next)),
    }
}

/// What a submarine refund has been told, it keeps: at every place of a trace each value that the
/// run holds is the one that the reply to the phase that asks for it gave, or the one that the run
/// started with.
pub proof fn law_submarine_refund_keeps_what_it_was_told(
    trace: Seq<(SubmarineRefundRunView, ReplyView)>,
    last: int,
)
    requires
        is_submarine_refund_trace(trace),
        0 <= last < trace.len(),
    ensures
        submarine_refund_holds(trace, trace[last].0),
    decreases last,
{
    if last > 0 {
        let before = last - 1;
        law_submarine_refund_keeps_what_it_was_told(trace, before);
        lemma_submarine_refund_told_once(trace, before);
        assert(submarine_refund_step(trace[before].0, trace[before].1) == Ok::<SubmarineRefundRunView, Seq<char>>(
            trace[before + 1].0,
        ));
        lemma_submarine_refund_holds_on(trace, trace[before].0, trace[before].1);
    }
}

/// What a submarine refund asks for in each phase, in terms of the replies before it: the values in
/// a request are those that the replies to the named phases gave, or those that the run started
/// with.
pub proof fn law_submarine_refund_asks_with_what_it_was_told(
    trace: Seq<(SubmarineRefundRunView, ReplyView)>,
    last: int,
)
    requires
        is_submarine_refund_trace(trace),
        0 <= last < trace.len(),
    ensures
        ({
            let start = trace[0].0;
            let payment_hash = submarine_refund_told(trace, SubmarineRefundPhase::CreateInvoice)->Texts_0[0];
            let invoice = submarine_refund_told(trace, SubmarineRefundPhase::CreateInvoice)->Texts_0[1];
            let order_id = submarine_refund_told(trace, SubmarineRefundPhase::PrepareOrder)->Session_order_id;
            let contract = submarine_refund_told(trace, SubmarineRefundPhase::PrepareOrder)->Session_contract;
            let lockup_txid = submarine_refund_told(trace, SubmarineRefundPhase::TakeFunding)->Funding_id;
            let funding_hex = submarine_refund_told(trace, SubmarineRefundPhase::TakeFunding)->Funding_hex;
            let funding_confirmation_height = height_reading(
                submarine_refund_told(trace, SubmarineRefundPhase::ReadConfirmation)->Number_0,
                "funding confirmation height exceeds u32"@,
            )->Ok_0;
            let refund_lock_height = terms_reading(contract, "source"@)->Ok_0.refund_lock_height;
            let amount_sat = terms_reading(contract, "source"@)->Ok_0.amount_sat;
            let fee_budget_sat = terms_reading(contract, "source"@)->Ok_0.miner_fee_budget_sat;
            let height = height_reading(
                submarine_refund_told(trace, SubmarineRefundPhase::ReadHeight)->Number_0,
                "Bitcoin chain height exceeds u32"@,
            )->Ok_0;
            let timeout_height = height_reading(
                submarine_refund_told(trace, SubmarineRefundPhase::ReadTimeoutHeight)->Number_0,
                "Bitcoin chain height exceeds u32"@,
            )->Ok_0;
            let refund_value_sat = after_fee(amount_sat, fee_budget_sat)->0;
            let refund_hex = submarine_refund_told(trace, SubmarineRefundPhase::BuildRefund)->Texts_0[0];
            let refund_txid = submarine_refund_told(trace, SubmarineRefundPhase::BuildRefund)->Texts_0[1];
            let action = submarine_refund_action(trace[last].0);
            match trace[last].0.phase {
                SubmarineRefundPhase::CreateInvoice => action == ActionView::Perform(
                    Task::CreateInvoice,
                    seq![
                        "immortal-funded-submarine-refund"@,
                        decimal(OUTPUT_AMOUNT_SAT as nat),
                        "Immortal adversarial submarine refund"@,
                        decimal(INVOICE_EXPIRY_SECONDS as nat),
                    ],
                ),
                SubmarineRefundPhase::PrepareOrder => action == ActionView::Perform(
                    Task::PrepareOrder,
                    seq![payment_hash, invoice],
                ),
                SubmarineRefundPhase::AwaitAccepted => action == ActionView::AwaitState(
                    "accepted"@,
                ),
                SubmarineRefundPhase::AwaitLockTerms => action == ActionView::AwaitState(
                    "lock_terms_ready"@,
                ),
                SubmarineRefundPhase::TakeFunding => action == ActionView::Perform(
                    Task::TakeFunding,
                    seq![],
                ),
                SubmarineRefundPhase::AuthorizeFunding => action == ActionView::Perform(
                    Task::AuthorizeFunding,
                    seq![invoice],
                ),
                SubmarineRefundPhase::KeepAuthorization => action == ActionView::Perform(
                    Task::KeepAuthorization,
                    seq![],
                ),
                SubmarineRefundPhase::SayVerified => action == ActionView::Say(
                    "requester_verification_passed"@,
                    no_members(),
                ),
                SubmarineRefundPhase::KeepReady => action == ActionView::Keep(
                    "funding_execution_ready"@,
                    effect_doc(lockup_txid),
                ),
                SubmarineRefundPhase::BroadcastFunding => action == ActionView::Perform(
                    Task::BroadcastBitcoin,
                    seq!["submarine-refund-funding"@, funding_hex, lockup_txid],
                ),
                SubmarineRefundPhase::RecordFunding => action == ActionView::Perform(
                    Task::RecordFundingEffect,
                    seq![lockup_txid, funding_hex, "text"@],
                ),
                SubmarineRefundPhase::SayFunding => action == ActionView::Say(
                    "requester_funding_broadcast"@,
                    no_members().insert(
                        "transaction_id"@,
                        text_doc(lockup_txid),
                    ).insert("output_index"@, number_doc(0)),
                ),
                SubmarineRefundPhase::MineFunding => action == ActionView::Mine(
                    "bitcoin"@,
                    1,
                    "submarine-refund-funding"@,
                ),
                SubmarineRefundPhase::ReadConfirmation => action == ActionView::Perform(
                    Task::ReadConfirmationHeight,
                    seq!["submarine-refund-funding-confirmation"@, lockup_txid],
                ),
                SubmarineRefundPhase::FinalizeInvoice => action == ActionView::Perform(
                    Task::FinalizeInvoice,
                    seq!["immortal-funded-submarine-refund"@, payment_hash],
                ),
                SubmarineRefundPhase::ReadHeight => action == ActionView::Perform(
                    Task::ReadHeight,
                    seq!["refund-before-timeout"@],
                ),
                SubmarineRefundPhase::PlanBeforeTimeout => action == ActionView::Plan(
                    refund_standing(height, funding_confirmation_height, true),
                ),
                SubmarineRefundPhase::MineTimeout => action == ActionView::Mine(
                    "bitcoin"@,
                    blocks_until(refund_lock_height, height),
                    "submarine-refund-timeout"@,
                ),
                SubmarineRefundPhase::ReadTimeoutHeight => action == ActionView::Perform(
                    Task::ReadHeight,
                    seq!["refund-timeout"@],
                ),
                SubmarineRefundPhase::PlanRefund => action == ActionView::Plan(
                    refund_standing(timeout_height, funding_confirmation_height, true),
                ),
                SubmarineRefundPhase::SayPrepared => action == ActionView::Say(
                    "refund_prepared"@,
                    no_members(),
                ),
                SubmarineRefundPhase::BuildRefund => action == ActionView::Perform(
                    Task::BuildRefund,
                    seq![lockup_txid, decimal(refund_value_sat as nat)],
                ),
                SubmarineRefundPhase::SignRefund => action == ActionView::Perform(
                    Task::SignExit,
                    seq![refund_hex],
                ),
                SubmarineRefundPhase::RecordRefund => action == ActionView::Perform(
                    Task::RecordSignedExit,
                    seq![refund_txid, refund_hex],
                ),
                SubmarineRefundPhase::SayPending => action == ActionView::Say(
                    "refund_pending"@,
                    no_members(),
                ),
                SubmarineRefundPhase::BroadcastRefund => action == ActionView::Perform(
                    Task::BroadcastBitcoin,
                    seq!["submarine-requester-refund"@, refund_hex, refund_txid],
                ),
                SubmarineRefundPhase::MineRefund => action == ActionView::Mine(
                    "bitcoin"@,
                    start.confirmations,
                    "submarine-requester-refund"@,
                ),
                SubmarineRefundPhase::VerifyOnBothNodes => action == ActionView::Perform(
                    Task::VerifyOnBothNodes,
                    seq![lockup_txid, "0"@, refund_txid, refund_hex],
                ),
                SubmarineRefundPhase::ReadRecords => action == ActionView::Perform(
                    Task::ReadRecords,
                    seq![],
                ),
                SubmarineRefundPhase::SayRefunded => action == ActionView::Say(
                    "refunded"@,
                    no_members(),
                ),
                SubmarineRefundPhase::KeepResult => action == ActionView::Keep(
                    "refunded"@,
                    JsonView::Object(
                        no_members().insert(
                            "result"@,
                            JsonView::Object(
                                no_members().insert("order_id"@, text_doc(order_id)).insert("lockup_txid"@, text_doc(lockup_txid)).insert("lockup_vout"@, number_doc(0)).insert("payment_hash"@, text_doc(payment_hash)).insert(
                                    "funding_confirmation_height"@,
                                    number_doc(funding_confirmation_height as u64),
                                ).insert("refund_lock_height"@, number_doc(refund_lock_height as u64)).insert("refund_txid"@, text_doc(refund_txid)).insert("exit_package_mode"@, text_doc("wallet_sign"@)).insert(
                                    "client_recovery_action"@,
                                    text_doc("request_wallet_refund"@),
                                ).insert(
                                    "both_bitcoind_nodes_agree"@,
                                    JsonView::Bool(true),
                                ).insert("provider_claim_effects"@, number_doc(0)).insert(
                                    "lightning_state"@,
                                    text_doc("unpaid_final"@),
                                ).insert("result"@, text_doc("refunded"@)),
                            ),
                        ),
                    ),
                ),
                SubmarineRefundPhase::Finished => action == ActionView::Finish,
            }
        }),
{
    law_submarine_refund_keeps_what_it_was_told(trace, last);
}

/// What a submarine refund reports at its end is what it was told on the way: each identifier in
/// the report is the one that the reply to the named phase gave, or one that the run started with.
pub proof fn law_submarine_refund_result_names_what_it_was_told(
    trace: Seq<(SubmarineRefundRunView, ReplyView)>,
    last: int,
)
    requires
        is_submarine_refund_trace(trace),
        0 <= last < trace.len(),
        trace[last].0.phase == SubmarineRefundPhase::Finished,
    ensures
        ({
            let payment_hash = submarine_refund_told(trace, SubmarineRefundPhase::CreateInvoice)->Texts_0[0];
            let order_id = submarine_refund_told(trace, SubmarineRefundPhase::PrepareOrder)->Session_order_id;
            let contract = submarine_refund_told(trace, SubmarineRefundPhase::PrepareOrder)->Session_contract;
            let lockup_txid = submarine_refund_told(trace, SubmarineRefundPhase::TakeFunding)->Funding_id;
            let funding_confirmation_height = height_reading(
                submarine_refund_told(trace, SubmarineRefundPhase::ReadConfirmation)->Number_0,
                "funding confirmation height exceeds u32"@,
            )->Ok_0;
            let refund_lock_height = terms_reading(contract, "source"@)->Ok_0.refund_lock_height;
            let refund_txid = submarine_refund_told(trace, SubmarineRefundPhase::BuildRefund)->Texts_0[1];
            submarine_refund_result(trace[last].0) == JsonView::Object(
                no_members().insert("order_id"@, text_doc(order_id)).insert("lockup_txid"@, text_doc(lockup_txid)).insert("lockup_vout"@, number_doc(0)).insert("payment_hash"@, text_doc(payment_hash)).insert(
                    "funding_confirmation_height"@,
                    number_doc(funding_confirmation_height as u64),
                ).insert("refund_lock_height"@, number_doc(refund_lock_height as u64)).insert("refund_txid"@, text_doc(refund_txid)).insert("exit_package_mode"@, text_doc("wallet_sign"@)).insert(
                    "client_recovery_action"@,
                    text_doc("request_wallet_refund"@),
                ).insert(
                    "both_bitcoind_nodes_agree"@,
                    JsonView::Bool(true),
                ).insert("provider_claim_effects"@, number_doc(0)).insert(
                    "lightning_state"@,
                    text_doc("unpaid_final"@),
                ).insert("result"@, text_doc("refunded"@)),
            )
        }),
{
    law_submarine_refund_keeps_what_it_was_told(trace, last);
}

/// The refund is broadcast only after the chain stood at the committed height.
pub proof fn law_requester_refund_waits_for_its_timeout(
    trace: Seq<(SubmarineRefundRunView, ReplyView)>,
    last: int,
)
    requires
        is_submarine_refund_trace(trace),
        0 <= last < trace.len(),
        trace[last].0.phase == SubmarineRefundPhase::BroadcastRefund,
    ensures
        exists|i: int|
            0 <= i < last && (#[trigger] trace[i]).0.phase
                == SubmarineRefundPhase::ReadTimeoutHeight && trace[i].1 == ReplyView::Number(
                trace[i].0.refund_lock_height as u64,
            ),
{
    let i = lemma_milestone(
        trace,
        |run: SubmarineRefundRunView, reply: ReplyView| submarine_refund_step(run, reply),
        |run: SubmarineRefundRunView| run.phase.rank(),
        18,
        last,
    );
    assert(trace[i].0.phase == SubmarineRefundPhase::ReadTimeoutHeight);
    assert(submarine_refund_step(trace[i].0, trace[i].1) == Ok::<SubmarineRefundRunView,
        Seq<char>>(trace[i + 1].0));
}

/// The refund is broadcast only after it has been recorded.
pub proof fn law_requester_refund_is_recorded_first(
    trace: Seq<(SubmarineRefundRunView, ReplyView)>,
    last: int,
)
    requires
        is_submarine_refund_trace(trace),
        0 <= last < trace.len(),
        trace[last].0.phase == SubmarineRefundPhase::BroadcastRefund,
    ensures
        exists|i: int|
            0 <= i < last && (#[trigger] trace[i]).0.phase == SubmarineRefundPhase::RecordRefund &&
                trace[i].1 == ReplyView::Done,
{
    let i = lemma_milestone(
        trace,
        |run: SubmarineRefundRunView, reply: ReplyView| submarine_refund_step(run, reply),
        |run: SubmarineRefundRunView| run.phase.rank(),
        23,
        last,
    );
    assert(trace[i].0.phase == SubmarineRefundPhase::RecordRefund);
    assert(submarine_refund_step(trace[i].0, trace[i].1) == Ok::<SubmarineRefundRunView,
        Seq<char>>(trace[i + 1].0));
}

/// The refund is signed only after the invoice was removed unpaid.
pub proof fn law_requester_refund_follows_the_removal_of_the_invoice(
    trace: Seq<(SubmarineRefundRunView, ReplyView)>,
    last: int,
)
    requires
        is_submarine_refund_trace(trace),
        0 <= last < trace.len(),
        trace[last].0.phase == SubmarineRefundPhase::SignRefund,
    ensures
        exists|i: int|
            0 <= i < last && (#[trigger] trace[i]).0.phase == SubmarineRefundPhase::FinalizeInvoice
                && (trace[i].1 matches ReplyView::Removal { deleted, remaining } &&
                removal_reading(deleted, remaining, trace[i].0.payment_hash) is Ok),
{
    let i = lemma_milestone(
        trace,
        |run: SubmarineRefundRunView, reply: ReplyView| submarine_refund_step(run, reply),
        |run: SubmarineRefundRunView| run.phase.rank(),
        14,
        last,
    );
    assert(trace[i].0.phase == SubmarineRefundPhase::FinalizeInvoice);
    assert(submarine_refund_step(trace[i].0, trace[i].1) == Ok::<SubmarineRefundRunView,
        Seq<char>>(trace[i + 1].0));
}

/// What a submarine refund comes to.
pub open spec fn submarine_refund_result(run: SubmarineRefundRunView) -> JsonView {
    JsonView::Object(
        no_members().insert("order_id"@, text_doc(run.order_id)).insert(
            "lockup_txid"@,
            text_doc(run.lockup_txid),
        ).insert("lockup_vout"@, number_doc(0)).insert(
            "payment_hash"@,
            text_doc(run.payment_hash),
        ).insert(
            "funding_confirmation_height"@,
            number_doc(run.funding_confirmation_height as u64),
        ).insert("refund_lock_height"@, number_doc(run.refund_lock_height as u64)).insert(
            "refund_txid"@,
            text_doc(run.refund_txid),
        ).insert("exit_package_mode"@, text_doc("wallet_sign"@)).insert(
            "client_recovery_action"@,
            text_doc("request_wallet_refund"@),
        ).insert("both_bitcoind_nodes_agree"@, JsonView::Bool(true)).insert(
            "provider_claim_effects"@,
            number_doc(0),
        ).insert("lightning_state"@, text_doc("unpaid_final"@)).insert(
            "result"@,
            text_doc("refunded"@),
        ),
    )
}

impl SubmarineRefundRun {
    fn result_document(&self) -> (document: Json)
        ensures
            document@ == submarine_refund_result(self@),
    {
        Json::object(
            JsonObject::new().with_text("order_id", self.order_id.as_str()).with_text(
                "lockup_txid",
                self.lockup_txid.as_str(),
            ).with_number("lockup_vout", 0).with_text(
                "payment_hash",
                self.payment_hash.as_str(),
            ).with_number(
                "funding_confirmation_height",
                self.funding_confirmation_height as u64,
            ).with_number("refund_lock_height", self.refund_lock_height as u64).with_text(
                "refund_txid",
                self.refund_txid.as_str(),
            ).with_text("exit_package_mode", "wallet_sign").with_text(
                "client_recovery_action",
                "request_wallet_refund",
            ).with_bool("both_bitcoind_nodes_agree", true).with_number(
                "provider_claim_effects",
                0,
            ).with_text("lightning_state", "unpaid_final").with_text("result", "refunded"),
        )
    }

    /// What a submarine refund comes to; nothing before it is over.
    pub fn result(&self) -> (document: Option<Json>)
        ensures
            match document {
                Some(document) => self@.phase == SubmarineRefundPhase::Finished && document@ == submarine_refund_result(self@),
                None => self@.phase != SubmarineRefundPhase::Finished,
            },
    {
        if self.phase == SubmarineRefundPhase::Finished {
            Some(self.result_document())
        } else {
            None
        }
    }
}

/// A refund is signed for exactly the height that the contract commits to, and for what is left of
/// the locked amount after the fee.
pub proof fn law_refund_takes_what_is_left(run: SubmarineRefundRunView, reply: ReplyView)
    requires
        run.phase == SubmarineRefundPhase::SayPrepared,
        submarine_refund_step(run, reply) is Ok,
    ensures
        0 < submarine_refund_step(run, reply)->Ok_0.refund_value_sat,
        submarine_refund_step(run, reply)->Ok_0.refund_value_sat + run.fee_budget_sat
            == run.amount_sat,
{
}

/// A lock that is broadcast again is the one that was bound: its derived identifier must be the one that
/// the lock goes by, and then the same bytes are broadcast, recorded and said under it.
pub proof fn law_resumed_lock_is_the_bound_one(
    run: SubmarineRunView,
    derived: ReplyView,
    sent: ReplyView,
    recorded: ReplyView,
)
    requires
        run.phase == SubmarinePhase::CheckFundingId,
        submarine_step(run, derived) is Ok,
        submarine_step(submarine_step(run, derived)->Ok_0, sent) is Ok,
        submarine_step(
            submarine_step(submarine_step(run, derived)->Ok_0, sent)->Ok_0,
            recorded,
        ) is Ok,
    ensures
        ({
            let first = submarine_step(run, derived)->Ok_0;
            let second = submarine_step(first, sent)->Ok_0;
            let third = submarine_step(second, recorded)->Ok_0;
            &&& derived is Texts && derived->Texts_0 == seq![run.lockup_txid]
            &&& submarine_action(first) == ActionView::Perform(
                Task::BroadcastBitcoin,
                seq!["submarine-funding-resume"@, run.funding_hex, derived->Texts_0[0]],
            )
            &&& submarine_action(second) == ActionView::Perform(
                Task::RecordFundingEffect,
                seq![derived->Texts_0[0], run.funding_hex, "text"@],
            )
            &&& submarine_action(third) == ActionView::Say(
                "requester_funding_broadcast"@,
                no_members().insert("transaction_id"@, text_doc(derived->Texts_0[0])).insert(
                    "output_index"@,
                    number_doc(0),
                ),
            )
        }),
{
    assert(derived->Texts_0 =~= seq![run.lockup_txid]);
}

/// A lock that went out before is looked up by its own identifier and bytes, and said under it.
pub proof fn law_known_lock_is_the_bound_one(run: SubmarineRunView, reply: ReplyView)
    requires
        run.phase == SubmarinePhase::RequireFundingKnown,
        submarine_step(run, reply) is Ok,
    ensures
        submarine_action(run) == ActionView::Perform(
            Task::RequireKnownTransaction,
            seq!["submarine-funding-recorded"@, run.lockup_txid, run.funding_hex],
        ),
        submarine_action(submarine_step(run, reply)->Ok_0) == ActionView::Say(
            "requester_funding_broadcast"@,
            no_members().insert("transaction_id"@, text_doc(run.lockup_txid)).insert(
                "output_index"@,
                number_doc(0),
            ),
        ),
{
}

/// A submarine swap is diverted exactly for a conflict before settlement or a lock without
/// confirmations.
pub proof fn law_diverted_swap_proves_a_conflict(injection: Option<HarnessInjection>)
    ensures
        proves_conflict(injection) <==> injection == Some(HarnessInjection::RbfConflict)
            || wants_zero_confirmation(injection),
{
}

} // verus!
