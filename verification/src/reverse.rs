//! Reverse swaps: the requester pays a hold invoice and claims the coins that the provider locks.

use vstd::prelude::*;
use crate::answer::{answers, closes, says};
use crate::contract::{
    BitcoinTerms, after_fee, amount_after_fee, bitcoin_terms, checkpoint_external_identifier,
    external_identifier_reading, known_transaction_reading, refund_height_reading,
    reverse_refund_height, terms_reading, verify_known_bitcoin_transaction,
};
use crate::control::{FundedCheckpoint, said};
use crate::journey::{FundedJourney, HarnessInjection};
use crate::json::{Json, JsonObject, JsonView, no_members, number_doc, text_doc};
use crate::lifecycle::{
    outpoint_reading, status_outpoint, status_transaction_id, transaction_reading,
};
use crate::machine::{
    Action, ActionView, CloseCheck, CloseCheckView, LightningView, Reply, ReplyView, Task,
    blocks_until, count_blocks_until, effect_details, effect_doc, height_reading, lemma_milestone,
    lemma_ranks_rise, narrow_height, perform, perform_with, perform_with_three, perform_with_two,
    wrong_reply, wrong_reply_text,
};
use crate::planner::{Plan, PlanView, reverse_standing, show_reverse};
use crate::record::{Event, RecordKinds, profile_reading, record_profile};
use crate::status::{find_provider_state, first_provider_word, lemma_first_provider_word};
use crate::terminal::LightningTerminalCheck;
use crate::text::{decimal, decimal_text, join, same_text};

verus! {

/// Whether a reverse swap lets the provider take their coins back.
pub open spec fn refunds(journey: FundedJourney) -> bool {
    journey == FundedJourney::ReverseRefund
}

/// What a reverse swap needs of its contract once it is planned: the height of the refund, or the
/// locked amount and the fee that a claim may take.
pub open spec fn reverse_terms_reading(contract: JsonView, journey: FundedJourney) -> Result<
    (u32, u64, u64),
    Seq<char>,
> {
    if refunds(journey) {
        match refund_height_reading(contract) {
            Err(message) => Err(message),
            Ok(height) => Ok((height, 0, 0)),
        }
    } else {
        match terms_reading(contract, "destination"@) {
            Err(message) => Err(message),
            Ok(terms) => Ok((0, terms.amount_sat, terms.miner_fee_budget_sat)),
        }
    }
}

/// What a reverse swap needs of its contract once it is planned: it can be had exactly where every
/// part that it rests on can, and each part of it is the one that its name says.
pub proof fn law_reverse_terms_is_read_from_its_parts(contract: JsonView, journey: FundedJourney)
    ensures
        ({
            let read = reverse_terms_reading(contract, journey);
            let terms = terms_reading(contract, "destination"@)->Ok_0;
            let given = read->Ok_0;
            let case_1 = {
                &&& refunds(journey)
                &&& refund_height_reading(contract) is Ok
            };
            let case_2 = {
                &&& !(refunds(journey))
                &&& terms_reading(contract, "destination"@) is Ok
            };
            &&& (read is Ok <==> case_1 || case_2)
            &&& read is Ok && case_1 ==> {
                &&& given.0 == refund_height_reading(contract)->Ok_0
                &&& given.1 == 0
                &&& given.2 == 0
            }
            &&& read is Ok && case_2 ==> {
                &&& given.0 == 0
                &&& given.1 == terms.amount_sat
                &&& given.2 == terms.miner_fee_budget_sat
            }
        }),
{
}

/// The outpoint that the provider has said they locked their coins in.
pub open spec fn funding_outpoint_reading(
    records: Seq<Event>,
    kinds: RecordKinds,
    provider: Seq<char>,
) -> Result<(Seq<char>, u32), Seq<char>> {
    match first_provider_word(records, kinds, provider, "provider_funding_broadcast"@) {
        None => Err("persisted reverse claim has no provider funding Status"@),
        Some(status) => outpoint_reading(status.content@),
    }
}

/// The outpoint that the provider has said they locked their coins in: it can be had exactly where
/// every part that it rests on can, and each part of it is the one that its name says.
pub proof fn law_funding_outpoint_is_read_from_its_parts(
    records: Seq<Event>,
    kinds: RecordKinds,
    provider: Seq<char>,
)
    ensures
        ({
            let read = funding_outpoint_reading(records, kinds, provider);
            let status = first_provider_word(
                records,
                kinds,
                provider,
                "provider_funding_broadcast"@,
            )->0;
            let given = read->Ok_0;
            &&& read is Ok <==> {
                &&& first_provider_word(records, kinds, provider, "provider_funding_broadcast"@) is Some
                &&& outpoint_reading(status.content@) is Ok
            }
            &&& read is Ok ==> {
                &&& given == outpoint_reading(status.content@)->Ok_0
            }
        }),
{
}

fn funding_outpoint(records: &Vec<Event>, kinds: RecordKinds, provider: &str) -> (found: Result<
    (String, u32),
    String,
>)
    ensures
        (match found {
            Ok((id, output)) => Ok((id@, output)),
            Err(message) => Err(message@),
        }) == funding_outpoint_reading(records@, kinds, provider@),
{
    match find_provider_state(records, kinds, provider, "provider_funding_broadcast") {
        Some(i) => {
            proof {
                lemma_first_provider_word(
                    records@,
                    kinds,
                    provider@,
                    "provider_funding_broadcast"@,
                    i as int,
                );
            }
            status_outpoint(&records[i])
        },
        None => {
            proof {
                lemma_first_provider_word(
                    records@,
                    kinds,
                    provider@,
                    "provider_funding_broadcast"@,
                    records@.len() as int,
                );
            }
            Err("persisted reverse claim has no provider funding Status".to_owned())
        },
    }
}

/// The phases of a reverse swap, in their order.
#[derive(Clone, Copy, Debug, PartialEq, Eq, Structural)]
pub enum ReversePhase {
    StoreSecret,
    PrepareOrder,
    TryWrongKey,
    AwaitAccepted,
    AwaitInvoice,
    AuthorizeFunding,
    KeepAuthorization,
    SayInvoiceVerified,
    KeepReady,
    StartPayment,
    SayVerifiedAgain,
    FollowPayment,
    RecordPayment,
    SayPending,
    AwaitHeld,
    AwaitLockTerms,
    SayLockVerified,
    AwaitFunding,
    AwaitFundingPropagated,
    MineFunding,
    AwaitObserved,
    AwaitFinal,
    ObserveHeldPayment,
    ReadHeight,
    PlanRecovery,
    Planned,
}

impl ReversePhase {
    /// The place of the phase in their order.
    pub open spec fn rank(self) -> int {
        match self {
            ReversePhase::StoreSecret => 0,
            ReversePhase::PrepareOrder => 1,
            ReversePhase::TryWrongKey => 2,
            ReversePhase::AwaitAccepted => 3,
            ReversePhase::AwaitInvoice => 4,
            ReversePhase::AuthorizeFunding => 5,
            ReversePhase::KeepAuthorization => 6,
            ReversePhase::SayInvoiceVerified => 7,
            ReversePhase::KeepReady => 8,
            ReversePhase::StartPayment => 9,
            ReversePhase::SayVerifiedAgain => 10,
            ReversePhase::FollowPayment => 11,
            ReversePhase::RecordPayment => 12,
            ReversePhase::SayPending => 13,
            ReversePhase::AwaitHeld => 14,
            ReversePhase::AwaitLockTerms => 15,
            ReversePhase::SayLockVerified => 16,
            ReversePhase::AwaitFunding => 17,
            ReversePhase::AwaitFundingPropagated => 18,
            ReversePhase::MineFunding => 19,
            ReversePhase::AwaitObserved => 20,
            ReversePhase::AwaitFinal => 21,
            ReversePhase::ObserveHeldPayment => 22,
            ReversePhase::ReadHeight => 23,
            ReversePhase::PlanRecovery => 24,
            ReversePhase::Planned => 25,
        }
    }
}

/// A reverse swap: the requester pays a hold invoice and claims the coins that the provider locks.
pub struct ReverseRun {
    pub phase: ReversePhase,
    pub journey: FundedJourney,
    pub provider_pubkey: String,
    pub confirmations: u64,
    pub injection: Option<HarnessInjection>,
    pub kinds: RecordKinds,
    pub payment_hash: String,
    pub order_id: String,
    pub contract: Json,
    pub invoice: String,
    pub record_payment: bool,
    pub lockup_txid: String,
    pub lockup_output: u32,
    pub funding_final_id: String,
    pub height: u32,
    pub planned: Plan,
    pub refund_height: u32,
    pub amount_sat: u64,
    pub fee_budget_sat: u64,
}

/// A reverse swap: the requester pays a hold invoice and claims the coins that the provider locks.
#[verifier::ext_equal]
pub struct ReverseRunView {
    pub phase: ReversePhase,
    pub journey: FundedJourney,
    pub provider_pubkey: Seq<char>,
    pub confirmations: u64,
    pub injection: Option<HarnessInjection>,
    pub kinds: RecordKinds,
    pub payment_hash: Seq<char>,
    pub order_id: Seq<char>,
    pub contract: JsonView,
    pub invoice: Seq<char>,
    pub record_payment: bool,
    pub lockup_txid: Seq<char>,
    pub lockup_output: u32,
    pub funding_final_id: Seq<char>,
    pub height: u32,
    pub planned: PlanView,
    pub refund_height: u32,
    pub amount_sat: u64,
    pub fee_budget_sat: u64,
}

impl View for ReverseRun {
    type V = ReverseRunView;

    open spec fn view(&self) -> ReverseRunView {
        ReverseRunView {
            phase: self.phase,
            journey: self.journey,
            provider_pubkey: self.provider_pubkey@,
            confirmations: self.confirmations,
            injection: self.injection,
            kinds: self.kinds,
            payment_hash: self.payment_hash@,
            order_id: self.order_id@,
            contract: self.contract@,
            invoice: self.invoice@,
            record_payment: self.record_payment,
            lockup_txid: self.lockup_txid@,
            lockup_output: self.lockup_output,
            funding_final_id: self.funding_final_id@,
            height: self.height,
            planned: self.planned@,
            refund_height: self.refund_height,
            amount_sat: self.amount_sat,
            fee_budget_sat: self.fee_budget_sat,
        }
    }
}

/// What a reverse swap asks for next.
pub open spec fn reverse_action(run: ReverseRunView) -> ActionView {
    match run.phase {
        ReversePhase::StoreSecret => ActionView::Perform(
            Task::StoreSecret,
            seq![run.journey.label()],
        ),
        ReversePhase::PrepareOrder => ActionView::Perform(
            Task::PrepareOrder,
            seq![run.payment_hash],
        ),
        ReversePhase::TryWrongKey => ActionView::Perform(Task::TryWrongKey, seq![]),
        ReversePhase::AwaitAccepted => ActionView::AwaitState("accepted"@),
        ReversePhase::AwaitInvoice => ActionView::AwaitState("hold_invoice_ready"@),
        ReversePhase::AuthorizeFunding => ActionView::Perform(
            Task::AuthorizeFunding,
            seq![run.invoice],
        ),
        ReversePhase::KeepAuthorization => ActionView::Perform(Task::KeepAuthorization, seq![]),
        ReversePhase::SayInvoiceVerified => ActionView::Say(
            "requester_invoice_verified"@,
            no_members(),
        ),
        ReversePhase::KeepReady => ActionView::Keep(
            "funding_execution_ready"@,
            effect_doc(run.payment_hash),
        ),
        ReversePhase::StartPayment => ActionView::Perform(
            Task::StartPayment,
            seq![run.journey.label(), run.invoice, run.payment_hash],
        ),
        ReversePhase::SayVerifiedAgain => ActionView::Say(
            "requester_invoice_verified"@,
            no_members(),
        ),
        ReversePhase::FollowPayment => ActionView::Perform(
            Task::StartPayment,
            seq![run.journey.label(), run.invoice, run.payment_hash],
        ),
        ReversePhase::RecordPayment => ActionView::Perform(
            Task::RecordFundingEffect,
            seq![run.payment_hash, run.payment_hash, "text"@],
        ),
        ReversePhase::SayPending => ActionView::Say("lightning_payment_pending"@, no_members()),
        ReversePhase::AwaitHeld => ActionView::AwaitState("lightning_htlcs_held"@),
        ReversePhase::AwaitLockTerms => ActionView::AwaitState("provider_lock_terms_ready"@),
        ReversePhase::SayLockVerified => ActionView::Say("requester_lock_verified"@, no_members()),
        ReversePhase::AwaitFunding => ActionView::AwaitState("provider_funding_broadcast"@),
        ReversePhase::AwaitFundingPropagated => ActionView::AwaitTransaction(
            "bitcoin"@,
            run.lockup_txid,
            "reverse-funding"@,
        ),
        ReversePhase::MineFunding => ActionView::Mine("bitcoin"@, 1, run.journey.label()),
        ReversePhase::AwaitObserved => ActionView::AwaitState("funding_observed"@),
        ReversePhase::AwaitFinal => ActionView::AwaitState("funding_final"@),
        ReversePhase::ObserveHeldPayment => ActionView::Perform(
            Task::ObserveHeldPayment,
            seq![run.funding_final_id],
        ),
        ReversePhase::ReadHeight => ActionView::Perform(
            Task::ReadHeight,
            seq!["reverse-recovery-height"@],
        ),
        ReversePhase::PlanRecovery => ActionView::Plan(
            reverse_standing(run.height, refunds(run.journey), false),
        ),
        ReversePhase::Planned => ActionView::Finish,
    }
}

/// Where a reply takes a reverse swap.
pub open spec fn reverse_step(run: ReverseRunView, reply: ReplyView) -> Result<
    ReverseRunView,
    Seq<char>,
> {
    match (run.phase, reply) {
        (ReversePhase::StoreSecret, ReplyView::Texts(texts)) => {
            if texts.len() != 1 {
                Err(wrong_reply())
            } else {
                Ok(
                    ReverseRunView {
                        phase: ReversePhase::PrepareOrder,
                        payment_hash: texts[0],
                        ..run
                    },
                )
            }
        },
        (ReversePhase::PrepareOrder, ReplyView::Session { order_id, contract }) => {
            if run.injection == Some(HarnessInjection::WrongClaimKey) {
                Ok(
                    ReverseRunView {
                        phase: ReversePhase::TryWrongKey,
                        order_id: order_id,
                        contract: contract,
                        ..run
                    },
                )
            } else {
                Ok(
                    ReverseRunView {
                        phase: ReversePhase::AwaitAccepted,
                        order_id: order_id,
                        contract: contract,
                        ..run
                    },
                )
            }
        },
        (ReversePhase::TryWrongKey, ReplyView::Texts(_)) => Err(
            "wrong claim key produced a signed transaction"@,
        ),
        (ReversePhase::TryWrongKey, ReplyView::Refused { code, message }) => {
            if message == "settlement script does not bind the selected wallet key"@ {
                Err("wrong claim key rejected before external effect"@)
            } else {
                Err("wrong claim key returned another refusal: "@ + message)
            }
        },
        (ReversePhase::AwaitAccepted, ReplyView::Record { .. }) => Ok(
            ReverseRunView { phase: ReversePhase::AwaitInvoice, ..run },
        ),
        (ReversePhase::AwaitInvoice, ReplyView::Record { id, pubkey, tags, content, .. }) => match profile_reading(
            content,
        ) {
            Err(message) => Err(message),
            Ok(profile) => match said(profile, "invoice"@) {
                None => Err("provider hold-invoice Status has no invoice"@),
                Some(invoice) => Ok(
                    ReverseRunView {
                        phase: ReversePhase::AuthorizeFunding,
                        invoice: invoice,
                        ..run
                    },
                ),
            },
        },
        (ReversePhase::AuthorizeFunding, ReplyView::Done) => Ok(
            ReverseRunView { phase: ReversePhase::KeepAuthorization, ..run },
        ),
        (ReversePhase::KeepAuthorization, ReplyView::Done) => Ok(
            ReverseRunView { phase: ReversePhase::SayInvoiceVerified, ..run },
        ),
        (ReversePhase::SayInvoiceVerified, ReplyView::Record { .. }) => Ok(
            ReverseRunView { phase: ReversePhase::KeepReady, ..run },
        ),
        (ReversePhase::KeepReady, ReplyView::Done) => Ok(
            ReverseRunView { phase: ReversePhase::StartPayment, ..run },
        ),
        (ReversePhase::StartPayment, ReplyView::Done) => Ok(
            ReverseRunView { phase: ReversePhase::RecordPayment, ..run },
        ),
        (ReversePhase::SayVerifiedAgain, ReplyView::Record { .. }) => Ok(
            ReverseRunView { phase: ReversePhase::FollowPayment, ..run },
        ),
        (ReversePhase::FollowPayment, ReplyView::Done) => {
            if run.record_payment {
                Ok(ReverseRunView { phase: ReversePhase::RecordPayment, ..run })
            } else {
                Ok(ReverseRunView { phase: ReversePhase::SayPending, ..run })
            }
        },
        (ReversePhase::RecordPayment, ReplyView::Done) => Ok(
            ReverseRunView { phase: ReversePhase::SayPending, ..run },
        ),
        (ReversePhase::SayPending, ReplyView::Record { .. }) => Ok(
            ReverseRunView { phase: ReversePhase::AwaitHeld, ..run },
        ),
        (ReversePhase::AwaitHeld, ReplyView::Record { .. }) => Ok(
            ReverseRunView { phase: ReversePhase::AwaitLockTerms, ..run },
        ),
        (ReversePhase::AwaitLockTerms, ReplyView::Record { .. }) => Ok(
            ReverseRunView { phase: ReversePhase::SayLockVerified, ..run },
        ),
        (ReversePhase::SayLockVerified, ReplyView::Record { .. }) => Ok(
            ReverseRunView { phase: ReversePhase::AwaitFunding, ..run },
        ),
        (ReversePhase::AwaitFunding, ReplyView::Record { id, pubkey, tags, content, .. }) => match outpoint_reading(
            content,
        ) {
            Err(message) => Err(message),
            Ok(found) => Ok(
                ReverseRunView {
                    phase: ReversePhase::AwaitFundingPropagated,
                    lockup_txid: found.0,
                    lockup_output: found.1,
                    ..run
                },
            ),
        },
        (ReversePhase::AwaitFundingPropagated, ReplyView::Done) => Ok(
            ReverseRunView { phase: ReversePhase::MineFunding, ..run },
        ),
        (ReversePhase::MineFunding, ReplyView::Done) => Ok(
            ReverseRunView { phase: ReversePhase::AwaitObserved, ..run },
        ),
        (ReversePhase::AwaitObserved, ReplyView::Record { .. }) => Ok(
            ReverseRunView { phase: ReversePhase::AwaitFinal, ..run },
        ),
        (ReversePhase::AwaitFinal, ReplyView::Record { id, pubkey, tags, content, .. }) => Ok(
            ReverseRunView { phase: ReversePhase::ObserveHeldPayment, funding_final_id: id, ..run },
        ),
        (ReversePhase::ObserveHeldPayment, ReplyView::Done) => Ok(
            ReverseRunView { phase: ReversePhase::ReadHeight, ..run },
        ),
        (ReversePhase::ReadHeight, ReplyView::Number(value)) => match height_reading(
            value,
            "reverse recovery height exceeds u32"@,
        ) {
            Err(message) => Err(message),
            Ok(height) => Ok(
                ReverseRunView { phase: ReversePhase::PlanRecovery, height: height, ..run },
            ),
        },
        (ReversePhase::PlanRecovery, ReplyView::Planned(planned)) => match planned {
            Err(message) => Err("client engine rejected reverse recovery view: "@ + message),
            Ok(plan) => if refunds(run.journey) && plan != PlanView::WaitForCounterparty {
                Err("client engine did not select counterparty wait before reverse refund"@)
            } else {
                match reverse_terms_reading(run.contract, run.journey) {
                    Err(message) => Err(message),
                    Ok(terms) => Ok(
                        ReverseRunView {
                            phase: ReversePhase::Planned,
                            planned: plan,
                            refund_height: terms.0,
                            amount_sat: terms.1,
                            fee_budget_sat: terms.2,
                            ..run
                        },
                    ),
                }
            },
        },
        _ => Err(wrong_reply()),
    }
}

impl ReverseRun {
    /// A reverse swap before its first action.
    pub fn new(
        journey: FundedJourney,
        provider_pubkey: &str,
        confirmations: u64,
        injection: Option<HarnessInjection>,
        kinds: RecordKinds,
    ) -> (run: ReverseRun)
        ensures
            run@.phase == ReversePhase::StoreSecret,
            run@.journey == journey,
            run@.provider_pubkey == provider_pubkey@,
            run@.confirmations == confirmations,
            run@.injection == injection,
            run@.kinds == kinds,
            run@.payment_hash == Seq::<char>::empty(),
            run@.order_id == Seq::<char>::empty(),
            run@.contract == JsonView::Null,
            run@.invoice == Seq::<char>::empty(),
            run@.record_payment == false,
            run@.lockup_txid == Seq::<char>::empty(),
            run@.lockup_output == 0,
            run@.funding_final_id == Seq::<char>::empty(),
            run@.height == 0,
            run@.planned == PlanView::Other,
            run@.refund_height == 0,
            run@.amount_sat == 0,
            run@.fee_budget_sat == 0,
    {
        ReverseRun {
            phase: ReversePhase::StoreSecret,
            journey,
            provider_pubkey: provider_pubkey.to_owned(),
            confirmations,
            injection,
            kinds,
            payment_hash: String::new(),
            order_id: String::new(),
            contract: Json::null(),
            invoice: String::new(),
            record_payment: false,
            lockup_txid: String::new(),
            lockup_output: 0,
            funding_final_id: String::new(),
            height: 0,
            planned: Plan::Other,
            refund_height: 0,
            amount_sat: 0,
            fee_budget_sat: 0,
        }
    }

    /// What the journey asks for next.
    pub fn action(&self) -> (action: Action)
        ensures
            action@ == reverse_action(self@),
    {
        match self.phase {
            ReversePhase::StoreSecret => perform_with(Task::StoreSecret, self.journey.name()),
            ReversePhase::PrepareOrder => perform_with(
                Task::PrepareOrder,
                self.payment_hash.as_str(),
            ),
            ReversePhase::TryWrongKey => perform(Task::TryWrongKey),
            ReversePhase::AwaitAccepted => Action::AwaitState("accepted"),
            ReversePhase::AwaitInvoice => Action::AwaitState("hold_invoice_ready"),
            ReversePhase::AuthorizeFunding => perform_with(
                Task::AuthorizeFunding,
                self.invoice.as_str(),
            ),
            ReversePhase::KeepAuthorization => perform(Task::KeepAuthorization),
            ReversePhase::SayInvoiceVerified => Action::Say(
                "requester_invoice_verified",
                JsonObject::new(),
            ),
            ReversePhase::KeepReady => Action::Keep(
                "funding_execution_ready",
                effect_details(self.payment_hash.as_str()),
            ),
            ReversePhase::StartPayment => perform_with_three(
                Task::StartPayment,
                self.journey.name(),
                self.invoice.as_str(),
                self.payment_hash.as_str(),
            ),
            ReversePhase::SayVerifiedAgain => Action::Say(
                "requester_invoice_verified",
                JsonObject::new(),
            ),
            ReversePhase::FollowPayment => perform_with_three(
                Task::StartPayment,
                self.journey.name(),
                self.invoice.as_str(),
                self.payment_hash.as_str(),
            ),
            ReversePhase::RecordPayment => perform_with_three(
                Task::RecordFundingEffect,
                self.payment_hash.as_str(),
                self.payment_hash.as_str(),
                "text",
            ),
            ReversePhase::SayPending => Action::Say("lightning_payment_pending", JsonObject::new()),
            ReversePhase::AwaitHeld => Action::AwaitState("lightning_htlcs_held"),
            ReversePhase::AwaitLockTerms => Action::AwaitState("provider_lock_terms_ready"),
            ReversePhase::SayLockVerified => Action::Say(
                "requester_lock_verified",
                JsonObject::new(),
            ),
            ReversePhase::AwaitFunding => Action::AwaitState("provider_funding_broadcast"),
            ReversePhase::AwaitFundingPropagated => Action::AwaitTransaction(
                "bitcoin".to_owned(),
                self.lockup_txid.clone(),
                "reverse-funding",
            ),
            ReversePhase::MineFunding => Action::Mine("bitcoin".to_owned(), 1, self.journey.name()),
            ReversePhase::AwaitObserved => Action::AwaitState("funding_observed"),
            ReversePhase::AwaitFinal => Action::AwaitState("funding_final"),
            ReversePhase::ObserveHeldPayment => perform_with(
                Task::ObserveHeldPayment,
                self.funding_final_id.as_str(),
            ),
            ReversePhase::ReadHeight => perform_with(Task::ReadHeight, "reverse-recovery-height"),
            ReversePhase::PlanRecovery => Action::Plan(
                show_reverse(self.height, self.refunds(), false),
            ),
            ReversePhase::Planned => Action::Finish,
        }
    }

    /// Takes a reply: the journey goes on to its next phase, or ends with a message.
    #[verifier::rlimit(60)]
    pub fn advance(&mut self, reply: Reply) -> (moved: Result<(), String>)
        ensures
            match moved {
                Ok(_) => reverse_step(old(self)@, reply@) == Ok::<ReverseRunView, Seq<char>>(
                    final(self)@,
                ),
                Err(message) => {
                    &&& reverse_step(old(self)@, reply@) == Err::<ReverseRunView, Seq<char>>(
                        message@,
                    )
                    &&& final(self)@ == old(self)@
                },
            },
    {
        match (self.phase, reply) {
            (ReversePhase::StoreSecret, Reply::Texts(texts)) => {
                if texts.len() != 1 {
                    return Err(wrong_reply_text());
                }
                self.payment_hash = texts[0].clone();
                self.phase = ReversePhase::PrepareOrder;
                Ok(())
            },
            (ReversePhase::PrepareOrder, Reply::Session { order_id, contract }) => {
                self.order_id = order_id;
                self.contract = contract;
                self.phase = if self.injection == Some(HarnessInjection::WrongClaimKey) {
                    ReversePhase::TryWrongKey
                } else {
                    ReversePhase::AwaitAccepted
                };
                Ok(())
            },
            (ReversePhase::TryWrongKey, Reply::Texts(_)) => {
                Err("wrong claim key produced a signed transaction".to_owned())
            },
            (ReversePhase::TryWrongKey, Reply::Refused { code: _, message }) => {
                if same_text(
                    message.as_str(),
                    "settlement script does not bind the selected wallet key",
                ) {
                    return Err("wrong claim key rejected before external effect".to_owned());
                }
                Err(join("wrong claim key returned another refusal: ", message.as_str()))
            },
            (ReversePhase::AwaitAccepted, Reply::Record(_)) => {
                self.phase = ReversePhase::AwaitInvoice;
                Ok(())
            },
            (ReversePhase::AwaitInvoice, Reply::Record(event)) => {
                let profile: JsonObject = record_profile(&event)?;
                let invoice: String = match profile.text_at("invoice") {
                    Some(invoice) => invoice.to_owned(),
                    None => {
                        return Err("provider hold-invoice Status has no invoice".to_owned());
                    },
                };
                self.invoice = invoice;
                self.phase = ReversePhase::AuthorizeFunding;
                Ok(())
            },
            (ReversePhase::AuthorizeFunding, Reply::Done) => {
                self.phase = ReversePhase::KeepAuthorization;
                Ok(())
            },
            (ReversePhase::KeepAuthorization, Reply::Done) => {
                self.phase = ReversePhase::SayInvoiceVerified;
                Ok(())
            },
            (ReversePhase::SayInvoiceVerified, Reply::Record(_)) => {
                self.phase = ReversePhase::KeepReady;
                Ok(())
            },
            (ReversePhase::KeepReady, Reply::Done) => {
                self.phase = ReversePhase::StartPayment;
                Ok(())
            },
            (ReversePhase::StartPayment, Reply::Done) => {
                self.phase = ReversePhase::RecordPayment;
                Ok(())
            },
            (ReversePhase::SayVerifiedAgain, Reply::Record(_)) => {
                self.phase = ReversePhase::FollowPayment;
                Ok(())
            },
            (ReversePhase::FollowPayment, Reply::Done) => {
                self.phase = if self.record_payment {
                    ReversePhase::RecordPayment
                } else {
                    ReversePhase::SayPending
                };
                Ok(())
            },
            (ReversePhase::RecordPayment, Reply::Done) => {
                self.phase = ReversePhase::SayPending;
                Ok(())
            },
            (ReversePhase::SayPending, Reply::Record(_)) => {
                self.phase = ReversePhase::AwaitHeld;
                Ok(())
            },
            (ReversePhase::AwaitHeld, Reply::Record(_)) => {
                self.phase = ReversePhase::AwaitLockTerms;
                Ok(())
            },
            (ReversePhase::AwaitLockTerms, Reply::Record(_)) => {
                self.phase = ReversePhase::SayLockVerified;
                Ok(())
            },
            (ReversePhase::SayLockVerified, Reply::Record(_)) => {
                self.phase = ReversePhase::AwaitFunding;
                Ok(())
            },
            (ReversePhase::AwaitFunding, Reply::Record(event)) => {
                let found: (String, u32) = status_outpoint(&event)?;
                self.lockup_txid = found.0;
                self.lockup_output = found.1;
                self.phase = ReversePhase::AwaitFundingPropagated;
                Ok(())
            },
            (ReversePhase::AwaitFundingPropagated, Reply::Done) => {
                self.phase = ReversePhase::MineFunding;
                Ok(())
            },
            (ReversePhase::MineFunding, Reply::Done) => {
                self.phase = ReversePhase::AwaitObserved;
                Ok(())
            },
            (ReversePhase::AwaitObserved, Reply::Record(_)) => {
                self.phase = ReversePhase::AwaitFinal;
                Ok(())
            },
            (ReversePhase::AwaitFinal, Reply::Record(event)) => {
                self.funding_final_id = event.id;
                self.phase = ReversePhase::ObserveHeldPayment;
                Ok(())
            },
            (ReversePhase::ObserveHeldPayment, Reply::Done) => {
                self.phase = ReversePhase::ReadHeight;
                Ok(())
            },
            (ReversePhase::ReadHeight, Reply::Number(value)) => {
                let height: u32 = narrow_height(value, "reverse recovery height exceeds u32")?;
                self.height = height;
                self.phase = ReversePhase::PlanRecovery;
                Ok(())
            },
            (ReversePhase::PlanRecovery, Reply::Planned(planned)) => {
                let plan: Plan = match planned {
                    Ok(plan) => plan,
                    Err(message) => {
                        return Err(
                            join("client engine rejected reverse recovery view: ", message.as_str()),
                        );
                    },
                };
                if self.refunds() {
                    match &plan {
                        Plan::WaitForCounterparty => {},
                        _ => {
                            return Err(
                                "client engine did not select counterparty wait before reverse refund".to_owned(),
                            );
                        },
                    }
                }
                let terms: (u32, u64, u64) = self.reverse_terms()?;
                self.planned = plan;
                self.refund_height = terms.0;
                self.amount_sat = terms.1;
                self.fee_budget_sat = terms.2;
                self.phase = ReversePhase::Planned;
                Ok(())
            },
            _ => Err(wrong_reply_text()),
        }
    }
}

/// Whether each entry of a trace leads to the one after it, from the first phase on.
pub open spec fn is_reverse_trace(trace: Seq<(ReverseRunView, ReplyView)>) -> bool {
    &&& trace.len() > 0
    &&& trace[0].0.phase == ReversePhase::StoreSecret
    &&& forall|i: int|
        0 <= i < trace.len() - 1 ==> reverse_step((#[trigger] trace[i]).0, trace[i].1) == Ok::<
            ReverseRunView,
            Seq<char>,
        >(trace[i + 1].0)
}

/// Each reply takes a reverse swap forward, never back and never in place.
pub proof fn law_reverse_moves_forward(run: ReverseRunView, reply: ReplyView)
    requires
        reverse_step(run, reply) is Ok,
    ensures
        run.phase.rank() < reverse_step(run, reply)->Ok_0.phase.rank(),
{
}

/// Which replies take a reverse swap on, and to which phase: in each phase exactly the replies that
/// pass every check of that phase, and no others.
pub proof fn law_reverse_goes_on_only_when_answered(run: ReverseRunView, reply: ReplyView)
    ensures
        ({
            let next = reverse_step(run, reply);
            match run.phase {
                ReversePhase::StoreSecret => {
                    &&& next is Ok <==> {
                        &&& reply is Texts
                        &&& reply->Texts_0.len() == 1
                    }
                    &&& next is Ok ==> next->Ok_0.phase == ReversePhase::PrepareOrder
                },
                ReversePhase::PrepareOrder => {
                    let case_1 = run.injection == Some(HarnessInjection::WrongClaimKey);
                    let case_2 = run.injection != Some(HarnessInjection::WrongClaimKey);
                    &&& next is Ok <==> {
                        &&& reply is Session
                        &&& (case_1 || case_2)
                    }
                    &&& next is Ok && case_1 ==> next->Ok_0.phase == ReversePhase::TryWrongKey
                    &&& next is Ok && case_2 ==> next->Ok_0.phase == ReversePhase::AwaitAccepted
                },
                ReversePhase::TryWrongKey => next is Err,
                ReversePhase::AwaitAccepted => {
                    &&& next is Ok <==> reply is Record
                    &&& next is Ok ==> next->Ok_0.phase == ReversePhase::AwaitInvoice
                },
                ReversePhase::AwaitInvoice => {
                    &&& next is Ok <==> {
                        &&& reply is Record
                        &&& profile_reading(reply->Record_content) is Ok
                        &&& said(profile_reading(reply->Record_content)->Ok_0, "invoice"@) is Some
                    }
                    &&& next is Ok ==> next->Ok_0.phase == ReversePhase::AuthorizeFunding
                },
                ReversePhase::AuthorizeFunding => {
                    &&& next is Ok <==> reply is Done
                    &&& next is Ok ==> next->Ok_0.phase == ReversePhase::KeepAuthorization
                },
                ReversePhase::KeepAuthorization => {
                    &&& next is Ok <==> reply is Done
                    &&& next is Ok ==> next->Ok_0.phase == ReversePhase::SayInvoiceVerified
                },
                ReversePhase::SayInvoiceVerified => {
                    &&& next is Ok <==> reply is Record
                    &&& next is Ok ==> next->Ok_0.phase == ReversePhase::KeepReady
                },
                ReversePhase::KeepReady => {
                    &&& next is Ok <==> reply is Done
                    &&& next is Ok ==> next->Ok_0.phase == ReversePhase::StartPayment
                },
                ReversePhase::StartPayment => {
                    &&& next is Ok <==> reply is Done
                    &&& next is Ok ==> next->Ok_0.phase == ReversePhase::RecordPayment
                },
                ReversePhase::SayVerifiedAgain => {
                    &&& next is Ok <==> reply is Record
                    &&& next is Ok ==> next->Ok_0.phase == ReversePhase::FollowPayment
                },
                ReversePhase::FollowPayment => {
                    let case_1 = run.record_payment;
                    let case_2 = !(run.record_payment);
                    &&& next is Ok <==> {
                        &&& reply is Done
                        &&& (case_1 || case_2)
                    }
                    &&& next is Ok && case_1 ==> next->Ok_0.phase == ReversePhase::RecordPayment
                    &&& next is Ok && case_2 ==> next->Ok_0.phase == ReversePhase::SayPending
                },
                ReversePhase::RecordPayment => {
                    &&& next is Ok <==> reply is Done
                    &&& next is Ok ==> next->Ok_0.phase == ReversePhase::SayPending
                },
                ReversePhase::SayPending => {
                    &&& next is Ok <==> reply is Record
                    &&& next is Ok ==> next->Ok_0.phase == ReversePhase::AwaitHeld
                },
                ReversePhase::AwaitHeld => {
                    &&& next is Ok <==> reply is Record
                    &&& next is Ok ==> next->Ok_0.phase == ReversePhase::AwaitLockTerms
                },
                ReversePhase::AwaitLockTerms => {
                    &&& next is Ok <==> reply is Record
                    &&& next is Ok ==> next->Ok_0.phase == ReversePhase::SayLockVerified
                },
                ReversePhase::SayLockVerified => {
                    &&& next is Ok <==> reply is Record
                    &&& next is Ok ==> next->Ok_0.phase == ReversePhase::AwaitFunding
                },
                ReversePhase::AwaitFunding => {
                    &&& next is Ok <==> {
                        &&& reply is Record
                        &&& outpoint_reading(reply->Record_content) is Ok
                    }
                    &&& next is Ok ==> next->Ok_0.phase == ReversePhase::AwaitFundingPropagated
                },
                ReversePhase::AwaitFundingPropagated => {
                    &&& next is Ok <==> reply is Done
                    &&& next is Ok ==> next->Ok_0.phase == ReversePhase::MineFunding
                },
                ReversePhase::MineFunding => {
                    &&& next is Ok <==> reply is Done
                    &&& next is Ok ==> next->Ok_0.phase == ReversePhase::AwaitObserved
                },
                ReversePhase::AwaitObserved => {
                    &&& next is Ok <==> reply is Record
                    &&& next is Ok ==> next->Ok_0.phase == ReversePhase::AwaitFinal
                },
                ReversePhase::AwaitFinal => {
                    &&& next is Ok <==> reply is Record
                    &&& next is Ok ==> next->Ok_0.phase == ReversePhase::ObserveHeldPayment
                },
                ReversePhase::ObserveHeldPayment => {
                    &&& next is Ok <==> reply is Done
                    &&& next is Ok ==> next->Ok_0.phase == ReversePhase::ReadHeight
                },
                ReversePhase::ReadHeight => {
                    &&& next is Ok <==> {
                        &&& reply is Number
                        &&& height_reading(
                            reply->Number_0,
                            "reverse recovery height exceeds u32"@,
                        ) is Ok
                    }
                    &&& next is Ok ==> next->Ok_0.phase == ReversePhase::PlanRecovery
                },
                ReversePhase::PlanRecovery => {
                    &&& next is Ok <==> {
                        &&& reply is Planned
                        &&& reply->Planned_0 is Ok
                        &&& !(
                            refunds(run.journey)
                                && reply->Planned_0->Ok_0 != PlanView::WaitForCounterparty
                        )
                        &&& reverse_terms_reading(run.contract, run.journey) is Ok
                    }
                    &&& next is Ok ==> next->Ok_0.phase == ReversePhase::Planned
                },
                ReversePhase::Planned => next is Err,
            }
        }),
{
}

/// The reply that a trace of a reverse swap holds for a phase.
pub open spec fn reverse_told(
    trace: Seq<(ReverseRunView, ReplyView)>,
    phase: ReversePhase,
) -> ReplyView {
    trace[choose|i: int| 0 <= i < trace.len() && (#[trigger] trace[i]).0.phase == phase].1
}

/// The values that a run of a reverse swap holds, by the replies that gave them: each stays as the
/// reply to one phase gave it, or as the run started with it.
pub open spec fn reverse_holds(
    trace: Seq<(ReverseRunView, ReplyView)>,
    run: ReverseRunView,
) -> bool {
    let start = trace[0].0;
    let payment_hash = reverse_told(trace, ReversePhase::StoreSecret)->Texts_0[0];
    let order_id = reverse_told(trace, ReversePhase::PrepareOrder)->Session_order_id;
    let contract = reverse_told(trace, ReversePhase::PrepareOrder)->Session_contract;
    let invoice = said(
        profile_reading(reverse_told(trace, ReversePhase::AwaitInvoice)->Record_content)->Ok_0,
        "invoice"@,
    )->0;
    let lockup_txid = outpoint_reading(reverse_told(trace, ReversePhase::AwaitFunding)->Record_content)->Ok_0.0;
    let lockup_output = outpoint_reading(reverse_told(trace, ReversePhase::AwaitFunding)->Record_content)->Ok_0.1;
    let funding_final_id = reverse_told(trace, ReversePhase::AwaitFinal)->Record_id;
    let height = height_reading(
        reverse_told(trace, ReversePhase::ReadHeight)->Number_0,
        "reverse recovery height exceeds u32"@,
    )->Ok_0;
    let planned = reverse_told(trace, ReversePhase::PlanRecovery)->Planned_0->Ok_0;
    let refund_height = reverse_terms_reading(contract, start.journey)->Ok_0.0;
    let amount_sat = reverse_terms_reading(contract, start.journey)->Ok_0.1;
    let fee_budget_sat = reverse_terms_reading(contract, start.journey)->Ok_0.2;
    &&& run.journey == start.journey
    &&& run.provider_pubkey == start.provider_pubkey
    &&& run.confirmations == start.confirmations
    &&& run.injection == start.injection
    &&& run.kinds == start.kinds
    &&& run.phase.rank() > ReversePhase::StoreSecret.rank() ==> run.payment_hash == payment_hash
    &&& run.phase.rank() > ReversePhase::PrepareOrder.rank() ==> run.order_id == order_id
    &&& run.phase.rank() > ReversePhase::PrepareOrder.rank() ==> run.contract == contract
    &&& run.phase.rank() > ReversePhase::AwaitInvoice.rank() ==> run.invoice == invoice
    &&& run.record_payment == start.record_payment
    &&& run.phase.rank() > ReversePhase::AwaitFunding.rank() ==> run.lockup_txid == lockup_txid
    &&& run.phase.rank() > ReversePhase::AwaitFunding.rank() ==> run.lockup_output == lockup_output
    &&& run.phase.rank() > ReversePhase::AwaitFinal.rank()
        ==> run.funding_final_id == funding_final_id
    &&& run.phase.rank() > ReversePhase::ReadHeight.rank() ==> run.height == height
    &&& run.phase.rank() > ReversePhase::PlanRecovery.rank() ==> run.planned == planned
    &&& run.phase.rank() > ReversePhase::PlanRecovery.rank() ==> run.refund_height == refund_height
    &&& run.phase.rank() > ReversePhase::PlanRecovery.rank() ==> run.amount_sat == amount_sat
    &&& run.phase.rank() > ReversePhase::PlanRecovery.rank()
        ==> run.fee_budget_sat == fee_budget_sat
}

/// No phase of a reverse swap comes twice in a trace.
proof fn lemma_reverse_told_once(trace: Seq<(ReverseRunView, ReplyView)>, place: int)
    requires
        is_reverse_trace(trace),
        0 <= place < trace.len(),
    ensures
        reverse_told(trace, trace[place].0.phase) == trace[place].1,
{
    let phase = trace[place].0.phase;
    let other = choose|i: int| 0 <= i < trace.len() && (#[trigger] trace[i]).0.phase == phase;
    assert(trace[place].0.phase == phase);
    if other != place {
        let (early, late) = if other < place {
            (other, place)
        } else {
            (place, other)
        };
        assert forall|run: ReverseRunView, reply: ReplyView|
            (#[trigger] reverse_step(run, reply)) is Ok implies run.phase.rank() < reverse_step(
            run,
            reply,
        )->Ok_0.phase.rank() by {
            law_reverse_moves_forward(run, reply);
        }
        lemma_ranks_rise(
            trace,
            |run: ReverseRunView, reply: ReplyView| reverse_step(run, reply),
            |run: ReverseRunView| run.phase.rank(),
            early,
            late,
        );
    }
}

/// A reply keeps what a reverse swap holds, and adds what it tells.
proof fn lemma_reverse_holds_on(
    trace: Seq<(ReverseRunView, ReplyView)>,
    run: ReverseRunView,
    reply: ReplyView,
)
    requires
        reverse_holds(trace, run),
        reverse_told(trace, run.phase) == reply,
        reverse_step(run, reply) is Ok,
    ensures
        reverse_holds(trace, reverse_step(run, reply)->Ok_0),
{
    let next = reverse_step(run, reply)->Ok_0;
    match run.phase {
        ReversePhase::StoreSecret => assert(reverse_holds(trace, next)),
        ReversePhase::PrepareOrder => assert(reverse_holds(trace, next)),
        ReversePhase::TryWrongKey => assert(reverse_holds(trace, next)),
        ReversePhase::AwaitAccepted => assert(reverse_holds(trace, next)),
        ReversePhase::AwaitInvoice => assert(reverse_holds(trace, next)),
        ReversePhase::AuthorizeFunding => assert(reverse_holds(trace, next)),
        ReversePhase::KeepAuthorization => assert(reverse_holds(trace, next)),
        ReversePhase::SayInvoiceVerified => assert(reverse_holds(trace, next)),
        ReversePhase::KeepReady => assert(reverse_holds(trace, next)),
        ReversePhase::StartPayment => assert(reverse_holds(trace, next)),
        ReversePhase::SayVerifiedAgain => assert(reverse_holds(trace, next)),
        ReversePhase::FollowPayment => assert(reverse_holds(trace, next)),
        ReversePhase::RecordPayment => assert(reverse_holds(trace, next)),
        ReversePhase::SayPending => assert(reverse_holds(trace, next)),
        ReversePhase::AwaitHeld => assert(reverse_holds(trace, next)),
        ReversePhase::AwaitLockTerms => assert(reverse_holds(trace, next)),
        ReversePhase::SayLockVerified => assert(reverse_holds(trace, next)),
        ReversePhase::AwaitFunding => assert(reverse_holds(trace, next)),
        ReversePhase::AwaitFundingPropagated => assert(reverse_holds(trace, next)),
        ReversePhase::MineFunding => assert(reverse_holds(trace, next)),
        ReversePhase::AwaitObserved => assert(reverse_holds(trace, next)),
        ReversePhase::AwaitFinal => assert(reverse_holds(trace, next)),
        ReversePhase::ObserveHeldPayment => assert(reverse_holds(trace, next)),
        ReversePhase::ReadHeight => assert(reverse_holds(trace, next)),
        ReversePhase::PlanRecovery => assert(reverse_holds(trace, next)),
        ReversePhase::Planned => assert(reverse_holds(trace, next)),
    }
}

/// What a reverse swap has been told, it keeps: at every place of a trace each value that the run
/// holds is the one that the reply to the phase that asks for it gave, or the one that the run
/// started with.
pub proof fn law_reverse_keeps_what_it_was_told(trace: Seq<(ReverseRunView, ReplyView)>, last: int)
    requires
        is_reverse_trace(trace),
        0 <= last < trace.len(),
    ensures
        reverse_holds(trace, trace[last].0),
    decreases last,
{
    if last > 0 {
        let before = last - 1;
        law_reverse_keeps_what_it_was_told(trace, before);
        lemma_reverse_told_once(trace, before);
        assert(reverse_step(trace[before].0, trace[before].1) == Ok::<ReverseRunView, Seq<char>>(
            trace[before + 1].0,
        ));
        lemma_reverse_holds_on(trace, trace[before].0, trace[before].1);
    }
}

/// What a reverse swap asks for in each phase, in terms of the replies before it: the values in a
/// request are those that the replies to the named phases gave, or those that the run started with.
pub proof fn law_reverse_asks_with_what_it_was_told(
    trace: Seq<(ReverseRunView, ReplyView)>,
    last: int,
)
    requires
        is_reverse_trace(trace),
        0 <= last < trace.len(),
    ensures
        ({
            let start = trace[0].0;
            let payment_hash = reverse_told(trace, ReversePhase::StoreSecret)->Texts_0[0];
            let invoice = said(
                profile_reading(
                    reverse_told(trace, ReversePhase::AwaitInvoice)->Record_content,
                )->Ok_0,
                "invoice"@,
            )->0;
            let lockup_txid = outpoint_reading(
                reverse_told(trace, ReversePhase::AwaitFunding)->Record_content,
            )->Ok_0.0;
            let funding_final_id = reverse_told(trace, ReversePhase::AwaitFinal)->Record_id;
            let height = height_reading(
                reverse_told(trace, ReversePhase::ReadHeight)->Number_0,
                "reverse recovery height exceeds u32"@,
            )->Ok_0;
            let action = reverse_action(trace[last].0);
            match trace[last].0.phase {
                ReversePhase::StoreSecret => action == ActionView::Perform(
                    Task::StoreSecret,
                    seq![start.journey.label()],
                ),
                ReversePhase::PrepareOrder => action == ActionView::Perform(
                    Task::PrepareOrder,
                    seq![payment_hash],
                ),
                ReversePhase::TryWrongKey => action == ActionView::Perform(
                    Task::TryWrongKey,
                    seq![],
                ),
                ReversePhase::AwaitAccepted => action == ActionView::AwaitState("accepted"@),
                ReversePhase::AwaitInvoice => action == ActionView::AwaitState(
                    "hold_invoice_ready"@,
                ),
                ReversePhase::AuthorizeFunding => action == ActionView::Perform(
                    Task::AuthorizeFunding,
                    seq![invoice],
                ),
                ReversePhase::KeepAuthorization => action == ActionView::Perform(
                    Task::KeepAuthorization,
                    seq![],
                ),
                ReversePhase::SayInvoiceVerified => action == ActionView::Say(
                    "requester_invoice_verified"@,
                    no_members(),
                ),
                ReversePhase::KeepReady => action == ActionView::Keep(
                    "funding_execution_ready"@,
                    effect_doc(payment_hash),
                ),
                ReversePhase::StartPayment => action == ActionView::Perform(
                    Task::StartPayment,
                    seq![start.journey.label(), invoice, payment_hash],
                ),
                ReversePhase::SayVerifiedAgain => action == ActionView::Say(
                    "requester_invoice_verified"@,
                    no_members(),
                ),
                ReversePhase::FollowPayment => action == ActionView::Perform(
                    Task::StartPayment,
                    seq![start.journey.label(), invoice, payment_hash],
                ),
                ReversePhase::RecordPayment => action == ActionView::Perform(
                    Task::RecordFundingEffect,
                    seq![payment_hash, payment_hash, "text"@],
                ),
                ReversePhase::SayPending => action == ActionView::Say(
                    "lightning_payment_pending"@,
                    no_members(),
                ),
                ReversePhase::AwaitHeld => action == ActionView::AwaitState(
                    "lightning_htlcs_held"@,
                ),
                ReversePhase::AwaitLockTerms => action == ActionView::AwaitState(
                    "provider_lock_terms_ready"@,
                ),
                ReversePhase::SayLockVerified => action == ActionView::Say(
                    "requester_lock_verified"@,
                    no_members(),
                ),
                ReversePhase::AwaitFunding => action == ActionView::AwaitState(
                    "provider_funding_broadcast"@,
                ),
                ReversePhase::AwaitFundingPropagated => action == ActionView::AwaitTransaction(
                    "bitcoin"@,
                    lockup_txid,
                    "reverse-funding"@,
                ),
                ReversePhase::MineFunding => action == ActionView::Mine(
                    "bitcoin"@,
                    1,
                    start.journey.label(),
                ),
                ReversePhase::AwaitObserved => action == ActionView::AwaitState(
                    "funding_observed"@,
                ),
                ReversePhase::AwaitFinal => action == ActionView::AwaitState("funding_final"@),
                ReversePhase::ObserveHeldPayment => action == ActionView::Perform(
                    Task::ObserveHeldPayment,
                    seq![funding_final_id],
                ),
                ReversePhase::ReadHeight => action == ActionView::Perform(
                    Task::ReadHeight,
                    seq!["reverse-recovery-height"@],
                ),
                ReversePhase::PlanRecovery => action == ActionView::Plan(
                    reverse_standing(height, refunds(start.journey), false),
                ),
                ReversePhase::Planned => action == ActionView::Finish,
            }
        }),
{
    law_reverse_keeps_what_it_was_told(trace, last);
}

/// The invoice is paid only after the client has authorized it.
pub proof fn law_reverse_is_authorized_first(trace: Seq<(ReverseRunView, ReplyView)>, last: int)
    requires
        is_reverse_trace(trace),
        0 <= last < trace.len(),
        trace[last].0.phase == ReversePhase::StartPayment,
    ensures
        exists|i: int|
            0 <= i < last && (#[trigger] trace[i]).0.phase == ReversePhase::AuthorizeFunding &&
                trace[i].1 == ReplyView::Done,
{
    let i = lemma_milestone(
        trace,
        |run: ReverseRunView, reply: ReplyView| reverse_step(run, reply),
        |run: ReverseRunView| run.phase.rank(),
        5,
        last,
    );
    assert(trace[i].0.phase == ReversePhase::AuthorizeFunding);
    assert(reverse_step(trace[i].0, trace[i].1) == Ok::<ReverseRunView, Seq<char>>(trace[i + 1].0));
}

/// Whether every reply of a trace answers the action that it is told for.
pub open spec fn is_answered_reverse(
    trace: Seq<(ReverseRunView, ReplyView)>,
    kinds: RecordKinds,
    provider: Seq<char>,
) -> bool {
    forall|i: int|
        0 <= i < trace.len() - 1 ==> answers(
            reverse_action((#[trigger] trace[i]).0),
            trace[i].1,
            kinds,
            provider,
        )
}

/// A course is planned only after the provider said that the lock is final.
pub proof fn law_reverse_plans_only_final_funding(
    trace: Seq<(ReverseRunView, ReplyView)>,
    kinds: RecordKinds,
    provider: Seq<char>,
    last: int,
)
    requires
        is_reverse_trace(trace),
        is_answered_reverse(trace, kinds, provider),
        0 <= last < trace.len(),
        trace[last].0.phase == ReversePhase::Planned,
    ensures
        exists|i: int|
            0 <= i < last && (#[trigger] trace[i]).0.phase == ReversePhase::AwaitFinal && says(
                trace[i].1,
                kinds,
                provider,
                "funding_final"@,
            ),
{
    let i = lemma_milestone(
        trace,
        |run: ReverseRunView, reply: ReplyView| reverse_step(run, reply),
        |run: ReverseRunView| run.phase.rank(),
        21,
        last,
    );
    assert(trace[i].0.phase == ReversePhase::AwaitFinal);
    assert(answers(reverse_action(trace[i].0), trace[i].1, kinds, provider));
}

impl ReverseRun {
    fn refunds(&self) -> (is: bool)
        ensures
            is == refunds(self.journey),
    {
        self.journey == FundedJourney::ReverseRefund
    }

    fn reverse_terms(&self) -> (terms: Result<(u32, u64, u64), String>)
        ensures
            crate::text::told(terms) == reverse_terms_reading(self.contract@, self.journey),
    {
        if self.refunds() {
            let height: u32 = reverse_refund_height(&self.contract)?;
            Ok((height, 0, 0))
        } else {
            let terms: BitcoinTerms = bitcoin_terms(&self.contract, "destination")?;
            Ok((0, terms.amount_sat, terms.miner_fee_budget_sat))
        }
    }
}

/// The phases of the refund of a reverse swap, in their order.
#[derive(Clone, Copy, Debug, PartialEq, Eq, Structural)]
pub enum ReverseRefundPhase {
    ReadRefundHeight,
    MineMaturity,
    AwaitRefundPrepared,
    AwaitRefundPending,
    MineRefund,
    AwaitProviderRefunded,
    AwaitCancelled,
    AwaitRefunded,
    JoinFailedPayment,
    AwaitClose,
    RemoveSecret,
    KeepResult,
    Finished,
}

impl ReverseRefundPhase {
    /// The place of the phase in their order.
    pub open spec fn rank(self) -> int {
        match self {
            ReverseRefundPhase::ReadRefundHeight => 0,
            ReverseRefundPhase::MineMaturity => 1,
            ReverseRefundPhase::AwaitRefundPrepared => 2,
            ReverseRefundPhase::AwaitRefundPending => 3,
            ReverseRefundPhase::MineRefund => 4,
            ReverseRefundPhase::AwaitProviderRefunded => 5,
            ReverseRefundPhase::AwaitCancelled => 6,
            ReverseRefundPhase::AwaitRefunded => 7,
            ReverseRefundPhase::JoinFailedPayment => 8,
            ReverseRefundPhase::AwaitClose => 9,
            ReverseRefundPhase::RemoveSecret => 10,
            ReverseRefundPhase::KeepResult => 11,
            ReverseRefundPhase::Finished => 12,
        }
    }
}

/// A planned reverse swap whose provider takes their coins back.
pub struct ReverseRefundRun {
    pub phase: ReverseRefundPhase,
    pub journey: FundedJourney,
    pub confirmations: u64,
    pub payment_hash: String,
    pub order_id: String,
    pub invoice: String,
    pub lockup_txid: String,
    pub lockup_output: u32,
    pub refund_height: u32,
    pub height: u32,
    pub refund_txid: String,
}

/// A planned reverse swap whose provider takes their coins back.
#[verifier::ext_equal]
pub struct ReverseRefundRunView {
    pub phase: ReverseRefundPhase,
    pub journey: FundedJourney,
    pub confirmations: u64,
    pub payment_hash: Seq<char>,
    pub order_id: Seq<char>,
    pub invoice: Seq<char>,
    pub lockup_txid: Seq<char>,
    pub lockup_output: u32,
    pub refund_height: u32,
    pub height: u32,
    pub refund_txid: Seq<char>,
}

impl View for ReverseRefundRun {
    type V = ReverseRefundRunView;

    open spec fn view(&self) -> ReverseRefundRunView {
        ReverseRefundRunView {
            phase: self.phase,
            journey: self.journey,
            confirmations: self.confirmations,
            payment_hash: self.payment_hash@,
            order_id: self.order_id@,
            invoice: self.invoice@,
            lockup_txid: self.lockup_txid@,
            lockup_output: self.lockup_output,
            refund_height: self.refund_height,
            height: self.height,
            refund_txid: self.refund_txid@,
        }
    }
}

/// What the refund of a reverse swap asks for next.
pub open spec fn reverse_refund_action(run: ReverseRefundRunView) -> ActionView {
    match run.phase {
        ReverseRefundPhase::ReadRefundHeight => ActionView::Perform(
            Task::ReadHeight,
            seq!["refund-height"@],
        ),
        ReverseRefundPhase::MineMaturity => ActionView::Mine(
            "bitcoin"@,
            blocks_until(run.refund_height, run.height),
            "reverse-refund-maturity"@,
        ),
        ReverseRefundPhase::AwaitRefundPrepared => ActionView::AwaitState(
            "provider_refund_prepared"@,
        ),
        ReverseRefundPhase::AwaitRefundPending => ActionView::AwaitState(
            "provider_refund_pending"@,
        ),
        ReverseRefundPhase::MineRefund => ActionView::Mine(
            "bitcoin"@,
            run.confirmations,
            "reverse-refund-confirm"@,
        ),
        ReverseRefundPhase::AwaitProviderRefunded => ActionView::AwaitState("provider_refunded"@),
        ReverseRefundPhase::AwaitCancelled => ActionView::AwaitState("invoice_cancelled"@),
        ReverseRefundPhase::AwaitRefunded => ActionView::AwaitState("refunded"@),
        ReverseRefundPhase::JoinFailedPayment => ActionView::Perform(
            Task::JoinPayment,
            seq![run.payment_hash],
        ),
        ReverseRefundPhase::AwaitClose => ActionView::AwaitClose(
            CloseCheckView {
                outcome: "refunded"@,
                bitcoin: Some(run.refund_txid),
                liquid: None,
                lightning: Some(LightningView::Outgoing(run.invoice, run.payment_hash, "failed"@)),
            },
        ),
        ReverseRefundPhase::RemoveSecret => ActionView::Perform(
            Task::RemoveSecret,
            seq![run.journey.label()],
        ),
        ReverseRefundPhase::KeepResult => ActionView::Keep(
            "refunded"@,
            JsonView::Object(no_members().insert("result"@, reverse_refund_result(run))),
        ),
        ReverseRefundPhase::Finished => ActionView::Finish,
    }
}

/// Where a reply takes the refund of a reverse swap.
pub open spec fn reverse_refund_step(run: ReverseRefundRunView, reply: ReplyView) -> Result<
    ReverseRefundRunView,
    Seq<char>,
> {
    match (run.phase, reply) {
        (ReverseRefundPhase::ReadRefundHeight, ReplyView::Number(value)) => match height_reading(
            value,
            "refund chain height exceeds u32"@,
        ) {
            Err(message) => Err(message),
            Ok(height) => {
                if height < run.refund_height {
                    Ok(
                        ReverseRefundRunView {
                            phase: ReverseRefundPhase::MineMaturity,
                            height: height,
                            ..run
                        },
                    )
                } else {
                    Ok(
                        ReverseRefundRunView {
                            phase: ReverseRefundPhase::AwaitRefundPrepared,
                            height: height,
                            ..run
                        },
                    )
                }
            },
        },
        (ReverseRefundPhase::MineMaturity, ReplyView::Done) => Ok(
            ReverseRefundRunView { phase: ReverseRefundPhase::AwaitRefundPrepared, ..run },
        ),
        (ReverseRefundPhase::AwaitRefundPrepared, ReplyView::Record { .. }) => Ok(
            ReverseRefundRunView { phase: ReverseRefundPhase::AwaitRefundPending, ..run },
        ),
        (ReverseRefundPhase::AwaitRefundPending, ReplyView::Record { id, pubkey, tags, content, .. }) => match transaction_reading(
            content,
        ) {
            Err(message) => Err(message),
            Ok(found) => Ok(
                ReverseRefundRunView {
                    phase: ReverseRefundPhase::MineRefund,
                    refund_txid: found,
                    ..run
                },
            ),
        },
        (ReverseRefundPhase::MineRefund, ReplyView::Done) => Ok(
            ReverseRefundRunView { phase: ReverseRefundPhase::AwaitProviderRefunded, ..run },
        ),
        (ReverseRefundPhase::AwaitProviderRefunded, ReplyView::Record { .. }) => Ok(
            ReverseRefundRunView { phase: ReverseRefundPhase::AwaitCancelled, ..run },
        ),
        (ReverseRefundPhase::AwaitCancelled, ReplyView::Record { .. }) => Ok(
            ReverseRefundRunView { phase: ReverseRefundPhase::AwaitRefunded, ..run },
        ),
        (ReverseRefundPhase::AwaitRefunded, ReplyView::Record { .. }) => Ok(
            ReverseRefundRunView { phase: ReverseRefundPhase::JoinFailedPayment, ..run },
        ),
        (ReverseRefundPhase::JoinFailedPayment, ReplyView::Truth(value)) => {
            if value != false {
                Err("noncooperative reverse payment released a preimage"@)
            } else {
                Ok(ReverseRefundRunView { phase: ReverseRefundPhase::AwaitClose, ..run })
            }
        },
        (ReverseRefundPhase::AwaitClose, ReplyView::Record { .. }) => Ok(
            ReverseRefundRunView { phase: ReverseRefundPhase::RemoveSecret, ..run },
        ),
        (ReverseRefundPhase::RemoveSecret, ReplyView::Done) => Ok(
            ReverseRefundRunView { phase: ReverseRefundPhase::KeepResult, ..run },
        ),
        (ReverseRefundPhase::KeepResult, ReplyView::Done) => Ok(
            ReverseRefundRunView { phase: ReverseRefundPhase::Finished, ..run },
        ),
        _ => Err(wrong_reply()),
    }
}

impl ReverseRefundRun {
    /// The refund of a reverse swap before its first action.
    pub fn new(
        journey: FundedJourney,
        confirmations: u64,
        payment_hash: &str,
        order_id: &str,
        invoice: &str,
        lockup_txid: &str,
        lockup_output: u32,
        refund_height: u32,
    ) -> (run: ReverseRefundRun)
        ensures
            run@.phase == ReverseRefundPhase::ReadRefundHeight,
            run@.journey == journey,
            run@.confirmations == confirmations,
            run@.payment_hash == payment_hash@,
            run@.order_id == order_id@,
            run@.invoice == invoice@,
            run@.lockup_txid == lockup_txid@,
            run@.lockup_output == lockup_output,
            run@.refund_height == refund_height,
            run@.height == 0,
            run@.refund_txid == Seq::<char>::empty(),
    {
        ReverseRefundRun {
            phase: ReverseRefundPhase::ReadRefundHeight,
            journey,
            confirmations,
            payment_hash: payment_hash.to_owned(),
            order_id: order_id.to_owned(),
            invoice: invoice.to_owned(),
            lockup_txid: lockup_txid.to_owned(),
            lockup_output,
            refund_height,
            height: 0,
            refund_txid: String::new(),
        }
    }

    /// What the journey asks for next.
    pub fn action(&self) -> (action: Action)
        ensures
            action@ == reverse_refund_action(self@),
    {
        match self.phase {
            ReverseRefundPhase::ReadRefundHeight => perform_with(Task::ReadHeight, "refund-height"),
            ReverseRefundPhase::MineMaturity => Action::Mine(
                "bitcoin".to_owned(),
                count_blocks_until(self.refund_height, self.height),
                "reverse-refund-maturity",
            ),
            ReverseRefundPhase::AwaitRefundPrepared => Action::AwaitState(
                "provider_refund_prepared",
            ),
            ReverseRefundPhase::AwaitRefundPending => Action::AwaitState("provider_refund_pending"),
            ReverseRefundPhase::MineRefund => Action::Mine(
                "bitcoin".to_owned(),
                self.confirmations,
                "reverse-refund-confirm",
            ),
            ReverseRefundPhase::AwaitProviderRefunded => Action::AwaitState("provider_refunded"),
            ReverseRefundPhase::AwaitCancelled => Action::AwaitState("invoice_cancelled"),
            ReverseRefundPhase::AwaitRefunded => Action::AwaitState("refunded"),
            ReverseRefundPhase::JoinFailedPayment => perform_with(
                Task::JoinPayment,
                self.payment_hash.as_str(),
            ),
            ReverseRefundPhase::AwaitClose => Action::AwaitClose(
                CloseCheck {
                    outcome: "refunded",
                    bitcoin: Some(self.refund_txid.clone()),
                    liquid: None,
                    lightning: Some(
                        LightningTerminalCheck::OutgoingPayment {
                            invoice: self.invoice.clone(),
                            payment_hash: self.payment_hash.clone(),
                            expected_status: "failed".to_owned(),
                        },
                    ),
                },
            ),
            ReverseRefundPhase::RemoveSecret => perform_with(
                Task::RemoveSecret,
                self.journey.name(),
            ),
            ReverseRefundPhase::KeepResult => Action::Keep(
                "refunded",
                Json::object(JsonObject::new().with("result", self.result_document())),
            ),
            ReverseRefundPhase::Finished => Action::Finish,
        }
    }

    /// Takes a reply: the journey goes on to its next phase, or ends with a message.
    #[verifier::rlimit(40)]
    pub fn advance(&mut self, reply: Reply) -> (moved: Result<(), String>)
        ensures
            match moved {
                Ok(_) => reverse_refund_step(
                    old(self)@,
                    reply@,
                ) == Ok::<ReverseRefundRunView, Seq<char>>(final(self)@),
                Err(message) => {
                    &&& reverse_refund_step(
                        old(self)@,
                        reply@,
                    ) == Err::<ReverseRefundRunView, Seq<char>>(message@)
                    &&& final(self)@ == old(self)@
                },
            },
    {
        match (self.phase, reply) {
            (ReverseRefundPhase::ReadRefundHeight, Reply::Number(value)) => {
                let height: u32 = narrow_height(value, "refund chain height exceeds u32")?;
                self.height = height;
                self.phase = if height < self.refund_height {
                    ReverseRefundPhase::MineMaturity
                } else {
                    ReverseRefundPhase::AwaitRefundPrepared
                };
                Ok(())
            },
            (ReverseRefundPhase::MineMaturity, Reply::Done) => {
                self.phase = ReverseRefundPhase::AwaitRefundPrepared;
                Ok(())
            },
            (ReverseRefundPhase::AwaitRefundPrepared, Reply::Record(_)) => {
                self.phase = ReverseRefundPhase::AwaitRefundPending;
                Ok(())
            },
            (ReverseRefundPhase::AwaitRefundPending, Reply::Record(event)) => {
                let found: String = status_transaction_id(&event)?;
                self.refund_txid = found;
                self.phase = ReverseRefundPhase::MineRefund;
                Ok(())
            },
            (ReverseRefundPhase::MineRefund, Reply::Done) => {
                self.phase = ReverseRefundPhase::AwaitProviderRefunded;
                Ok(())
            },
            (ReverseRefundPhase::AwaitProviderRefunded, Reply::Record(_)) => {
                self.phase = ReverseRefundPhase::AwaitCancelled;
                Ok(())
            },
            (ReverseRefundPhase::AwaitCancelled, Reply::Record(_)) => {
                self.phase = ReverseRefundPhase::AwaitRefunded;
                Ok(())
            },
            (ReverseRefundPhase::AwaitRefunded, Reply::Record(_)) => {
                self.phase = ReverseRefundPhase::JoinFailedPayment;
                Ok(())
            },
            (ReverseRefundPhase::JoinFailedPayment, Reply::Truth(value)) => {
                if value != false {
                    return Err("noncooperative reverse payment released a preimage".to_owned());
                }
                self.phase = ReverseRefundPhase::AwaitClose;
                Ok(())
            },
            (ReverseRefundPhase::AwaitClose, Reply::Record(_)) => {
                self.phase = ReverseRefundPhase::RemoveSecret;
                Ok(())
            },
            (ReverseRefundPhase::RemoveSecret, Reply::Done) => {
                self.phase = ReverseRefundPhase::KeepResult;
                Ok(())
            },
            (ReverseRefundPhase::KeepResult, Reply::Done) => {
                self.phase = ReverseRefundPhase::Finished;
                Ok(())
            },
            _ => Err(wrong_reply_text()),
        }
    }
}

/// Whether each entry of a trace leads to the one after it, from the first phase on.
pub open spec fn is_reverse_refund_trace(trace: Seq<(ReverseRefundRunView, ReplyView)>) -> bool {
    &&& trace.len() > 0
    &&& trace[0].0.phase == ReverseRefundPhase::ReadRefundHeight
    &&& forall|i: int|
        0 <= i < trace.len() - 1 ==> reverse_refund_step(
            (#[trigger] trace[i]).0,
            trace[i].1,
        ) == Ok::<
            ReverseRefundRunView,
            Seq<char>,
        >(trace[i + 1].0)
}

/// Each reply takes the refund of a reverse swap forward, never back and never in place.
pub proof fn law_reverse_refund_moves_forward(run: ReverseRefundRunView, reply: ReplyView)
    requires
        reverse_refund_step(run, reply) is Ok,
    ensures
        run.phase.rank() < reverse_refund_step(run, reply)->Ok_0.phase.rank(),
{
}

/// Which replies take the refund of a reverse swap on, and to which phase: in each phase exactly
/// the replies that pass every check of that phase, and no others.
pub proof fn law_reverse_refund_goes_on_only_when_answered(
    run: ReverseRefundRunView,
    reply: ReplyView,
)
    ensures
        ({
            let next = reverse_refund_step(run, reply);
            match run.phase {
                ReverseRefundPhase::ReadRefundHeight => {
                    let case_1 = height_reading(
                        reply->Number_0,
                        "refund chain height exceeds u32"@,
                    )->Ok_0 < run.refund_height;
                    let case_2 = height_reading(
                        reply->Number_0,
                        "refund chain height exceeds u32"@,
                    )->Ok_0 >= run.refund_height;
                    &&& next is Ok <==> {
                        &&& reply is Number
                        &&& height_reading(
                            reply->Number_0,
                            "refund chain height exceeds u32"@,
                        ) is Ok
                        &&& (case_1 || case_2)
                    }
                    &&& next is Ok && case_1 ==> next->Ok_0.phase == ReverseRefundPhase::MineMaturity
                    &&& next is Ok && case_2 ==> next->Ok_0.phase == ReverseRefundPhase::AwaitRefundPrepared
                },
                ReverseRefundPhase::MineMaturity => {
                    &&& next is Ok <==> reply is Done
                    &&& next is Ok ==> next->Ok_0.phase == ReverseRefundPhase::AwaitRefundPrepared
                },
                ReverseRefundPhase::AwaitRefundPrepared => {
                    &&& next is Ok <==> reply is Record
                    &&& next is Ok ==> next->Ok_0.phase == ReverseRefundPhase::AwaitRefundPending
                },
                ReverseRefundPhase::AwaitRefundPending => {
                    &&& next is Ok <==> {
                        &&& reply is Record
                        &&& transaction_reading(reply->Record_content) is Ok
                    }
                    &&& next is Ok ==> next->Ok_0.phase == ReverseRefundPhase::MineRefund
                },
                ReverseRefundPhase::MineRefund => {
                    &&& next is Ok <==> reply is Done
                    &&& next is Ok ==> next->Ok_0.phase == ReverseRefundPhase::AwaitProviderRefunded
                },
                ReverseRefundPhase::AwaitProviderRefunded => {
                    &&& next is Ok <==> reply is Record
                    &&& next is Ok ==> next->Ok_0.phase == ReverseRefundPhase::AwaitCancelled
                },
                ReverseRefundPhase::AwaitCancelled => {
                    &&& next is Ok <==> reply is Record
                    &&& next is Ok ==> next->Ok_0.phase == ReverseRefundPhase::AwaitRefunded
                },
                ReverseRefundPhase::AwaitRefunded => {
                    &&& next is Ok <==> reply is Record
                    &&& next is Ok ==> next->Ok_0.phase == ReverseRefundPhase::JoinFailedPayment
                },
                ReverseRefundPhase::JoinFailedPayment => {
                    &&& next is Ok <==> {
                        &&& reply is Truth
                        &&& reply->Truth_0 == false
                    }
                    &&& next is Ok ==> next->Ok_0.phase == ReverseRefundPhase::AwaitClose
                },
                ReverseRefundPhase::AwaitClose => {
                    &&& next is Ok <==> reply is Record
                    &&& next is Ok ==> next->Ok_0.phase == ReverseRefundPhase::RemoveSecret
                },
                ReverseRefundPhase::RemoveSecret => {
                    &&& next is Ok <==> reply is Done
                    &&& next is Ok ==> next->Ok_0.phase == ReverseRefundPhase::KeepResult
                },
                ReverseRefundPhase::KeepResult => {
                    &&& next is Ok <==> reply is Done
                    &&& next is Ok ==> next->Ok_0.phase == ReverseRefundPhase::Finished
                },
                ReverseRefundPhase::Finished => next is Err,
            }
        }),
{
}

/// The reply that a trace of the refund of a reverse swap holds for a phase.
pub open spec fn reverse_refund_told(
    trace: Seq<(ReverseRefundRunView, ReplyView)>,
    phase: ReverseRefundPhase,
) -> ReplyView {
    trace[choose|i: int| 0 <= i < trace.len() && (#[trigger] trace[i]).0.phase == phase].1
}

/// The values that a run of the refund of a reverse swap holds, by the replies that gave them: each
/// stays as the reply to one phase gave it, or as the run started with it.
pub open spec fn reverse_refund_holds(
    trace: Seq<(ReverseRefundRunView, ReplyView)>,
    run: ReverseRefundRunView,
) -> bool {
    let start = trace[0].0;
    let height = height_reading(
        reverse_refund_told(trace, ReverseRefundPhase::ReadRefundHeight)->Number_0,
        "refund chain height exceeds u32"@,
    )->Ok_0;
    let refund_txid = transaction_reading(
        reverse_refund_told(trace, ReverseRefundPhase::AwaitRefundPending)->Record_content,
    )->Ok_0;
    &&& run.journey == start.journey
    &&& run.confirmations == start.confirmations
    &&& run.payment_hash == start.payment_hash
    &&& run.order_id == start.order_id
    &&& run.invoice == start.invoice
    &&& run.lockup_txid == start.lockup_txid
    &&& run.lockup_output == start.lockup_output
    &&& run.refund_height == start.refund_height
    &&& run.phase.rank() > ReverseRefundPhase::ReadRefundHeight.rank() ==> run.height == height
    &&& run.phase.rank() > ReverseRefundPhase::AwaitRefundPending.rank()
        ==> run.refund_txid == refund_txid
}

/// No phase of the refund of a reverse swap comes twice in a trace.
proof fn lemma_reverse_refund_told_once(trace: Seq<(ReverseRefundRunView, ReplyView)>, place: int)
    requires
        is_reverse_refund_trace(trace),
        0 <= place < trace.len(),
    ensures
        reverse_refund_told(trace, trace[place].0.phase) == trace[place].1,
{
    let phase = trace[place].0.phase;
    let other = choose|i: int| 0 <= i < trace.len() && (#[trigger] trace[i]).0.phase == phase;
    assert(trace[place].0.phase == phase);
    if other != place {
        let (early, late) = if other < place {
            (other, place)
        } else {
            (place, other)
        };
        assert forall|run: ReverseRefundRunView, reply: ReplyView|
            (#[trigger] reverse_refund_step(run, reply)) is Ok implies run.phase.rank() < reverse_refund_step(
            run,
            reply,
        )->Ok_0.phase.rank() by {
            law_reverse_refund_moves_forward(run, reply);
        }
        lemma_ranks_rise(
            trace,
            |run: ReverseRefundRunView, reply: ReplyView| reverse_refund_step(run, reply),
            |run: ReverseRefundRunView| run.phase.rank(),
            early,
            late,
        );
    }
}

/// A reply keeps what the refund of a reverse swap holds, and adds what it tells.
proof fn lemma_reverse_refund_holds_on(
    trace: Seq<(ReverseRefundRunView, ReplyView)>,
    run: ReverseRefundRunView,
    reply: ReplyView,
)
    requires
        reverse_refund_holds(trace, run),
        reverse_refund_told(trace, run.phase) == reply,
        reverse_refund_step(run, reply) is Ok,
    ensures
        reverse_refund_holds(trace, reverse_refund_step(run, reply)->Ok_0),
{
    let next = reverse_refund_step(run, reply)->Ok_0;
    match run.phase {
        ReverseRefundPhase::ReadRefundHeight => assert(reverse_refund_holds(trace, next)),
        ReverseRefundPhase::MineMaturity => assert(reverse_refund_holds(trace, next)),
        ReverseRefundPhase::AwaitRefundPrepared => assert(reverse_refund_holds(trace, next)),
        ReverseRefundPhase::AwaitRefundPending => assert(reverse_refund_holds(trace, next)),
        ReverseRefundPhase::MineRefund => assert(reverse_refund_holds(trace, next)),
        ReverseRefundPhase::AwaitProviderRefunded => assert(reverse_refund_holds(trace, next)),
        ReverseRefundPhase::AwaitCancelled => assert(reverse_refund_holds(trace, next)),
        ReverseRefundPhase::AwaitRefunded => assert(reverse_refund_holds(trace, next)),
        ReverseRefundPhase::JoinFailedPayment => assert(reverse_refund_holds(trace, next)),
        ReverseRefundPhase::AwaitClose => assert(reverse_refund_holds(trace, next)),
        ReverseRefundPhase::RemoveSecret => assert(reverse_refund_holds(trace, next)),
        ReverseRefundPhase::KeepResult => assert(reverse_refund_holds(trace, next)),
        ReverseRefundPhase::Finished => assert(reverse_refund_holds(trace, next)),
    }
}

/// What the refund of a reverse swap has been told, it keeps: at every place of a trace each value
/// that the run holds is the one that the reply to the phase that asks for it gave, or the one that
/// the run started with.
pub proof fn law_reverse_refund_keeps_what_it_was_told(
    trace: Seq<(ReverseRefundRunView, ReplyView)>,
    last: int,
)
    requires
        is_reverse_refund_trace(trace),
        0 <= last < trace.len(),
    ensures
        reverse_refund_holds(trace, trace[last].0),
    decreases last,
{
    if last > 0 {
        let before = last - 1;
        law_reverse_refund_keeps_what_it_was_told(trace, before);
        lemma_reverse_refund_told_once(trace, before);
        assert(reverse_refund_step(trace[before].0, trace[before].1) == Ok::<ReverseRefundRunView, Seq<char>>(
            trace[before + 1].0,
        ));
        lemma_reverse_refund_holds_on(trace, trace[before].0, trace[before].1);
    }
}

/// What the refund of a reverse swap asks for in each phase, in terms of the replies before it: the
/// values in a request are those that the replies to the named phases gave, or those that the run
/// started with.
pub proof fn law_reverse_refund_asks_with_what_it_was_told(
    trace: Seq<(ReverseRefundRunView, ReplyView)>,
    last: int,
)
    requires
        is_reverse_refund_trace(trace),
        0 <= last < trace.len(),
    ensures
        ({
            let start = trace[0].0;
            let height = height_reading(
                reverse_refund_told(trace, ReverseRefundPhase::ReadRefundHeight)->Number_0,
                "refund chain height exceeds u32"@,
            )->Ok_0;
            let refund_txid = transaction_reading(
                reverse_refund_told(trace, ReverseRefundPhase::AwaitRefundPending)->Record_content,
            )->Ok_0;
            let action = reverse_refund_action(trace[last].0);
            match trace[last].0.phase {
                ReverseRefundPhase::ReadRefundHeight => action == ActionView::Perform(
                    Task::ReadHeight,
                    seq!["refund-height"@],
                ),
                ReverseRefundPhase::MineMaturity => action == ActionView::Mine(
                    "bitcoin"@,
                    blocks_until(start.refund_height, height),
                    "reverse-refund-maturity"@,
                ),
                ReverseRefundPhase::AwaitRefundPrepared => action == ActionView::AwaitState(
                    "provider_refund_prepared"@,
                ),
                ReverseRefundPhase::AwaitRefundPending => action == ActionView::AwaitState(
                    "provider_refund_pending"@,
                ),
                ReverseRefundPhase::MineRefund => action == ActionView::Mine(
                    "bitcoin"@,
                    start.confirmations,
                    "reverse-refund-confirm"@,
                ),
                ReverseRefundPhase::AwaitProviderRefunded => action == ActionView::AwaitState(
                    "provider_refunded"@,
                ),
                ReverseRefundPhase::AwaitCancelled => action == ActionView::AwaitState(
                    "invoice_cancelled"@,
                ),
                ReverseRefundPhase::AwaitRefunded => action == ActionView::AwaitState("refunded"@),
                ReverseRefundPhase::JoinFailedPayment => action == ActionView::Perform(
                    Task::JoinPayment,
                    seq![start.payment_hash],
                ),
                ReverseRefundPhase::AwaitClose => action == ActionView::AwaitClose(
                    CloseCheckView {
                        outcome: "refunded"@,
                        bitcoin: Some(refund_txid),
                        liquid: None,
                        lightning: Some(
                            LightningView::Outgoing(start.invoice, start.payment_hash, "failed"@),
                        ),
                    },
                ),
                ReverseRefundPhase::RemoveSecret => action == ActionView::Perform(
                    Task::RemoveSecret,
                    seq![start.journey.label()],
                ),
                ReverseRefundPhase::KeepResult => action == ActionView::Keep(
                    "refunded"@,
                    JsonView::Object(
                        no_members().insert(
                            "result"@,
                            JsonView::Object(
                                no_members().insert("order_id"@, text_doc(start.order_id)).insert("lockup_txid"@, text_doc(start.lockup_txid)).insert(
                                    "lockup_vout"@,
                                    number_doc(start.lockup_output as u64),
                                ).insert("refund_txid"@, text_doc(refund_txid)).insert("payment_hash"@, text_doc(start.payment_hash)).insert("result"@, text_doc("refunded"@)).insert(
                                    "lightning_payment_succeeded"@,
                                    JsonView::Bool(false),
                                ),
                            ),
                        ),
                    ),
                ),
                ReverseRefundPhase::Finished => action == ActionView::Finish,
            }
        }),
{
    law_reverse_refund_keeps_what_it_was_told(trace, last);
}

/// What the refund of a reverse swap reports at its end is what it was told on the way: each
/// identifier in the report is the one that the reply to the named phase gave, or one that the run
/// started with.
pub proof fn law_reverse_refund_result_names_what_it_was_told(
    trace: Seq<(ReverseRefundRunView, ReplyView)>,
    last: int,
)
    requires
        is_reverse_refund_trace(trace),
        0 <= last < trace.len(),
        trace[last].0.phase == ReverseRefundPhase::Finished,
    ensures
        ({
            let start = trace[0].0;
            let refund_txid = transaction_reading(
                reverse_refund_told(trace, ReverseRefundPhase::AwaitRefundPending)->Record_content,
            )->Ok_0;
            reverse_refund_result(trace[last].0) == JsonView::Object(
                no_members().insert("order_id"@, text_doc(start.order_id)).insert("lockup_txid"@, text_doc(start.lockup_txid)).insert(
                    "lockup_vout"@,
                    number_doc(start.lockup_output as u64),
                ).insert("refund_txid"@, text_doc(refund_txid)).insert("payment_hash"@, text_doc(start.payment_hash)).insert("result"@, text_doc("refunded"@)).insert(
                    "lightning_payment_succeeded"@,
                    JsonView::Bool(false),
                ),
            )
        }),
{
    law_reverse_refund_keeps_what_it_was_told(trace, last);
}

/// A swap is kept as refunded only after the payment has failed.
pub proof fn law_reverse_refund_cancels_the_payment(
    trace: Seq<(ReverseRefundRunView, ReplyView)>,
    last: int,
)
    requires
        is_reverse_refund_trace(trace),
        0 <= last < trace.len(),
        trace[last].0.phase == ReverseRefundPhase::KeepResult,
    ensures
        exists|i: int|
            0 <= i < last && (#[trigger] trace[i]).0.phase == ReverseRefundPhase::JoinFailedPayment
                && trace[i].1 == ReplyView::Truth(false),
{
    let i = lemma_milestone(
        trace,
        |run: ReverseRefundRunView, reply: ReplyView| reverse_refund_step(run, reply),
        |run: ReverseRefundRunView| run.phase.rank(),
        8,
        last,
    );
    assert(trace[i].0.phase == ReverseRefundPhase::JoinFailedPayment);
    assert(reverse_refund_step(trace[i].0, trace[i].1) == Ok::<ReverseRefundRunView,
        Seq<char>>(trace[i + 1].0));
}

/// What a reverse swap comes to that was refunded.
pub open spec fn reverse_refund_result(run: ReverseRefundRunView) -> JsonView {
    JsonView::Object(
        no_members().insert("order_id"@, text_doc(run.order_id)).insert(
            "lockup_txid"@,
            text_doc(run.lockup_txid),
        ).insert("lockup_vout"@, number_doc(run.lockup_output as u64)).insert(
            "refund_txid"@,
            text_doc(run.refund_txid),
        ).insert("payment_hash"@, text_doc(run.payment_hash)).insert(
            "result"@,
            text_doc("refunded"@),
        ).insert("lightning_payment_succeeded"@, JsonView::Bool(false)),
    )
}

impl ReverseRefundRun {
    fn result_document(&self) -> (document: Json)
        ensures
            document@ == reverse_refund_result(self@),
    {
        Json::object(
            JsonObject::new().with_text("order_id", self.order_id.as_str()).with_text(
                "lockup_txid",
                self.lockup_txid.as_str(),
            ).with_number("lockup_vout", self.lockup_output as u64).with_text(
                "refund_txid",
                self.refund_txid.as_str(),
            ).with_text("payment_hash", self.payment_hash.as_str()).with_text(
                "result",
                "refunded",
            ).with_bool("lightning_payment_succeeded", false),
        )
    }

    /// What a reverse swap comes to that was refunded; nothing before it is over.
    pub fn result(&self) -> (document: Option<Json>)
        ensures
            match document {
                Some(document) => self@.phase == ReverseRefundPhase::Finished && document@ == reverse_refund_result(self@),
                None => self@.phase != ReverseRefundPhase::Finished,
            },
    {
        if self.phase == ReverseRefundPhase::Finished {
            Some(self.result_document())
        } else {
            None
        }
    }
}

/// The phases of the claim of a reverse swap, in their order.
#[derive(Clone, Copy, Debug, PartialEq, Eq, Structural)]
pub enum ReverseClaimPhase {
    SayClaimPending,
    BuildClaim,
    SignClaim,
    StoreSignedExit,
    RecordClaim,
    KeepClaimReady,
    BroadcastClaim,
    LoadSignedExit,
    FollowPaymentAgain,
    BroadcastClaimAgain,
    KeepClaimRecorded,
    RequireClaimKnown,
    ReadFundingStatus,
    SayClaimed,
    MineClaim,
    AwaitSettlement,
    AwaitPaid,
    AwaitCompleted,
    JoinPayment,
    AwaitClose,
    RemoveSecret,
    KeepResult,
    Finished,
}

impl ReverseClaimPhase {
    /// The place of the phase in their order.
    pub open spec fn rank(self) -> int {
        match self {
            ReverseClaimPhase::SayClaimPending => 0,
            ReverseClaimPhase::BuildClaim => 1,
            ReverseClaimPhase::SignClaim => 2,
            ReverseClaimPhase::StoreSignedExit => 3,
            ReverseClaimPhase::RecordClaim => 4,
            ReverseClaimPhase::KeepClaimReady => 5,
            ReverseClaimPhase::BroadcastClaim => 6,
            ReverseClaimPhase::LoadSignedExit => 7,
            ReverseClaimPhase::FollowPaymentAgain => 8,
            ReverseClaimPhase::BroadcastClaimAgain => 9,
            ReverseClaimPhase::KeepClaimRecorded => 10,
            ReverseClaimPhase::RequireClaimKnown => 11,
            ReverseClaimPhase::ReadFundingStatus => 12,
            ReverseClaimPhase::SayClaimed => 13,
            ReverseClaimPhase::MineClaim => 14,
            ReverseClaimPhase::AwaitSettlement => 15,
            ReverseClaimPhase::AwaitPaid => 16,
            ReverseClaimPhase::AwaitCompleted => 17,
            ReverseClaimPhase::JoinPayment => 18,
            ReverseClaimPhase::AwaitClose => 19,
            ReverseClaimPhase::RemoveSecret => 20,
            ReverseClaimPhase::KeepResult => 21,
            ReverseClaimPhase::Finished => 22,
        }
    }
}

/// A planned reverse swap whose coins the requester claims.
pub struct ReverseClaimRun {
    pub phase: ReverseClaimPhase,
    pub journey: FundedJourney,
    pub confirmations: u64,
    pub payment_hash: String,
    pub order_id: String,
    pub invoice: String,
    pub lockup_txid: String,
    pub lockup_output: u32,
    pub planned: Plan,
    pub effect_id: String,
    pub amount_sat: u64,
    pub fee_budget_sat: u64,
    pub kinds: RecordKinds,
    pub provider_pubkey: String,
    pub claim_value_sat: u64,
    pub claim_hex: String,
    pub claim_txid: String,
    pub broadcast_claim: bool,
}

/// A planned reverse swap whose coins the requester claims.
#[verifier::ext_equal]
pub struct ReverseClaimRunView {
    pub phase: ReverseClaimPhase,
    pub journey: FundedJourney,
    pub confirmations: u64,
    pub payment_hash: Seq<char>,
    pub order_id: Seq<char>,
    pub invoice: Seq<char>,
    pub lockup_txid: Seq<char>,
    pub lockup_output: u32,
    pub planned: PlanView,
    pub effect_id: Seq<char>,
    pub amount_sat: u64,
    pub fee_budget_sat: u64,
    pub kinds: RecordKinds,
    pub provider_pubkey: Seq<char>,
    pub claim_value_sat: u64,
    pub claim_hex: Seq<char>,
    pub claim_txid: Seq<char>,
    pub broadcast_claim: bool,
}

impl View for ReverseClaimRun {
    type V = ReverseClaimRunView;

    open spec fn view(&self) -> ReverseClaimRunView {
        ReverseClaimRunView {
            phase: self.phase,
            journey: self.journey,
            confirmations: self.confirmations,
            payment_hash: self.payment_hash@,
            order_id: self.order_id@,
            invoice: self.invoice@,
            lockup_txid: self.lockup_txid@,
            lockup_output: self.lockup_output,
            planned: self.planned@,
            effect_id: self.effect_id@,
            amount_sat: self.amount_sat,
            fee_budget_sat: self.fee_budget_sat,
            kinds: self.kinds,
            provider_pubkey: self.provider_pubkey@,
            claim_value_sat: self.claim_value_sat,
            claim_hex: self.claim_hex@,
            claim_txid: self.claim_txid@,
            broadcast_claim: self.broadcast_claim,
        }
    }
}

/// What the claim of a reverse swap asks for next.
pub open spec fn reverse_claim_action(run: ReverseClaimRunView) -> ActionView {
    match run.phase {
        ReverseClaimPhase::SayClaimPending => ActionView::Say(
            "requester_claim_pending"@,
            no_members(),
        ),
        ReverseClaimPhase::BuildClaim => ActionView::Perform(
            Task::BuildClaim,
            seq![
                run.lockup_txid,
                decimal(run.lockup_output as nat),
                decimal(run.claim_value_sat as nat),
            ],
        ),
        ReverseClaimPhase::SignClaim => ActionView::Perform(Task::SignExit, seq![run.claim_hex]),
        ReverseClaimPhase::StoreSignedExit => ActionView::Perform(
            Task::StoreSignedExit,
            seq![run.journey.label(), run.claim_hex],
        ),
        ReverseClaimPhase::RecordClaim => ActionView::Perform(
            Task::RecordSignedExit,
            seq![run.claim_txid, run.claim_hex],
        ),
        ReverseClaimPhase::KeepClaimReady => ActionView::Keep(
            "claim_broadcast_ready"@,
            effect_doc(run.claim_txid),
        ),
        ReverseClaimPhase::BroadcastClaim => ActionView::Perform(
            Task::BroadcastBitcoin,
            seq!["reverse-claim"@, run.claim_hex, run.claim_txid],
        ),
        ReverseClaimPhase::LoadSignedExit => ActionView::Perform(
            Task::LoadSignedExit,
            seq![run.journey.label()],
        ),
        ReverseClaimPhase::FollowPaymentAgain => ActionView::Perform(
            Task::StartPayment,
            seq![run.journey.label(), run.invoice, run.payment_hash],
        ),
        ReverseClaimPhase::BroadcastClaimAgain => ActionView::Perform(
            Task::BroadcastBitcoin,
            seq!["reverse-claim-resume"@, run.claim_hex, run.claim_txid],
        ),
        ReverseClaimPhase::KeepClaimRecorded => ActionView::Keep(
            "claim_broadcast_recorded"@,
            effect_doc(run.claim_txid),
        ),
        ReverseClaimPhase::RequireClaimKnown => ActionView::Perform(
            Task::RequireKnownTransaction,
            seq!["reverse-claim-recorded"@, run.claim_txid, run.claim_hex],
        ),
        ReverseClaimPhase::ReadFundingStatus => ActionView::Perform(Task::ReadRecords, seq![]),
        ReverseClaimPhase::SayClaimed => ActionView::Say(
            "requester_claimed"@,
            no_members().insert("transaction_id"@, text_doc(run.claim_txid)),
        ),
        ReverseClaimPhase::MineClaim => ActionView::Mine(
            "bitcoin"@,
            run.confirmations,
            "reverse-claim"@,
        ),
        ReverseClaimPhase::AwaitSettlement => ActionView::AwaitState(
            "lightning_settlement_pending"@,
        ),
        ReverseClaimPhase::AwaitPaid => ActionView::AwaitState("lightning_paid"@),
        ReverseClaimPhase::AwaitCompleted => ActionView::AwaitState("completed"@),
        ReverseClaimPhase::JoinPayment => ActionView::Perform(
            Task::JoinPayment,
            seq![run.payment_hash],
        ),
        ReverseClaimPhase::AwaitClose => ActionView::AwaitClose(
            CloseCheckView {
                outcome: "completed"@,
                bitcoin: Some(run.claim_txid),
                liquid: None,
                lightning: Some(
                    LightningView::Outgoing(run.invoice, run.payment_hash, "complete"@),
                ),
            },
        ),
        ReverseClaimPhase::RemoveSecret => ActionView::Perform(
            Task::RemoveSecret,
            seq![run.journey.label()],
        ),
        ReverseClaimPhase::KeepResult => ActionView::Keep(
            "completed"@,
            JsonView::Object(no_members().insert("result"@, reverse_result(run))),
        ),
        ReverseClaimPhase::Finished => ActionView::Finish,
    }
}

/// Where a reply takes the claim of a reverse swap.
pub open spec fn reverse_claim_step(run: ReverseClaimRunView, reply: ReplyView) -> Result<
    ReverseClaimRunView,
    Seq<char>,
> {
    match (run.phase, reply) {
        (ReverseClaimPhase::SayClaimPending, ReplyView::Record { .. }) => match after_fee(
            run.amount_sat,
            run.fee_budget_sat,
        ) {
            None => Err("reverse claim fee consumes its output"@),
            Some(left) => Ok(
                ReverseClaimRunView {
                    phase: ReverseClaimPhase::BuildClaim,
                    claim_value_sat: left,
                    ..run
                },
            ),
        },
        (ReverseClaimPhase::BuildClaim, ReplyView::Texts(texts)) => {
            if texts.len() != 2 {
                Err(wrong_reply())
            } else {
                match run.planned {
                    PlanView::RequestWalletClaim(effect_id) => Ok(
                        ReverseClaimRunView {
                            phase: ReverseClaimPhase::SignClaim,
                            effect_id,
                            claim_hex: texts[0],
                            claim_txid: texts[1],
                            ..run
                        },
                    ),
                    _ => Err("client engine did not authorize the reverse wallet claim"@),
                }
            }
        },
        (ReverseClaimPhase::SignClaim, ReplyView::Texts(texts)) => {
            if texts.len() != 2 {
                Err(wrong_reply())
            } else if texts[0] != run.effect_id || texts[1] != run.claim_hex {
                Err("client engine signed another reverse exit transaction"@)
            } else {
                Ok(ReverseClaimRunView { phase: ReverseClaimPhase::StoreSignedExit, ..run })
            }
        },
        (ReverseClaimPhase::SignClaim, ReplyView::Done) => Err(
            "reverse exit signing unexpectedly reused an earlier effect"@,
        ),
        (ReverseClaimPhase::StoreSignedExit, ReplyView::Done) => Ok(
            ReverseClaimRunView { phase: ReverseClaimPhase::RecordClaim, ..run },
        ),
        (ReverseClaimPhase::RecordClaim, ReplyView::Done) => Ok(
            ReverseClaimRunView { phase: ReverseClaimPhase::KeepClaimReady, ..run },
        ),
        (ReverseClaimPhase::KeepClaimReady, ReplyView::Done) => Ok(
            ReverseClaimRunView { phase: ReverseClaimPhase::BroadcastClaim, ..run },
        ),
        (ReverseClaimPhase::BroadcastClaim, ReplyView::Done) => Ok(
            ReverseClaimRunView { phase: ReverseClaimPhase::KeepClaimRecorded, ..run },
        ),
        (ReverseClaimPhase::LoadSignedExit, ReplyView::Texts(texts)) => {
            if texts.len() != 2 {
                Err(wrong_reply())
            } else if texts[1] != run.claim_txid {
                Err("persisted reverse claim checkpoint binds another transaction"@)
            } else {
                Ok(
                    ReverseClaimRunView {
                        phase: ReverseClaimPhase::FollowPaymentAgain,
                        claim_hex: texts[0],
                        ..run
                    },
                )
            }
        },
        (ReverseClaimPhase::FollowPaymentAgain, ReplyView::Done) => {
            if run.broadcast_claim {
                Ok(ReverseClaimRunView { phase: ReverseClaimPhase::BroadcastClaimAgain, ..run })
            } else {
                Ok(ReverseClaimRunView { phase: ReverseClaimPhase::RequireClaimKnown, ..run })
            }
        },
        (ReverseClaimPhase::BroadcastClaimAgain, ReplyView::Done) => Ok(
            ReverseClaimRunView { phase: ReverseClaimPhase::KeepClaimRecorded, ..run },
        ),
        (ReverseClaimPhase::KeepClaimRecorded, ReplyView::Done) => Ok(
            ReverseClaimRunView { phase: ReverseClaimPhase::ReadFundingStatus, ..run },
        ),
        (ReverseClaimPhase::RequireClaimKnown, ReplyView::Document(Some(report))) => match known_transaction_reading(
            report,
            run.claim_txid,
            Some(run.claim_hex),
        ) {
            Err(message) => Err(message),
            Ok(known) => Ok(
                ReverseClaimRunView { phase: ReverseClaimPhase::ReadFundingStatus, ..run },
            ),
        },
        (ReverseClaimPhase::ReadFundingStatus, ReplyView::Records(records)) => match funding_outpoint_reading(
            records,
            run.kinds,
            run.provider_pubkey,
        ) {
            Err(message) => Err(message),
            Ok(found) => Ok(
                ReverseClaimRunView {
                    phase: ReverseClaimPhase::SayClaimed,
                    lockup_txid: found.0,
                    lockup_output: found.1,
                    ..run
                },
            ),
        },
        (ReverseClaimPhase::SayClaimed, ReplyView::Record { .. }) => Ok(
            ReverseClaimRunView { phase: ReverseClaimPhase::MineClaim, ..run },
        ),
        (ReverseClaimPhase::MineClaim, ReplyView::Done) => Ok(
            ReverseClaimRunView { phase: ReverseClaimPhase::AwaitSettlement, ..run },
        ),
        (ReverseClaimPhase::AwaitSettlement, ReplyView::Record { .. }) => Ok(
            ReverseClaimRunView { phase: ReverseClaimPhase::AwaitPaid, ..run },
        ),
        (ReverseClaimPhase::AwaitPaid, ReplyView::Record { .. }) => Ok(
            ReverseClaimRunView { phase: ReverseClaimPhase::AwaitCompleted, ..run },
        ),
        (ReverseClaimPhase::AwaitCompleted, ReplyView::Record { .. }) => Ok(
            ReverseClaimRunView { phase: ReverseClaimPhase::JoinPayment, ..run },
        ),
        (ReverseClaimPhase::JoinPayment, ReplyView::Texts(texts)) => {
            if texts.len() != 2 {
                Err(wrong_reply())
            } else if texts[0] != "complete"@ || texts[1] != run.payment_hash {
                Err("reverse Lightning payment completed with another result"@)
            } else {
                Ok(ReverseClaimRunView { phase: ReverseClaimPhase::AwaitClose, ..run })
            }
        },
        (ReverseClaimPhase::JoinPayment, ReplyView::Refused { code, message }) => Err(
            "reverse payment did not settle: "@ + message,
        ),
        (ReverseClaimPhase::AwaitClose, ReplyView::Record { .. }) => Ok(
            ReverseClaimRunView { phase: ReverseClaimPhase::RemoveSecret, ..run },
        ),
        (ReverseClaimPhase::RemoveSecret, ReplyView::Done) => Ok(
            ReverseClaimRunView { phase: ReverseClaimPhase::KeepResult, ..run },
        ),
        (ReverseClaimPhase::KeepResult, ReplyView::Done) => Ok(
            ReverseClaimRunView { phase: ReverseClaimPhase::Finished, ..run },
        ),
        _ => Err(wrong_reply()),
    }
}

impl ReverseClaimRun {
    /// The claim of a reverse swap before its first action.
    pub fn new(
        journey: FundedJourney,
        confirmations: u64,
        payment_hash: &str,
        order_id: &str,
        invoice: &str,
        lockup_txid: &str,
        lockup_output: u32,
        planned: &Plan,
        amount_sat: u64,
        fee_budget_sat: u64,
        kinds: RecordKinds,
        provider_pubkey: &str,
    ) -> (run: ReverseClaimRun)
        ensures
            run@.phase == ReverseClaimPhase::SayClaimPending,
            run@.journey == journey,
            run@.confirmations == confirmations,
            run@.payment_hash == payment_hash@,
            run@.order_id == order_id@,
            run@.invoice == invoice@,
            run@.lockup_txid == lockup_txid@,
            run@.lockup_output == lockup_output,
            run@.planned == planned@,
            run@.effect_id == Seq::<char>::empty(),
            run@.amount_sat == amount_sat,
            run@.fee_budget_sat == fee_budget_sat,
            run@.kinds == kinds,
            run@.provider_pubkey == provider_pubkey@,
            run@.claim_value_sat == 0,
            run@.claim_hex == Seq::<char>::empty(),
            run@.claim_txid == Seq::<char>::empty(),
            run@.broadcast_claim == false,
    {
        ReverseClaimRun {
            phase: ReverseClaimPhase::SayClaimPending,
            journey,
            confirmations,
            payment_hash: payment_hash.to_owned(),
            order_id: order_id.to_owned(),
            invoice: invoice.to_owned(),
            lockup_txid: lockup_txid.to_owned(),
            lockup_output,
            planned: planned.copy(),
            effect_id: String::new(),
            amount_sat,
            fee_budget_sat,
            kinds,
            provider_pubkey: provider_pubkey.to_owned(),
            claim_value_sat: 0,
            claim_hex: String::new(),
            claim_txid: String::new(),
            broadcast_claim: false,
        }
    }

    /// What the journey asks for next.
    pub fn action(&self) -> (action: Action)
        ensures
            action@ == reverse_claim_action(self@),
    {
        match self.phase {
            ReverseClaimPhase::SayClaimPending => Action::Say(
                "requester_claim_pending",
                JsonObject::new(),
            ),
            ReverseClaimPhase::BuildClaim => perform_with_three(
                Task::BuildClaim,
                self.lockup_txid.as_str(),
                decimal_text(self.lockup_output as u64).as_str(),
                decimal_text(self.claim_value_sat).as_str(),
            ),
            ReverseClaimPhase::SignClaim => perform_with(Task::SignExit, self.claim_hex.as_str()),
            ReverseClaimPhase::StoreSignedExit => perform_with_two(
                Task::StoreSignedExit,
                self.journey.name(),
                self.claim_hex.as_str(),
            ),
            ReverseClaimPhase::RecordClaim => perform_with_two(
                Task::RecordSignedExit,
                self.claim_txid.as_str(),
                self.claim_hex.as_str(),
            ),
            ReverseClaimPhase::KeepClaimReady => Action::Keep(
                "claim_broadcast_ready",
                effect_details(self.claim_txid.as_str()),
            ),
            ReverseClaimPhase::BroadcastClaim => perform_with_three(
                Task::BroadcastBitcoin,
                "reverse-claim",
                self.claim_hex.as_str(),
                self.claim_txid.as_str(),
            ),
            ReverseClaimPhase::LoadSignedExit => perform_with(
                Task::LoadSignedExit,
                self.journey.name(),
            ),
            ReverseClaimPhase::FollowPaymentAgain => perform_with_three(
                Task::StartPayment,
                self.journey.name(),
                self.invoice.as_str(),
                self.payment_hash.as_str(),
            ),
            ReverseClaimPhase::BroadcastClaimAgain => perform_with_three(
                Task::BroadcastBitcoin,
                "reverse-claim-resume",
                self.claim_hex.as_str(),
                self.claim_txid.as_str(),
            ),
            ReverseClaimPhase::KeepClaimRecorded => Action::Keep(
                "claim_broadcast_recorded",
                effect_details(self.claim_txid.as_str()),
            ),
            ReverseClaimPhase::RequireClaimKnown => perform_with_three(
                Task::RequireKnownTransaction,
                "reverse-claim-recorded",
                self.claim_txid.as_str(),
                self.claim_hex.as_str(),
            ),
            ReverseClaimPhase::ReadFundingStatus => perform(Task::ReadRecords),
            ReverseClaimPhase::SayClaimed => Action::Say(
                "requester_claimed",
                JsonObject::new().with_text("transaction_id", self.claim_txid.as_str()),
            ),
            ReverseClaimPhase::MineClaim => Action::Mine(
                "bitcoin".to_owned(),
                self.confirmations,
                "reverse-claim",
            ),
            ReverseClaimPhase::AwaitSettlement => Action::AwaitState(
                "lightning_settlement_pending",
            ),
            ReverseClaimPhase::AwaitPaid => Action::AwaitState("lightning_paid"),
            ReverseClaimPhase::AwaitCompleted => Action::AwaitState("completed"),
            ReverseClaimPhase::JoinPayment => perform_with(
                Task::JoinPayment,
                self.payment_hash.as_str(),
            ),
            ReverseClaimPhase::AwaitClose => Action::AwaitClose(
                CloseCheck {
                    outcome: "completed",
                    bitcoin: Some(self.claim_txid.clone()),
                    liquid: None,
                    lightning: Some(
                        LightningTerminalCheck::OutgoingPayment {
                            invoice: self.invoice.clone(),
                            payment_hash: self.payment_hash.clone(),
                            expected_status: "complete".to_owned(),
                        },
                    ),
                },
            ),
            ReverseClaimPhase::RemoveSecret => perform_with(
                Task::RemoveSecret,
                self.journey.name(),
            ),
            ReverseClaimPhase::KeepResult => Action::Keep(
                "completed",
                Json::object(JsonObject::new().with("result", self.result_document())),
            ),
            ReverseClaimPhase::Finished => Action::Finish,
        }
    }

    /// Takes a reply: the journey goes on to its next phase, or ends with a message.
    #[verifier::rlimit(80)]
    pub fn advance(&mut self, reply: Reply) -> (moved: Result<(), String>)
        ensures
            match moved {
                Ok(_) => reverse_claim_step(
                    old(self)@,
                    reply@,
                ) == Ok::<ReverseClaimRunView, Seq<char>>(final(self)@),
                Err(message) => {
                    &&& reverse_claim_step(
                        old(self)@,
                        reply@,
                    ) == Err::<ReverseClaimRunView, Seq<char>>(message@)
                    &&& final(self)@ == old(self)@
                },
            },
    {
        match (self.phase, reply) {
            (ReverseClaimPhase::SayClaimPending, Reply::Record(_)) => {
                let left: u64 = match amount_after_fee(self.amount_sat, self.fee_budget_sat) {
                    Some(left) => left,
                    None => {
                        return Err("reverse claim fee consumes its output".to_owned());
                    },
                };
                self.claim_value_sat = left;
                self.phase = ReverseClaimPhase::BuildClaim;
                Ok(())
            },
            (ReverseClaimPhase::BuildClaim, Reply::Texts(texts)) => {
                if texts.len() != 2 {
                    return Err(wrong_reply_text());
                }
                let effect_id: String = match &self.planned {
                    Plan::RequestWalletClaim(effect_id) => effect_id.as_str().to_owned(),
                    _ => {
                        return Err(
                            "client engine did not authorize the reverse wallet claim".to_owned(),
                        );
                    },
                };
                self.effect_id = effect_id;
                self.claim_hex = texts[0].clone();
                self.claim_txid = texts[1].clone();
                self.phase = ReverseClaimPhase::SignClaim;
                Ok(())
            },
            (ReverseClaimPhase::SignClaim, Reply::Texts(texts)) => {
                if texts.len() != 2 {
                    return Err(wrong_reply_text());
                }
                if !same_text(texts[0].as_str(), self.effect_id.as_str())
                    || !same_text(texts[1].as_str(), self.claim_hex.as_str())
                {
                    return Err("client engine signed another reverse exit transaction".to_owned());
                }
                self.phase = ReverseClaimPhase::StoreSignedExit;
                Ok(())
            },
            (ReverseClaimPhase::SignClaim, Reply::Done) => {
                Err("reverse exit signing unexpectedly reused an earlier effect".to_owned())
            },
            (ReverseClaimPhase::StoreSignedExit, Reply::Done) => {
                self.phase = ReverseClaimPhase::RecordClaim;
                Ok(())
            },
            (ReverseClaimPhase::RecordClaim, Reply::Done) => {
                self.phase = ReverseClaimPhase::KeepClaimReady;
                Ok(())
            },
            (ReverseClaimPhase::KeepClaimReady, Reply::Done) => {
                self.phase = ReverseClaimPhase::BroadcastClaim;
                Ok(())
            },
            (ReverseClaimPhase::BroadcastClaim, Reply::Done) => {
                self.phase = ReverseClaimPhase::KeepClaimRecorded;
                Ok(())
            },
            (ReverseClaimPhase::LoadSignedExit, Reply::Texts(texts)) => {
                if texts.len() != 2 {
                    return Err(wrong_reply_text());
                }
                if !same_text(texts[1].as_str(), self.claim_txid.as_str()) {
                    return Err(
                        "persisted reverse claim checkpoint binds another transaction".to_owned(),
                    );
                }
                self.claim_hex = texts[0].clone();
                self.phase = ReverseClaimPhase::FollowPaymentAgain;
                Ok(())
            },
            (ReverseClaimPhase::FollowPaymentAgain, Reply::Done) => {
                self.phase = if self.broadcast_claim {
                    ReverseClaimPhase::BroadcastClaimAgain
                } else {
                    ReverseClaimPhase::RequireClaimKnown
                };
                Ok(())
            },
            (ReverseClaimPhase::BroadcastClaimAgain, Reply::Done) => {
                self.phase = ReverseClaimPhase::KeepClaimRecorded;
                Ok(())
            },
            (ReverseClaimPhase::KeepClaimRecorded, Reply::Done) => {
                self.phase = ReverseClaimPhase::ReadFundingStatus;
                Ok(())
            },
            (ReverseClaimPhase::RequireClaimKnown, Reply::Document(Some(report))) => {
                let known: () = verify_known_bitcoin_transaction(
                    &report,
                    self.claim_txid.as_str(),
                    Some(self.claim_hex.as_str()),
                )?;
                self.phase = ReverseClaimPhase::ReadFundingStatus;
                Ok(())
            },
            (ReverseClaimPhase::ReadFundingStatus, Reply::Records(records)) => {
                let found: (String, u32) = funding_outpoint(
                    &records,
                    self.kinds,
                    self.provider_pubkey.as_str(),
                )?;
                self.lockup_txid = found.0;
                self.lockup_output = found.1;
                self.phase = ReverseClaimPhase::SayClaimed;
                Ok(())
            },
            (ReverseClaimPhase::SayClaimed, Reply::Record(_)) => {
                self.phase = ReverseClaimPhase::MineClaim;
                Ok(())
            },
            (ReverseClaimPhase::MineClaim, Reply::Done) => {
                self.phase = ReverseClaimPhase::AwaitSettlement;
                Ok(())
            },
            (ReverseClaimPhase::AwaitSettlement, Reply::Record(_)) => {
                self.phase = ReverseClaimPhase::AwaitPaid;
                Ok(())
            },
            (ReverseClaimPhase::AwaitPaid, Reply::Record(_)) => {
                self.phase = ReverseClaimPhase::AwaitCompleted;
                Ok(())
            },
            (ReverseClaimPhase::AwaitCompleted, Reply::Record(_)) => {
                self.phase = ReverseClaimPhase::JoinPayment;
                Ok(())
            },
            (ReverseClaimPhase::JoinPayment, Reply::Texts(texts)) => {
                if texts.len() != 2 {
                    return Err(wrong_reply_text());
                }
                if !same_text(texts[0].as_str(), "complete")
                    || !same_text(texts[1].as_str(), self.payment_hash.as_str())
                {
                    return Err(
                        "reverse Lightning payment completed with another result".to_owned(),
                    );
                }
                self.phase = ReverseClaimPhase::AwaitClose;
                Ok(())
            },
            (ReverseClaimPhase::JoinPayment, Reply::Refused { code: _, message }) => {
                Err(join("reverse payment did not settle: ", message.as_str()))
            },
            (ReverseClaimPhase::AwaitClose, Reply::Record(_)) => {
                self.phase = ReverseClaimPhase::RemoveSecret;
                Ok(())
            },
            (ReverseClaimPhase::RemoveSecret, Reply::Done) => {
                self.phase = ReverseClaimPhase::KeepResult;
                Ok(())
            },
            (ReverseClaimPhase::KeepResult, Reply::Done) => {
                self.phase = ReverseClaimPhase::Finished;
                Ok(())
            },
            _ => Err(wrong_reply_text()),
        }
    }
}

/// Whether each entry of a trace leads to the one after it, from the first phase on.
pub open spec fn is_reverse_claim_trace(trace: Seq<(ReverseClaimRunView, ReplyView)>) -> bool {
    &&& trace.len() > 0
    &&& trace[0].0.phase == ReverseClaimPhase::SayClaimPending
    &&& forall|i: int|
        0 <= i < trace.len() - 1 ==> reverse_claim_step(
            (#[trigger] trace[i]).0,
            trace[i].1,
        ) == Ok::<
            ReverseClaimRunView,
            Seq<char>,
        >(trace[i + 1].0)
}

/// Each reply takes the claim of a reverse swap forward, never back and never in place.
pub proof fn law_reverse_claim_moves_forward(run: ReverseClaimRunView, reply: ReplyView)
    requires
        reverse_claim_step(run, reply) is Ok,
    ensures
        run.phase.rank() < reverse_claim_step(run, reply)->Ok_0.phase.rank(),
{
}

/// Which replies take the claim of a reverse swap on, and to which phase: in each phase exactly the
/// replies that pass every check of that phase, and no others.
pub proof fn law_reverse_claim_goes_on_only_when_answered(
    run: ReverseClaimRunView,
    reply: ReplyView,
)
    ensures
        ({
            let next = reverse_claim_step(run, reply);
            match run.phase {
                ReverseClaimPhase::SayClaimPending => {
                    &&& next is Ok <==> {
                        &&& reply is Record
                        &&& after_fee(run.amount_sat, run.fee_budget_sat) is Some
                    }
                    &&& next is Ok ==> next->Ok_0.phase == ReverseClaimPhase::BuildClaim
                },
                ReverseClaimPhase::BuildClaim => {
                    &&& next is Ok <==> {
                        &&& reply is Texts
                        &&& reply->Texts_0.len() == 2
                        &&& run.planned is RequestWalletClaim
                    }
                    &&& next is Ok ==> next->Ok_0.phase == ReverseClaimPhase::SignClaim
                },
                ReverseClaimPhase::SignClaim => {
                    &&& next is Ok <==> {
                        &&& reply is Texts
                        &&& reply->Texts_0.len() == 2
                        &&& reply->Texts_0[0] == run.effect_id
                        &&& reply->Texts_0[1] == run.claim_hex
                    }
                    &&& next is Ok ==> next->Ok_0.phase == ReverseClaimPhase::StoreSignedExit
                },
                ReverseClaimPhase::StoreSignedExit => {
                    &&& next is Ok <==> reply is Done
                    &&& next is Ok ==> next->Ok_0.phase == ReverseClaimPhase::RecordClaim
                },
                ReverseClaimPhase::RecordClaim => {
                    &&& next is Ok <==> reply is Done
                    &&& next is Ok ==> next->Ok_0.phase == ReverseClaimPhase::KeepClaimReady
                },
                ReverseClaimPhase::KeepClaimReady => {
                    &&& next is Ok <==> reply is Done
                    &&& next is Ok ==> next->Ok_0.phase == ReverseClaimPhase::BroadcastClaim
                },
                ReverseClaimPhase::BroadcastClaim => {
                    &&& next is Ok <==> reply is Done
                    &&& next is Ok ==> next->Ok_0.phase == ReverseClaimPhase::KeepClaimRecorded
                },
                ReverseClaimPhase::LoadSignedExit => {
                    &&& next is Ok <==> {
                        &&& reply is Texts
                        &&& reply->Texts_0.len() == 2
                        &&& reply->Texts_0[1] == run.claim_txid
                    }
                    &&& next is Ok ==> next->Ok_0.phase == ReverseClaimPhase::FollowPaymentAgain
                },
                ReverseClaimPhase::FollowPaymentAgain => {
                    let case_1 = run.broadcast_claim;
                    let case_2 = !(run.broadcast_claim);
                    &&& next is Ok <==> {
                        &&& reply is Done
                        &&& (case_1 || case_2)
                    }
                    &&& next is Ok && case_1 ==> next->Ok_0.phase == ReverseClaimPhase::BroadcastClaimAgain
                    &&& next is Ok && case_2 ==> next->Ok_0.phase == ReverseClaimPhase::RequireClaimKnown
                },
                ReverseClaimPhase::BroadcastClaimAgain => {
                    &&& next is Ok <==> reply is Done
                    &&& next is Ok ==> next->Ok_0.phase == ReverseClaimPhase::KeepClaimRecorded
                },
                ReverseClaimPhase::KeepClaimRecorded => {
                    &&& next is Ok <==> reply is Done
                    &&& next is Ok ==> next->Ok_0.phase == ReverseClaimPhase::ReadFundingStatus
                },
                ReverseClaimPhase::RequireClaimKnown => {
                    &&& next is Ok <==> {
                        &&& reply is Document
                        &&& reply->Document_0 is Some
                        &&& known_transaction_reading(
                            reply->Document_0->0,
                            run.claim_txid,
                            Some(run.claim_hex),
                        ) is Ok
                    }
                    &&& next is Ok ==> next->Ok_0.phase == ReverseClaimPhase::ReadFundingStatus
                },
                ReverseClaimPhase::ReadFundingStatus => {
                    &&& next is Ok <==> {
                        &&& reply is Records
                        &&& funding_outpoint_reading(
                            reply->Records_0,
                            run.kinds,
                            run.provider_pubkey,
                        ) is Ok
                    }
                    &&& next is Ok ==> next->Ok_0.phase == ReverseClaimPhase::SayClaimed
                },
                ReverseClaimPhase::SayClaimed => {
                    &&& next is Ok <==> reply is Record
                    &&& next is Ok ==> next->Ok_0.phase == ReverseClaimPhase::MineClaim
                },
                ReverseClaimPhase::MineClaim => {
                    &&& next is Ok <==> reply is Done
                    &&& next is Ok ==> next->Ok_0.phase == ReverseClaimPhase::AwaitSettlement
                },
                ReverseClaimPhase::AwaitSettlement => {
                    &&& next is Ok <==> reply is Record
                    &&& next is Ok ==> next->Ok_0.phase == ReverseClaimPhase::AwaitPaid
                },
                ReverseClaimPhase::AwaitPaid => {
                    &&& next is Ok <==> reply is Record
                    &&& next is Ok ==> next->Ok_0.phase == ReverseClaimPhase::AwaitCompleted
                },
                ReverseClaimPhase::AwaitCompleted => {
                    &&& next is Ok <==> reply is Record
                    &&& next is Ok ==> next->Ok_0.phase == ReverseClaimPhase::JoinPayment
                },
                ReverseClaimPhase::JoinPayment => {
                    &&& next is Ok <==> {
                        &&& reply is Texts
                        &&& reply->Texts_0.len() == 2
                        &&& reply->Texts_0[0] == "complete"@
                        &&& reply->Texts_0[1] == run.payment_hash
                    }
                    &&& next is Ok ==> next->Ok_0.phase == ReverseClaimPhase::AwaitClose
                },
                ReverseClaimPhase::AwaitClose => {
                    &&& next is Ok <==> reply is Record
                    &&& next is Ok ==> next->Ok_0.phase == ReverseClaimPhase::RemoveSecret
                },
                ReverseClaimPhase::RemoveSecret => {
                    &&& next is Ok <==> reply is Done
                    &&& next is Ok ==> next->Ok_0.phase == ReverseClaimPhase::KeepResult
                },
                ReverseClaimPhase::KeepResult => {
                    &&& next is Ok <==> reply is Done
                    &&& next is Ok ==> next->Ok_0.phase == ReverseClaimPhase::Finished
                },
                ReverseClaimPhase::Finished => next is Err,
            }
        }),
{
}

/// The reply that a trace of the claim of a reverse swap holds for a phase.
pub open spec fn reverse_claim_told(
    trace: Seq<(ReverseClaimRunView, ReplyView)>,
    phase: ReverseClaimPhase,
) -> ReplyView {
    trace[choose|i: int| 0 <= i < trace.len() && (#[trigger] trace[i]).0.phase == phase].1
}

/// The values that a run of the claim of a reverse swap holds, by the replies that gave them: each
/// stays as the reply to one phase gave it, or as the run started with it.
pub open spec fn reverse_claim_holds(
    trace: Seq<(ReverseClaimRunView, ReplyView)>,
    run: ReverseClaimRunView,
) -> bool {
    let start = trace[0].0;
    let claim_value_sat = after_fee(start.amount_sat, start.fee_budget_sat)->0;
    let effect_id = start.planned->RequestWalletClaim_0;
    let claim_hex = reverse_claim_told(trace, ReverseClaimPhase::BuildClaim)->Texts_0[0];
    let claim_txid = reverse_claim_told(trace, ReverseClaimPhase::BuildClaim)->Texts_0[1];
    let lockup_txid = funding_outpoint_reading(
        reverse_claim_told(trace, ReverseClaimPhase::ReadFundingStatus)->Records_0,
        start.kinds,
        start.provider_pubkey,
    )->Ok_0.0;
    let lockup_output = funding_outpoint_reading(
        reverse_claim_told(trace, ReverseClaimPhase::ReadFundingStatus)->Records_0,
        start.kinds,
        start.provider_pubkey,
    )->Ok_0.1;
    &&& run.journey == start.journey
    &&& run.confirmations == start.confirmations
    &&& run.payment_hash == start.payment_hash
    &&& run.order_id == start.order_id
    &&& run.invoice == start.invoice
    &&& run.phase.rank() > ReverseClaimPhase::ReadFundingStatus.rank()
        ==> run.lockup_txid == lockup_txid
    &&& run.phase.rank() > ReverseClaimPhase::ReadFundingStatus.rank()
        ==> run.lockup_output == lockup_output
    &&& run.planned == start.planned
    &&& run.phase.rank() > ReverseClaimPhase::BuildClaim.rank() ==> run.effect_id == effect_id
    &&& run.amount_sat == start.amount_sat
    &&& run.fee_budget_sat == start.fee_budget_sat
    &&& run.kinds == start.kinds
    &&& run.provider_pubkey == start.provider_pubkey
    &&& run.phase.rank() > ReverseClaimPhase::SayClaimPending.rank()
        ==> run.claim_value_sat == claim_value_sat
    &&& run.phase.rank() > ReverseClaimPhase::BuildClaim.rank() ==> run.claim_hex == claim_hex
    &&& run.phase.rank() > ReverseClaimPhase::BuildClaim.rank() ==> run.claim_txid == claim_txid
    &&& run.broadcast_claim == start.broadcast_claim
    &&& !(run.phase is LoadSignedExit)
    &&& !(run.phase is FollowPaymentAgain)
    &&& !(run.phase is BroadcastClaimAgain)
    &&& !(run.phase is RequireClaimKnown)
}

/// No phase of the claim of a reverse swap comes twice in a trace.
proof fn lemma_reverse_claim_told_once(trace: Seq<(ReverseClaimRunView, ReplyView)>, place: int)
    requires
        is_reverse_claim_trace(trace),
        0 <= place < trace.len(),
    ensures
        reverse_claim_told(trace, trace[place].0.phase) == trace[place].1,
{
    let phase = trace[place].0.phase;
    let other = choose|i: int| 0 <= i < trace.len() && (#[trigger] trace[i]).0.phase == phase;
    assert(trace[place].0.phase == phase);
    if other != place {
        let (early, late) = if other < place {
            (other, place)
        } else {
            (place, other)
        };
        assert forall|run: ReverseClaimRunView, reply: ReplyView|
            (#[trigger] reverse_claim_step(run, reply)) is Ok implies run.phase.rank() < reverse_claim_step(
            run,
            reply,
        )->Ok_0.phase.rank() by {
            law_reverse_claim_moves_forward(run, reply);
        }
        lemma_ranks_rise(
            trace,
            |run: ReverseClaimRunView, reply: ReplyView| reverse_claim_step(run, reply),
            |run: ReverseClaimRunView| run.phase.rank(),
            early,
            late,
        );
    }
}

/// A reply keeps what the claim of a reverse swap holds, and adds what it tells.
#[verifier::rlimit(90)]
#[verifier::spinoff_prover]
proof fn lemma_reverse_claim_holds_on(
    trace: Seq<(ReverseClaimRunView, ReplyView)>,
    run: ReverseClaimRunView,
    reply: ReplyView,
)
    requires
        reverse_claim_holds(trace, run),
        reverse_claim_told(trace, run.phase) == reply,
        reverse_claim_step(run, reply) is Ok,
    ensures
        reverse_claim_holds(trace, reverse_claim_step(run, reply)->Ok_0),
{
    let next = reverse_claim_step(run, reply)->Ok_0;
    match run.phase {
        ReverseClaimPhase::SayClaimPending => assert(reverse_claim_holds(trace, next)),
        ReverseClaimPhase::BuildClaim => assert(reverse_claim_holds(trace, next)),
        ReverseClaimPhase::SignClaim => assert(reverse_claim_holds(trace, next)),
        ReverseClaimPhase::StoreSignedExit => assert(reverse_claim_holds(trace, next)),
        ReverseClaimPhase::RecordClaim => assert(reverse_claim_holds(trace, next)),
        ReverseClaimPhase::KeepClaimReady => assert(reverse_claim_holds(trace, next)),
        ReverseClaimPhase::BroadcastClaim => assert(reverse_claim_holds(trace, next)),
        ReverseClaimPhase::LoadSignedExit => assert(reverse_claim_holds(trace, next)),
        ReverseClaimPhase::FollowPaymentAgain => assert(reverse_claim_holds(trace, next)),
        ReverseClaimPhase::BroadcastClaimAgain => assert(reverse_claim_holds(trace, next)),
        ReverseClaimPhase::KeepClaimRecorded => assert(reverse_claim_holds(trace, next)),
        ReverseClaimPhase::RequireClaimKnown => assert(reverse_claim_holds(trace, next)),
        ReverseClaimPhase::ReadFundingStatus => assert(reverse_claim_holds(trace, next)),
        ReverseClaimPhase::SayClaimed => assert(reverse_claim_holds(trace, next)),
        ReverseClaimPhase::MineClaim => assert(reverse_claim_holds(trace, next)),
        ReverseClaimPhase::AwaitSettlement => assert(reverse_claim_holds(trace, next)),
        ReverseClaimPhase::AwaitPaid => assert(reverse_claim_holds(trace, next)),
        ReverseClaimPhase::AwaitCompleted => assert(reverse_claim_holds(trace, next)),
        ReverseClaimPhase::JoinPayment => assert(reverse_claim_holds(trace, next)),
        ReverseClaimPhase::AwaitClose => assert(reverse_claim_holds(trace, next)),
        ReverseClaimPhase::RemoveSecret => assert(reverse_claim_holds(trace, next)),
        ReverseClaimPhase::KeepResult => assert(reverse_claim_holds(trace, next)),
        ReverseClaimPhase::Finished => assert(reverse_claim_holds(trace, next)),
    }
}

/// What the claim of a reverse swap has been told, it keeps: at every place of a trace each value
/// that the run holds is the one that the reply to the phase that asks for it gave, or the one that
/// the run started with.
pub proof fn law_reverse_claim_keeps_what_it_was_told(
    trace: Seq<(ReverseClaimRunView, ReplyView)>,
    last: int,
)
    requires
        is_reverse_claim_trace(trace),
        0 <= last < trace.len(),
    ensures
        reverse_claim_holds(trace, trace[last].0),
    decreases last,
{
    if last > 0 {
        let before = last - 1;
        law_reverse_claim_keeps_what_it_was_told(trace, before);
        lemma_reverse_claim_told_once(trace, before);
        assert(reverse_claim_step(trace[before].0, trace[before].1) == Ok::<ReverseClaimRunView, Seq<char>>(
            trace[before + 1].0,
        ));
        lemma_reverse_claim_holds_on(trace, trace[before].0, trace[before].1);
    }
}

/// What the claim of a reverse swap asks for in each phase, in terms of the replies before it: the
/// values in a request are those that the replies to the named phases gave, or those that the run
/// started with.
#[verifier::rlimit(90)]
#[verifier::spinoff_prover]
pub proof fn law_reverse_claim_asks_with_what_it_was_told(
    trace: Seq<(ReverseClaimRunView, ReplyView)>,
    last: int,
)
    requires
        is_reverse_claim_trace(trace),
        0 <= last < trace.len(),
    ensures
        ({
            let start = trace[0].0;
            let claim_value_sat = after_fee(start.amount_sat, start.fee_budget_sat)->0;
            let claim_hex = reverse_claim_told(trace, ReverseClaimPhase::BuildClaim)->Texts_0[0];
            let claim_txid = reverse_claim_told(trace, ReverseClaimPhase::BuildClaim)->Texts_0[1];
            let lockup_txid = funding_outpoint_reading(
                reverse_claim_told(trace, ReverseClaimPhase::ReadFundingStatus)->Records_0,
                start.kinds,
                start.provider_pubkey,
            )->Ok_0.0;
            let lockup_output = funding_outpoint_reading(
                reverse_claim_told(trace, ReverseClaimPhase::ReadFundingStatus)->Records_0,
                start.kinds,
                start.provider_pubkey,
            )->Ok_0.1;
            let action = reverse_claim_action(trace[last].0);
            match trace[last].0.phase {
                ReverseClaimPhase::SayClaimPending => action == ActionView::Say(
                    "requester_claim_pending"@,
                    no_members(),
                ),
                ReverseClaimPhase::BuildClaim => action == ActionView::Perform(
                    Task::BuildClaim,
                    seq![
                        start.lockup_txid,
                        decimal(start.lockup_output as nat),
                        decimal(claim_value_sat as nat),
                    ],
                ),
                ReverseClaimPhase::SignClaim => action == ActionView::Perform(
                    Task::SignExit,
                    seq![claim_hex],
                ),
                ReverseClaimPhase::StoreSignedExit => action == ActionView::Perform(
                    Task::StoreSignedExit,
                    seq![start.journey.label(), claim_hex],
                ),
                ReverseClaimPhase::RecordClaim => action == ActionView::Perform(
                    Task::RecordSignedExit,
                    seq![claim_txid, claim_hex],
                ),
                ReverseClaimPhase::KeepClaimReady => action == ActionView::Keep(
                    "claim_broadcast_ready"@,
                    effect_doc(claim_txid),
                ),
                ReverseClaimPhase::BroadcastClaim => action == ActionView::Perform(
                    Task::BroadcastBitcoin,
                    seq!["reverse-claim"@, claim_hex, claim_txid],
                ),
                ReverseClaimPhase::KeepClaimRecorded => action == ActionView::Keep(
                    "claim_broadcast_recorded"@,
                    effect_doc(claim_txid),
                ),
                ReverseClaimPhase::ReadFundingStatus => action == ActionView::Perform(
                    Task::ReadRecords,
                    seq![],
                ),
                ReverseClaimPhase::SayClaimed => action == ActionView::Say(
                    "requester_claimed"@,
                    no_members().insert("transaction_id"@, text_doc(claim_txid)),
                ),
                ReverseClaimPhase::MineClaim => action == ActionView::Mine(
                    "bitcoin"@,
                    start.confirmations,
                    "reverse-claim"@,
                ),
                ReverseClaimPhase::AwaitSettlement => action == ActionView::AwaitState(
                    "lightning_settlement_pending"@,
                ),
                ReverseClaimPhase::AwaitPaid => action == ActionView::AwaitState("lightning_paid"@),
                ReverseClaimPhase::AwaitCompleted => action == ActionView::AwaitState("completed"@),
                ReverseClaimPhase::JoinPayment => action == ActionView::Perform(
                    Task::JoinPayment,
                    seq![start.payment_hash],
                ),
                ReverseClaimPhase::AwaitClose => action == ActionView::AwaitClose(
                    CloseCheckView {
                        outcome: "completed"@,
                        bitcoin: Some(claim_txid),
                        liquid: None,
                        lightning: Some(
                            LightningView::Outgoing(start.invoice, start.payment_hash, "complete"@),
                        ),
                    },
                ),
                ReverseClaimPhase::RemoveSecret => action == ActionView::Perform(
                    Task::RemoveSecret,
                    seq![start.journey.label()],
                ),
                ReverseClaimPhase::KeepResult => action == ActionView::Keep(
                    "completed"@,
                    JsonView::Object(
                        no_members().insert(
                            "result"@,
                            JsonView::Object(
                                no_members().insert("order_id"@, text_doc(start.order_id)).insert("lockup_txid"@, text_doc(lockup_txid)).insert(
                                    "lockup_vout"@,
                                    number_doc(lockup_output as u64),
                                ).insert("claim_txid"@, text_doc(claim_txid)).insert(
                                    "payment_hash"@,
                                    text_doc(start.payment_hash),
                                ).insert("result"@, text_doc("claimed"@)),
                            ),
                        ),
                    ),
                ),
                ReverseClaimPhase::Finished => action == ActionView::Finish,
                _ => true,
            }
        }),
{
    law_reverse_claim_keeps_what_it_was_told(trace, last);
}

/// What the claim of a reverse swap reports at its end is what it was told on the way: each
/// identifier in the report is the one that the reply to the named phase gave, or one that the run
/// started with.
#[verifier::rlimit(90)]
#[verifier::spinoff_prover]
pub proof fn law_reverse_result_names_what_it_was_told(
    trace: Seq<(ReverseClaimRunView, ReplyView)>,
    last: int,
)
    requires
        is_reverse_claim_trace(trace),
        0 <= last < trace.len(),
        trace[last].0.phase == ReverseClaimPhase::Finished,
    ensures
        ({
            let start = trace[0].0;
            let claim_txid = reverse_claim_told(trace, ReverseClaimPhase::BuildClaim)->Texts_0[1];
            let lockup_txid = funding_outpoint_reading(
                reverse_claim_told(trace, ReverseClaimPhase::ReadFundingStatus)->Records_0,
                start.kinds,
                start.provider_pubkey,
            )->Ok_0.0;
            let lockup_output = funding_outpoint_reading(
                reverse_claim_told(trace, ReverseClaimPhase::ReadFundingStatus)->Records_0,
                start.kinds,
                start.provider_pubkey,
            )->Ok_0.1;
            reverse_result(trace[last].0) == JsonView::Object(
                no_members().insert("order_id"@, text_doc(start.order_id)).insert("lockup_txid"@, text_doc(lockup_txid)).insert(
                    "lockup_vout"@,
                    number_doc(lockup_output as u64),
                ).insert("claim_txid"@, text_doc(claim_txid)).insert(
                    "payment_hash"@,
                    text_doc(start.payment_hash),
                ).insert("result"@, text_doc("claimed"@)),
            )
        }),
{
    law_reverse_claim_keeps_what_it_was_told(trace, last);
}

/// The claim is broadcast only after the client has signed it.
#[verifier::rlimit(60)]
#[verifier::spinoff_prover]
pub proof fn law_reverse_claim_is_signed_for_its_plan(
    trace: Seq<(ReverseClaimRunView, ReplyView)>,
    last: int,
)
    requires
        is_reverse_claim_trace(trace),
        0 <= last < trace.len(),
        trace[last].0.phase == ReverseClaimPhase::BroadcastClaim,
    ensures
        exists|i: int|
            0 <= i < last && (#[trigger] trace[i]).0.phase == ReverseClaimPhase::SignClaim &&
                trace[i].1 == ReplyView::Texts(seq![trace[i].0.effect_id, trace[i].0.claim_hex]),
{
    let i = lemma_milestone(
        trace,
        |run: ReverseClaimRunView, reply: ReplyView| reverse_claim_step(run, reply),
        |run: ReverseClaimRunView| run.phase.rank(),
        2,
        last,
    );
    assert(trace[i].0.phase == ReverseClaimPhase::SignClaim);
    assert(reverse_claim_step(trace[i].0, trace[i].1) == Ok::<ReverseClaimRunView,
        Seq<char>>(trace[i + 1].0));
    assert(trace[i].1->Texts_0 =~= seq![trace[i].0.effect_id, trace[i].0.claim_hex]);
}

/// The claim is broadcast only after a checkpoint names it.
pub proof fn law_reverse_claim_is_kept_before_broadcast(
    trace: Seq<(ReverseClaimRunView, ReplyView)>,
    last: int,
)
    requires
        is_reverse_claim_trace(trace),
        0 <= last < trace.len(),
        trace[last].0.phase == ReverseClaimPhase::BroadcastClaim,
    ensures
        exists|i: int|
            0 <= i < last && (#[trigger] trace[i]).0.phase == ReverseClaimPhase::KeepClaimReady &&
                trace[i].1 == ReplyView::Done,
{
    let i = lemma_milestone(
        trace,
        |run: ReverseClaimRunView, reply: ReplyView| reverse_claim_step(run, reply),
        |run: ReverseClaimRunView| run.phase.rank(),
        5,
        last,
    );
    assert(trace[i].0.phase == ReverseClaimPhase::KeepClaimReady);
    assert(reverse_claim_step(trace[i].0, trace[i].1) == Ok::<ReverseClaimRunView,
        Seq<char>>(trace[i + 1].0));
}

/// Whether every reply of a trace answers the action that it is told for.
pub open spec fn is_answered_reverse_claim(
    trace: Seq<(ReverseClaimRunView, ReplyView)>,
    kinds: RecordKinds,
    provider: Seq<char>,
) -> bool {
    forall|i: int|
        0 <= i < trace.len() - 1 ==> answers(
            reverse_claim_action((#[trigger] trace[i]).0),
            trace[i].1,
            kinds,
            provider,
        )
}

/// The secret is removed only after the close has been verified.
pub proof fn law_reverse_claim_keeps_its_secret_to_the_end(
    trace: Seq<(ReverseClaimRunView, ReplyView)>,
    kinds: RecordKinds,
    provider: Seq<char>,
    last: int,
)
    requires
        is_reverse_claim_trace(trace),
        is_answered_reverse_claim(trace, kinds, provider),
        0 <= last < trace.len(),
        trace[last].0.phase == ReverseClaimPhase::RemoveSecret,
    ensures
        exists|i: int|
            0 <= i < last && (#[trigger] trace[i]).0.phase == ReverseClaimPhase::AwaitClose &&
                closes(
                trace[i].1,
                kinds,
                provider,
                "completed"@,
            ),
{
    let i = lemma_milestone(
        trace,
        |run: ReverseClaimRunView, reply: ReplyView| reverse_claim_step(run, reply),
        |run: ReverseClaimRunView| run.phase.rank(),
        19,
        last,
    );
    assert(trace[i].0.phase == ReverseClaimPhase::AwaitClose);
    assert(answers(reverse_claim_action(trace[i].0), trace[i].1, kinds, provider));
}

/// What a reverse swap comes to that was claimed.
pub open spec fn reverse_result(run: ReverseClaimRunView) -> JsonView {
    JsonView::Object(
        no_members().insert("order_id"@, text_doc(run.order_id)).insert(
            "lockup_txid"@,
            text_doc(run.lockup_txid),
        ).insert("lockup_vout"@, number_doc(run.lockup_output as u64)).insert(
            "claim_txid"@,
            text_doc(run.claim_txid),
        ).insert("payment_hash"@, text_doc(run.payment_hash)).insert(
            "result"@,
            text_doc("claimed"@),
        ),
    )
}

impl ReverseClaimRun {
    fn result_document(&self) -> (document: Json)
        ensures
            document@ == reverse_result(self@),
    {
        Json::object(
            JsonObject::new().with_text("order_id", self.order_id.as_str()).with_text(
                "lockup_txid",
                self.lockup_txid.as_str(),
            ).with_number("lockup_vout", self.lockup_output as u64).with_text(
                "claim_txid",
                self.claim_txid.as_str(),
            ).with_text("payment_hash", self.payment_hash.as_str()).with_text("result", "claimed"),
        )
    }

    /// What a reverse swap comes to that was claimed; nothing before it is over.
    pub fn result(&self) -> (document: Option<Json>)
        ensures
            match document {
                Some(document) => self@.phase == ReverseClaimPhase::Finished && document@ == reverse_result(self@),
                None => self@.phase != ReverseClaimPhase::Finished,
            },
    {
        if self.phase == ReverseClaimPhase::Finished {
            Some(self.result_document())
        } else {
            None
        }
    }
}

/// Where a reverse swap goes on from a checkpoint.
pub enum ReverseResume {
    /// At a phase before the plan; whether the payment has still to be recorded.
    Early(ReversePhase, bool),
    /// At the claim that this transaction is; whether it has still to be broadcast.
    Claim(String, bool),
}

/// Where a reverse swap goes on from a checkpoint.
#[verifier::ext_equal]
pub enum ReverseResumeView {
    Early(ReversePhase, bool),
    Claim(Seq<char>, bool),
}

impl View for ReverseResume {
    type V = ReverseResumeView;

    open spec fn view(&self) -> ReverseResumeView {
        match *self {
            ReverseResume::Early(phase, record_payment) => ReverseResumeView::Early(
                phase,
                record_payment,
            ),
            ReverseResume::Claim(id, broadcast) => ReverseResumeView::Claim(id@, broadcast),
        }
    }
}

/// Where a reverse swap goes on from a checkpoint.
pub open spec fn reverse_resume(
    journey: FundedJourney,
    label: Seq<char>,
    details: JsonView,
    payment_hash: Seq<char>,
) -> Result<ReverseResumeView, Seq<char>> {
    let ready = label == "funding_execution_ready"@;
    let recorded = label == "funding_effect_recorded"@;
    let claim_ready = label == "claim_broadcast_ready"@;
    let claim_recorded = label == "claim_broadcast_recorded"@;
    if ready || recorded {
        match external_identifier_reading(details) {
            Err(message) => Err(message),
            Ok(id) => if id != payment_hash {
                Err("persisted reverse checkpoint binds another payment"@)
            } else {
                Ok(ReverseResumeView::Early(ReversePhase::SayVerifiedAgain, ready))
            },
        }
    } else if label == "funding_authorized"@ {
        Ok(ReverseResumeView::Early(ReversePhase::SayInvoiceVerified, false))
    } else if (claim_ready || claim_recorded) && !refunds(journey) {
        match external_identifier_reading(details) {
            Err(message) => Err(message),
            Ok(id) => Ok(ReverseResumeView::Claim(id, claim_ready)),
        }
    } else {
        Err("reverse checkpoint cannot resume execution"@)
    }
}

/// Where a reverse swap goes on from a checkpoint: it can be had exactly where every part that it
/// rests on can, and each part of it is the one that its name says.
pub proof fn law_reverse_resume_is_read_from_its_parts(
    journey: FundedJourney,
    label: Seq<char>,
    details: JsonView,
    payment_hash: Seq<char>,
)
    ensures
        ({
            let read = reverse_resume(journey, label, details, payment_hash);
            let ready = label == "funding_execution_ready"@;
            let recorded = label == "funding_effect_recorded"@;
            let claim_ready = label == "claim_broadcast_ready"@;
            let id = external_identifier_reading(details)->Ok_0;
            let given = read->Ok_0;
            let case_1 = {
                &&& (ready || recorded)
                &&& external_identifier_reading(details) is Ok
                &&& id == payment_hash
            };
            let case_2 = {
                &&& !(ready)
                &&& !(recorded)
                &&& label == "funding_authorized"@
            };
            let case_3 = {
                &&& !(ready)
                &&& !(recorded)
                &&& label != "funding_authorized"@
                &&& (claim_ready || label == "claim_broadcast_recorded"@)
                &&& !refunds(journey)
                &&& external_identifier_reading(details) is Ok
            };
            &&& (read is Ok <==> case_1 || case_2 || case_3)
            &&& read is Ok && case_1 ==> {
                &&& given == ReverseResumeView::Early(ReversePhase::SayVerifiedAgain, ready)
            }
            &&& read is Ok && case_2 ==> {
                &&& given == ReverseResumeView::Early(ReversePhase::SayInvoiceVerified, false)
            }
            &&& read is Ok && case_3 ==> {
                &&& given == ReverseResumeView::Claim(id, claim_ready)
            }
        }),
{
}

/// Where a reverse swap goes on from a checkpoint.
pub fn resume_reverse(
    checkpoint: &FundedCheckpoint,
    journey: FundedJourney,
    payment_hash: &str,
) -> (
    resume: Result<ReverseResume, String>)
    ensures
        (match resume {
            Ok(resume) => Ok(resume@),
            Err(message) => Err(message@),
        }) == reverse_resume(journey, checkpoint.label@, checkpoint.details@, payment_hash@),
{
    let label: &str = checkpoint.label.as_str();
    let ready: bool = same_text(label, "funding_execution_ready");
    if ready || same_text(label, "funding_effect_recorded") {
        let id: String = checkpoint_external_identifier(checkpoint)?;
        if !same_text(id.as_str(), payment_hash) {
            return Err("persisted reverse checkpoint binds another payment".to_owned());
        }
        return Ok(ReverseResume::Early(ReversePhase::SayVerifiedAgain, ready));
    }
    if same_text(label, "funding_authorized") {
        return Ok(ReverseResume::Early(ReversePhase::SayInvoiceVerified, false));
    }
    let claim_ready: bool = same_text(label, "claim_broadcast_ready");
    if (claim_ready || same_text(label, "claim_broadcast_recorded")) && journey
        != FundedJourney::ReverseRefund {
        let id: String = checkpoint_external_identifier(checkpoint)?;
        return Ok(ReverseResume::Claim(id, claim_ready));
    }
    Err("reverse checkpoint cannot resume execution".to_owned())
}

impl ReverseRun {
    /// A reverse swap that goes on before its plan.
    pub fn resume(
        phase: ReversePhase,
        record_payment: bool,
        journey: FundedJourney,
        provider_pubkey: &str,
        confirmations: u64,
        injection: Option<HarnessInjection>,
        kinds: RecordKinds,
        order_id: &str,
        contract: &Json,
        payment_hash: &str,
        invoice: &str,
    ) -> (run: ReverseRun)
        ensures
            run@.phase == phase,
            run@.record_payment == record_payment,
            run@.journey == journey,
            run@.provider_pubkey == provider_pubkey@,
            run@.confirmations == confirmations,
            run@.injection == injection,
            run@.kinds == kinds,
            run@.order_id == order_id@,
            run@.contract == contract@,
            run@.payment_hash == payment_hash@,
            run@.invoice == invoice@,
    {
        let mut run: ReverseRun = ReverseRun::new(
            journey,
            provider_pubkey,
            confirmations,
            injection,
            kinds,
        );
        run.phase = phase;
        run.record_payment = record_payment;
        run.order_id = order_id.to_owned();
        run.contract = contract.copy();
        run.payment_hash = payment_hash.to_owned();
        run.invoice = invoice.to_owned();
        run
    }

    /// The refund that a planned swap goes on with.
    pub fn refund(&self) -> (run: ReverseRefundRun)
        ensures
            run@.phase == ReverseRefundPhase::ReadRefundHeight,
            run@.journey == self@.journey,
            run@.confirmations == self@.confirmations,
            run@.payment_hash == self@.payment_hash,
            run@.order_id == self@.order_id,
            run@.invoice == self@.invoice,
            run@.lockup_txid == self@.lockup_txid,
            run@.lockup_output == self@.lockup_output,
            run@.refund_height == self@.refund_height,
    {
        ReverseRefundRun::new(
            self.journey,
            self.confirmations,
            self.payment_hash.as_str(),
            self.order_id.as_str(),
            self.invoice.as_str(),
            self.lockup_txid.as_str(),
            self.lockup_output,
            self.refund_height,
        )
    }

    /// The claim that a planned swap goes on with.
    pub fn claim(&self) -> (run: ReverseClaimRun)
        ensures
            run@.phase == ReverseClaimPhase::SayClaimPending,
            run@.journey == self@.journey,
            run@.confirmations == self@.confirmations,
            run@.payment_hash == self@.payment_hash,
            run@.order_id == self@.order_id,
            run@.invoice == self@.invoice,
            run@.lockup_txid == self@.lockup_txid,
            run@.lockup_output == self@.lockup_output,
            run@.planned == self@.planned,
            run@.amount_sat == self@.amount_sat,
            run@.fee_budget_sat == self@.fee_budget_sat,
            run@.kinds == self@.kinds,
            run@.provider_pubkey == self@.provider_pubkey,
    {
        ReverseClaimRun::new(
            self.journey,
            self.confirmations,
            self.payment_hash.as_str(),
            self.order_id.as_str(),
            self.invoice.as_str(),
            self.lockup_txid.as_str(),
            self.lockup_output,
            &self.planned,
            self.amount_sat,
            self.fee_budget_sat,
            self.kinds,
            self.provider_pubkey.as_str(),
        )
    }
}

impl ReverseClaimRun {
    /// A claim that was signed before and goes on from a checkpoint.
    pub fn resume(
        claim_txid: &str,
        broadcast_claim: bool,
        confirmations: u64,
        provider_pubkey: &str,
        kinds: RecordKinds,
        order_id: &str,
        payment_hash: &str,
        invoice: &str,
    ) -> (run: ReverseClaimRun)
        ensures
            run@.phase == ReverseClaimPhase::LoadSignedExit,
            run@.claim_txid == claim_txid@,
            run@.broadcast_claim == broadcast_claim,
            run@.journey == FundedJourney::ReverseClaim,
            run@.confirmations == confirmations,
            run@.provider_pubkey == provider_pubkey@,
            run@.kinds == kinds,
            run@.order_id == order_id@,
            run@.payment_hash == payment_hash@,
            run@.invoice == invoice@,
    {
        let mut run: ReverseClaimRun = ReverseClaimRun::new(
            FundedJourney::ReverseClaim,
            confirmations,
            payment_hash,
            order_id,
            invoice,
            "",
            0,
            &Plan::Other,
            0,
            0,
            kinds,
            provider_pubkey,
        );
        run.phase = ReverseClaimPhase::LoadSignedExit;
        run.claim_txid = claim_txid.to_owned();
        run.broadcast_claim = broadcast_claim;
        run
    }
}

/// The wrong key never leads anywhere: every reply ends the journey with a message.
pub proof fn law_wrong_key_ends_the_journey(run: ReverseRunView, reply: ReplyView)
    requires
        run.phase == ReversePhase::TryWrongKey,
    ensures
        reverse_step(run, reply) is Err,
{
}

/// A swap that lets the provider refund is planned only to wait for them.
pub proof fn law_reverse_refund_is_planned_to_wait(run: ReverseRunView, reply: ReplyView)
    requires
        run.phase == ReversePhase::PlanRecovery,
        refunds(run.journey),
        reverse_step(run, reply) is Ok,
    ensures
        reverse_step(run, reply)->Ok_0.planned == PlanView::WaitForCounterparty,
{
}

/// A claim is built only where the plan asked for one.
pub proof fn law_reverse_claim_is_planned(run: ReverseClaimRunView, reply: ReplyView)
    requires
        run.phase == ReverseClaimPhase::BuildClaim,
        reverse_claim_step(run, reply) is Ok,
    ensures
        run.planned is RequestWalletClaim,
        reverse_claim_step(run, reply)->Ok_0.effect_id == run.planned->RequestWalletClaim_0,
{
}

/// A claim that was recorded as broadcast is not broadcast again: its node must know it.
pub proof fn law_recorded_claim_is_not_broadcast_again(run: ReverseClaimRunView, reply: ReplyView)
    requires
        run.phase == ReverseClaimPhase::FollowPaymentAgain,
        !run.broadcast_claim,
        reverse_claim_step(run, reply) is Ok,
    ensures
        reverse_claim_step(run, reply)->Ok_0.phase == ReverseClaimPhase::RequireClaimKnown,
{
}

/// A claim that is taken up again is the one that was signed: the transaction that is loaded must be the
/// one that the claim goes by, and the loaded bytes are what is broadcast again, or looked up where
/// they went out before; meanwhile the same payment is followed.
pub proof fn law_resumed_claim_is_the_signed_one(
    run: ReverseClaimRunView,
    loaded: ReplyView,
    followed: ReplyView,
)
    requires
        run.phase == ReverseClaimPhase::LoadSignedExit,
        reverse_claim_step(run, loaded) is Ok,
        reverse_claim_step(reverse_claim_step(run, loaded)->Ok_0, followed) is Ok,
    ensures
        ({
            let between = reverse_claim_step(run, loaded)->Ok_0;
            let after = reverse_claim_step(between, followed)->Ok_0;
            &&& loaded is Texts && loaded->Texts_0.len() == 2
            &&& loaded->Texts_0[1] == run.claim_txid
            &&& reverse_claim_action(between) == ActionView::Perform(
                Task::StartPayment,
                seq![run.journey.label(), run.invoice, run.payment_hash],
            )
            &&& run.broadcast_claim ==> reverse_claim_action(after) == ActionView::Perform(
                Task::BroadcastBitcoin,
                seq!["reverse-claim-resume"@, loaded->Texts_0[0], loaded->Texts_0[1]],
            )
            &&& !run.broadcast_claim ==> reverse_claim_action(after) == ActionView::Perform(
                Task::RequireKnownTransaction,
                seq!["reverse-claim-recorded"@, loaded->Texts_0[1], loaded->Texts_0[0]],
            )
        }),
{
}

} // verus!
